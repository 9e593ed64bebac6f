//! Binaries among the release assets of a GitHub repository.
use vstd::pervasive::unreached;
use vstd::prelude::*;
use vstd::string::*;

use crate::config::BinaryProvider;
use crate::cratespec::Forge;
use crate::messages::BinResolutionMessage;
use crate::paths::JoinedPath;
use crate::providers::delivery::progress as delivery_progress;
use crate::providers::delivery::{
    delivery_answers, no_binary, silent, Action, Delivery, DeliveryPhase, Event, Request, Step,
};
use crate::providers::{
    archive_name, archive_name_of, base_url_of, candidate_views, candidates_of, from_registry,
    generate_candidate_filenames, needs_registry_lookup, repository_url, repository_url_of,
    ArchiveFormat, CandidateFilename,
};
use crate::resolver::{ResolvedCrate, ResolvedSource};
use crate::text::{
    after_first, before_first, first_piece, has_prefix, has_suffix, joined_texts_come_apart, opt_view, same, split_once, starts_with,
    strip_prefix, whole_texts_stay, without_prefix,
};

verus! {

/// What the registry says of a crate's repository, where that is on github.com.
pub open spec fn github_only(registry_url: Option<Seq<char>>) -> Option<Seq<char>> {
    match registry_url {
        Some(url) => if has_prefix(url, "https://github.com/"@) {
            Some(url)
        } else {
            None
        },
        None => None,
    }
}

/// The GitHub repository of a crate: that of its forge, or what the registry says of it.
pub open spec fn repo_url_of(
    krate: ResolvedCrate,
    registry_url: Option<Seq<char>>,
) -> Option<Seq<char>> {
    match krate.source {
        ResolvedSource::Forge { forge: Forge::GitHub { custom_url, owner, repo }, .. } => Some(
            repository_url_of(custom_url, "https://github.com"@, owner@, repo@),
        ),
        _ => if from_registry(krate) {
            github_only(registry_url)
        } else {
            None
        },
    }
}

/// Owner and repository in a repository URL.
pub open spec fn owner_repo_of(repo_url: Seq<char>) -> Option<(Seq<char>, Seq<char>)> {
    match without_prefix(repo_url, "https://"@) {
        Some(location) => match after_first(location, '/') {
            Some(path) => match after_first(path, '/') {
                Some(rest) => {
                    let owner = before_first(path, '/');
                    let repo = before_first(rest, '/');
                    if owner.len() == 0 || repo.len() == 0 {
                        None
                    } else {
                        Some((owner, repo))
                    }
                },
                None => None,
            },
            None => None,
        },
        None => None,
    }
}

/// Where the API of the host of a repository URL is.
pub open spec fn api_base_of(repo_url: Seq<char>) -> Option<Seq<char>> {
    match without_prefix(repo_url, "https://"@) {
        Some(location) => {
            let host = before_first(location, '/');
            if host == "github.com"@ {
                Some("https://api.github.com"@)
            } else {
                Some("https://"@ + host + "/api/v3"@)
            }
        },
        None => None,
    }
}

/// Where the API lists the assets of a release.
pub open spec fn release_url_of(
    api_base: Seq<char>,
    owner: Seq<char>,
    repo: Seq<char>,
    tag: Seq<char>,
) -> Seq<char> {
    api_base + "/repos/"@ + owner + "/"@ + repo + "/releases/tags/"@ + tag
}

/// Where the asset of that name can be downloaded; of several the last one counts.
pub open spec fn asset_url_of(assets: Seq<(String, String)>, name: Seq<char>) -> Option<Seq<char>>
    decreases assets.len(),
{
    if assets.len() == 0 {
        None
    } else if assets.last().0@ == name {
        Some(assets.last().1@)
    } else {
        asset_url_of(assets.drop_last(), name)
    }
}

/// The first candidate that is among the assets, and where it can be downloaded.
pub open spec fn matched_asset(
    candidates: Seq<(Seq<char>, ArchiveFormat)>,
    assets: Seq<(String, String)>,
) -> Option<(Seq<char>, Seq<char>)>
    decreases candidates.len(),
{
    if candidates.len() == 0 {
        None
    } else {
        match asset_url_of(assets, candidates[0].0) {
            Some(url) => Some((candidates[0].0, url)),
            None => matched_asset(candidates.skip(1), assets),
        }
    }
}

/// Where the API lists the assets of a release.
pub fn release_url(api_base: &str, owner: &str, repo: &str, tag: &str) -> (r: String)
    ensures
        r@ == release_url_of(api_base@, owner@, repo@, tag@),
{
    api_base.to_owned().concat("/repos/").concat(owner).concat("/").concat(repo).concat(
        "/releases/tags/",
    ).concat(tag)
}

/// Where the asset of that name can be downloaded; of several the last one counts.
pub fn asset_url(assets: &Vec<(String, String)>, name: &str) -> (r: Option<String>)
    ensures
        opt_view(r) == asset_url_of(assets@, name@),
{
    let mut i: usize = assets.len();
    assert(assets@.take(i as int) =~= assets@);
    while i > 0
        invariant
            i <= assets.len(),
            asset_url_of(assets@, name@) == asset_url_of(assets@.take(i as int), name@),
        decreases i,
    {
        assert(assets@.take(i as int).drop_last() =~= assets@.take(i - 1));
        i = i - 1;
        if same(assets[i].0.as_str(), name) {
            return Some(assets[i].1.clone());
        }
    }
    None
}

/// The first candidate that is among the assets, and where it can be downloaded.
pub fn match_asset(candidates: &Vec<CandidateFilename>, assets: &Vec<(String, String)>) -> (r:
    Option<(String, String)>)
    ensures
        match r {
            Some((name, url)) => matched_asset(candidate_views(candidates@), assets@) == Some(
                (name@, url@),
            ),
            None => matched_asset(candidate_views(candidates@), assets@) is None,
        },
{
    let ghost all = candidate_views(candidates@);
    let mut i: usize = 0;
    assert(all.skip(0) =~= all);
    while i < candidates.len()
        invariant
            i <= candidates.len(),
            all == candidate_views(candidates@),
            matched_asset(all, assets@) == matched_asset(all.skip(i as int), assets@),
        decreases candidates.len() - i,
    {
        assert(all.skip(i as int)[0] == all[i as int]);
        assert(all.skip(i as int).skip(1) =~= all.skip(i + 1));
        if let Some(url) = asset_url(assets, candidates[i].filename.as_str()) {
            return Some((candidates[i].filename.clone(), url));
        }
        i = i + 1;
    }
    None
}

/// A matched asset is a candidate that the release has, and no candidate before it is one.
pub proof fn first_candidate_wins(
    candidates: Seq<(Seq<char>, ArchiveFormat)>,
    assets: Seq<(String, String)>,
)
    ensures
        match matched_asset(candidates, assets) {
            Some((name, url)) => exists|i: int|
                {
                    &&& 0 <= i < candidates.len()
                    &&& (#[trigger] candidates[i]).0 == name
                    &&& asset_url_of(assets, name) == Some(url)
                    &&& forall|j: int|
                        0 <= j < i ==> asset_url_of(assets, (#[trigger] candidates[j]).0) is None
                },
            None => forall|j: int|
                0 <= j < candidates.len() ==> asset_url_of(assets, (
                #[trigger] candidates[j]).0) is None,
        },
    decreases candidates.len(),
{
    if candidates.len() > 0 {
        if asset_url_of(assets, candidates[0].0) is None {
            let rest = candidates.skip(1);
            first_candidate_wins(rest, assets);
            match matched_asset(rest, assets) {
                Some((name, url)) => {
                    let i = choose|i: int|
                        {
                            &&& 0 <= i < rest.len()
                            &&& (#[trigger] rest[i]).0 == name
                            &&& asset_url_of(assets, name) == Some(url)
                            &&& forall|j: int|
                                0 <= j < i ==> asset_url_of(assets, (#[trigger] rest[j]).0) is None
                        };
                    assert(candidates[i + 1].0 == name);
                    assert forall|j: int| 0 <= j < i + 1 implies asset_url_of(assets, (
                    #[trigger] candidates[j]).0) is None by {
                        if j > 0 {
                            assert(rest[j - 1] == candidates[j]);
                        }
                    }
                },
                None => {
                    assert forall|j: int| 0 <= j < candidates.len() implies asset_url_of(assets, (
                    #[trigger] candidates[j]).0) is None by {
                        if j > 0 {
                            assert(rest[j - 1] == candidates[j]);
                        }
                    }
                },
            }
        } else {
            assert(candidates[0].0 == candidates[0].0);
        }
    }
}

/// The release assets of GitHub repositories.
#[derive(Clone, Debug, PartialEq, Eq)]
pub struct GithubProvider {
    pub delivery: Delivery,
}

/// What an attempt waits for.
#[derive(Clone, Debug, PartialEq, Eq)]
pub enum GithubPhase {
    /// The repository of the crate.
    AskingRepository,
    /// The assets of a release.
    Listing {
        api_base: String,
        owner: String,
        repo: String,
        /// The tag without a `v` is tried, so that no other is left.
        plain_tag: bool,
    },
    /// The binary.
    Delivering(DeliveryPhase),
    /// Nothing: the attempt is over.
    Finished,
}

/// The event answers what the attempt waits for.
pub open spec fn answers(phase: GithubPhase, event: Event) -> bool {
    match phase {
        GithubPhase::AskingRepository => event is Repository,
        GithubPhase::Listing { .. } => event is Assets,
        GithubPhase::Delivering(inner) => delivery_answers(inner, event),
        GithubPhase::Finished => false,
    }
}

/// The part of a step that belongs to the delivery.
pub open spec fn delivery_step(step: Step<GithubPhase>) -> Step<DeliveryPhase> {
    Step { phase: step.phase->Delivering_0, messages: step.messages, action: step.action }
}

/// The attempt is over: there is no binary, for this reason.
pub open spec fn gives_up(step: Step<GithubPhase>, reason: Seq<char>) -> bool {
    step.phase is Finished && no_binary(step, BinaryProvider::GithubReleases, reason)
}

/// The step asks for the assets of a release.
pub open spec fn lists(
    step: Step<GithubPhase>,
    api: Seq<char>,
    of: Seq<char>,
    name: Seq<char>,
    version: Seq<char>,
    plain: bool,
) -> bool {
    &&& silent(step)
    &&& step.phase matches GithubPhase::Listing { api_base, owner, repo, plain_tag } && api_base@
        == api && owner@ == of && repo@ == name && plain_tag == plain
    &&& step.action matches Action::ListAssets { url } && url@ == release_url_of(
        api,
        of,
        name,
        if plain {
            version
        } else {
            "v"@ + version
        },
    )
}

/// What comes of the repository of a crate: the assets of its release are asked for.
pub open spec fn proceeds_from_repository(
    version: Seq<char>,
    repo_url: Option<Seq<char>>,
    step: Step<GithubPhase>,
) -> bool {
    match repo_url {
        None => gives_up(step, "no repository URL available"@),
        Some(url) => match (owner_repo_of(url), api_base_of(url)) {
            (None, _) => gives_up(step, "could not parse owner/repo from URL: "@ + url),
            (Some(_), None) => gives_up(step, "could not determine API base for URL: "@ + url),
            (Some((owner, repo)), Some(api)) => lists(step, api, owner, repo, version, false),
        },
    }
}

/// The step starts an attempt. The registry is asked for the repository of a crate that comes
/// from one.
pub open spec fn starts(request: Request, step: Step<GithubPhase>) -> bool {
    if from_registry(request.krate.resolved) {
        &&& silent(step)
        &&& step.phase is AskingRepository
        &&& step.action == (Action::QueryRepository { krate: request.krate.resolved.name })
    } else {
        proceeds_from_repository(
            request.krate.resolved.version@,
            repo_url_of(request.krate.resolved, None),
            step,
        )
    }
}

impl GithubProvider {
    /// What comes of an event in each phase.
    pub open spec fn steps(
        self,
        request: Request,
        phase: GithubPhase,
        event: Event,
        step: Step<GithubPhase>,
    ) -> bool {
        let krate = request.krate.resolved;
        match (phase, event) {
            (GithubPhase::AskingRepository, Event::Repository(registry_url)) => {
                proceeds_from_repository(
                    krate.version@,
                    repo_url_of(krate, opt_view(registry_url)),
                    step,
                )
            },
            (
                GithubPhase::Listing { api_base, owner, repo, plain_tag },
                Event::Assets(assets),
            ) => if assets@.len() == 0 {
                if plain_tag {
                    gives_up(step, "no release found for any tag variant"@)
                } else {
                    lists(step, api_base@, owner@, repo@, krate.version@, true)
                }
            } else {
                match matched_asset(
                    candidates_of(krate.name@, krate.version@, request.platform@),
                    assets@,
                ) {
                    None => gives_up(step, "no matching asset found in release"@),
                    Some((name, url)) => step.phase is Delivering && self.delivery.downloads(
                        delivery_step(step),
                        url,
                        archive_name_of(name),
                    ),
                }
            },
            (GithubPhase::Delivering(inner), _) => step.phase is Delivering && self.delivery.steps(
                request,
                inner,
                event,
                delivery_step(step),
            ),
            _ => false,
        }
    }

    /// The provider, with the directory for its binaries.
    pub fn new(cache_dir: JoinedPath, verify_checksums: bool, exe_suffix: String) -> (r: Self)
        ensures
            r.delivery.provider == BinaryProvider::GithubReleases,
            r.delivery.cache_dir == cache_dir,
            r.delivery.verify_checksums == verify_checksums,
            r.delivery.exe_suffix == exe_suffix,
    {
        GithubProvider {
            delivery: Delivery::new(
                BinaryProvider::GithubReleases,
                cache_dir,
                verify_checksums,
                exe_suffix,
            ),
        }
    }

    /// What the registry says of a crate's repository, where that is on github.com.
    pub fn get_crates_io_repo_url(registry_url: Option<String>) -> (r: Option<String>)
        ensures
            opt_view(r) == github_only(opt_view(registry_url)),
    {
        match registry_url {
            Some(url) => if starts_with(url.as_str(), "https://github.com/") {
                Some(url)
            } else {
                None
            },
            None => None,
        }
    }

    /// The GitHub repository of a crate. `registry_url` is what the registry says of it, for a
    /// crate that comes from one.
    pub fn get_repo_url(krate: &ResolvedCrate, registry_url: Option<String>) -> (r: Option<String>)
        ensures
            opt_view(r) == repo_url_of(*krate, opt_view(registry_url)),
    {
        match &krate.source {
            ResolvedSource::Forge { forge, .. } => match forge {
                Forge::GitHub { custom_url, owner, repo } => Some(
                    repository_url(custom_url, "https://github.com", owner.as_str(), repo.as_str()),
                ),
                Forge::GitLab { .. } => None,
            },
            ResolvedSource::CratesIo => Self::get_crates_io_repo_url(registry_url),
            ResolvedSource::Registry { .. } => Self::get_crates_io_repo_url(registry_url),
            _ => None,
        }
    }

    /// Owner and repository in a repository URL.
    pub fn parse_owner_repo(repo_url: &str) -> (r: Option<(String, String)>)
        ensures
            match r {
                Some((owner, repo)) => owner_repo_of(repo_url@) == Some((owner@, repo@)),
                None => owner_repo_of(repo_url@) is None,
            },
    {
        let location = match strip_prefix(repo_url, "https://") {
            Some(location) => location,
            None => {
                return None;
            },
        };
        let path = match split_once(location.as_str(), '/') {
            Some((_, path)) => path,
            None => {
                return None;
            },
        };
        match split_once(path.as_str(), '/') {
            Some((owner, rest)) => {
                let repo = first_piece(rest.as_str(), '/');
                if owner.as_str().is_empty() || repo.as_str().is_empty() {
                    None
                } else {
                    Some((owner, repo))
                }
            },
            None => None,
        }
    }

    /// Where the API of the host of a repository URL is: at its own address for github.com, and
    /// under `/api/v3` for GitHub Enterprise.
    pub fn api_base(repo_url: &str) -> (r: Option<String>)
        ensures
            opt_view(r) == api_base_of(repo_url@),
    {
        match strip_prefix(repo_url, "https://") {
            Some(location) => {
                let host = first_piece(location.as_str(), '/');
                if same(host.as_str(), "github.com") {
                    Some("https://api.github.com".to_owned())
                } else {
                    Some("https://".to_owned().concat(host.as_str()).concat("/api/v3"))
                }
            },
            None => None,
        }
    }

    /// Whether the event answers what the attempt waits for.
    pub fn awaits(phase: &GithubPhase, event: &Event) -> (r: bool)
        ensures
            r == answers(*phase, *event),
    {
        match (phase, event) {
            (GithubPhase::AskingRepository, Event::Repository(_)) => true,
            (GithubPhase::Listing { .. }, Event::Assets(_)) => true,
            (GithubPhase::Delivering(inner), _) => Delivery::awaits(inner, event),
            _ => false,
        }
    }

    fn give_up(reason: String) -> (r: Step<GithubPhase>)
        ensures
            gives_up(r, reason@),
    {
        let message = BinResolutionMessage::ProviderHasNoBinary {
            provider: BinaryProvider::GithubReleases,
            reason,
        };
        Step {
            phase: GithubPhase::Finished,
            messages: vec![message],
            action: Action::Finish(Ok(None)),
        }
    }

    fn list(
        api_base: String,
        owner: String,
        repo: String,
        version: &str,
        plain_tag: bool,
    ) -> (r: Step<GithubPhase>)
        ensures
            lists(r, api_base@, owner@, repo@, version@, plain_tag),
    {
        let tag = if plain_tag {
            version.to_owned()
        } else {
            "v".to_owned().concat(version)
        };
        let url = release_url(api_base.as_str(), owner.as_str(), repo.as_str(), tag.as_str());
        Step {
            phase: GithubPhase::Listing { api_base, owner, repo, plain_tag },
            messages: Vec::new(),
            action: Action::ListAssets { url },
        }
    }

    fn with_repository(version: &str, repo_url: Option<String>) -> (r: Step<GithubPhase>)
        ensures
            proceeds_from_repository(version@, opt_view(repo_url), r),
    {
        let url = match repo_url {
            Some(url) => url,
            None => {
                return Self::give_up("no repository URL available".to_owned());
            },
        };
        match Self::parse_owner_repo(url.as_str()) {
            Some((owner, repo)) => match Self::api_base(url.as_str()) {
                Some(api_base) => Self::list(api_base, owner, repo, version, false),
                None => Self::give_up(
                    "could not determine API base for URL: ".to_owned().concat(url.as_str()),
                ),
            },
            None => Self::give_up(
                "could not parse owner/repo from URL: ".to_owned().concat(url.as_str()),
            ),
        }
    }

    /// Start to look for a binary of a crate. The registry is asked for the repository of a
    /// crate that comes from one.
    pub fn try_resolve(&self, request: &Request) -> (r: Step<GithubPhase>)
        ensures
            starts(*request, r),
    {
        let krate = &request.krate.resolved;
        if needs_registry_lookup(krate) {
            return Step {
                phase: GithubPhase::AskingRepository,
                messages: Vec::new(),
                action: Action::QueryRepository { krate: krate.name.clone() },
            };
        }
        Self::with_repository(krate.version.as_str(), Self::get_repo_url(krate, None))
    }

    fn deliver(step: Step<DeliveryPhase>) -> (r: Step<GithubPhase>)
        ensures
            r.phase is Delivering,
            delivery_step(r) == step,
    {
        Step {
            phase: GithubPhase::Delivering(step.phase),
            messages: step.messages,
            action: step.action,
        }
    }

    /// Go on with an attempt once the last action is over.
    pub fn next(&self, request: &Request, phase: GithubPhase, event: Event) -> (r: Step<
        GithubPhase,
    >)
        requires
            answers(phase, event),
        ensures
            self.steps(*request, phase, event, r),
    {
        let krate = &request.krate.resolved;
        match phase {
            GithubPhase::AskingRepository => match event {
                Event::Repository(registry_url) => Self::with_repository(
                    krate.version.as_str(),
                    Self::get_repo_url(krate, registry_url),
                ),
                _ => unreached(),
            },
            GithubPhase::Listing { api_base, owner, repo, plain_tag } => match event {
                Event::Assets(assets) => {
                    if assets.len() == 0 {
                        return if plain_tag {
                            Self::give_up("no release found for any tag variant".to_owned())
                        } else {
                            Self::list(api_base, owner, repo, krate.version.as_str(), true)
                        };
                    }
                    let candidates = generate_candidate_filenames(
                        krate.name.as_str(),
                        krate.version.as_str(),
                        request.platform.as_str(),
                    );
                    match match_asset(&candidates, &assets) {
                        Some((name, url)) => Self::deliver(
                            self.delivery.start(url, archive_name(name.as_str())),
                        ),
                        None => Self::give_up("no matching asset found in release".to_owned()),
                    }
                },
                _ => unreached(),
            },
            GithubPhase::Delivering(inner) => Self::deliver(
                self.delivery.next(request, inner, event),
            ),
            GithubPhase::Finished => unreached(),
        }
    }
}

/// How far an attempt has come.
pub open spec fn progress(phase: GithubPhase) -> nat {
    match phase {
        GithubPhase::AskingRepository => 0,
        GithubPhase::Listing { plain_tag: false, .. } => 1,
        GithubPhase::Listing { plain_tag: true, .. } => 2,
        GithubPhase::Delivering(inner) => 3 + delivery_progress(inner),
        GithubPhase::Finished => 7,
    }
}

/// Every step brings an attempt further, so it ends after seven answers at most.
pub proof fn attempts_come_to_an_end(
    provider: GithubProvider,
    request: Request,
    phase: GithubPhase,
    event: Event,
    step: Step<GithubPhase>,
)
    requires
        provider.steps(request, phase, event, step),
    ensures
        progress(phase) < progress(step.phase) <= 7,
{
}

/// Owner and repository come back out of the URL of a crate's repository, for an instance at
/// an `https` address without a path, and the API is at that host.
pub proof fn repository_urls_come_apart(
    krate: ResolvedCrate,
    registry_url: Option<Seq<char>>,
    host: Seq<char>,
)
    requires
        krate.source matches ResolvedSource::Forge { forge: Forge::GitHub { .. }, .. },
        ({
            let forge = krate.source->Forge_forge;
            &&& base_url_of(forge->GitHub_custom_url, "https://github.com"@) == "https://"@ + host
            &&& !host.contains('/')
            &&& forge->GitHub_owner@.len() > 0 && !forge->GitHub_owner@.contains('/')
            &&& forge->GitHub_repo@.len() > 0 && !forge->GitHub_repo@.contains('/')
        }),
    ensures
        ({
            let forge = krate.source->Forge_forge;
            let url = repo_url_of(krate, registry_url);
            &&& url is Some
            &&& owner_repo_of(url->Some_0) == Some((forge->GitHub_owner@, forge->GitHub_repo@))
            &&& api_base_of(url->Some_0) == Some(
                if host == "github.com"@ {
                    "https://api.github.com"@
                } else {
                    "https://"@ + host + "/api/v3"@
                },
            )
        }),
{
    reveal_strlit("/");
    reveal_strlit("https://");
    let forge = krate.source->Forge_forge;
    let owner = forge->GitHub_owner@;
    let repo = forge->GitHub_repo@;
    let url = repo_url_of(krate, registry_url)->Some_0;
    let path = owner.push('/') + repo;
    let location = host.push('/') + path;
    assert(url =~= "https://"@ + location);
    assert(url.subrange(0, 8) =~= "https://"@);
    assert(url.skip(8) =~= location);
    joined_texts_come_apart(host, '/', path);
    joined_texts_come_apart(owner, '/', repo);
    whole_texts_stay(repo, '/');
}

/// A crate of github.com without an instance of its own is one of those.
pub proof fn public_urls_come_apart(krate: ResolvedCrate, registry_url: Option<Seq<char>>)
    requires
        krate.source matches ResolvedSource::Forge { forge: Forge::GitHub { .. }, .. },
        ({
            let forge = krate.source->Forge_forge;
            &&& forge->GitHub_custom_url is None
            &&& forge->GitHub_owner@.len() > 0 && !forge->GitHub_owner@.contains('/')
            &&& forge->GitHub_repo@.len() > 0 && !forge->GitHub_repo@.contains('/')
        }),
    ensures
        ({
            let forge = krate.source->Forge_forge;
            let url = repo_url_of(krate, registry_url);
            &&& url is Some
            &&& owner_repo_of(url->Some_0) == Some((forge->GitHub_owner@, forge->GitHub_repo@))
            &&& api_base_of(url->Some_0) == Some("https://api.github.com"@)
        }),
{
    reveal_strlit("/");
    reveal_strlit("https://");
    reveal_strlit("github.com");
    reveal_strlit("https://github.com");
    let base = "https://github.com"@;
    assert(base =~= "https://"@ + "github.com"@);
    assert(!has_suffix(base, "/"@)) by {
        if has_suffix(base, "/"@) {
            assert(base.subrange(17, 18)[0] == "/"@[0]);
        }
    }
    repository_urls_come_apart(krate, registry_url, "github.com"@);
}

}
