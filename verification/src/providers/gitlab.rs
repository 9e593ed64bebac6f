//! Binaries among the release downloads of a GitLab repository.
use vstd::pervasive::unreached;
use vstd::prelude::*;
use vstd::string::*;

use crate::config::BinaryProvider;
use crate::cratespec::Forge;
use crate::error::Error;
use crate::http::{is_success, status_is_success, unreachable_server, HttpClient};
use crate::messages::BinResolutionMessage;
use crate::paths::JoinedPath;
use crate::providers::delivery::progress as delivery_progress;
use crate::providers::delivery::{
    delivery_answers, no_binary, silent, Action, Delivery, DeliveryPhase, Event, Probe, Request,
    Step,
};
use crate::providers::{
    archive_name, archive_name_of, candidate_views, candidates_of, from_registry,
    generate_candidate_filenames, needs_registry_lookup, repository_url, repository_url_of,
    ArchiveFormat, CandidateFilename,
};
use crate::resolver::{ResolvedCrate, ResolvedSource};
use crate::text::{has_prefix, opt_view, starts_with, views};

verus! {

/// What the registry says of a crate's repository, where that is on gitlab.com.
pub open spec fn gitlab_only(registry_url: Option<Seq<char>>) -> Option<Seq<char>> {
    match registry_url {
        Some(url) => if has_prefix(url, "https://gitlab.com/"@) {
            Some(url)
        } else {
            None
        },
        None => None,
    }
}

/// The GitLab repository of a crate: that of its forge, or what the registry says of it.
pub open spec fn repo_url_of(
    krate: ResolvedCrate,
    registry_url: Option<Seq<char>>,
) -> Option<Seq<char>> {
    match krate.source {
        ResolvedSource::Forge { forge: Forge::GitLab { custom_url, owner, repo }, .. } => Some(
            repository_url_of(custom_url, "https://gitlab.com"@, owner@, repo@),
        ),
        _ => if from_registry(krate) {
            gitlab_only(registry_url)
        } else {
            None
        },
    }
}

/// Where a file of a release is, under a tag.
pub open spec fn download_url_of(
    repo_url: Seq<char>,
    tag: Seq<char>,
    filename: Seq<char>,
) -> Seq<char> {
    repo_url + "/-/releases/"@ + tag + "/downloads/binaries/"@ + filename
}

/// Where the candidates are under a tag.
pub open spec fn urls_under_tag(
    repo_url: Seq<char>,
    tag: Seq<char>,
    candidates: Seq<(Seq<char>, ArchiveFormat)>,
) -> Seq<Seq<char>> {
    Seq::new(candidates.len(), |i: int| download_url_of(repo_url, tag, candidates[i].0))
}

/// Where a binary might be: each candidate under the tag with a `v`, then each under the one
/// without.
pub open spec fn candidate_urls_of(
    repo_url: Seq<char>,
    name: Seq<char>,
    version: Seq<char>,
    platform: Seq<char>,
) -> Seq<Seq<char>> {
    let candidates = candidates_of(name, version, platform);
    urls_under_tag(repo_url, "v"@ + version, candidates) + urls_under_tag(
        repo_url,
        version,
        candidates,
    )
}

fn push_urls(
    urls: &mut Vec<String>,
    repo_url: &str,
    tag: &str,
    candidates: &Vec<CandidateFilename>,
)
    ensures
        views(final(urls)@) == views(old(urls)@) + urls_under_tag(
            repo_url@,
            tag@,
            candidate_views(candidates@),
        ),
{
    let ghost start = views(urls@);
    let ghost added = urls_under_tag(repo_url@, tag@, candidate_views(candidates@));
    let mut i: usize = 0;
    assert(start + added.take(0) =~= start);
    while i < candidates.len()
        invariant
            i <= candidates.len(),
            added == urls_under_tag(repo_url@, tag@, candidate_views(candidates@)),
            views(urls@) == start + added.take(i as int),
        decreases candidates.len() - i,
    {
        let url = repo_url.to_owned().concat("/-/releases/").concat(tag).concat(
            "/downloads/binaries/",
        ).concat(candidates[i].filename.as_str());
        let ghost before = urls@;
        assert(url@ == added[i as int]);
        urls.push(url);
        proof {
            assert(views(urls@) =~= views(before).push(url@));
            assert(start + added.take(i + 1) =~= (start + added.take(i as int)).push(
                added[i as int],
            ));
        }
        i = i + 1;
    }
    assert(added.take(i as int) =~= added);
}

/// What the answer to a look at a URL shows.
pub open spec fn probe_of(answer: Result<u16, Error>) -> Probe {
    match answer {
        Ok(status) => if status_is_success(status) {
            Probe::Found
        } else {
            Probe::Missing
        },
        Err(e) => if unreachable_server(e) {
            Probe::Unreachable
        } else {
            Probe::Missing
        },
    }
}

/// The release downloads of GitLab repositories.
#[derive(Clone, Debug, PartialEq, Eq)]
pub struct GitlabProvider {
    pub delivery: Delivery,
}

/// What an attempt waits for.
#[derive(Clone, Debug, PartialEq, Eq)]
pub enum GitlabPhase {
    /// The repository of the crate.
    AskingRepository,
    /// Whether there is a file at the URL at `index`.
    Probing { urls: Vec<String>, index: usize },
    /// The binary.
    Delivering(DeliveryPhase),
    /// Nothing: the attempt is over.
    Finished,
}

/// The event answers what the attempt waits for.
pub open spec fn answers(phase: GitlabPhase, event: Event) -> bool {
    match phase {
        GitlabPhase::AskingRepository => event is Repository,
        GitlabPhase::Probing { urls, index } => index < urls@.len() && event is Probed,
        GitlabPhase::Delivering(inner) => delivery_answers(inner, event),
        GitlabPhase::Finished => false,
    }
}

/// The part of a step that belongs to the delivery.
pub open spec fn delivery_step(step: Step<GitlabPhase>) -> Step<DeliveryPhase> {
    Step { phase: step.phase->Delivering_0, messages: step.messages, action: step.action }
}

/// The attempt is over: there is no binary, for this reason.
pub open spec fn gives_up(step: Step<GitlabPhase>, reason: Seq<char>) -> bool {
    step.phase is Finished && no_binary(step, BinaryProvider::GitlabReleases, reason)
}

/// The step looks at the next URL, or gives up where there is none.
pub open spec fn probes(step: Step<GitlabPhase>, all: Seq<Seq<char>>, next: int) -> bool {
    if next < all.len() {
        &&& silent(step)
        &&& step.phase matches GitlabPhase::Probing { urls, index } && views(urls@) == all && index
            == next && index < urls@.len()
        &&& step.action matches Action::Probe { url } && url@ == all[next]
    } else {
        gives_up(step, "no matching release found"@)
    }
}

/// What comes of the repository of a crate: the places where a binary might be are looked at,
/// one after the other.
pub open spec fn proceeds_from_repository(
    request: Request,
    repo_url: Option<Seq<char>>,
    step: Step<GitlabPhase>,
) -> bool {
    match repo_url {
        None => gives_up(step, "no repository URL available"@),
        Some(url) => probes(
            step,
            candidate_urls_of(
                url,
                request.krate.resolved.name@,
                request.krate.resolved.version@,
                request.platform@,
            ),
            0,
        ),
    }
}

/// The step starts an attempt. The registry is asked for the repository of a crate that comes
/// from one.
pub open spec fn starts(request: Request, step: Step<GitlabPhase>) -> bool {
    if from_registry(request.krate.resolved) {
        &&& silent(step)
        &&& step.phase is AskingRepository
        &&& step.action == (Action::QueryRepository { krate: request.krate.resolved.name })
    } else {
        proceeds_from_repository(request, repo_url_of(request.krate.resolved, None), step)
    }
}

impl GitlabProvider {
    /// What comes of an event in each phase. A server that cannot be reached is not asked
    /// again.
    pub open spec fn steps(
        self,
        request: Request,
        phase: GitlabPhase,
        event: Event,
        step: Step<GitlabPhase>,
    ) -> bool {
        match (phase, event) {
            (GitlabPhase::AskingRepository, Event::Repository(registry_url)) => {
                proceeds_from_repository(
                    request,
                    repo_url_of(request.krate.resolved, opt_view(registry_url)),
                    step,
                )
            },
            (GitlabPhase::Probing { urls, index }, Event::Probed(probe)) => match probe {
                Probe::Found => step.phase is Delivering && self.delivery.downloads(
                    delivery_step(step),
                    urls@[index as int]@,
                    archive_name_of(urls@[index as int]@),
                ),
                Probe::Missing => probes(step, views(urls@), index + 1),
                Probe::Unreachable => gives_up(step, "no matching release found"@),
            },
            (GitlabPhase::Delivering(inner), _) => step.phase is Delivering && self.delivery.steps(
                request,
                inner,
                event,
                delivery_step(step),
            ),
            _ => false,
        }
    }

    /// The provider, with the directory for its binaries.
    pub fn new(cache_dir: JoinedPath, verify_checksums: bool, exe_suffix: String) -> (r: Self)
        ensures
            r.delivery.provider == BinaryProvider::GitlabReleases,
            r.delivery.cache_dir == cache_dir,
            r.delivery.verify_checksums == verify_checksums,
            r.delivery.exe_suffix == exe_suffix,
    {
        GitlabProvider {
            delivery: Delivery::new(
                BinaryProvider::GitlabReleases,
                cache_dir,
                verify_checksums,
                exe_suffix,
            ),
        }
    }

    /// What the registry says of a crate's repository, where that is on gitlab.com.
    pub fn get_crates_io_repo_url(registry_url: Option<String>) -> (r: Option<String>)
        ensures
            opt_view(r) == gitlab_only(opt_view(registry_url)),
    {
        match registry_url {
            Some(url) => if starts_with(url.as_str(), "https://gitlab.com/") {
                Some(url)
            } else {
                None
            },
            None => None,
        }
    }

    /// The GitLab repository of a crate. `registry_url` is what the registry says of it, for a
    /// crate that comes from one.
    pub fn get_repo_url(krate: &ResolvedCrate, registry_url: Option<String>) -> (r: Option<String>)
        ensures
            opt_view(r) == repo_url_of(*krate, opt_view(registry_url)),
    {
        match &krate.source {
            ResolvedSource::Forge { forge, .. } => match forge {
                Forge::GitLab { custom_url, owner, repo } => Some(
                    repository_url(custom_url, "https://gitlab.com", owner.as_str(), repo.as_str()),
                ),
                Forge::GitHub { .. } => None,
            },
            ResolvedSource::CratesIo => Self::get_crates_io_repo_url(registry_url),
            ResolvedSource::Registry { .. } => Self::get_crates_io_repo_url(registry_url),
            _ => None,
        }
    }

    /// Where a binary might be, the preferred places first.
    pub fn generate_urls(repo_url: &str, name: &str, version: &str, platform: &str) -> (r: Vec<String>)
        ensures
            views(r@) == candidate_urls_of(repo_url@, name@, version@, platform@),
    {
        let candidates = generate_candidate_filenames(name, version, platform);
        let mut urls: Vec<String> = Vec::new();
        push_urls(&mut urls, repo_url, "v".to_owned().concat(version).as_str(), &candidates);
        push_urls(&mut urls, repo_url, version, &candidates);
        assert(views(urls@) =~= candidate_urls_of(repo_url@, name@, version@, platform@));
        urls
    }

    /// What the answer to a look at a URL shows, by its status or its error.
    pub fn head_probe(answer: &Result<u16, Error>) -> (r: Probe)
        ensures
            r == probe_of(*answer),
    {
        match answer {
            Ok(status) => if is_success(*status) {
                Probe::Found
            } else {
                Probe::Missing
            },
            Err(e) => if HttpClient::is_connection_error(e) {
                Probe::Unreachable
            } else {
                Probe::Missing
            },
        }
    }

    /// Whether the event answers what the attempt waits for.
    pub fn awaits(phase: &GitlabPhase, event: &Event) -> (r: bool)
        ensures
            r == answers(*phase, *event),
    {
        match (phase, event) {
            (GitlabPhase::AskingRepository, Event::Repository(_)) => true,
            (GitlabPhase::Probing { urls, index }, Event::Probed(_)) => *index < urls.len(),
            (GitlabPhase::Delivering(inner), _) => Delivery::awaits(inner, event),
            _ => false,
        }
    }

    fn give_up(reason: &str) -> (r: Step<GitlabPhase>)
        ensures
            gives_up(r, reason@),
    {
        let message = BinResolutionMessage::ProviderHasNoBinary {
            provider: BinaryProvider::GitlabReleases,
            reason: reason.to_owned(),
        };
        Step {
            phase: GitlabPhase::Finished,
            messages: vec![message],
            action: Action::Finish(Ok(None)),
        }
    }

    fn probe(urls: Vec<String>, index: usize) -> (r: Step<GitlabPhase>)
        ensures
            probes(r, views(urls@), index as int),
    {
        if index < urls.len() {
            let url = urls[index].clone();
            Step {
                phase: GitlabPhase::Probing { urls, index },
                messages: Vec::new(),
                action: Action::Probe { url },
            }
        } else {
            Self::give_up("no matching release found")
        }
    }

    fn with_repository(request: &Request, repo_url: Option<String>) -> (r: Step<GitlabPhase>)
        ensures
            proceeds_from_repository(*request, opt_view(repo_url), r),
    {
        match repo_url {
            Some(url) => {
                let urls = Self::generate_urls(
                    url.as_str(),
                    request.krate.resolved.name.as_str(),
                    request.krate.resolved.version.as_str(),
                    request.platform.as_str(),
                );
                Self::probe(urls, 0)
            },
            None => Self::give_up("no repository URL available"),
        }
    }

    /// Start to look for a binary of a crate. The registry is asked for the repository of a
    /// crate that comes from one.
    pub fn try_resolve(&self, request: &Request) -> (r: Step<GitlabPhase>)
        ensures
            starts(*request, r),
    {
        let krate = &request.krate.resolved;
        if needs_registry_lookup(krate) {
            return Step {
                phase: GitlabPhase::AskingRepository,
                messages: Vec::new(),
                action: Action::QueryRepository { krate: krate.name.clone() },
            };
        }
        Self::with_repository(request, Self::get_repo_url(krate, None))
    }

    fn deliver(step: Step<DeliveryPhase>) -> (r: Step<GitlabPhase>)
        ensures
            r.phase is Delivering,
            delivery_step(r) == step,
    {
        Step {
            phase: GitlabPhase::Delivering(step.phase),
            messages: step.messages,
            action: step.action,
        }
    }

    /// Go on with an attempt once the last action is over.
    pub fn next(&self, request: &Request, phase: GitlabPhase, event: Event) -> (r: Step<
        GitlabPhase,
    >)
        requires
            answers(phase, event),
        ensures
            self.steps(*request, phase, event, r),
    {
        match phase {
            GitlabPhase::AskingRepository => match event {
                Event::Repository(registry_url) => Self::with_repository(
                    request,
                    Self::get_repo_url(&request.krate.resolved, registry_url),
                ),
                _ => unreached(),
            },
            GitlabPhase::Probing { urls, index } => match event {
                Event::Probed(probe) => match probe {
                    Probe::Found => {
                        let url = urls[index].clone();
                        let archive = archive_name(url.as_str());
                        Self::deliver(self.delivery.start(url, archive))
                    },
                    Probe::Missing => {
                        assert(index < urls.len());
                        Self::probe(urls, index + 1)
                    },
                    Probe::Unreachable => Self::give_up("no matching release found"),
                },
                _ => unreached(),
            },
            GitlabPhase::Delivering(inner) => Self::deliver(
                self.delivery.next(request, inner, event),
            ),
            GitlabPhase::Finished => unreached(),
        }
    }
}

/// The places are looked at in their order: the next one only where nothing was found before,
/// and a binary is taken from the first place where there is one.
pub proof fn first_place_wins(
    provider: GitlabProvider,
    request: Request,
    urls: Vec<String>,
    index: usize,
    event: Event,
    step: Step<GitlabPhase>,
)
    requires
        answers(GitlabPhase::Probing { urls, index }, event),
        provider.steps(request, GitlabPhase::Probing { urls, index }, event, step),
    ensures
        step.action is Probe ==> event == Event::Probed(Probe::Missing) && step.action->Probe_url@
            == urls@[index + 1]@,
        step.action is Download <==> event == Event::Probed(Probe::Found),
        step.action is Download ==> step.action->Download_url@ == urls@[index as int]@,
{
}

/// How many places are left to look at.
pub open spec fn places_left(phase: GitlabPhase) -> int {
    match phase {
        GitlabPhase::Probing { urls, index } => urls@.len() - index,
        _ => 0,
    }
}

/// How far an attempt has come, apart from the places that are looked at.
pub open spec fn progress(phase: GitlabPhase) -> nat {
    match phase {
        GitlabPhase::AskingRepository => 0,
        GitlabPhase::Probing { .. } => 1,
        GitlabPhase::Delivering(inner) => 2 + delivery_progress(inner),
        GitlabPhase::Finished => 6,
    }
}

/// Every step brings an attempt further or leaves fewer places to look at, so it comes to an
/// end.
pub proof fn attempts_come_to_an_end(
    provider: GitlabProvider,
    request: Request,
    phase: GitlabPhase,
    event: Event,
    step: Step<GitlabPhase>,
)
    requires
        answers(phase, event),
        provider.steps(request, phase, event, step),
    ensures
        progress(phase) < progress(step.phase) || (phase is Probing && step.phase is Probing
            && places_left(step.phase) < places_left(phase)),
        0 <= places_left(step.phase),
        progress(step.phase) <= 6,
{
    if phase is Probing && step.phase is Probing {
        assert(views(phase->urls@).len() == phase->urls@.len());
        assert(views(step.phase->urls@).len() == step.phase->urls@.len());
    }
}

}
