//! Finding a prebuilt binary: whether one may be used at all, which provider has one, and
//! where it is kept.
use vstd::pervasive::unreached;
use vstd::prelude::*;
use vstd::string::*;
use vstd::utf8::encode_utf8;

use crate::builder::{BuildOptions, BuildTarget};
use crate::cache::{resolution_outcome, settled, settled_outcome, BinaryEntry, Cache};
use crate::config::{BinaryProvider, Config, PrebuiltBinariesConfig, UsePrebuiltBinaries};
use crate::cratespec::{Forge, RegistrySource};
use crate::digest::{sha256_hex, sha256_of};
use crate::error::Error;
use crate::messages::BinResolutionMessage;
use crate::paths::{JoinedPath, PathView};
use crate::resolver::{ResolvedCrate, ResolvedSource};
use crate::urls::{debug_url, url_debug_of};

verus! {

/// A prebuilt binary that was found, downloaded and checked.
#[derive(Clone, Debug, PartialEq, Eq)]
pub struct ResolvedBinary {
    /// The crate that it is a binary of.
    pub krate: ResolvedCrate,
    /// Who provided it.
    pub provider: BinaryProvider,
    /// Where it is.
    pub path: JoinedPath,
}

/// Why a build cannot be served by a prebuilt binary: the first of its customizations.
/// Prebuilt binaries exist for the default configuration only.
pub open spec fn disqualification(options: BuildOptions) -> Option<Seq<char>> {
    if !(options.build_target is DefaultBin) {
        Some("explicit --bin or --example specified"@)
    } else if options.features@.len() > 0 {
        Some("custom features specified"@)
    } else if options.all_features {
        Some("--all-features specified"@)
    } else if options.no_default_features {
        Some("--no-default-features specified"@)
    } else if options.profile is Some {
        Some("custom profile specified"@)
    } else if options.target is Some {
        Some("custom target specified"@)
    } else if options.toolchain is Some {
        Some("custom toolchain specified"@)
    } else {
        None
    }
}

/// Why a build cannot be served by a prebuilt binary, where it cannot.
pub fn is_disqualified(build_options: &BuildOptions) -> (r: Option<&'static str>)
    ensures
        match r {
            Some(reason) => disqualification(*build_options) == Some(reason@),
            None => disqualification(*build_options) is None,
        },
{
    match build_options.build_target {
        BuildTarget::DefaultBin => {},
        _ => {
            return Some("explicit --bin or --example specified");
        },
    }
    if build_options.features.len() > 0 {
        return Some("custom features specified");
    }
    if build_options.all_features {
        return Some("--all-features specified");
    }
    if build_options.no_default_features {
        return Some("--no-default-features specified");
    }
    if build_options.profile.is_some() {
        return Some("custom profile specified");
    }
    if build_options.target.is_some() {
        return Some("custom target specified");
    }
    if build_options.toolchain.is_some() {
        return Some("custom toolchain specified");
    }
    None
}

/// The debug form of a text, quoted and escaped.
pub uninterp spec fn text_debug_of(text: Seq<char>) -> Seq<char>;

/// Calls the `Debug` implementation of `str`. What it prints is named [`text_debug_of`].
#[verifier::external_body]
pub(crate) fn debug_text(text: &str) -> (r: String)
    ensures
        r@ == text_debug_of(text@),
{
    format!("{:?}", text)
}

/// The debug form of a forge's base URL. A text that states no URL is shown as a text.
pub open spec fn custom_url_debug_of(custom_url: Option<String>) -> Seq<char> {
    match custom_url {
        None => "None"@,
        Some(url) => "Some("@ + (match url_debug_of(url@) {
            Some(shown) => shown,
            None => text_debug_of(url@),
        }) + ")"@,
    }
}

/// The debug form of a forge.
pub open spec fn forge_debug_of(forge: Forge) -> Seq<char> {
    match forge {
        Forge::GitHub { custom_url, owner, repo } => "GitHub { custom_url: "@ + custom_url_debug_of(
            custom_url,
        ) + ", owner: "@ + text_debug_of(owner@) + ", repo: "@ + text_debug_of(repo@) + " }"@,
        Forge::GitLab { custom_url, owner, repo } => "GitLab { custom_url: "@ + custom_url_debug_of(
            custom_url,
        ) + ", owner: "@ + text_debug_of(owner@) + ", repo: "@ + text_debug_of(repo@) + " }"@,
    }
}

/// The text that stands for a source: two sources with the same text share their binaries.
pub open spec fn source_text_of(source: ResolvedSource) -> Seq<char> {
    match source {
        ResolvedSource::CratesIo => "crates-io"@,
        ResolvedSource::Registry { source: RegistrySource::Named(name) } => "registry:named:"@
            + name@,
        ResolvedSource::Registry { source: RegistrySource::IndexUrl(url) } => "registry:index:"@
            + url@,
        ResolvedSource::Git { repo, commit } => "git:"@ + repo@ + ":"@ + commit@,
        ResolvedSource::Forge { forge, commit } => "forge:"@ + forge_debug_of(forge) + ":"@
            + commit@,
        ResolvedSource::LocalDir { path } => "local:"@ + path@,
    }
}

/// The short digest of a source.
pub open spec fn source_hash_of(source: ResolvedSource) -> Seq<char> {
    sha256_of(encode_utf8(source_text_of(source))).take(16)
}

/// The name of a provider.
pub open spec fn provider_name_of(provider: BinaryProvider) -> Seq<char> {
    match provider {
        BinaryProvider::Binstall => "Binstall"@,
        BinaryProvider::GithubReleases => "GithubReleases"@,
        BinaryProvider::GitlabReleases => "GitlabReleases"@,
        BinaryProvider::Quickinstall => "Quickinstall"@,
    }
}

/// The place of a prebuilt binary among all binaries.
pub open spec fn relocated_path_of(
    bin_dir: PathView,
    krate: ResolvedCrate,
    provider: BinaryProvider,
    platform: Seq<char>,
    file_name: Seq<char>,
) -> PathView {
    bin_dir.join(krate.name@ + "-"@ + krate.version@).join(source_hash_of(krate.source)).join(
        "prebuilt-"@ + provider_name_of(provider) + "-"@ + platform,
    ).join(file_name)
}

fn debug_custom_url(custom_url: &Option<String>) -> (r: String)
    ensures
        r@ == custom_url_debug_of(*custom_url),
{
    match custom_url {
        None => "None".to_owned(),
        Some(url) => {
            let shown = match debug_url(url.as_str()) {
                Some(shown) => shown,
                None => debug_text(url.as_str()),
            };
            "Some(".to_owned().concat(shown.as_str()).concat(")")
        },
    }
}

fn debug_forge(forge: &Forge) -> (r: String)
    ensures
        r@ == forge_debug_of(*forge),
{
    match forge {
        Forge::GitHub { custom_url, owner, repo } => "GitHub { custom_url: ".to_owned().concat(
            debug_custom_url(custom_url).as_str(),
        ).concat(", owner: ").concat(debug_text(owner.as_str()).as_str()).concat(
            ", repo: ",
        ).concat(debug_text(repo.as_str()).as_str()).concat(" }"),
        Forge::GitLab { custom_url, owner, repo } => "GitLab { custom_url: ".to_owned().concat(
            debug_custom_url(custom_url).as_str(),
        ).concat(", owner: ").concat(debug_text(owner.as_str()).as_str()).concat(
            ", repo: ",
        ).concat(debug_text(repo.as_str()).as_str()).concat(" }"),
    }
}

/// What a provider answered.
#[derive(Clone, Debug, PartialEq, Eq)]
pub enum ProviderAnswer {
    /// It has a binary.
    Found(FoundBinary),
    /// It has none.
    NotFound,
    /// It could not say.
    Failed(Error),
}

/// How an action went.
#[derive(Clone, Debug, PartialEq, Eq)]
pub enum SearchEvent {
    /// What the provider answered.
    Answered(ProviderAnswer),
    /// The binary was copied.
    Copied,
    /// The binary could not be copied.
    CopyFailed(Error),
}

/// What is to be done next.
#[derive(Debug, PartialEq, Eq)]
pub enum SearchAction {
    /// Ask a provider.
    Ask { provider: BinaryProvider },
    /// Copy the binary to its place among all binaries and make it executable.
    Copy { from: JoinedPath, to: JoinedPath },
    /// Nothing: here is the binary, if there is one, or the error.
    Finish(Result<Option<ResolvedBinary>, Error>),
}

/// A binary that a provider has. The file name is missing where the path of the binary ends in
/// none.
#[derive(Clone, Debug, PartialEq, Eq)]
pub struct FoundBinary {
    pub binary: ResolvedBinary,
    pub file_name: Option<String>,
}

/// What a search waits for.
#[derive(Clone, Debug, PartialEq, Eq)]
pub enum SearchPhase {
    /// The answer of the provider at `index`. What the first of those before it has that has a
    /// binary is kept.
    Asking { index: usize, found: Option<FoundBinary> },
    /// The copy of the binary, which is then at `binary.path`.
    Copying { binary: ResolvedBinary },
    /// Nothing: the search is over.
    Finished,
}

/// What comes of an event: what to report, then what to do, and what is then waited for.
#[derive(Debug, PartialEq, Eq)]
pub struct SearchStep {
    pub phase: SearchPhase,
    pub messages: Vec<BinResolutionMessage>,
    pub action: SearchAction,
}

/// Whether the providers are asked for a binary at all.
#[derive(Clone, Debug, PartialEq, Eq)]
pub enum Admission {
    /// They are.
    Search,
    /// They are not, and this is reported.
    Skip(BinResolutionMessage),
}

/// The providers are asked unless the build is customized or prebuilt binaries are switched
/// off.
pub open spec fn admits(r: Admission, options: BuildOptions, mode: UsePrebuiltBinaries) -> bool {
    match disqualification(options) {
        Some(why) => r matches Admission::Skip(
            BinResolutionMessage::DisqualifiedDueToCustomization { reason },
        ) && reason@ == why,
        None => if mode == UsePrebuiltBinaries::Never {
            r == Admission::Skip(BinResolutionMessage::PrebuiltBinariesDisabled)
        } else {
            r is Search
        },
    }
}

/// Whether the providers are asked for a binary at all: not for a customized build, and not
/// where prebuilt binaries are switched off.
pub fn admission(build_options: &BuildOptions, mode: UsePrebuiltBinaries) -> (r: Admission)
    ensures
        admits(r, *build_options, mode),
{
    if let Some(reason) = is_disqualified(build_options) {
        return Admission::Skip(
            BinResolutionMessage::DisqualifiedDueToCustomization { reason: reason.to_owned() },
        );
    }
    match mode {
        UsePrebuiltBinaries::Never => Admission::Skip(
            BinResolutionMessage::PrebuiltBinariesDisabled,
        ),
        _ => Admission::Search,
    }
}

/// The binary that is kept once a provider has answered: the first that was found.
pub open spec fn first_found(
    found: Option<FoundBinary>,
    answer: ProviderAnswer,
) -> Option<FoundBinary> {
    match (found, answer) {
        (None, ProviderAnswer::Found(binary)) => Some(binary),
        _ => found,
    }
}

/// Looks for a prebuilt binary at the configured providers.
#[derive(Clone, Debug)]
pub struct DefaultBinaryResolver {
    pub config: Config,
    pub prebuilt_binaries: PrebuiltBinariesConfig,
}

impl DefaultBinaryResolver {
    /// The event answers what the search waits for.
    pub open spec fn answers(self, phase: SearchPhase, event: SearchEvent) -> bool {
        match phase {
            SearchPhase::Asking { index, .. } => event is Answered && index
                < self.prebuilt_binaries.binary_providers@.len(),
            SearchPhase::Copying { .. } => event is Copied || event is CopyFailed,
            SearchPhase::Finished => false,
        }
    }

    /// All providers have answered, and none has a binary: an error where only a prebuilt one
    /// will do.
    pub open spec fn concludes(self, krate: ResolvedCrate, step: SearchStep) -> bool {
        &&& step.phase is Finished
        &&& if self.prebuilt_binaries.use_prebuilt_binaries == UsePrebuiltBinaries::Always {
            &&& step.messages@.len() == 0
            &&& step.action == SearchAction::Finish(
                Err(
                    Error::PrebuiltBinaryRequired { name: krate.name, version: krate.version },
                ),
            )
        } else {
            &&& step.action == SearchAction::Finish(Ok(None))
            &&& step.messages@.len() == 1
            &&& step.messages@[0] matches BinResolutionMessage::NoBinaryFound { krate: k, reasons }
                && k == krate && reasons@.len() == 1 && reasons@[0]@
                == "no binary found from any configured provider"@
        }
    }

    /// All providers have answered, and this binary is used: it is copied to its place, or is
    /// an error where it has no file name.
    pub open spec fn takes(
        self,
        krate: ResolvedCrate,
        platform: Seq<char>,
        found: FoundBinary,
        step: SearchStep,
    ) -> bool {
        let binary = found.binary;
        &&& step.messages@.len() == 0
        &&& match found.file_name {
            Some(file) => {
                let place = relocated_path_of(
                    self.config.bin_dir@,
                    krate,
                    binary.provider,
                    platform,
                    file@,
                );
                &&& step.action matches SearchAction::Copy { from, to } && from@ == binary.path@
                    && to@ == place
                &&& step.phase matches SearchPhase::Copying { binary: b } && b.krate
                    == binary.krate && b.provider == binary.provider && b.path@ == place
            },
            None => {
                &&& step.phase is Finished
                &&& step.action matches SearchAction::Finish(Err(Error::Io { message })) && message@
                    == "binary path has no filename"@
            },
        }
    }

    /// The step asks the provider at `next`, or ends the asking where there is none left.
    pub open spec fn asks(
        self,
        krate: ResolvedCrate,
        platform: Seq<char>,
        found: Option<FoundBinary>,
        next: int,
        step: SearchStep,
    ) -> bool {
        if next < self.prebuilt_binaries.binary_providers@.len() {
            &&& step.phase matches SearchPhase::Asking { index, found: f } && index == next && f
                == found
            &&& step.action == (SearchAction::Ask {
                provider: self.prebuilt_binaries.binary_providers@[next],
            })
            &&& step.messages@.len() == 0
        } else {
            match found {
                Some(first) => self.takes(krate, platform, first, step),
                None => self.concludes(krate, step),
            }
        }
    }

    /// The messages say of each provider, in their order, that it is about to be asked.
    pub open spec fn announces(
        self,
        krate: ResolvedCrate,
        messages: Seq<BinResolutionMessage>,
    ) -> bool {
        messages == Seq::new(
            self.prebuilt_binaries.binary_providers@.len(),
            |i: int|
                BinResolutionMessage::CheckingProvider {
                    krate,
                    provider: self.prebuilt_binaries.binary_providers@[i],
                },
        )
    }

    /// The step starts a search: it says which providers are asked, and asks the first.
    pub open spec fn starts(self, krate: ResolvedCrate, step: SearchStep) -> bool {
        &&& self.prebuilt_binaries.binary_providers@.len() > 0
        &&& self.announces(krate, step.messages@)
        &&& step.phase == (SearchPhase::Asking { index: 0, found: None })
        &&& step.action == (SearchAction::Ask {
            provider: self.prebuilt_binaries.binary_providers@[0],
        })
    }

    /// The step begins a search, or fails where there is no provider to ask.
    pub open spec fn begins(self, krate: ResolvedCrate, step: SearchStep) -> bool {
        if self.prebuilt_binaries.binary_providers@.len() == 0 {
            &&& step.phase is Finished
            &&& step.messages@.len() == 0
            &&& step.action == SearchAction::Finish(Err(Error::NoProvidersConfigured))
        } else {
            self.starts(krate, step)
        }
    }

    /// What comes of an event in each phase.
    pub open spec fn steps(
        self,
        krate: ResolvedCrate,
        platform: Seq<char>,
        phase: SearchPhase,
        event: SearchEvent,
        step: SearchStep,
    ) -> bool {
        match (phase, event) {
            (SearchPhase::Asking { index, found }, SearchEvent::Answered(answer)) => self.asks(
                krate,
                platform,
                first_found(found, answer),
                index + 1,
                step,
            ),
            (SearchPhase::Copying { binary }, SearchEvent::Copied) => {
                &&& step.phase is Finished
                &&& step.action matches SearchAction::Finish(Ok(Some(b))) && b.krate == binary.krate
                    && b.provider == binary.provider && b.path@ == binary.path@
                &&& step.messages@.len() == 1
                &&& step.messages@[0] matches BinResolutionMessage::Resolved { binary: b }
                    && b.krate == binary.krate && b.provider == binary.provider && b.path@
                    == binary.path@
            },
            (SearchPhase::Copying { .. }, SearchEvent::CopyFailed(e)) => {
                &&& step.phase is Finished
                &&& step.messages@.len() == 0
                &&& step.action == SearchAction::Finish(Err(e))
            },
            _ => false,
        }
    }

    /// A resolver with the given settings.
    pub fn new(config: Config, prebuilt_binaries: PrebuiltBinariesConfig) -> (r: Self)
        ensures
            r.config == config,
            r.prebuilt_binaries == prebuilt_binaries,
    {
        DefaultBinaryResolver { config, prebuilt_binaries }
    }

    /// The short digest of a source, which keeps the binaries of different sources apart.
    pub fn compute_source_hash(source: &ResolvedSource) -> (r: String)
        ensures
            r@ == source_hash_of(*source),
            r@.len() == 16,
    {
        let text = match source {
            ResolvedSource::CratesIo => "crates-io".to_owned(),
            ResolvedSource::Registry { source } => match source {
                RegistrySource::Named(name) => "registry:named:".to_owned().concat(name.as_str()),
                RegistrySource::IndexUrl(url) => "registry:index:".to_owned().concat(
                    url.as_str(),
                ),
            },
            ResolvedSource::Git { repo, commit } => "git:".to_owned().concat(
                repo.as_str(),
            ).concat(":").concat(commit.as_str()),
            ResolvedSource::Forge { forge, commit } => "forge:".to_owned().concat(
                debug_forge(forge).as_str(),
            ).concat(":").concat(commit.as_str()),
            ResolvedSource::LocalDir { path } => "local:".to_owned().concat(path.as_str()),
        };
        let hash = sha256_hex(text.as_str().as_bytes());
        let short = hash.as_str().substring_char(0, 16).to_owned();
        assert(short@ =~= hash@.take(16));
        short
    }

    /// Where a prebuilt binary is kept among all binaries.
    pub fn relocated_path(
        &self,
        krate: &ResolvedCrate,
        provider: BinaryProvider,
        platform: &str,
        file_name: &str,
    ) -> (r: JoinedPath)
        ensures
            r@ == relocated_path_of(
                self.config.bin_dir@,
                *krate,
                provider,
                platform@,
                file_name@,
            ),
    {
        let name = match provider {
            BinaryProvider::Binstall => "Binstall",
            BinaryProvider::GithubReleases => "GithubReleases",
            BinaryProvider::GitlabReleases => "GitlabReleases",
            BinaryProvider::Quickinstall => "Quickinstall",
        };
        self.config.bin_dir.copied().join(
            krate.name.clone().concat("-").concat(krate.version.as_str()).as_str(),
        ).join(Self::compute_source_hash(&krate.source).as_str()).join(
            "prebuilt-".to_owned().concat(name).concat("-").concat(platform).as_str(),
        ).join(file_name)
    }

    fn conclude(&self, krate: &ResolvedCrate) -> (r: SearchStep)
        ensures
            self.concludes(*krate, r),
    {
        match self.prebuilt_binaries.use_prebuilt_binaries {
            UsePrebuiltBinaries::Always => SearchStep {
                phase: SearchPhase::Finished,
                messages: Vec::new(),
                action: SearchAction::Finish(
                    Err(
                        Error::PrebuiltBinaryRequired {
                            name: krate.name.clone(),
                            version: krate.version.clone(),
                        },
                    ),
                ),
            },
            _ => {
                let message = BinResolutionMessage::NoBinaryFound {
                    krate: krate.clone(),
                    reasons: vec!["no binary found from any configured provider".to_owned()],
                };
                SearchStep {
                    phase: SearchPhase::Finished,
                    messages: vec![message],
                    action: SearchAction::Finish(Ok(None)),
                }
            },
        }
    }

    fn take(&self, krate: &ResolvedCrate, platform: &str, found: FoundBinary) -> (r: SearchStep)
        ensures
            self.takes(*krate, platform@, found, r),
    {
        let binary = found.binary;
        match found.file_name {
            Some(file) => {
                let to = self.relocated_path(krate, binary.provider, platform, file.as_str());
                let copied = ResolvedBinary {
                    krate: binary.krate,
                    provider: binary.provider,
                    path: to.copied(),
                };
                SearchStep {
                    phase: SearchPhase::Copying { binary: copied },
                    messages: Vec::new(),
                    action: SearchAction::Copy { from: binary.path, to },
                }
            },
            None => SearchStep {
                phase: SearchPhase::Finished,
                messages: Vec::new(),
                action: SearchAction::Finish(
                    Err(Error::Io { message: "binary path has no filename".to_owned() }),
                ),
            },
        }
    }

    fn ask(
        &self,
        krate: &ResolvedCrate,
        platform: &str,
        found: Option<FoundBinary>,
        index: usize,
    ) -> (r: SearchStep)
        ensures
            self.asks(*krate, platform@, found, index as int, r),
    {
        if index < self.prebuilt_binaries.binary_providers.len() {
            let provider = self.prebuilt_binaries.binary_providers[index];
            SearchStep {
                phase: SearchPhase::Asking { index, found },
                messages: Vec::new(),
                action: SearchAction::Ask { provider },
            }
        } else {
            match found {
                Some(first) => self.take(krate, platform, first),
                None => self.conclude(krate),
            }
        }
    }

    fn announce(&self, krate: &ResolvedCrate) -> (r: Vec<BinResolutionMessage>)
        ensures
            self.announces(*krate, r@),
    {
        let providers = &self.prebuilt_binaries.binary_providers;
        let ghost all = Seq::new(
            providers@.len(),
            |i: int|
                BinResolutionMessage::CheckingProvider { krate: *krate, provider: providers@[i] },
        );
        let mut r: Vec<BinResolutionMessage> = Vec::new();
        let mut i: usize = 0;
        while i < providers.len()
            invariant
                i <= providers.len(),
                all == Seq::new(
                    providers@.len(),
                    |i: int|
                        BinResolutionMessage::CheckingProvider {
                            krate: *krate,
                            provider: providers@[i],
                        },
                ),
                r@ == all.take(i as int),
            decreases providers.len() - i,
        {
            r.push(
                BinResolutionMessage::CheckingProvider {
                    krate: krate.clone(),
                    provider: providers[i],
                },
            );
            assert(r@ =~= all.take(i + 1));
            i = i + 1;
        }
        assert(r@ =~= all);
        assert(self.announces(*krate, r@)) by {
            assert(r@ =~= Seq::new(
                self.prebuilt_binaries.binary_providers@.len(),
                |i: int|
                    BinResolutionMessage::CheckingProvider {
                        krate: *krate,
                        provider: self.prebuilt_binaries.binary_providers@[i],
                    },
            ));
        }
        r
    }

    /// Start to look for a binary of a crate: each provider is announced, and the first is
    /// asked. Without any provider this is an error.
    pub fn resolve(&self, krate: &ResolvedCrate) -> (r: SearchStep)
        ensures
            self.begins(*krate, r),
    {
        if self.prebuilt_binaries.binary_providers.len() == 0 {
            return SearchStep {
                phase: SearchPhase::Finished,
                messages: Vec::new(),
                action: SearchAction::Finish(Err(Error::NoProvidersConfigured)),
            };
        }
        SearchStep {
            phase: SearchPhase::Asking { index: 0, found: None },
            messages: self.announce(krate),
            action: SearchAction::Ask { provider: self.prebuilt_binaries.binary_providers[0] },
        }
    }

    /// Whether the event answers what the search waits for.
    pub fn awaits(&self, phase: &SearchPhase, event: &SearchEvent) -> (r: bool)
        ensures
            r == self.answers(*phase, *event),
    {
        match (phase, event) {
            (SearchPhase::Asking { index, .. }, SearchEvent::Answered(_)) => *index
                < self.prebuilt_binaries.binary_providers.len(),
            (SearchPhase::Copying { .. }, SearchEvent::Copied) => true,
            (SearchPhase::Copying { .. }, SearchEvent::CopyFailed(_)) => true,
            _ => false,
        }
    }

    /// Go on with a search once the last action is over. Every provider is asked. One that has
    /// no binary, or could not say, is passed over; of the others the first is used.
    pub fn next(
        &self,
        krate: &ResolvedCrate,
        platform: &str,
        phase: SearchPhase,
        event: SearchEvent,
    ) -> (r: SearchStep)
        requires
            self.answers(phase, event),
        ensures
            self.steps(*krate, platform@, phase, event, r),
    {
        match phase {
            SearchPhase::Asking { index, found } => match event {
                SearchEvent::Answered(answer) => {
                    let kept = match (found, answer) {
                        (None, ProviderAnswer::Found(binary)) => Some(binary),
                        (found, _) => found,
                    };
                    assert(index < self.prebuilt_binaries.binary_providers.len());
                    self.ask(krate, platform, kept, index + 1)
                },
                _ => unreached(),
            },
            SearchPhase::Copying { binary } => match event {
                SearchEvent::Copied => {
                    let message = BinResolutionMessage::Resolved {
                        binary: ResolvedBinary {
                            krate: binary.krate.clone(),
                            provider: binary.provider,
                            path: binary.path.copied(),
                        },
                    };
                    SearchStep {
                        phase: SearchPhase::Finished,
                        messages: vec![message],
                        action: SearchAction::Finish(Ok(Some(binary))),
                    }
                },
                SearchEvent::CopyFailed(e) => SearchStep {
                    phase: SearchPhase::Finished,
                    messages: Vec::new(),
                    action: SearchAction::Finish(Err(e)),
                },
                _ => unreached(),
            },
            SearchPhase::Finished => unreached(),
        }
    }
}

/// Looks for a prebuilt binary through the cache.
#[derive(Clone, Debug)]
pub struct CachingResolver {
    pub inner: DefaultBinaryResolver,
    pub cache: Cache,
}

impl CachingResolver {
    /// A prebuilt binary may be used for the build.
    pub open spec fn may_serve(self, build_options: BuildOptions) -> bool {
        disqualification(build_options) is None
            && self.inner.prebuilt_binaries.use_prebuilt_binaries != UsePrebuiltBinaries::Never
    }

    /// A resolver that asks `inner` where the cache has no answer.
    pub fn new(inner: DefaultBinaryResolver, cache: Cache) -> (r: Self)
        ensures
            r.inner == inner,
            r.cache == cache,
    {
        CachingResolver { inner, cache }
    }

    /// Whether a prebuilt binary may be used for the build. Where not, the cache is left alone.
    pub fn consults_cache(&self, build_options: &BuildOptions) -> (r: bool)
        ensures
            r == self.may_serve(*build_options),
    {
        matches!(
            admission(build_options, self.inner.prebuilt_binaries.use_prebuilt_binaries),
            Admission::Search
        )
    }

    /// The messages say why there is no search, or what the cache has.
    pub open spec fn reports(
        self,
        messages: Seq<BinResolutionMessage>,
        krate: ResolvedCrate,
        build_options: BuildOptions,
        entry: Option<BinaryEntry>,
        refresh: bool,
        now: i128,
    ) -> bool {
        if self.may_serve(build_options) {
            self.cache.reports_lookup(messages, krate, entry, refresh, now)
        } else {
            messages.len() == 1 && admits(
                Admission::Skip(messages[0]),
                build_options,
                self.inner.prebuilt_binaries.use_prebuilt_binaries,
            )
        }
    }

    /// What is reported before a search: why there is none, or what the cache has.
    pub fn messages(
        &self,
        krate: &ResolvedCrate,
        build_options: &BuildOptions,
        entry: &Option<BinaryEntry>,
        refresh: bool,
        now: i128,
    ) -> (r: Vec<BinResolutionMessage>)
        ensures
            self.reports(r@, *krate, *build_options, *entry, refresh, now),
    {
        match admission(build_options, self.inner.prebuilt_binaries.use_prebuilt_binaries) {
            Admission::Skip(message) => {
                let r = vec![message];
                assert(r@ =~= seq![message]);
                r
            },
            Admission::Search => self.cache.binary_lookup_messages(krate, entry, refresh, now),
        }
    }

    /// The prebuilt binary of a crate, from the cache or from `resolver`, and whether the
    /// result is to be stored. A build that no prebuilt binary can serve, or that is to have
    /// none, has none, whatever is cached.
    pub fn resolve<F: FnOnce() -> Result<Option<ResolvedBinary>, Error>>(
        &self,
        krate: &ResolvedCrate,
        build_options: &BuildOptions,
        entry: Option<BinaryEntry>,
        refresh: bool,
        now: i128,
        resolver: F,
    ) -> (r: (Result<Option<ResolvedBinary>, Error>, bool))
        requires
            self.may_serve(*build_options) && self.cache.searches(entry, refresh, now)
                ==> resolver.requires(()),
        ensures
            !self.may_serve(*build_options) ==> r.0 == Ok::<Option<ResolvedBinary>, Error>(None)
                && !r.1,
            self.may_serve(*build_options) && self.cache.uses_binary_entry(entry, refresh, now)
                ==> r.0 == settled(
                self.inner.prebuilt_binaries.use_prebuilt_binaries,
                *krate,
                entry->Some_0.value,
            ) && !r.1,
            self.may_serve(*build_options) && self.cache.config.offline && entry is None ==> r.0
                == settled(self.inner.prebuilt_binaries.use_prebuilt_binaries, *krate, None) && !r.1,
            self.may_serve(*build_options) && self.cache.searches(entry, refresh, now) ==> exists|
                outcome: Result<Option<ResolvedBinary>, Error>,
            | #[trigger]
                resolver.ensures((), outcome) && r.0 == settled_outcome(
                    self.inner.prebuilt_binaries.use_prebuilt_binaries,
                    *krate,
                    if refresh {
                        outcome
                    } else {
                        resolution_outcome(entry, outcome)
                    },
                ) && r.1 == outcome is Ok,
    {
        let mode = self.inner.prebuilt_binaries.use_prebuilt_binaries;
        match admission(build_options, mode) {
            Admission::Skip(_) => (Ok(None), false),
            Admission::Search => self.cache.get_or_resolve_binary(
                krate,
                mode,
                entry,
                refresh,
                now,
                resolver,
            ),
        }
    }
}

/// The resolver for a configuration and its caches.
pub fn create_resolver(
    config: Config,
    prebuilt_binaries: PrebuiltBinariesConfig,
    cache: Cache,
) -> (r: CachingResolver)
    ensures
        r.inner.config == config,
        r.inner.prebuilt_binaries == prebuilt_binaries,
        r.cache == cache,
{
    CachingResolver::new(DefaultBinaryResolver::new(config, prebuilt_binaries), cache)
}

/// Any customization of a build, however small, rules prebuilt binaries out, and nothing else
/// does.
pub proof fn only_default_builds_qualify(options: BuildOptions)
    ensures
        disqualification(options) is None <==> {
            &&& options.build_target is DefaultBin
            &&& options.features@.len() == 0
            &&& !options.all_features
            &&& !options.no_default_features
            &&& options.profile is None
            &&& options.target is None
            &&& options.toolchain is None
        },
{
}

/// Binaries of two crates share a place only where the crates agree in name and version, as
/// they are written together, and in the digest of their sources.
pub proof fn binaries_keep_sources_apart(
    bin_dir: PathView,
    a: ResolvedCrate,
    b: ResolvedCrate,
    by_a: BinaryProvider,
    by_b: BinaryProvider,
    platform: Seq<char>,
    file: Seq<char>,
)
    requires
        relocated_path_of(bin_dir, a, by_a, platform, file) == relocated_path_of(
            bin_dir,
            b,
            by_b,
            platform,
            file,
        ),
    ensures
        a.name@ + "-"@ + a.version@ == b.name@ + "-"@ + b.version@,
        source_hash_of(a.source) == source_hash_of(b.source),
{
    let n = bin_dir.segments.len() as int;
    let p = relocated_path_of(bin_dir, a, by_a, platform, file).segments;
    let q = relocated_path_of(bin_dir, b, by_b, platform, file).segments;
    assert(p[n] == q[n]);
    assert(p[n + 1] == q[n + 1]);
}

/// A search from its start: each event answers the step before it, and each step but the first
/// is what comes of an event.
pub open spec fn is_search(
    resolver: DefaultBinaryResolver,
    krate: ResolvedCrate,
    platform: Seq<char>,
    taken: Seq<SearchStep>,
    events: Seq<SearchEvent>,
) -> bool {
    &&& taken.len() == events.len() + 1
    &&& resolver.starts(krate, taken[0])
    &&& forall|i: int|
        0 <= i < events.len() ==> resolver.answers((#[trigger] taken[i]).phase, events[i])
            && resolver.steps(krate, platform, taken[i].phase, events[i], taken[i + 1])
}

/// The provider that was asked had no binary.
pub open spec fn is_passed_over(event: SearchEvent) -> bool {
    event matches SearchEvent::Answered(answer) && !(answer is Found)
}

/// The first binary among the first `n` answers.
pub open spec fn first_answer(events: Seq<SearchEvent>, n: int) -> Option<FoundBinary>
    decreases n,
{
    if n <= 0 {
        None
    } else {
        match events[n - 1] {
            SearchEvent::Answered(answer) => first_found(first_answer(events, n - 1), answer),
            _ => first_answer(events, n - 1),
        }
    }
}

/// Every provider is announced at the start and asked once, in the order in which they are
/// configured, whatever the others answer.
pub proof fn every_provider_is_asked(
    resolver: DefaultBinaryResolver,
    krate: ResolvedCrate,
    platform: Seq<char>,
    taken: Seq<SearchStep>,
    events: Seq<SearchEvent>,
    n: int,
)
    requires
        is_search(resolver, krate, platform, taken, events),
        0 <= n <= events.len(),
        n < resolver.prebuilt_binaries.binary_providers@.len(),
    ensures
        taken[n].action == (SearchAction::Ask {
            provider: resolver.prebuilt_binaries.binary_providers@[n],
        }),
        taken[n].phase matches SearchPhase::Asking { index, found } && index == n && found
            == first_answer(events, n),
        resolver.announces(krate, taken[0].messages@),
    decreases n,
{
    if n > 0 {
        every_provider_is_asked(resolver, krate, platform, taken, events, n - 1);
        assert(resolver.answers(taken[n - 1].phase, events[n - 1]));
        assert(resolver.steps(
            krate,
            platform,
            taken[n - 1].phase,
            events[n - 1],
            taken[n - 1 + 1],
        ));
    }
}

proof fn first_answer_is_first(events: Seq<SearchEvent>, n: int, k: int, found: FoundBinary)
    requires
        0 <= k < n <= events.len(),
        forall|i: int| 0 <= i < k ==> is_passed_over(#[trigger] events[i]),
        events[k] == SearchEvent::Answered(ProviderAnswer::Found(found)),
    ensures
        first_answer(events, n) == Some(found),
    decreases n,
{
    if n - 1 > k {
        first_answer_is_first(events, n - 1, k, found);
    } else {
        no_answer_is_found(events, k);
    }
}

proof fn no_answer_is_found(events: Seq<SearchEvent>, n: int)
    requires
        0 <= n <= events.len(),
        forall|i: int| 0 <= i < n ==> is_passed_over(#[trigger] events[i]),
    ensures
        first_answer(events, n) is None,
    decreases n,
{
    if n > 0 {
        no_answer_is_found(events, n - 1);
        assert(is_passed_over(events[n - 1]));
    }
}

/// The first provider in the configured order that has a binary is the one whose binary is
/// used: once all have answered, its binary is copied to its place.
pub proof fn first_binary_is_used(
    resolver: DefaultBinaryResolver,
    krate: ResolvedCrate,
    platform: Seq<char>,
    taken: Seq<SearchStep>,
    events: Seq<SearchEvent>,
    k: int,
    found: FoundBinary,
)
    requires
        is_search(resolver, krate, platform, taken, events),
        resolver.prebuilt_binaries.binary_providers@.len() <= events.len(),
        0 <= k < resolver.prebuilt_binaries.binary_providers@.len(),
        forall|i: int| 0 <= i < k ==> is_passed_over(#[trigger] events[i]),
        events[k] == SearchEvent::Answered(ProviderAnswer::Found(found)),
    ensures
        resolver.takes(
            krate,
            platform,
            found,
            taken[resolver.prebuilt_binaries.binary_providers@.len() as int],
        ),
{
    let n = resolver.prebuilt_binaries.binary_providers@.len() - 1;
    every_provider_is_asked(resolver, krate, platform, taken, events, n);
    assert(resolver.answers(taken[n].phase, events[n]));
    assert(resolver.steps(krate, platform, taken[n].phase, events[n], taken[n + 1]));
    first_answer_is_first(events, n + 1, k, found);
}

/// A search in which no provider has a binary ends after the last of them: with an error where
/// only a prebuilt binary will do, and with nothing otherwise.
pub proof fn searches_without_a_binary_conclude(
    resolver: DefaultBinaryResolver,
    krate: ResolvedCrate,
    platform: Seq<char>,
    taken: Seq<SearchStep>,
    events: Seq<SearchEvent>,
)
    requires
        is_search(resolver, krate, platform, taken, events),
        events.len() == resolver.prebuilt_binaries.binary_providers@.len(),
        forall|i: int| 0 <= i < events.len() ==> is_passed_over(#[trigger] events[i]),
    ensures
        resolver.concludes(krate, taken[events.len() as int]),
{
    let n = events.len() - 1;
    every_provider_is_asked(resolver, krate, platform, taken, events, n);
    assert(resolver.answers(taken[n].phase, events[n]));
    assert(resolver.steps(krate, platform, taken[n].phase, events[n], taken[n + 1]));
    no_answer_is_found(events, n + 1);
}

}
