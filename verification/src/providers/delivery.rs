//! From the address of a binary to the binary in its place: download, check, unpack.
use vstd::pervasive::unreached;
use vstd::prelude::*;
use vstd::string::*;

use crate::bin_resolver::ResolvedBinary;
use crate::config::BinaryProvider;
use crate::digest::{lossy_text_of, sha256_of};
use crate::downloader::DownloadedCrate;
use crate::error::Error;
use crate::http::{unreachable_server, HttpClient};
use crate::messages::BinResolutionMessage;
use crate::paths::{JoinedPath, PathView};
use crate::providers::binstall::BinstallMeta;
use crate::providers::{binary_path, binary_path_of, stated_checksum, verify_checksum};

verus! {

/// A crate for which a binary is wanted, and the platform that it is to run on.
#[derive(Clone, Debug, PartialEq, Eq)]
pub struct Request {
    pub krate: DownloadedCrate,
    pub platform: String,
}

/// How a download went.
#[derive(Clone, Debug, PartialEq, Eq)]
pub enum Download {
    /// The file.
    Data(Vec<u8>),
    /// The server does not have it or cannot be reached.
    Unavailable,
    /// The transfer broke off.
    Failed(Error),
}

/// What an answer to a request for a file means. A server that cannot be reached, or does not
/// have the file to give, is passed over; a transfer that broke off is a failure.
pub open spec fn download_is(
    download: Download,
    url: Seq<char>,
    answer: Result<Option<Vec<u8>>, Error>,
) -> bool {
    match answer {
        Ok(Some(data)) => download == Download::Data(data),
        Ok(None) => download is Unavailable,
        Err(e) => if unreachable_server(e) {
            download is Unavailable
        } else if e is HttpRequest {
            download matches Download::Failed(Error::BinaryDownloadFailed { url: u }) && u@ == url
        } else {
            download is Unavailable
        },
    }
}

/// What an answer to a request for a file means.
pub fn download_of(url: &str, answer: Result<Option<Vec<u8>>, Error>) -> (r: Download)
    ensures
        download_is(r, url@, answer),
{
    match answer {
        Ok(Some(data)) => Download::Data(data),
        Ok(None) => Download::Unavailable,
        Err(e) => {
            if HttpClient::is_connection_error(&e) {
                return Download::Unavailable;
            }
            match e {
                Error::HttpRequest { .. } => Download::Failed(
                    Error::BinaryDownloadFailed { url: url.to_owned() },
                ),
                _ => Download::Unavailable,
            }
        },
    }
}

/// What a look at a URL showed.
#[derive(Clone, Copy, Debug, PartialEq, Eq, Structural)]
pub enum Probe {
    /// There is a file.
    Found,
    /// There is none.
    Missing,
    /// The server cannot be reached.
    Unreachable,
}

/// How an action went.
#[derive(Clone, Debug, PartialEq, Eq)]
pub enum Event {
    /// What the crate's manifest says to `cargo-binstall`, if anything.
    Manifest(Option<BinstallMeta>),
    /// The repository that the registry names for the crate, if any.
    Repository(Option<String>),
    /// The assets of a release, each with its name and URL; none where there is no release.
    Assets(Vec<(String, String)>),
    /// What a look at a URL showed.
    Probed(Probe),
    /// How a download went.
    Downloaded(Download),
    /// The binary is in its place.
    Installed,
    /// The binary could not be unpacked or put in its place.
    InstallFailed(Error),
}

/// A download that is to be unpacked.
#[derive(Clone, Debug, PartialEq, Eq)]
pub struct Installation {
    /// The name to unpack it under, which says how it is packed.
    pub archive_name: String,
    pub data: Vec<u8>,
    /// The binary to take out of it.
    pub binary_name: String,
    /// Where the binary belongs.
    pub path: JoinedPath,
}

/// What is to be done next.
#[derive(Debug, PartialEq, Eq)]
pub enum Action {
    /// Read what the manifest in the directory says to `cargo-binstall`.
    ReadManifest { crate_path: JoinedPath },
    /// Ask the registry for the repository of the crate.
    QueryRepository { krate: String },
    /// Ask for the assets of a release.
    ListAssets { url: String },
    /// Look whether there is a file.
    Probe { url: String },
    /// Download a binary.
    Download { url: String },
    /// Download the checksum of a binary.
    DownloadChecksum { url: String },
    /// Unpack a binary and put it in its place.
    Install(Installation),
    /// Nothing: here is the binary, if there is one, or the error.
    Finish(Result<Option<ResolvedBinary>, Error>),
}

/// What comes of an event: what to report, then what to do, and what is then waited for.
#[derive(Debug, PartialEq, Eq)]
pub struct Step<P> {
    pub phase: P,
    pub messages: Vec<BinResolutionMessage>,
    pub action: Action,
}

/// What a delivery waits for.
#[derive(Clone, Debug, PartialEq, Eq)]
pub enum DeliveryPhase {
    /// The download.
    Downloading { url: String, archive_name: String },
    /// The checksum of what was downloaded.
    Verifying { archive_name: String, data: Vec<u8> },
    /// The binary in its place.
    Installing,
    /// Nothing: the delivery is over.
    Finished,
}

/// How a provider's binaries are fetched and where they are kept.
#[derive(Clone, Debug, PartialEq, Eq)]
pub struct Delivery {
    pub provider: BinaryProvider,
    pub cache_dir: JoinedPath,
    pub verify_checksums: bool,
    /// The file name suffix of executables on this platform.
    pub exe_suffix: String,
}

/// The directory of a provider's binaries.
pub open spec fn folder_of(provider: BinaryProvider) -> Seq<char> {
    match provider {
        BinaryProvider::Binstall => "binstall"@,
        BinaryProvider::GithubReleases => "github"@,
        BinaryProvider::GitlabReleases => "gitlab"@,
        BinaryProvider::Quickinstall => "quickinstall"@,
    }
}

/// What is said where a binary is not at its address.
pub open spec fn unavailable_reason(provider: BinaryProvider, url: Seq<char>) -> Seq<char> {
    match provider {
        BinaryProvider::Binstall => "download failed: "@ + url,
        BinaryProvider::Quickinstall => "download failed or binary not found"@,
        _ => "failed to download asset: "@ + url,
    }
}

/// The event answers what the delivery waits for.
pub open spec fn delivery_answers(phase: DeliveryPhase, event: Event) -> bool {
    match phase {
        DeliveryPhase::Downloading { .. } => event is Downloaded,
        DeliveryPhase::Verifying { .. } => event is Downloaded,
        DeliveryPhase::Installing => event is Installed || event is InstallFailed,
        DeliveryPhase::Finished => false,
    }
}

/// The step reports nothing.
pub open spec fn silent<P>(step: Step<P>) -> bool {
    step.messages@.len() == 0
}

/// The step ends the attempt: the provider has no binary, for this reason.
pub open spec fn no_binary<P>(step: Step<P>, by: BinaryProvider, why: Seq<char>) -> bool {
    &&& step.action == Action::Finish(Ok(None))
    &&& step.messages@.len() == 1
    &&& step.messages@[0] matches BinResolutionMessage::ProviderHasNoBinary { provider, reason }
        && provider == by && reason@ == why
}

/// The step ends the attempt with this error.
pub open spec fn fails_with<P>(step: Step<P>, error: Error) -> bool {
    step.action == Action::Finish(Err(error))
}

/// The message says that the checksum is verified.
pub open spec fn says_verifying(message: BinResolutionMessage, hash: Seq<char>) -> bool {
    message matches BinResolutionMessage::VerifyingChecksum { hash: h } && h@ == hash
}

impl Delivery {
    /// Where the binary of a request belongs.
    pub open spec fn place(self, request: Request) -> PathView {
        binary_path_of(
            self.cache_dir@,
            folder_of(self.provider),
            request.krate.resolved,
            request.platform@,
            self.exe_suffix@,
        )
    }

    /// The step downloads a binary from `url`.
    pub open spec fn downloads(
        self,
        step: Step<DeliveryPhase>,
        from: Seq<char>,
        archive: Seq<char>,
    ) -> bool {
        &&& step.phase matches DeliveryPhase::Downloading { url, archive_name } && url@ == from
            && archive_name@ == archive
        &&& step.action matches Action::Download { url } && url@ == from
        &&& step.messages@.len() == 1
        &&& step.messages@[0] matches BinResolutionMessage::DownloadingBinary { url, provider }
            && url@ == from && provider == self.provider
    }

    /// The step puts the binary in its place.
    pub open spec fn installs(
        self,
        request: Request,
        step: Step<DeliveryPhase>,
        archive: String,
        bytes: Vec<u8>,
    ) -> bool {
        &&& step.phase is Installing
        &&& step.action matches Action::Install(i) && i.archive_name == archive && i.data == bytes
            && i.binary_name == request.krate.resolved.name && i.path@ == self.place(request)
    }

    /// What comes of an event in each phase.
    pub open spec fn steps(
        self,
        request: Request,
        phase: DeliveryPhase,
        event: Event,
        step: Step<DeliveryPhase>,
    ) -> bool {
        match (phase, event) {
            (
                DeliveryPhase::Downloading { url, archive_name },
                Event::Downloaded(Download::Data(data)),
            ) => {
                &&& silent(step)
                &&& if self.verify_checksums {
                    &&& step.phase == (DeliveryPhase::Verifying { archive_name, data })
                    &&& step.action matches Action::DownloadChecksum { url: u } && u@ == url@
                        + ".sha256"@
                } else {
                    self.installs(request, step, archive_name, data)
                }
            },
            (
                DeliveryPhase::Downloading { url, .. },
                Event::Downloaded(Download::Unavailable),
            ) => step.phase is Finished && no_binary(
                step,
                self.provider,
                unavailable_reason(self.provider, url@),
            ),
            (
                DeliveryPhase::Downloading { url, .. },
                Event::Downloaded(Download::Failed(e)),
            ) => step.phase is Finished && if self.provider == BinaryProvider::Quickinstall {
                no_binary(step, self.provider, unavailable_reason(self.provider, url@))
            } else {
                silent(step) && fails_with(step, e)
            },
            (
                DeliveryPhase::Verifying { archive_name, data },
                Event::Downloaded(Download::Data(checksum)),
            ) => if sha256_of(data@) == stated_checksum(checksum@) {
                &&& self.installs(request, step, archive_name, data)
                &&& step.messages@.len() == 2
                &&& says_verifying(step.messages@[0], stated_checksum(checksum@))
                &&& step.messages@[1] is ChecksumVerified
            } else {
                &&& step.phase is Finished
                &&& step.action matches Action::Finish(
                    Err(Error::ChecksumMismatch { expected, actual }),
                ) && if stated_checksum(checksum@).len() == 0 {
                    &&& silent(step)
                    &&& expected@ == lossy_text_of(checksum@)
                    &&& actual@ == "invalid checksum format"@
                } else {
                    &&& step.messages@.len() == 1
                    &&& says_verifying(step.messages@[0], stated_checksum(checksum@))
                    &&& expected@ == stated_checksum(checksum@)
                    &&& actual@ == sha256_of(data@)
                }
            },
            (
                DeliveryPhase::Verifying { archive_name, data },
                Event::Downloaded(Download::Unavailable),
            ) => silent(step) && self.installs(request, step, archive_name, data),
            (DeliveryPhase::Verifying { .. }, Event::Downloaded(Download::Failed(e))) => {
                step.phase is Finished && silent(step) && fails_with(step, e)
            },
            (DeliveryPhase::Installing, Event::Installed) => {
                &&& step.phase is Finished
                &&& silent(step)
                &&& step.action matches Action::Finish(Ok(Some(binary))) && binary.krate
                    == request.krate.resolved && binary.provider == self.provider && binary.path@
                    == self.place(request)
            },
            (DeliveryPhase::Installing, Event::InstallFailed(e)) => {
                step.phase is Finished && silent(step) && fails_with(step, e)
            },
            _ => false,
        }
    }

    /// The deliveries of a provider.
    pub fn new(
        provider: BinaryProvider,
        cache_dir: JoinedPath,
        verify_checksums: bool,
        exe_suffix: String,
    ) -> (r: Self)
        ensures
            r.provider == provider,
            r.cache_dir == cache_dir,
            r.verify_checksums == verify_checksums,
            r.exe_suffix == exe_suffix,
    {
        Delivery { provider, cache_dir, verify_checksums, exe_suffix }
    }

    /// Whether the event answers what the delivery waits for.
    pub fn awaits(phase: &DeliveryPhase, event: &Event) -> (r: bool)
        ensures
            r == delivery_answers(*phase, *event),
    {
        match (phase, event) {
            (DeliveryPhase::Downloading { .. }, Event::Downloaded(_)) => true,
            (DeliveryPhase::Verifying { .. }, Event::Downloaded(_)) => true,
            (DeliveryPhase::Installing, Event::Installed) => true,
            (DeliveryPhase::Installing, Event::InstallFailed(_)) => true,
            _ => false,
        }
    }

    fn place_of(&self, request: &Request) -> (r: JoinedPath)
        ensures
            r@ == self.place(*request),
    {
        let folder = match self.provider {
            BinaryProvider::Binstall => "binstall",
            BinaryProvider::GithubReleases => "github",
            BinaryProvider::GitlabReleases => "gitlab",
            BinaryProvider::Quickinstall => "quickinstall",
        };
        binary_path(
            &self.cache_dir,
            folder,
            &request.krate.resolved,
            request.platform.as_str(),
            self.exe_suffix.as_str(),
        )
    }

    fn why_unavailable(&self, url: &str) -> (r: String)
        ensures
            r@ == unavailable_reason(self.provider, url@),
    {
        match self.provider {
            BinaryProvider::Binstall => "download failed: ".to_owned().concat(url),
            BinaryProvider::Quickinstall => "download failed or binary not found".to_owned(),
            _ => "failed to download asset: ".to_owned().concat(url),
        }
    }

    /// Start to deliver the binary at `url`, which is to be unpacked as `archive_name`.
    pub fn start(&self, url: String, archive_name: &str) -> (r: Step<DeliveryPhase>)
        ensures
            self.downloads(r, url@, archive_name@),
    {
        let message = BinResolutionMessage::DownloadingBinary {
            url: url.clone(),
            provider: self.provider,
        };
        let copy = url.clone();
        Step {
            phase: DeliveryPhase::Downloading { url, archive_name: archive_name.to_owned() },
            messages: vec![message],
            action: Action::Download { url: copy },
        }
    }

    fn give_up(&self, url: &str) -> (r: Step<DeliveryPhase>)
        ensures
            r.phase is Finished,
            no_binary(r, self.provider, unavailable_reason(self.provider, url@)),
    {
        let message = BinResolutionMessage::ProviderHasNoBinary {
            provider: self.provider,
            reason: self.why_unavailable(url),
        };
        Step {
            phase: DeliveryPhase::Finished,
            messages: vec![message],
            action: Action::Finish(Ok(None)),
        }
    }

    fn fail(&self, messages: Vec<BinResolutionMessage>, error: Error) -> (r: Step<DeliveryPhase>)
        ensures
            r.phase is Finished,
            r.messages == messages,
            fails_with(r, error),
    {
        Step { phase: DeliveryPhase::Finished, messages, action: Action::Finish(Err(error)) }
    }

    fn install(
        &self,
        request: &Request,
        messages: Vec<BinResolutionMessage>,
        archive_name: String,
        data: Vec<u8>,
    ) -> (r: Step<DeliveryPhase>)
        ensures
            r.messages == messages,
            self.installs(*request, r, archive_name, data),
    {
        Step {
            phase: DeliveryPhase::Installing,
            messages,
            action: Action::Install(
                Installation {
                    archive_name,
                    data,
                    binary_name: request.krate.resolved.name.clone(),
                    path: self.place_of(request),
                },
            ),
        }
    }

    fn after_checksum(
        &self,
        request: &Request,
        archive_name: String,
        data: Vec<u8>,
        checksum: Vec<u8>,
    ) -> (r: Step<DeliveryPhase>)
        ensures
            self.steps(
                *request,
                DeliveryPhase::Verifying { archive_name, data },
                Event::Downloaded(Download::Data(checksum)),
                r,
            ),
    {
        match verify_checksum(data.as_slice(), checksum.as_slice()) {
            Ok(hash) => {
                let messages = vec![
                    BinResolutionMessage::VerifyingChecksum { hash },
                    BinResolutionMessage::ChecksumVerified,
                ];
                self.install(request, messages, archive_name, data)
            },
            Err(e) => {
                let stated = crate::text::first_word(
                    crate::digest::lossy_text(checksum.as_slice()).as_str(),
                );
                match stated {
                    Some(hash) => self.fail(
                        vec![BinResolutionMessage::VerifyingChecksum { hash }],
                        e,
                    ),
                    None => self.fail(Vec::new(), e),
                }
            },
        }
    }

    /// Go on with a delivery once the last action is over.
    pub fn next(&self, request: &Request, phase: DeliveryPhase, event: Event) -> (r: Step<
        DeliveryPhase,
    >)
        requires
            delivery_answers(phase, event),
        ensures
            self.steps(*request, phase, event, r),
    {
        match phase {
            DeliveryPhase::Downloading { url, archive_name } => match event {
                Event::Downloaded(Download::Data(data)) => if self.verify_checksums {
                    Step {
                        phase: DeliveryPhase::Verifying { archive_name, data },
                        messages: Vec::new(),
                        action: Action::DownloadChecksum { url: url.concat(".sha256") },
                    }
                } else {
                    self.install(request, Vec::new(), archive_name, data)
                },
                Event::Downloaded(Download::Unavailable) => self.give_up(url.as_str()),
                Event::Downloaded(Download::Failed(e)) => match self.provider {
                    BinaryProvider::Quickinstall => self.give_up(url.as_str()),
                    _ => self.fail(Vec::new(), e),
                },
                _ => unreached(),
            },
            DeliveryPhase::Verifying { archive_name, data } => match event {
                Event::Downloaded(Download::Data(checksum)) => self.after_checksum(
                    request,
                    archive_name,
                    data,
                    checksum,
                ),
                Event::Downloaded(Download::Unavailable) => self.install(
                    request,
                    Vec::new(),
                    archive_name,
                    data,
                ),
                Event::Downloaded(Download::Failed(e)) => self.fail(Vec::new(), e),
                _ => unreached(),
            },
            DeliveryPhase::Installing => match event {
                Event::Installed => {
                    let binary = ResolvedBinary {
                        krate: request.krate.resolved.clone(),
                        provider: self.provider,
                        path: self.place_of(request),
                    };
                    Step {
                        phase: DeliveryPhase::Finished,
                        messages: Vec::new(),
                        action: Action::Finish(Ok(Some(binary))),
                    }
                },
                Event::InstallFailed(e) => self.fail(Vec::new(), e),
                _ => unreached(),
            },
            DeliveryPhase::Finished => unreached(),
        }
    }
}

/// With verification on, a download is unpacked only if its checksum is the published one,
/// or none is published.
pub proof fn installed_binaries_are_verified(
    delivery: Delivery,
    request: Request,
    phase: DeliveryPhase,
    event: Event,
    step: Step<DeliveryPhase>,
)
    requires
        delivery.verify_checksums,
        delivery.steps(request, phase, event, step),
        step.action is Install,
    ensures
        phase matches DeliveryPhase::Verifying { data, .. } && step.action->Install_0.data == data,
        event matches Event::Downloaded(download) && match download {
            Download::Data(checksum) => sha256_of(step.action->Install_0.data@) == stated_checksum(
                checksum@,
            ),
            Download::Unavailable => true,
            Download::Failed(_) => false,
        },
{
}

/// A delivery that ends well ends with the binary of the crate, in the place of its provider.
pub proof fn delivered_binaries_are_in_place(
    delivery: Delivery,
    request: Request,
    phase: DeliveryPhase,
    event: Event,
    step: Step<DeliveryPhase>,
    binary: ResolvedBinary,
)
    requires
        delivery.steps(request, phase, event, step),
        step.action == Action::Finish(Ok(Some(binary))),
    ensures
        phase is Installing && event is Installed,
        binary.krate == request.krate.resolved,
        binary.provider == delivery.provider,
        binary.path@ == delivery.place(request),
{
}

/// How far a delivery has come.
pub open spec fn progress(phase: DeliveryPhase) -> nat {
    match phase {
        DeliveryPhase::Downloading { .. } => 0,
        DeliveryPhase::Verifying { .. } => 1,
        DeliveryPhase::Installing => 2,
        DeliveryPhase::Finished => 3,
    }
}

/// Every step brings a delivery further, so it ends after three answers at most.
pub proof fn deliveries_come_to_an_end(
    delivery: Delivery,
    request: Request,
    phase: DeliveryPhase,
    event: Event,
    step: Step<DeliveryPhase>,
)
    requires
        delivery.steps(request, phase, event, step),
    ensures
        progress(phase) < progress(step.phase) <= 3,
        step.action is Finish <==> step.phase is Finished,
{
}

}
