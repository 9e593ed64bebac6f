//! What is reported while the library works.
use vstd::prelude::*;
use vstd::string::*;

use crate::bin_resolver::ResolvedBinary;
use crate::config::BinaryProvider;
use crate::cratespec::GitSelector;
use crate::paths::JoinedPath;
use crate::resolver::ResolvedCrate;

verus! {

/// Progress of a git operation.
#[derive(Clone, Debug, PartialEq, Eq)]
pub enum GitMessage {
    /// The selector is about to be looked up in what is already there.
    ResolvingRef { url: String, selector: GitSelector },
    /// The selector was found without the network.
    RefFoundLocally { url: String, selector: GitSelector, commit: String },
    /// The repository is about to be fetched.
    FetchingRepo { url: String, selector: GitSelector },
    /// The selector was found after the fetch.
    ResolvedRef { commit: String },
    /// The commit has a working tree already.
    CheckoutExists { commit: String, path: JoinedPath },
    /// A working tree is about to be written.
    CheckingOut { commit: String, path: JoinedPath },
    /// The working tree is complete.
    CheckoutComplete { path: JoinedPath },
}

impl GitMessage {
    pub fn resolving_ref(url: &str, selector: &GitSelector) -> (r: Self)
        ensures
            r matches GitMessage::ResolvingRef { url: u, selector: s } && u@ == url@ && s
                == *selector,
    {
        GitMessage::ResolvingRef { url: url.to_owned(), selector: selector.clone() }
    }

    pub fn ref_found_locally(url: &str, selector: &GitSelector, commit: &str) -> (r: Self)
        ensures
            r matches GitMessage::RefFoundLocally { url: u, selector: s, commit: c } && u@ == url@
                && s == *selector && c@ == commit@,
    {
        GitMessage::RefFoundLocally {
            url: url.to_owned(),
            selector: selector.clone(),
            commit: commit.to_owned(),
        }
    }

    pub fn fetching_repo(url: &str, selector: &GitSelector) -> (r: Self)
        ensures
            r matches GitMessage::FetchingRepo { url: u, selector: s } && u@ == url@ && s
                == *selector,
    {
        GitMessage::FetchingRepo { url: url.to_owned(), selector: selector.clone() }
    }

    pub fn resolved_ref(commit: &str) -> (r: Self)
        ensures
            r matches GitMessage::ResolvedRef { commit: c } && c@ == commit@,
    {
        GitMessage::ResolvedRef { commit: commit.to_owned() }
    }

    pub fn checkout_exists(commit: &str, path: &JoinedPath) -> (r: Self)
        ensures
            r matches GitMessage::CheckoutExists { commit: c, path: p } && c@ == commit@ && p@
                == path@,
    {
        GitMessage::CheckoutExists { commit: commit.to_owned(), path: path.copied() }
    }

    pub fn checking_out(commit: &str, path: &JoinedPath) -> (r: Self)
        ensures
            r matches GitMessage::CheckingOut { commit: c, path: p } && c@ == commit@ && p@
                == path@,
    {
        GitMessage::CheckingOut { commit: commit.to_owned(), path: path.copied() }
    }

    pub fn checkout_complete(path: &JoinedPath) -> (r: Self)
        ensures
            r matches GitMessage::CheckoutComplete { path: p } && p@ == path@,
    {
        GitMessage::CheckoutComplete { path: path.copied() }
    }
}

/// Progress of the search for a prebuilt binary.
#[derive(Clone, Debug, PartialEq, Eq)]
pub enum BinResolutionMessage {
    /// The build was customized, so no prebuilt binary can serve.
    DisqualifiedDueToCustomization { reason: String },
    /// Prebuilt binaries are switched off.
    PrebuiltBinariesDisabled,
    /// What was found before is about to be looked up.
    CacheLookup { krate: ResolvedCrate },
    /// What was found before is used.
    CacheHit { krate: ResolvedCrate },
    /// Nothing that was found before can be used.
    CacheMiss { krate: ResolvedCrate },
    /// A provider is about to be asked.
    CheckingProvider { krate: ResolvedCrate, provider: BinaryProvider },
    /// A provider has no binary.
    ProviderHasNoBinary { provider: BinaryProvider, reason: String },
    /// A provider has a binary, which is about to be downloaded.
    DownloadingBinary { url: String, provider: BinaryProvider },
    /// The checksum of what was downloaded is about to be verified.
    VerifyingChecksum { hash: String },
    /// The checksum is right.
    ChecksumVerified,
    /// A binary was found.
    Resolved { binary: ResolvedBinary },
    /// No provider has a binary.
    NoBinaryFound { krate: ResolvedCrate, reasons: Vec<String> },
}

/// Anything that is reported.
#[derive(Clone, Debug, PartialEq, Eq)]
pub enum Message {
    Git(GitMessage),
    BinResolution(BinResolutionMessage),
}

impl From<GitMessage> for Message {
    fn from(msg: GitMessage) -> (r: Self) {
        Message::Git(msg)
    }
}

impl vstd::std_specs::convert::FromSpecImpl<GitMessage> for Message {
    open spec fn obeys_from_spec() -> bool {
        true
    }

    open spec fn from_spec(msg: GitMessage) -> Self {
        Message::Git(msg)
    }
}

}
