//! Everything that can go wrong, as plain values.
//!
//! Where a failure comes from outside (the file system, a registry, cargo), the
//! variant carries what it reported as text.
use vstd::prelude::*;
use vstd::string::*;

use crate::text::{decimal, decimal_of, join, joined, views};

verus! {

/// A failure of the library, or one that is passed through it.
#[derive(Clone, Debug, PartialEq, Eq)]
pub enum Error {
    /// No crate was named where one has to be.
    MissingCrateParameter,
    /// A repository was not given as `owner/repo`.
    InvalidRepoFormat { repo: String },
    /// `--branch`, `--tag` or `--rev` without a git source.
    GitSelectorWithoutGitSource,
    /// The version requirement cannot be read.
    InvalidVersionReq { version: String, reason: String },
    /// The URL cannot be read.
    InvalidUrl { url: String, reason: String },
    /// The version after `@` differs from the one given with `--version`.
    ConflictingVersions { at_version: String, flag_version: String },
    /// The registry does not have the crate.
    CrateNotFoundInRegistry { name: String },
    /// The registry has the crate, but no version that fits.
    NoMatchingVersion { name: String, requirement: String },
    /// The workspace does not hold the package.
    PackageNotFoundInWorkspace { name: String, available: Vec<String> },
    /// The workspace does not hold exactly one package, and none was named.
    AmbiguousPackageName { count: usize },
    /// The version found is not one that was asked for.
    VersionMismatch { requirement: String, found: String },
    /// The network is needed, and offline mode is on.
    OfflineMode { name: String, version: String },
    /// The index states no download location for the version.
    DownloadUrlUnavailable { name: String, version: String },
    /// The package has no binaries.
    NoPackageBinaries { krate: String },
    /// The package has several binaries, and none was chosen.
    AmbiguousBinaryTarget { package: String, available: Vec<String> },
    /// The package has no binary or example of that name.
    RunnableTargetNotFound {
        kind: TargetClass,
        package: String,
        target: String,
        available: Vec<String>,
    },
    /// Prebuilt binaries are wanted, but no provider is configured.
    NoProvidersConfigured,
    /// Only a prebuilt binary will do, and there is none.
    PrebuiltBinaryRequired { name: String, version: String },
    /// The downloaded data does not have the published checksum.
    ChecksumMismatch { expected: String, actual: String },
    /// The binary could not be downloaded.
    BinaryDownloadFailed { url: String },
    /// The request could not be carried out.
    HttpRequest { url: String, failure: HttpFailure, message: String },
    /// The server answered with a status that is worth another try, or with a failure.
    HttpRetryableStatus { url: String, status: u16 },
    /// The HTTP client could not be set up.
    HttpClientBuild { message: String },
    /// A git operation failed.
    Git { source: crate::git::Error },
    /// The configuration could not be read.
    ConfigExtract { message: String },
    /// The platform names no directories for the user.
    Etcetera { message: String },
    /// The registry could not be queried.
    Registry { message: String },
    /// Cargo did not describe the crate.
    CargoMetadata { message: String },
    /// A file system operation failed.
    Io { message: String },
    /// A value could not be written or read as JSON.
    Json { message: String },
    /// The crate archive could not be downloaded.
    RegistryDownload { message: String },
    /// The crate archive could not be unpacked.
    TarExtraction { message: String },
}

/// The kinds of targets that can be run.
#[derive(Clone, Copy, Debug, PartialEq, Eq, Structural)]
pub enum TargetClass {
    Binary,
    Example,
}

/// How far a request got before it failed.
#[derive(Clone, Copy, Debug, PartialEq, Eq, Structural)]
pub struct HttpFailure {
    /// The connection could not be established.
    pub connect: bool,
    /// The time allowed ran out.
    pub timeout: bool,
    /// The request could not be sent.
    pub request: bool,
}

/// The kind of a target in words.
pub open spec fn target_class_of(kind: TargetClass) -> Seq<char> {
    match kind {
        TargetClass::Binary => "binary"@,
        TargetClass::Example => "example"@,
    }
}

/// The kind of a target in words.
pub fn target_class(kind: TargetClass) -> (r: &'static str)
    ensures
        r@ == target_class_of(kind),
{
    match kind {
        TargetClass::Binary => "binary",
        TargetClass::Example => "example",
    }
}

impl Error {
    /// The error in words. A git error speaks for itself.
    pub open spec fn text(self) -> Seq<char> {
        match self {
            Error::Git { source } => source.text(),
            Error::MissingCrateParameter => "Crate name is required"@,
            Error::InvalidRepoFormat { repo } => {
                "Repository format must be 'owner/repo', got '"@ + repo@ + "'"@
            },
            Error::GitSelectorWithoutGitSource => {
                "Git selectors (--branch, --tag, --rev) can only be used with git sources (--git, --github, --gitlab)"@
            },
            Error::InvalidVersionReq { version, reason } => {
                "Invalid version requirement '"@ + version@ + "': "@ + reason@
            },
            Error::InvalidUrl { url, reason } => "Invalid URL '"@ + url@ + "': "@ + reason@,
            Error::ConflictingVersions { at_version, flag_version } => {
                "Conflicting version specifications: @"@ + at_version@
                    + " in crate name vs --version "@ + flag_version@
                    + ". Prefer using the @VERSION suffix in the crate name."@
            },
            Error::CrateNotFoundInRegistry { name } => {
                "Crate '"@ + name@ + "' not found in registry"@
            },
            Error::NoMatchingVersion { name, requirement } => {
                "No version of crate '"@ + name@ + "' matches requirement '"@ + requirement@
                    + "'"@
            },
            Error::PackageNotFoundInWorkspace { name, .. } => {
                "Package '"@ + name@ + "' not found in workspace"@
            },
            Error::AmbiguousPackageName { count } => {
                "Ambiguous package name: found "@ + decimal_of(count as nat)
                    + " packages in workspace, but no name was specified. Specify which package to use with the 'name' field."@
            },
            Error::VersionMismatch { requirement, found } => {
                "Version mismatch: required version '"@ + requirement@ + "' but found '"@
                    + found@ + "'"@
            },
            Error::OfflineMode { name, version } => {
                "Cannot download '"@ + name@ + "' v"@ + version@
                    + ": network required but offline mode enabled"@
            },
            Error::DownloadUrlUnavailable { name, version } => {
                "No download URL for '"@ + name@ + "' v"@ + version@
            },
            Error::NoPackageBinaries { krate } => {
                "Crate '"@ + krate@ + "' has no binaries or examples to run"@
            },
            Error::AmbiguousBinaryTarget { package, .. } => {
                "Package '"@ + package@ + "' has several binaries; choose one with --bin"@
            },
            Error::RunnableTargetNotFound { kind, package, target, .. } => {
                "Package '"@ + package@ + "' has no "@ + target_class_of(kind) + " target '"@
                    + target@ + "'"@
            },
            Error::NoProvidersConfigured => "No providers of prebuilt binaries are configured"@,
            Error::PrebuiltBinaryRequired { name, version } => {
                "No prebuilt binary of '"@ + name@ + "' v"@ + version@
                    + " was found, and one is required"@
            },
            Error::ChecksumMismatch { expected, actual } => {
                "Checksum mismatch: expected '"@ + expected@ + "', got '"@ + actual@ + "'"@
            },
            Error::BinaryDownloadFailed { url } => {
                "Failed to download binary from '"@ + url@ + "'"@
            },
            Error::HttpRequest { url, message, .. } => {
                "Request to '"@ + url@ + "' failed: "@ + message@
            },
            Error::HttpRetryableStatus { url, status } => {
                "Request to '"@ + url@ + "' was answered with status "@
                    + decimal_of(status as nat)
            },
            Error::HttpClientBuild { message } => "Failed to set up HTTP client: "@ + message@,
            Error::ConfigExtract { message } => "Failed to read configuration: "@ + message@,
            Error::Etcetera { message } => "Failed to find user directories: "@ + message@,
            Error::Registry { message } => "Failed to query registry: "@ + message@,
            Error::CargoMetadata { message } => "Failed to read cargo metadata: "@ + message@,
            Error::Io { message } => "I/O error: "@ + message@,
            Error::Json { message } => "JSON serialization error: "@ + message@,
            Error::RegistryDownload { message } => {
                "Failed to download registry crate: "@ + message@
            },
            Error::TarExtraction { message } => "Failed to extract crate tarball: "@ + message@,
        }
    }

    /// What was behind the error, or what could be named in its place.
    pub open spec fn reasons(self) -> Seq<Seq<char>> {
        match self {
            Error::Git { source } => source.reasons(),
            Error::PackageNotFoundInWorkspace { available, .. } => offers(available@),
            Error::AmbiguousBinaryTarget { available, .. } => offers(available@),
            Error::RunnableTargetNotFound { available, .. } => offers(available@),
            _ => Seq::empty(),
        }
    }

    /// The error in words. A git error speaks for itself.
    pub fn message(&self) -> (r: String)
        ensures
            r@ == self.text(),
    {
        match self {
            Error::Git { source } => source.message(),
            Error::MissingCrateParameter => "Crate name is required".to_owned(),
            Error::InvalidRepoFormat { repo } => {
                "Repository format must be 'owner/repo', got '".to_owned().concat(repo.as_str())
                    .concat("'")
            },
            Error::GitSelectorWithoutGitSource => {
                "Git selectors (--branch, --tag, --rev) can only be used with git sources (--git, --github, --gitlab)".to_owned()
            },
            Error::InvalidVersionReq { version, reason } => {
                "Invalid version requirement '".to_owned().concat(version.as_str())
                    .concat("': ").concat(reason.as_str())
            },
            Error::InvalidUrl { url, reason } => {
                "Invalid URL '".to_owned().concat(url.as_str()).concat("': ")
                    .concat(reason.as_str())
            },
            Error::ConflictingVersions { at_version, flag_version } => {
                "Conflicting version specifications: @".to_owned().concat(at_version.as_str())
                    .concat(" in crate name vs --version ").concat(flag_version.as_str())
                    .concat(". Prefer using the @VERSION suffix in the crate name.")
            },
            Error::CrateNotFoundInRegistry { name } => {
                "Crate '".to_owned().concat(name.as_str()).concat("' not found in registry")
            },
            Error::NoMatchingVersion { name, requirement } => {
                "No version of crate '".to_owned().concat(name.as_str())
                    .concat("' matches requirement '").concat(requirement.as_str()).concat("'")
            },
            Error::PackageNotFoundInWorkspace { name, .. } => {
                "Package '".to_owned().concat(name.as_str()).concat("' not found in workspace")
            },
            Error::AmbiguousPackageName { count } => {
                "Ambiguous package name: found ".to_owned()
                    .concat(decimal(*count as u128).as_str())
                    .concat(" packages in workspace, but no name was specified. Specify which package to use with the 'name' field.")
            },
            Error::VersionMismatch { requirement, found } => {
                "Version mismatch: required version '".to_owned().concat(requirement.as_str())
                    .concat("' but found '").concat(found.as_str()).concat("'")
            },
            Error::OfflineMode { name, version } => {
                "Cannot download '".to_owned().concat(name.as_str()).concat("' v")
                    .concat(version.as_str()).concat(": network required but offline mode enabled")
            },
            Error::DownloadUrlUnavailable { name, version } => {
                "No download URL for '".to_owned().concat(name.as_str()).concat("' v")
                    .concat(version.as_str())
            },
            Error::NoPackageBinaries { krate } => "Crate '".to_owned().concat(krate.as_str())
                    .concat("' has no binaries or examples to run"),
            Error::AmbiguousBinaryTarget { package, .. } => {
                "Package '".to_owned().concat(package.as_str())
                    .concat("' has several binaries; choose one with --bin")
            },
            Error::RunnableTargetNotFound { kind, package, target, .. } => {
                "Package '".to_owned().concat(package.as_str()).concat("' has no ")
                    .concat(target_class(*kind)).concat(" target '").concat(target.as_str())
                    .concat("'")
            },
            Error::NoProvidersConfigured => {
                "No providers of prebuilt binaries are configured".to_owned()
            },
            Error::PrebuiltBinaryRequired { name, version } => {
                "No prebuilt binary of '".to_owned().concat(name.as_str()).concat("' v")
                    .concat(version.as_str()).concat(" was found, and one is required")
            },
            Error::ChecksumMismatch { expected, actual } => {
                "Checksum mismatch: expected '".to_owned().concat(expected.as_str())
                    .concat("', got '").concat(actual.as_str()).concat("'")
            },
            Error::BinaryDownloadFailed { url } => {
                "Failed to download binary from '".to_owned().concat(url.as_str()).concat("'")
            },
            Error::HttpRequest { url, message, .. } => {
                "Request to '".to_owned().concat(url.as_str()).concat("' failed: ")
                    .concat(message.as_str())
            },
            Error::HttpRetryableStatus { url, status } => {
                "Request to '".to_owned().concat(url.as_str())
                    .concat("' was answered with status ").concat(decimal(*status as u128).as_str())
            },
            Error::HttpClientBuild { message } => {
                "Failed to set up HTTP client: ".to_owned().concat(message.as_str())
            },
            Error::ConfigExtract { message } => {
                "Failed to read configuration: ".to_owned().concat(message.as_str())
            },
            Error::Etcetera { message } => {
                "Failed to find user directories: ".to_owned().concat(message.as_str())
            },
            Error::Registry { message } => {
                "Failed to query registry: ".to_owned().concat(message.as_str())
            },
            Error::CargoMetadata { message } => {
                "Failed to read cargo metadata: ".to_owned().concat(message.as_str())
            },
            Error::Io { message } => "I/O error: ".to_owned().concat(message.as_str()),
            Error::Json { message } => {
                "JSON serialization error: ".to_owned().concat(message.as_str())
            },
            Error::RegistryDownload { message } => {
                "Failed to download registry crate: ".to_owned().concat(message.as_str())
            },
            Error::TarExtraction { message } => {
                "Failed to extract crate tarball: ".to_owned().concat(message.as_str())
            },
        }
    }

    /// What was behind the error, or what could be named in its place.
    pub fn causes(&self) -> (r: Vec<String>)
        ensures
            views(r@) == self.reasons(),
    {
        let r = match self {
            Error::Git { source } => source.causes(),
            Error::PackageNotFoundInWorkspace { available, .. } => offer(available),
            Error::AmbiguousBinaryTarget { available, .. } => offer(available),
            Error::RunnableTargetNotFound { available, .. } => offer(available),
            _ => Vec::new(),
        };
        assert(views(r@) =~= self.reasons());
        r
    }
}

/// What could be named, in words.
pub open spec fn offers(available: Seq<String>) -> Seq<Seq<char>> {
    seq!["available: "@ + joined(views(available))]
}

fn offer(available: &Vec<String>) -> (r: Vec<String>)
    ensures
        views(r@) == offers(available@),
{
    let r = vec!["available: ".to_owned().concat(join(available).as_str())];
    assert(views(r@) =~= offers(available@));
    r
}

impl From<crate::git::Error> for Error {
    fn from(source: crate::git::Error) -> (r: Self) {
        Error::Git { source }
    }
}

impl vstd::std_specs::convert::FromSpecImpl<crate::git::Error> for Error {
    open spec fn obeys_from_spec() -> bool {
        true
    }

    open spec fn from_spec(source: crate::git::Error) -> Self {
        Error::Git { source }
    }
}

}
