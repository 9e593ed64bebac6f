//! Errors: what they say, and what they name.
use vstd::prelude::*;
use vstd::string::*;

use crate::ca_bootstrap;
use crate::error::{Error, HttpFailure, TargetClass};
use crate::git;
use crate::paths::shown_of;
use crate::text::{decimal_of, joined, views};

verus! {

/// An error about the command line repeats what was given, as it was given: the version behind
/// `@` is told from the one of the flag.
pub proof fn errors_repeat_what_was_given(a: String, b: String)
    ensures
        Error::MissingCrateParameter.text() == "Crate name is required"@,
        (Error::InvalidRepoFormat { repo: a }).text()
            == "Repository format must be 'owner/repo', got '"@ + a@ + "'"@,
        Error::GitSelectorWithoutGitSource.text()
            == "Git selectors (--branch, --tag, --rev) can only be used with git sources (--git, --github, --gitlab)"@,
        (Error::InvalidVersionReq { version: a, reason: b }).text()
            == "Invalid version requirement '"@ + a@ + "': "@ + b@,
        (Error::InvalidUrl { url: a, reason: b }).text() == "Invalid URL '"@ + a@ + "': "@ + b@,
        (Error::ConflictingVersions { at_version: a, flag_version: b }).text()
            == "Conflicting version specifications: @"@ + a@ + " in crate name vs --version "@ + b@
            + ". Prefer using the @VERSION suffix in the crate name."@,
{
}

/// An error about a crate or a package names it, with the version where there is one.
pub proof fn errors_name_the_crate(a: String, b: String, count: usize, available: Vec<String>)
    ensures
        (Error::CrateNotFoundInRegistry { name: a }).text() == "Crate '"@ + a@
            + "' not found in registry"@,
        (Error::NoMatchingVersion { name: a, requirement: b }).text() == "No version of crate '"@
            + a@ + "' matches requirement '"@ + b@ + "'"@,
        (Error::PackageNotFoundInWorkspace { name: a, available }).text() == "Package '"@ + a@
            + "' not found in workspace"@,
        (Error::AmbiguousPackageName { count }).text() == "Ambiguous package name: found "@
            + decimal_of(count as nat)
            + " packages in workspace, but no name was specified. Specify which package to use with the 'name' field."@,
        (Error::VersionMismatch { requirement: a, found: b }).text()
            == "Version mismatch: required version '"@ + a@ + "' but found '"@ + b@ + "'"@,
        (Error::OfflineMode { name: a, version: b }).text() == "Cannot download '"@ + a@ + "' v"@
            + b@ + ": network required but offline mode enabled"@,
        (Error::DownloadUrlUnavailable { name: a, version: b }).text() == "No download URL for '"@
            + a@ + "' v"@ + b@,
        (Error::PrebuiltBinaryRequired { name: a, version: b }).text()
            == "No prebuilt binary of '"@ + a@ + "' v"@ + b@
            + " was found, and one is required"@,
        (Error::NoPackageBinaries { krate: a }).text() == "Crate '"@ + a@
            + "' has no binaries or examples to run"@,
        (Error::AmbiguousBinaryTarget { package: a, available }).text() == "Package '"@ + a@
            + "' has several binaries; choose one with --bin"@,
        (Error::RunnableTargetNotFound {
            kind: TargetClass::Binary,
            package: a,
            target: b,
            available,
        }).text() == "Package '"@ + a@ + "' has no "@ + "binary"@ + " target '"@ + b@ + "'"@,
        (Error::RunnableTargetNotFound {
            kind: TargetClass::Example,
            package: a,
            target: b,
            available,
        }).text() == "Package '"@ + a@ + "' has no "@ + "example"@ + " target '"@ + b@ + "'"@,
{
}

/// An error about a download names the address; the checksum that was published is told from
/// the one that was found.
pub proof fn errors_name_the_address(a: String, b: String, status: u16, failure: HttpFailure)
    ensures
        Error::NoProvidersConfigured.text() == "No providers of prebuilt binaries are configured"@,
        (Error::ChecksumMismatch { expected: a, actual: b }).text()
            == "Checksum mismatch: expected '"@ + a@ + "', got '"@ + b@ + "'"@,
        (Error::BinaryDownloadFailed { url: a }).text() == "Failed to download binary from '"@ + a@
            + "'"@,
        (Error::HttpRetryableStatus { url: a, status }).text() == "Request to '"@ + a@
            + "' was answered with status "@ + decimal_of(status as nat),
        (Error::HttpRequest { url: a, failure, message: b }).text() == "Request to '"@ + a@
            + "' failed: "@ + b@,
{
}

/// An error that comes from outside says where it comes from and what was reported.
pub proof fn errors_pass_on_what_was_reported(a: String)
    ensures
        (Error::HttpClientBuild { message: a }).text() == "Failed to set up HTTP client: "@ + a@,
        (Error::ConfigExtract { message: a }).text() == "Failed to read configuration: "@ + a@,
        (Error::Etcetera { message: a }).text() == "Failed to find user directories: "@ + a@,
        (Error::Registry { message: a }).text() == "Failed to query registry: "@ + a@,
        (Error::CargoMetadata { message: a }).text() == "Failed to read cargo metadata: "@ + a@,
        (Error::Io { message: a }).text() == "I/O error: "@ + a@,
        (Error::Json { message: a }).text() == "JSON serialization error: "@ + a@,
        (Error::RegistryDownload { message: a }).text() == "Failed to download registry crate: "@
            + a@,
        (Error::TarExtraction { message: a }).text() == "Failed to extract crate tarball: "@ + a@,
{
}

/// What could be named is offered where a name was wrong or missing, and nowhere else; a git
/// error gives its own words and its own reasons.
pub proof fn names_are_offered(err: Error, source: git::Error)
    ensures
        (Error::Git { source }).text() == source.text(),
        (Error::Git { source }).reasons() == source.reasons(),
        err matches Error::PackageNotFoundInWorkspace { available, .. } ==> err.reasons() == seq![
            "available: "@ + joined(views(available@)),
        ],
        err matches Error::AmbiguousBinaryTarget { available, .. } ==> err.reasons() == seq![
            "available: "@ + joined(views(available@)),
        ],
        err matches Error::RunnableTargetNotFound { available, .. } ==> err.reasons() == seq![
            "available: "@ + joined(views(available@)),
        ],
        !(err is Git || err is PackageNotFoundInWorkspace || err is AmbiguousBinaryTarget
            || err is RunnableTargetNotFound) ==> err.reasons().len() == 0,
{
}

/// A git error says what failed and where.
pub proof fn git_errors_say_where(err: git::Error)
    ensures
        match err {
            git::Error::InvalidCommitHash { hash } => err.text() == "Git commit hash is invalid: "@
                + hash@,
            git::Error::InitBareRepo { path, .. } => err.text()
                == "Failed to initialize bare repository at "@ + shown_of(path@),
            git::Error::OpenRepo { path, .. } => err.text() == "Failed to open git repository at "@
                + shown_of(path@),
            git::Error::ResolveSelector { message, .. } => err.text()
                == "Failed to resolve git selector: "@ + message@,
            git::Error::FetchRef { url, .. } => err.text() == "Failed to fetch ref from '"@ + url@
                + "'"@,
            git::Error::Offline { url } => err.text() == "Cannot fetch from '"@ + url@
                + "': network required but offline mode enabled"@,
            git::Error::LinuxHttpsTrustBootstrap { url, .. } => err.text()
                == "Failed to prepare Linux HTTPS trust bootstrap for '"@ + url@ + "'"@,
            git::Error::HttpConfigOverride { key, .. } => err.text()
                == "Failed to build git HTTP config override for "@ + key@,
            git::Error::CheckoutFromDb { path, .. } => err.text()
                == "Failed to checkout from database to "@ + shown_of(path@),
            git::Error::CreateDirectory { path, .. } => err.text()
                == "Failed to create git directory at "@ + shown_of(path@),
            git::Error::WriteMarkerFile { path, .. } => err.text()
                == "Failed to write marker file at "@ + shown_of(path@),
        },
{
}

/// A git error that something else is behind gives it as its first reason, and a missing
/// bundle is explained in full. A wrong hash and a forbidden network have no reason behind
/// them.
pub proof fn git_errors_give_their_reasons(err: git::Error)
    ensures
        err is InvalidCommitHash || err is Offline <==> err.reasons().len() == 0,
        err matches git::Error::InitBareRepo { reason, .. } ==> err.reasons()[0] == reason@,
        err matches git::Error::OpenRepo { reason, .. } ==> err.reasons()[0] == reason@,
        err matches git::Error::ResolveSelector { reason, .. } ==> err.reasons()[0] == reason@,
        err matches git::Error::FetchRef { reason, .. } ==> err.reasons()[0] == reason@,
        err matches git::Error::HttpConfigOverride { reason, .. } ==> err.reasons()[0] == reason@,
        err matches git::Error::CheckoutFromDb { reason, .. } ==> err.reasons()[0] == reason@,
        err matches git::Error::CreateDirectory { reason, .. } ==> err.reasons()[0] == reason@,
        err matches git::Error::WriteMarkerFile { reason, .. } ==> err.reasons()[0] == reason@,
        !(err is LinuxHttpsTrustBootstrap) ==> err.reasons().len() <= 1,
        err matches git::Error::LinuxHttpsTrustBootstrap { source, .. } ==> {
            &&& err.reasons()[0] == source.text()
            &&& err.reasons().skip(1) == source.reasons()
        },
{
    if let git::Error::LinuxHttpsTrustBootstrap { source, .. } = err {
        assert(err.reasons().skip(1) =~= source.reasons());
    }
}

/// An error about the certificate bundle says what failed and where, and gives what was
/// reported as its reason; where no certificate was loaded it counts the failures.
pub proof fn bundle_errors_say_where(err: ca_bootstrap::Error)
    ensures
        match err {
            ca_bootstrap::Error::NoNativeCaCertificates { error_count } => err.reasons().len() == 0
                && err.text()
                == "No Linux native CA certificates were loaded for HTTPS git transport (encountered "@
                + decimal_of(error_count as nat) + " loader errors)"@,
            ca_bootstrap::Error::CreateDirectory { path, reason } => err.reasons() == seq![reason@]
                && err.text() == "Failed to create TLS cache directory at "@ + shown_of(path@),
            ca_bootstrap::Error::CreateTemporaryBundle { path, reason } => err.reasons() == seq![
                reason@,
            ] && err.text() == "Failed to create temporary CA bundle in "@ + shown_of(path@),
            ca_bootstrap::Error::WriteBundle { path, reason } => err.reasons() == seq![reason@]
                && err.text() == "Failed to write Linux HTTPS CA bundle to "@ + shown_of(path@),
            ca_bootstrap::Error::SyncBundle { path, reason } => err.reasons() == seq![reason@]
                && err.text() == "Failed to sync Linux HTTPS CA bundle at "@ + shown_of(path@),
            ca_bootstrap::Error::PersistBundle { path, reason } => err.reasons() == seq![reason@]
                && err.text() == "Failed to persist Linux HTTPS CA bundle at "@ + shown_of(path@),
        },
{
}

}
