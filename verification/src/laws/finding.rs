//! Prebuilt binaries: who is asked, what is looked for where, and what is taken.
use vstd::prelude::*;
use vstd::string::*;
use vstd::utf8::encode_utf8;

use crate::bin_resolver::{
    admits, disqualification, relocated_path_of, source_hash_of, source_text_of, text_debug_of,
    Admission, CachingResolver, DefaultBinaryResolver, FoundBinary, ProviderAnswer, ResolvedBinary,
    SearchAction, SearchEvent, SearchPhase, SearchStep,
};
use crate::builder::BuildOptions;
use crate::cache::BinaryEntry;
use crate::config::{BinaryProvider, UsePrebuiltBinaries};
use crate::cratespec::{Forge, RegistrySource};
use crate::digest::{lossy_text_of, sha256_of};
use crate::error::Error;
use crate::laws::caching::is_below;
use crate::messages::BinResolutionMessage;
use crate::paths::PathView;
use crate::providers::binstall;
use crate::providers::binstall::{
    archive_filename_of, archive_suffix_of, override_for, rendered, BinstallMeta, BinstallOverride,
    BinstallPhase, BinstallProvider, TemplateView,
};
use crate::providers::delivery::{
    delivery_answers, download_is, Action, Delivery, DeliveryPhase, Download, Event, Probe, Request,
    Step,
};
use crate::providers::github;
use crate::providers::github::{
    api_base_of, asset_url_of, matched_asset, owner_repo_of, release_url_of, GithubPhase,
    GithubProvider,
};
use crate::providers::gitlab;
use crate::providers::gitlab::{candidate_urls_of, probe_of, GitlabPhase, GitlabProvider};
use crate::providers::quickinstall;
use crate::providers::{
    archive_name_of, binary_path_of, candidates_in, candidates_of, formats, names_in_format,
    stated_checksum, suffix_of, verifies, ArchiveFormat,
};
use crate::resolver::{ResolvedCrate, ResolvedSource};
use crate::text::{first_word_of, has_prefix, has_suffix, opt_view, trimmed_end, views};
use crate::urls::url_debug_of;

verus! {

/// The first customization of a build is why no prebuilt binary serves it.
pub proof fn customizations_are_named(o: BuildOptions)
    ensures
        !(o.build_target is DefaultBin) ==> disqualification(o) == Some(
            "explicit --bin or --example specified"@,
        ),
        o.build_target is DefaultBin && o.features@.len() > 0 ==> disqualification(o) == Some(
            "custom features specified"@,
        ),
        ({
            let plain = o.build_target is DefaultBin && o.features@.len() == 0;
            &&& plain && o.all_features ==> disqualification(o) == Some("--all-features specified"@)
            &&& plain && !o.all_features && o.no_default_features ==> disqualification(o) == Some(
                "--no-default-features specified"@,
            )
        }),
        ({
            let plain = o.build_target is DefaultBin && o.features@.len() == 0 && !o.all_features
                && !o.no_default_features;
            &&& plain && o.profile is Some ==> disqualification(o) == Some(
                "custom profile specified"@,
            )
            &&& plain && o.profile is None && o.target is Some ==> disqualification(o) == Some(
                "custom target specified"@,
            )
            &&& plain && o.profile is None && o.target is None && o.toolchain is Some
                ==> disqualification(o) == Some("custom toolchain specified"@)
            &&& plain && o.profile is None && o.target is None && o.toolchain is None
                ==> disqualification(o) is None
        }),
{
}

/// The providers are asked for plain builds unless prebuilt binaries are switched off, and
/// what stands against it is said.
pub proof fn providers_are_asked_for_plain_builds(
    r: Admission,
    options: BuildOptions,
    mode: UsePrebuiltBinaries,
)
    requires
        admits(r, options, mode),
    ensures
        r is Search <==> disqualification(options) is None && mode != UsePrebuiltBinaries::Never,
        disqualification(options) matches Some(why) ==> (r matches Admission::Skip(
            BinResolutionMessage::DisqualifiedDueToCustomization { reason },
        ) && reason@ == why),
        disqualification(options) is None && mode == UsePrebuiltBinaries::Never ==> (
        r matches Admission::Skip(BinResolutionMessage::PrebuiltBinariesDisabled)),
{
}

/// What the cache has is reported only for builds that a prebuilt binary may serve.
pub proof fn caches_are_consulted_for_plain_builds(
    resolver: CachingResolver,
    messages: Seq<BinResolutionMessage>,
    krate: ResolvedCrate,
    options: BuildOptions,
    entry: Option<BinaryEntry>,
    refresh: bool,
    now: i128,
)
    requires
        resolver.reports(messages, krate, options, entry, refresh, now),
    ensures
        resolver.may_serve(options) <==> disqualification(options) is None
            && resolver.inner.prebuilt_binaries.use_prebuilt_binaries != UsePrebuiltBinaries::Never,
        resolver.may_serve(options) ==> resolver.cache.reports_lookup(
            messages,
            krate,
            entry,
            refresh,
            now,
        ),
        !resolver.may_serve(options) ==> messages.len() == 1 && (
        messages[0] is DisqualifiedDueToCustomization || messages[0] is PrebuiltBinariesDisabled),
{
}

/// A search announces every provider and asks the first; without one it fails.
pub proof fn searches_announce_every_provider(
    resolver: DefaultBinaryResolver,
    krate: ResolvedCrate,
    step: SearchStep,
)
    requires
        resolver.begins(krate, step),
    ensures
        ({
            let providers = resolver.prebuilt_binaries.binary_providers@;
            &&& providers.len() == 0 ==> step.action == SearchAction::Finish(
                Err(Error::NoProvidersConfigured),
            ) && step.messages@.len() == 0
            &&& providers.len() > 0 ==> step.action == (SearchAction::Ask {
                provider: providers[0],
            }) && step.messages@.len() == providers.len() && forall|i: int|
                0 <= i < providers.len() ==> #[trigger] step.messages@[i] == (
                BinResolutionMessage::CheckingProvider { krate, provider: providers[i] })
        }),
{
}

/// Once all have answered, the first binary found is copied to its place among all binaries
/// and then is the result. Without one there is none, which is an error where one is needed.
pub proof fn searches_end_with_the_first_binary(
    resolver: DefaultBinaryResolver,
    krate: ResolvedCrate,
    platform: Seq<char>,
    index: usize,
    found: Option<FoundBinary>,
    answer: ProviderAnswer,
    step: SearchStep,
)
    requires
        index + 1 == resolver.prebuilt_binaries.binary_providers@.len(),
        resolver.steps(
            krate,
            platform,
            SearchPhase::Asking { index, found },
            SearchEvent::Answered(answer),
            step,
        ),
    ensures
        ({
            let first = match found {
                Some(f) => Some(f),
                None => match answer {
                    ProviderAnswer::Found(f) => Some(f),
                    _ => None,
                },
            };
            match first {
                None => if resolver.prebuilt_binaries.use_prebuilt_binaries
                    == UsePrebuiltBinaries::Always {
                    step.action matches SearchAction::Finish(
                        Err(Error::PrebuiltBinaryRequired { name, version }),
                    ) && name@ == krate.name@ && version@ == krate.version@
                } else {
                    &&& step.action == SearchAction::Finish(Ok(None))
                    &&& step.messages@.len() == 1 && (
                    step.messages@[0] matches BinResolutionMessage::NoBinaryFound {
                        krate: k,
                        reasons,
                    } && k == krate && reasons@.len() == 1 && reasons@[0]@
                        == "no binary found from any configured provider"@)
                },
                Some(f) => match f.file_name {
                    None => step.action matches SearchAction::Finish(Err(Error::Io { message }))
                        && message@ == "binary path has no filename"@,
                    Some(file) => step.action matches SearchAction::Copy { from, to } && from@
                        == f.binary.path@ && to@ == relocated_path_of(
                        resolver.config.bin_dir@,
                        krate,
                        f.binary.provider,
                        platform,
                        file@,
                    ) && (step.phase matches SearchPhase::Copying { binary } && binary.krate
                        == f.binary.krate && binary.provider == f.binary.provider && binary.path@
                        == to@),
                },
            }
        }),
{
}

/// While providers are left the next is asked, and the first binary found is kept.
pub proof fn searches_go_on(
    resolver: DefaultBinaryResolver,
    krate: ResolvedCrate,
    platform: Seq<char>,
    index: usize,
    found: Option<FoundBinary>,
    answer: ProviderAnswer,
    step: SearchStep,
)
    requires
        index + 1 < resolver.prebuilt_binaries.binary_providers@.len(),
        resolver.steps(
            krate,
            platform,
            SearchPhase::Asking { index, found },
            SearchEvent::Answered(answer),
            step,
        ),
    ensures
        step.action == (SearchAction::Ask {
            provider: resolver.prebuilt_binaries.binary_providers@[index + 1],
        }),
        step.phase matches SearchPhase::Asking { index: i, found: f } && i == index + 1 && (
        match (found, answer) {
            (Some(_), _) => f == found,
            (None, ProviderAnswer::Found(binary)) => f == Some(binary),
            (None, _) => f is None,
        }),
        step.messages@.len() == 0,
{
}

/// A copied binary is the result and is reported; a failure to copy is the error.
pub proof fn copied_binaries_are_the_result(
    resolver: DefaultBinaryResolver,
    krate: ResolvedCrate,
    platform: Seq<char>,
    binary: ResolvedBinary,
    event: SearchEvent,
    step: SearchStep,
)
    requires
        resolver.steps(krate, platform, SearchPhase::Copying { binary }, event, step),
    ensures
        event is Copied ==> (step.action matches SearchAction::Finish(Ok(Some(b))) && b.krate
            == binary.krate && b.provider == binary.provider && b.path@ == binary.path@)
            && step.messages@.len() == 1 && (
        step.messages@[0] matches BinResolutionMessage::Resolved { binary: b } && b.krate
            == binary.krate && b.provider == binary.provider && b.path@ == binary.path@),
        event matches SearchEvent::CopyFailed(e) ==> step.action == SearchAction::Finish(Err(e)),
        event is Copied || event is CopyFailed,
        step.phase is Finished,
{
}

/// Prebuilt binaries are kept by crate, source, provider and platform.
pub proof fn prebuilt_binaries_are_kept_by_provider(
    bin_dir: PathView,
    krate: ResolvedCrate,
    platform: Seq<char>,
    file: Seq<char>,
)
    ensures
        ({
            let place = |name: Seq<char>|
                seq![
                    krate.name@ + "-"@ + krate.version@,
                    source_hash_of(krate.source),
                    "prebuilt-"@ + name + "-"@ + platform,
                    file,
                ];
            &&& is_below(
                relocated_path_of(bin_dir, krate, BinaryProvider::Binstall, platform, file),
                bin_dir,
                place("Binstall"@),
            )
            &&& is_below(
                relocated_path_of(bin_dir, krate, BinaryProvider::GithubReleases, platform, file),
                bin_dir,
                place("GithubReleases"@),
            )
            &&& is_below(
                relocated_path_of(bin_dir, krate, BinaryProvider::GitlabReleases, platform, file),
                bin_dir,
                place("GitlabReleases"@),
            )
            &&& is_below(
                relocated_path_of(bin_dir, krate, BinaryProvider::Quickinstall, platform, file),
                bin_dir,
                place("Quickinstall"@),
            )
        }),
{
    let place = |name: Seq<char>|
        seq![
            krate.name@ + "-"@ + krate.version@,
            source_hash_of(krate.source),
            "prebuilt-"@ + name + "-"@ + platform,
            file,
        ];
    assert(relocated_path_of(
        bin_dir,
        krate,
        BinaryProvider::Binstall,
        platform,
        file,
    ).segments =~= bin_dir.segments + place("Binstall"@));
    assert(relocated_path_of(
        bin_dir,
        krate,
        BinaryProvider::GithubReleases,
        platform,
        file,
    ).segments =~= bin_dir.segments + place("GithubReleases"@));
    assert(relocated_path_of(
        bin_dir,
        krate,
        BinaryProvider::GitlabReleases,
        platform,
        file,
    ).segments =~= bin_dir.segments + place("GitlabReleases"@));
    assert(relocated_path_of(
        bin_dir,
        krate,
        BinaryProvider::Quickinstall,
        platform,
        file,
    ).segments =~= bin_dir.segments + place("Quickinstall"@));
}

/// The digest of a source is that of a text which names the kind of source and everything
/// that tells two of that kind apart.
pub proof fn sources_are_told_apart(source: ResolvedSource)
    ensures
        source_hash_of(source) == sha256_of(encode_utf8(source_text_of(source))).take(16),
        source is CratesIo ==> source_text_of(source) == "crates-io"@,
        source matches ResolvedSource::Registry { source: RegistrySource::Named(name) }
            ==> source_text_of(source) == "registry:named:"@ + name@,
        source matches ResolvedSource::Registry { source: RegistrySource::IndexUrl(url) }
            ==> source_text_of(source) == "registry:index:"@ + url@,
        source matches ResolvedSource::Git { repo, commit } ==> source_text_of(source) == "git:"@
            + repo@ + ":"@ + commit@,
        source matches ResolvedSource::LocalDir { path } ==> source_text_of(source) == "local:"@
            + path@,
        source matches ResolvedSource::Forge {
            forge: Forge::GitHub { custom_url: None, owner, repo },
            commit,
        } ==> source_text_of(source) == "forge:"@ + ("GitHub { custom_url: "@ + "None"@
            + ", owner: "@ + text_debug_of(owner@) + ", repo: "@ + text_debug_of(repo@) + " }"@)
            + ":"@ + commit@,
        source matches ResolvedSource::Forge {
            forge: Forge::GitLab { custom_url: None, owner, repo },
            commit,
        } ==> source_text_of(source) == "forge:"@ + ("GitLab { custom_url: "@ + "None"@
            + ", owner: "@ + text_debug_of(owner@) + ", repo: "@ + text_debug_of(repo@) + " }"@)
            + ":"@ + commit@,
        source matches ResolvedSource::Forge {
            forge: Forge::GitHub { custom_url: Some(url), owner, repo },
            commit,
        } ==> source_text_of(source) == "forge:"@ + ("GitHub { custom_url: "@ + ("Some("@ + (
        match url_debug_of(url@) {
            Some(shown) => shown,
            None => text_debug_of(url@),
        }) + ")"@) + ", owner: "@ + text_debug_of(owner@) + ", repo: "@ + text_debug_of(repo@)
            + " }"@) + ":"@ + commit@,
        source matches ResolvedSource::Forge {
            forge: Forge::GitLab { custom_url: Some(url), owner, repo },
            commit,
        } ==> source_text_of(source) == "forge:"@ + ("GitLab { custom_url: "@ + ("Some("@ + (
        match url_debug_of(url@) {
            Some(shown) => shown,
            None => text_debug_of(url@),
        }) + ")"@) + ", owner: "@ + text_debug_of(owner@) + ", repo: "@ + text_debug_of(repo@)
            + " }"@) + ":"@ + commit@,
{
}

/// An asset is looked for under name, platform and version in the ways that are common: with
/// dashes or lines below, platform or version first, with and without a `v`, and without the
/// version.
pub proof fn assets_have_ten_names(n: Seq<char>, v: Seq<char>, p: Seq<char>, x: Seq<char>)
    ensures
        names_in_format(n, v, p, x) == seq![
            n + "-"@ + p + "-v"@ + v + x,
            n + "-"@ + p + "-"@ + v + x,
            n + "-v"@ + v + "-"@ + p + x,
            n + "-"@ + v + "-"@ + p + x,
            n + "_"@ + p + "_v"@ + v + x,
            n + "_"@ + p + "_"@ + v + x,
            n + "_v"@ + v + "_"@ + p + x,
            n + "_"@ + v + "_"@ + p + x,
            n + "-"@ + p + x,
            n + "_"@ + p + x,
        ],
{
}

/// The formats are tried one after the other, gzipped tarballs first and bare binaries last,
/// and each name carries the suffix of its format.
pub proof fn formats_are_tried_in_order(n: Seq<char>, v: Seq<char>, p: Seq<char>)
    ensures
        formats() == seq![
            ArchiveFormat::TarGz,
            ArchiveFormat::TarXz,
            ArchiveFormat::TarZst,
            ArchiveFormat::Zip,
            ArchiveFormat::Bare,
        ],
        suffix_of(ArchiveFormat::TarGz) == ".tar.gz"@,
        suffix_of(ArchiveFormat::TarXz) == ".tar.xz"@,
        suffix_of(ArchiveFormat::TarZst) == ".tar.zst"@,
        suffix_of(ArchiveFormat::Zip) == ".zip"@,
        suffix_of(ArchiveFormat::Bare).len() == 0,
        candidates_of(n, v, p) == candidates_in(n, v, p, formats()),
{
    reveal_strlit("");
}

/// More formats add their names behind those of the others.
pub proof fn formats_add_their_names(
    n: Seq<char>,
    v: Seq<char>,
    p: Seq<char>,
    before: Seq<ArchiveFormat>,
    format: ArchiveFormat,
    i: int,
)
    requires
        0 <= i < 10,
    ensures
        candidates_in(n, v, p, Seq::empty()).len() == 0,
        ({
            let less = candidates_in(n, v, p, before);
            let more = candidates_in(n, v, p, before.push(format));
            &&& more.len() == less.len() + 10
            &&& more.take(less.len() as int) == less
            &&& more[less.len() + i] == (
                names_in_format(n, v, p, suffix_of(format))[i],
                format,
            )
        }),
{
    let less = candidates_in(n, v, p, before);
    assert(before.push(format).drop_last() =~= before);
    assert(candidates_in(n, v, p, before.push(format)).take(less.len() as int) =~= less);
}

/// An asset is unpacked by what its name ends with.
pub proof fn assets_are_unpacked_by_their_suffix(asset: Seq<char>)
    ensures
        has_suffix(asset, ".tar.gz"@) ==> archive_name_of(asset) == "archive.tar.gz"@,
        !has_suffix(asset, ".tar.gz"@) && has_suffix(asset, ".tar.xz"@) ==> archive_name_of(asset)
            == "archive.tar.xz"@,
        !has_suffix(asset, ".tar.gz"@) && !has_suffix(asset, ".tar.xz"@) && has_suffix(
            asset,
            ".tar.zst"@,
        ) ==> archive_name_of(asset) == "archive.tar.zst"@,
        !has_suffix(asset, ".tar.gz"@) && !has_suffix(asset, ".tar.xz"@) && !has_suffix(
            asset,
            ".tar.zst"@,
        ) && has_suffix(asset, ".zip"@) ==> archive_name_of(asset) == "archive.zip"@,
        !has_suffix(asset, ".tar.gz"@) && !has_suffix(asset, ".tar.xz"@) && !has_suffix(
            asset,
            ".tar.zst"@,
        ) && !has_suffix(asset, ".zip"@) ==> archive_name_of(asset) == "archive"@,
{
}

/// Data passes exactly where its digest is the first word of the checksum file; otherwise the
/// error holds both.
pub proof fn checksums_decide(r: Result<String, Error>, data: Seq<u8>, checksum: Seq<u8>)
    requires
        verifies(r, data, checksum),
    ensures
        stated_checksum(checksum) == first_word_of(lossy_text_of(checksum)),
        r is Ok <==> sha256_of(data) == first_word_of(lossy_text_of(checksum)),
        r matches Ok(hash) ==> hash@ == sha256_of(data),
        r matches Err(e) ==> e is ChecksumMismatch,
        r is Err && stated_checksum(checksum).len() > 0 ==> r->Err_0->expected@ == stated_checksum(
            checksum,
        ) && r->Err_0->actual@ == sha256_of(data),
        r is Err && stated_checksum(checksum).len() == 0 ==> r->Err_0->expected@ == lossy_text_of(
            checksum,
        ) && r->Err_0->actual@ == "invalid checksum format"@,
{
}

/// A provider's binaries are kept below its own directory, by crate, version and platform.
pub proof fn provided_binaries_are_kept_apart(delivery: Delivery, request: Request)
    ensures
        ({
            let krate = request.krate.resolved;
            let folder = match delivery.provider {
                BinaryProvider::Binstall => "binstall"@,
                BinaryProvider::GithubReleases => "github"@,
                BinaryProvider::GitlabReleases => "gitlab"@,
                BinaryProvider::Quickinstall => "quickinstall"@,
            };
            is_below(
                delivery.place(request),
                delivery.cache_dir@,
                seq![
                    "binaries"@,
                    folder,
                    krate.name@,
                    krate.version@,
                    request.platform@,
                    krate.name@ + delivery.exe_suffix@,
                ],
            )
        }),
{
    let krate = request.krate.resolved;
    let folder = match delivery.provider {
        BinaryProvider::Binstall => "binstall"@,
        BinaryProvider::GithubReleases => "github"@,
        BinaryProvider::GitlabReleases => "gitlab"@,
        BinaryProvider::Quickinstall => "quickinstall"@,
    };
    assert(delivery.place(request).segments =~= delivery.cache_dir@.segments + seq![
        "binaries"@,
        folder,
        krate.name@,
        krate.version@,
        request.platform@,
        krate.name@ + delivery.exe_suffix@,
    ]);
}

/// The step unpacks that data under that name, to the provider's place for the crate.
pub open spec fn unpacks(
    delivery: Delivery,
    request: Request,
    step: Step<DeliveryPhase>,
    archive: String,
    data: Vec<u8>,
) -> bool {
    &&& step.phase is Installing
    &&& step.action matches Action::Install(i) && i.archive_name@ == archive@ && i.data == data
        && i.binary_name@ == request.krate.resolved.name@ && i.path@ == delivery.place(request)
}

/// The step ends the attempt without a binary.
pub open spec fn ends_without(
    step: Step<DeliveryPhase>,
    by: BinaryProvider,
    why: Seq<char>,
) -> bool {
    &&& step.phase is Finished
    &&& step.action == Action::Finish(Ok(None))
    &&& step.messages@.len() == 1
    &&& step.messages@[0] matches BinResolutionMessage::ProviderHasNoBinary { provider, reason }
        && provider == by && reason@ == why
}

/// A download that worked is checked, where checks are on, and otherwise unpacked. One that
/// did not work ends the attempt: with a reason, or with the failure.
pub proof fn downloads_are_checked_and_unpacked(
    delivery: Delivery,
    request: Request,
    url: String,
    archive_name: String,
    download: Download,
    step: Step<DeliveryPhase>,
)
    requires
        delivery.steps(
            request,
            DeliveryPhase::Downloading { url, archive_name },
            Event::Downloaded(download),
            step,
        ),
    ensures
        download matches Download::Data(data) ==> {
            &&& step.messages@.len() == 0
            &&& delivery.verify_checksums ==> (step.action matches Action::DownloadChecksum {
                url: u,
            } && u@ == url@ + ".sha256"@) && step.phase == (DeliveryPhase::Verifying {
                archive_name,
                data,
            })
            &&& !delivery.verify_checksums ==> unpacks(delivery, request, step, archive_name, data)
        },
        download is Unavailable ==> ends_without(
            step,
            delivery.provider,
            match delivery.provider {
                BinaryProvider::Binstall => "download failed: "@ + url@,
                BinaryProvider::Quickinstall => "download failed or binary not found"@,
                BinaryProvider::GithubReleases => "failed to download asset: "@ + url@,
                BinaryProvider::GitlabReleases => "failed to download asset: "@ + url@,
            },
        ),
        download matches Download::Failed(e) ==> if delivery.provider
            == BinaryProvider::Quickinstall {
            ends_without(step, delivery.provider, "download failed or binary not found"@)
        } else {
            step.phase is Finished && step.action == Action::Finish(Err(e))
        },
{
}

/// What was checked is unpacked where the checksum is right or there is none to check; a wrong
/// one is the error.
pub proof fn checked_downloads_are_unpacked(
    delivery: Delivery,
    request: Request,
    archive_name: String,
    data: Vec<u8>,
    download: Download,
    step: Step<DeliveryPhase>,
)
    requires
        delivery.steps(
            request,
            DeliveryPhase::Verifying { archive_name, data },
            Event::Downloaded(download),
            step,
        ),
    ensures
        download is Unavailable ==> unpacks(delivery, request, step, archive_name, data),
        download matches Download::Failed(e) ==> step.phase is Finished && step.action
            == Action::Finish(Err(e)),
        download matches Download::Data(checksum) ==> {
            let stated = first_word_of(lossy_text_of(checksum@));
            &&& sha256_of(data@) == stated ==> unpacks(delivery, request, step, archive_name, data)
                && step.messages@.len() == 2 && step.messages@[0] is VerifyingChecksum
                && step.messages@[1] is ChecksumVerified
            &&& sha256_of(data@) != stated ==> step.phase is Finished && (
            step.action matches Action::Finish(Err(Error::ChecksumMismatch { expected, actual }))
                && (stated.len() > 0 ==> expected@ == stated && actual@ == sha256_of(data@)))
        },
{
}

/// A binary in its place is the result of the provider, and a failure to put it there is the
/// error.
pub proof fn installed_binaries_are_the_result(
    delivery: Delivery,
    request: Request,
    event: Event,
    step: Step<DeliveryPhase>,
)
    requires
        delivery_answers(DeliveryPhase::Installing, event),
        delivery.steps(request, DeliveryPhase::Installing, event, step),
    ensures
        step.phase is Finished,
        event is Installed ==> (step.action matches Action::Finish(Ok(Some(binary)))
            && binary.krate == request.krate.resolved && binary.provider == delivery.provider
            && binary.path@ == delivery.place(request)),
        event matches Event::InstallFailed(e) ==> step.action == Action::Finish(Err(e)),
{
}

/// A delivery starts with the download of that URL, and says so.
pub proof fn deliveries_start_with_the_download(
    delivery: Delivery,
    step: Step<DeliveryPhase>,
    from: Seq<char>,
    archive: Seq<char>,
)
    requires
        delivery.downloads(step, from, archive),
    ensures
        step.action matches Action::Download { url } && url@ == from,
        step.phase matches DeliveryPhase::Downloading { url, archive_name } && url@ == from
            && archive_name@ == archive,
        step.messages@.len() == 1 && (
        step.messages@[0] matches BinResolutionMessage::DownloadingBinary { url, provider } && url@
            == from && provider == delivery.provider),
{
}

/// A file is taken, its absence and an unreachable server pass the provider over, and a
/// transfer that broke off is a failure.
pub proof fn answers_are_downloads(
    download: Download,
    url: Seq<char>,
    answer: Result<Option<Vec<u8>>, Error>,
)
    requires
        download_is(download, url, answer),
    ensures
        answer matches Ok(Some(data)) ==> download == Download::Data(data),
        answer matches Ok(None) ==> download is Unavailable,
        answer matches Err(e) ==> {
            let reached = e matches Error::HttpRequest { failure, .. } && !failure.connect
                && !failure.timeout && !failure.request;
            &&& reached ==> (download matches Download::Failed(
                Error::BinaryDownloadFailed { url: u },
            ) && u@ == url)
            &&& !reached ==> download is Unavailable
        },
{
}

/// Quickinstall has a binary at one address, which is downloaded as a gzipped tarball.
pub proof fn quickinstall_has_one_place(krate: ResolvedCrate, platform: Seq<char>)
    ensures
        quickinstall::url_of(krate, platform)
            == "https://github.com/cargo-bins/cargo-quickinstall/releases/download/"@ + (krate.name@
            + "-"@ + krate.version@) + "/"@ + (krate.name@ + "-"@ + krate.version@) + "-"@
            + platform + ".tar.gz"@,
{
}

/// The URL of a repository at a forge: the instance without slashes at its end, or the public
/// address, and then owner and repository.
pub proof fn forges_have_their_own_repositories(
    krate: ResolvedCrate,
    registry: Option<Seq<char>>,
    commit: String,
)
    ensures
        krate.source matches ResolvedSource::Forge {
            forge: Forge::GitHub { custom_url, owner, repo },
            ..
        } ==> {
            let base = match custom_url {
                Some(url) => trimmed_end(url@, "/"@),
                None => trimmed_end("https://github.com"@, "/"@),
            };
            &&& github::repo_url_of(krate, registry) == Some(base + "/"@ + owner@ + "/"@ + repo@)
            &&& binstall::repo_url_of(krate, registry) == Some(base + "/"@ + owner@ + "/"@ + repo@)
            &&& gitlab::repo_url_of(krate, registry) is None
        },
        krate.source matches ResolvedSource::Forge {
            forge: Forge::GitLab { custom_url, owner, repo },
            ..
        } ==> {
            let base = match custom_url {
                Some(url) => trimmed_end(url@, "/"@),
                None => trimmed_end("https://gitlab.com"@, "/"@),
            };
            &&& gitlab::repo_url_of(krate, registry) == Some(base + "/"@ + owner@ + "/"@ + repo@)
            &&& binstall::repo_url_of(krate, registry) == Some(base + "/"@ + owner@ + "/"@ + repo@)
            &&& github::repo_url_of(krate, registry) is None
        },
        krate.source is CratesIo || krate.source is Registry ==> {
            &&& binstall::repo_url_of(krate, registry) == registry
            &&& registry is None ==> github::repo_url_of(krate, registry) is None
                && gitlab::repo_url_of(krate, registry) is None
            &&& registry matches Some(url) ==> {
                &&& has_prefix(url, "https://github.com/"@) ==> github::repo_url_of(krate, registry)
                    == Some(url)
                &&& !has_prefix(url, "https://github.com/"@) ==> github::repo_url_of(krate, registry)
                    is None
                &&& has_prefix(url, "https://gitlab.com/"@) ==> gitlab::repo_url_of(krate, registry)
                    == Some(url)
                &&& !has_prefix(url, "https://gitlab.com/"@) ==> gitlab::repo_url_of(krate, registry)
                    is None
            }
        },
        krate.source is Git || krate.source is LocalDir ==> github::repo_url_of(krate, registry)
            is None && gitlab::repo_url_of(krate, registry) is None && binstall::repo_url_of(
            krate,
            registry,
        ) is None,
{
}

/// GitHub lists the assets of a release under its tag, at the API of the host of the
/// repository.
pub proof fn releases_are_listed_by_tag(
    api: Seq<char>,
    owner: Seq<char>,
    repo: Seq<char>,
    tag: Seq<char>,
    host: Seq<char>,
    path: Seq<char>,
)
    requires
        !host.contains('/'),
    ensures
        release_url_of(api, owner, repo, tag) == api + "/repos/"@ + owner + "/"@ + repo
            + "/releases/tags/"@ + tag,
        host == "github.com"@ ==> api_base_of("https://"@ + (host.push('/') + path)) == Some(
            "https://api.github.com"@,
        ),
        host != "github.com"@ ==> api_base_of("https://"@ + (host.push('/') + path)) == Some(
            "https://"@ + host + "/api/v3"@,
        ),
        !has_prefix(path, "https://"@) ==> api_base_of(path) is None && owner_repo_of(path) is None,
{
    crate::laws::texts::separated_texts_come_apart(host, '/', path);
    crate::laws::texts::prefixes_come_off(path, "https://"@, host.push('/') + path);
}

/// Owner and repository are the first two parts of the path, and neither is empty.
pub proof fn owners_and_repositories_are_read(
    host: Seq<char>,
    owner: Seq<char>,
    repo: Seq<char>,
    rest: Seq<char>,
)
    requires
        !host.contains('/') && !owner.contains('/') && !repo.contains('/'),
        rest.len() == 0 || rest[0] == '/',
    ensures
        ({
            let url = "https://"@ + (host.push('/') + (owner.push('/') + (repo + rest)));
            &&& owner.len() > 0 && repo.len() > 0 ==> owner_repo_of(url) == Some((owner, repo))
            &&& owner.len() == 0 || repo.len() == 0 ==> owner_repo_of(url) is None
        }),
{
    let last = repo + rest;
    let path = owner.push('/') + last;
    let location = host.push('/') + path;
    crate::laws::texts::prefixes_come_off(location, "https://"@, location);
    crate::laws::texts::separated_texts_come_apart(host, '/', path);
    crate::laws::texts::separated_texts_come_apart(owner, '/', last);
    if rest.len() == 0 {
        assert(last =~= repo);
        crate::laws::texts::texts_without_separator(repo, '/');
    } else {
        assert(last =~= repo.push('/') + rest.skip(1));
        crate::laws::texts::separated_texts_come_apart(repo, '/', rest.skip(1));
    }
}

/// The asset of a name is at the URL that is listed with it, of several the last.
pub proof fn assets_are_found_by_name(
    assets: Seq<(String, String)>,
    asset: (String, String),
    name: Seq<char>,
)
    ensures
        asset_url_of(Seq::empty(), name) is None,
        asset.0@ == name ==> asset_url_of(assets.push(asset), name) == Some(asset.1@),
        asset.0@ != name ==> asset_url_of(assets.push(asset), name) == asset_url_of(assets, name),
{
    assert(assets.push(asset).drop_last() =~= assets);
}

/// GitHub is asked for the release with a `v` in its tag first, then for the one without, and
/// the first candidate among the assets is downloaded.
pub proof fn github_attempts(
    provider: GithubProvider,
    request: Request,
    api_base: String,
    owner: String,
    repo: String,
    plain_tag: bool,
    assets: Vec<(String, String)>,
    step: Step<GithubPhase>,
)
    requires
        provider.steps(
            request,
            GithubPhase::Listing { api_base, owner, repo, plain_tag },
            Event::Assets(assets),
            step,
        ),
    ensures
        ({
            let krate = request.krate.resolved;
            let wanted = matched_asset(
                candidates_of(krate.name@, krate.version@, request.platform@),
                assets@,
            );
            &&& assets@.len() == 0 && !plain_tag ==> (step.action matches Action::ListAssets { url }
                && url@ == api_base@ + "/repos/"@ + owner@ + "/"@ + repo@ + "/releases/tags/"@
                + krate.version@) && (step.phase matches GithubPhase::Listing {
                api_base: a,
                owner: o,
                repo: p,
                plain_tag: true,
            } && a@ == api_base@ && o@ == owner@ && p@ == repo@)
            &&& assets@.len() == 0 && plain_tag ==> github_has_none(
                step,
                "no release found for any tag variant"@,
            )
            &&& assets@.len() > 0 && wanted is None ==> github_has_none(
                step,
                "no matching asset found in release"@,
            )
            &&& assets@.len() > 0 && wanted is Some ==> (step.action matches Action::Download { url }
                && url@ == wanted->Some_0.1) && step.phase is Delivering && (
            step.phase->Delivering_0 matches DeliveryPhase::Downloading { archive_name, .. }
                && archive_name@ == archive_name_of(wanted->Some_0.0))
        }),
{
}

/// The attempt ends without a binary of GitHub.
pub open spec fn github_has_none(step: Step<GithubPhase>, why: Seq<char>) -> bool {
    &&& step.phase is Finished
    &&& step.action == Action::Finish(Ok(None))
    &&& step.messages@.len() == 1
    &&& step.messages@[0] matches BinResolutionMessage::ProviderHasNoBinary { provider, reason }
        && provider == BinaryProvider::GithubReleases && reason@ == why
}

/// An attempt at GitHub starts with the repository, which the registry is asked for where the
/// crate comes from one, and goes on to the release with a `v` in its tag.
pub proof fn github_attempts_start_with_the_repository(
    provider: GithubProvider,
    request: Request,
    registry: Option<String>,
    start: Step<GithubPhase>,
    step: Step<GithubPhase>,
)
    requires
        github::starts(request, start),
        provider.steps(request, GithubPhase::AskingRepository, Event::Repository(registry), step),
    ensures
        ({
            let krate = request.krate.resolved;
            &&& krate.source is CratesIo || krate.source is Registry ==> (
            start.action matches Action::QueryRepository { krate: k } && k@ == krate.name@)
                && start.phase is AskingRepository
            &&& !(krate.source is CratesIo || krate.source is Registry)
                ==> github_goes_on(krate, github::repo_url_of(krate, None), start)
            &&& github_goes_on(krate, github::repo_url_of(krate, opt_view(registry)), step)
        }),
{
}

/// The release with a `v` in its tag is asked for at the repository, if there is one.
pub open spec fn github_goes_on(
    krate: ResolvedCrate,
    url: Option<Seq<char>>,
    step: Step<GithubPhase>,
) -> bool {
    match url {
        None => github_has_none(step, "no repository URL available"@),
        Some(u) => match (owner_repo_of(u), api_base_of(u)) {
            (Some((owner, repo)), Some(api)) => (step.action matches Action::ListAssets { url: l }
                && l@ == api + "/repos/"@ + owner + "/"@ + repo + "/releases/tags/"@ + ("v"@
                + krate.version@)) && (step.phase matches GithubPhase::Listing {
                api_base: a,
                owner: o,
                repo: p,
                plain_tag: false,
            } && a@ == api && o@ == owner && p@ == repo),
            (None, _) => github_has_none(step, "could not parse owner/repo from URL: "@ + u),
            (_, None) => github_has_none(step, "could not determine API base for URL: "@ + u),
        },
    }
}

/// The attempt ends without a binary of GitLab.
pub open spec fn gitlab_has_none(step: Step<GitlabPhase>, why: Seq<char>) -> bool {
    &&& step.phase is Finished
    &&& step.action == Action::Finish(Ok(None))
    &&& step.messages@.len() == 1
    &&& step.messages@[0] matches BinResolutionMessage::ProviderHasNoBinary { provider, reason }
        && provider == BinaryProvider::GitlabReleases && reason@ == why
}

/// GitLab has the files of a release below the repository, under the tag with a `v` first and
/// then under the one without.
pub proof fn gitlab_has_files_under_tags(
    repo: Seq<char>,
    name: Seq<char>,
    version: Seq<char>,
    platform: Seq<char>,
    i: int,
)
    requires
        0 <= i < candidates_of(name, version, platform).len(),
    ensures
        ({
            let files = candidates_of(name, version, platform);
            let urls = candidate_urls_of(repo, name, version, platform);
            &&& urls.len() == 2 * files.len()
            &&& urls[i] == repo + "/-/releases/"@ + ("v"@ + version) + "/downloads/binaries/"@
                + files[i].0
            &&& urls[files.len() + i] == repo + "/-/releases/"@ + version
                + "/downloads/binaries/"@ + files[i].0
        }),
{
}

/// GitLab's files are looked at one after the other. The first that is there is downloaded; a
/// server that cannot be reached ends it.
pub proof fn gitlab_attempts(
    provider: GitlabProvider,
    request: Request,
    urls: Vec<String>,
    index: usize,
    probe: Probe,
    step: Step<GitlabPhase>,
)
    requires
        index < urls@.len(),
        provider.steps(
            request,
            GitlabPhase::Probing { urls, index },
            Event::Probed(probe),
            step,
        ),
    ensures
        probe == Probe::Found ==> (step.action matches Action::Download { url } && url@
            == urls@[index as int]@) && step.phase is Delivering && (
        step.phase->Delivering_0 matches DeliveryPhase::Downloading { archive_name, .. }
            && archive_name@ == archive_name_of(urls@[index as int]@)),
        probe == Probe::Missing && index + 1 < urls@.len() ==> (
        step.action matches Action::Probe { url } && url@ == urls@[index + 1]@) && (
        step.phase matches GitlabPhase::Probing { urls: u, index: i } && views(u@) == views(urls@)
            && i == index + 1),
        probe == Probe::Missing && index + 1 == urls@.len() ==> gitlab_has_none(
            step,
            "no matching release found"@,
        ),
        probe == Probe::Unreachable ==> gitlab_has_none(step, "no matching release found"@),
{
    assert(views(urls@).len() == urls@.len());
    if index + 1 < urls@.len() {
        assert(views(urls@)[index + 1] == urls@[index + 1]@);
    }
}

/// An attempt at GitLab starts with the repository, which the registry is asked for where the
/// crate comes from one, and goes on to the first place where a file might be.
pub proof fn gitlab_attempts_start_with_the_repository(
    provider: GitlabProvider,
    request: Request,
    registry: Option<String>,
    start: Step<GitlabPhase>,
    step: Step<GitlabPhase>,
)
    requires
        gitlab::starts(request, start),
        provider.steps(request, GitlabPhase::AskingRepository, Event::Repository(registry), step),
    ensures
        ({
            let krate = request.krate.resolved;
            &&& krate.source is CratesIo || krate.source is Registry ==> (
            start.action matches Action::QueryRepository { krate: k } && k@ == krate.name@)
                && start.phase is AskingRepository
            &&& !(krate.source is CratesIo || krate.source is Registry) ==> gitlab_goes_on(
                request,
                gitlab::repo_url_of(krate, None),
                start,
            )
            &&& gitlab_goes_on(request, gitlab::repo_url_of(krate, opt_view(registry)), step)
        }),
{
}

/// The first place at the repository is looked at, if there is one.
pub open spec fn gitlab_goes_on(
    request: Request,
    url: Option<Seq<char>>,
    step: Step<GitlabPhase>,
) -> bool {
    let krate = request.krate.resolved;
    match url {
        None => gitlab_has_none(step, "no repository URL available"@),
        Some(u) => {
            let all = candidate_urls_of(u, krate.name@, krate.version@, request.platform@);
            &&& all.len() == 0 ==> gitlab_has_none(step, "no matching release found"@)
            &&& all.len() > 0 ==> (step.action matches Action::Probe { url: p } && p@ == all[0]) && (
            step.phase matches GitlabPhase::Probing { urls, index } && views(urls@) == all && index
                == 0)
        },
    }
}

/// A look at a URL finds a file where the server says so; a server that cannot be reached is
/// told apart from one that has no file.
pub proof fn looks_tell_apart(answer: Result<u16, Error>)
    ensures
        answer matches Ok(status) ==> (probe_of(answer) == Probe::Found <==> 200 <= status <= 299),
        answer matches Ok(status) ==> probe_of(answer) != Probe::Unreachable,
        answer matches Err(e) ==> (probe_of(answer) == Probe::Unreachable <==> (
        e matches Error::HttpRequest { failure, .. } && (failure.connect || failure.timeout
            || failure.request))),
        answer is Err ==> probe_of(answer) != Probe::Found,
{
}

/// What a manifest says of one target overrules what it says of all, setting by setting.
pub proof fn overrides_overrule(
    meta: BinstallMeta,
    others: Seq<(String, BinstallOverride)>,
    target: String,
    over: BinstallOverride,
    name: Seq<char>,
)
    requires
        meta.overrides@ == others.push((target, over)),
    ensures
        target@ == name ==> {
            &&& meta.pkg_url_on(name) == (if over.pkg_url is Some {
                over.pkg_url
            } else {
                meta.pkg_url
            })
            &&& meta.pkg_fmt_on(name) == (if over.pkg_fmt is Some {
                over.pkg_fmt
            } else {
                meta.pkg_fmt
            })
            &&& meta.bin_dir_on(name) == (if over.bin_dir is Some {
                over.bin_dir
            } else {
                meta.bin_dir
            })
        },
{
}

/// Without anything on a target, what is said of all holds there.
pub proof fn without_overrides_all_holds(meta: BinstallMeta, name: Seq<char>)
    requires
        forall|i: int| 0 <= i < meta.overrides@.len() ==> (#[trigger] meta.overrides@[i]).0@ != name,
    ensures
        meta.pkg_url_on(name) == meta.pkg_url,
        meta.pkg_fmt_on(name) == meta.pkg_fmt,
        meta.bin_dir_on(name) == meta.bin_dir,
{
    no_override_is_found(meta.overrides@, name);
}

proof fn no_override_is_found(overrides: Seq<(String, BinstallOverride)>, name: Seq<char>)
    requires
        forall|i: int| 0 <= i < overrides.len() ==> (#[trigger] overrides[i]).0@ != name,
    ensures
        override_for(overrides, name) is None,
    decreases overrides.len(),
{
    if overrides.len() > 0 {
        let before = overrides.drop_last();
        assert(overrides[overrides.len() - 1].0@ != name);
        assert forall|i: int| 0 <= i < before.len() implies (#[trigger] before[i]).0@ != name by {
            assert(overrides[i].0@ != name);
        }
        no_override_is_found(before, name);
    }
}

/// The kinds of archives that a manifest can name.
pub proof fn manifests_name_archives(windows: bool, other: Seq<char>)
    ensures
        archive_suffix_of(Some("txz"@), windows) == ".tar.xz"@,
        archive_suffix_of(Some("tzstd"@), windows) == ".tar.zst"@,
        archive_suffix_of(Some("tbz2"@), windows) == ".tar.bz2"@,
        archive_suffix_of(Some("zip"@), windows) == ".zip"@,
        archive_suffix_of(Some("bin"@), true) == ".exe"@,
        archive_suffix_of(Some("bin"@), false).len() == 0,
        archive_suffix_of(None, windows) == ".tar.gz"@,
        archive_filename_of(Some("txz"@)) == "archive.tar.xz"@,
        archive_filename_of(Some("tzstd"@)) == "archive.tar.zst"@,
        archive_filename_of(Some("tbz2"@)) == "archive.tar.bz2"@,
        archive_filename_of(Some("zip"@)) == "archive.zip"@,
        archive_filename_of(Some("bin"@)) == "archive"@,
        archive_filename_of(None) == "archive.tar.gz"@,
        other != "txz"@ && other != "tzstd"@ && other != "tbz2"@ && other != "zip"@ && other
            != "bin"@ ==> archive_suffix_of(Some(other), windows) == ".tar.gz"@
            && archive_filename_of(Some(other)) == "archive.tar.gz"@,
{
    reveal_strlit("txz");
    reveal_strlit("tzstd");
    reveal_strlit("tbz2");
    reveal_strlit("zip");
    reveal_strlit("bin");
    reveal_strlit("");
    assert("txz"@[0] != "zip"@[0] && "txz"@[0] != "bin"@[0] && "zip"@[0] != "bin"@[0]);
    assert("tzstd"@.len() == 5 && "tbz2"@.len() == 4);
}

/// The step downloads what the template names, filled in for the request, and unpacks it as
/// the format says.
pub open spec fn downloads_template(
    provider: BinstallProvider,
    request: Request,
    template: Seq<char>,
    format: Option<Seq<char>>,
    repo: Option<Seq<char>>,
    step: Step<BinstallPhase>,
) -> bool {
    let krate = request.krate.resolved;
    let ctx = TemplateView {
        name: krate.name@,
        version: krate.version@,
        target: request.platform@,
        archive_suffix: archive_suffix_of(format, provider.windows),
        binary_ext: if provider.windows {
            ".exe"@
        } else {
            ""@
        },
        bin: krate.name@,
        repo,
    };
    &&& step.action matches Action::Download { url } && url@ == rendered(template, ctx)
    &&& step.phase is Delivering
    &&& step.phase->Delivering_0 matches DeliveryPhase::Downloading { archive_name, .. }
        && archive_name@ == archive_filename_of(format)
}

/// The attempt ends without a binary by binstall.
pub open spec fn binstall_has_none(step: Step<BinstallPhase>, why: Seq<char>) -> bool {
    &&& step.phase is Finished
    &&& step.action == Action::Finish(Ok(None))
    &&& step.messages@.len() == 1
    &&& step.messages@[0] matches BinResolutionMessage::ProviderHasNoBinary { provider, reason }
        && provider == BinaryProvider::Binstall && reason@ == why
}

/// What a manifest says for the platform is followed: the template is filled in, with the
/// repository that the registry or the forge names.
pub proof fn binstall_attempts(
    provider: BinstallProvider,
    request: Request,
    start: Step<BinstallPhase>,
    manifest: Option<BinstallMeta>,
    step: Step<BinstallPhase>,
)
    requires
        binstall::starts(request, start),
        provider.steps(request, BinstallPhase::ReadingManifest, Event::Manifest(manifest), step),
    ensures
        start.action matches Action::ReadManifest { crate_path } && crate_path@
            == request.krate.crate_path@,
        start.phase is ReadingManifest,
        ({
            let krate = request.krate.resolved;
            match manifest {
                None => binstall_has_none(step, "no [package.metadata.binstall] in Cargo.toml"@),
                Some(meta) => match meta.pkg_url_on(request.platform@) {
                    None => binstall_has_none(step, "binstall metadata has no pkg-url"@),
                    Some(template) => if krate.source is CratesIo || krate.source is Registry {
                        &&& step.action matches Action::QueryRepository { krate: k } && k@
                            == krate.name@
                        &&& step.phase == (BinstallPhase::AskingRepository {
                            template,
                            pkg_fmt: meta.pkg_fmt_on(request.platform@),
                        })
                    } else {
                        downloads_template(
                            provider,
                            request,
                            template@,
                            opt_view(meta.pkg_fmt_on(request.platform@)),
                            binstall::repo_url_of(krate, None),
                            step,
                        )
                    },
                },
            }
        }),
{
}

/// Once the registry has named the repository, the template is followed.
pub proof fn binstall_attempts_go_on(
    provider: BinstallProvider,
    request: Request,
    template: String,
    pkg_fmt: Option<String>,
    registry: Option<String>,
    step: Step<BinstallPhase>,
)
    requires
        provider.steps(
            request,
            BinstallPhase::AskingRepository { template, pkg_fmt },
            Event::Repository(registry),
            step,
        ),
    ensures
        downloads_template(
            provider,
            request,
            template@,
            opt_view(pkg_fmt),
            binstall::repo_url_of(request.krate.resolved, opt_view(registry)),
            step,
        ),
{
}

/// Once what differs on a target is applied, nothing differs there any more; what differs on
/// other targets is left, and so is their order.
pub proof fn overrides_are_applied_once(
    before: Seq<(String, BinstallOverride)>,
    target: String,
    over: BinstallOverride,
    behind: Seq<(String, BinstallOverride)>,
    meta: BinstallMeta,
    r: BinstallMeta,
)
    requires
        meta.overrides@ == before.push((target, over)) + behind,
        forall|i: int| 0 <= i < before.len() ==> (#[trigger] before[i]).0@ != target@,
        forall|i: int| 0 <= i < behind.len() ==> (#[trigger] behind[i]).0@ != target@,
        meta.merges_to(r, target@),
    ensures
        r.overrides@ == before + behind,
        r.pkg_url == (if over.pkg_url is Some {
            over.pkg_url
        } else {
            meta.pkg_url
        }),
        r.pkg_fmt == (if over.pkg_fmt is Some {
            over.pkg_fmt
        } else {
            meta.pkg_fmt
        }),
        r.bin_dir == (if over.bin_dir is Some {
            over.bin_dir
        } else {
            meta.bin_dir
        }),
        r.pkg_url_on(target@) == r.pkg_url,
        r.pkg_fmt_on(target@) == r.pkg_fmt,
        r.bin_dir_on(target@) == r.bin_dir,
    decreases behind.len(),
{
    let all = meta.overrides@;
    let k = before.len() as int;
    assert(all[k] == (target, over));
    assert forall|i: int| 0 <= i < all.len() && i != k implies (#[trigger] all[i]).0@ != target@ by {
        if i < k {
            assert(all[i] == before[i]);
        } else {
            assert(all[i] == behind[i - k - 1]);
        }
    }
    assert(all.remove(k) =~= before + behind);
    override_is_found(all, k);
    no_override_is_found(r.overrides@, target@);
}

proof fn override_is_found(overrides: Seq<(String, BinstallOverride)>, k: int)
    requires
        0 <= k < overrides.len(),
        forall|i: int|
            0 <= i < overrides.len() && i != k ==> (#[trigger] overrides[i]).0@ != overrides[k].0@,
    ensures
        override_for(overrides, overrides[k].0@) == Some(overrides[k].1),
    decreases overrides.len(),
{
    if k < overrides.len() - 1 {
        let before = overrides.drop_last();
        assert(overrides[overrides.len() - 1].0@ != overrides[k].0@);
        assert forall|i: int| 0 <= i < before.len() && i != k implies (#[trigger] before[i]).0@
            != before[k].0@ by {
            assert(before[i] == overrides[i]);
        }
        override_is_found(before, k);
    }
}

/// Where nothing differs on a target, nothing changes.
pub proof fn nothing_is_applied(meta: BinstallMeta, name: Seq<char>, r: BinstallMeta)
    requires
        forall|i: int| 0 <= i < meta.overrides@.len() ==> (#[trigger] meta.overrides@[i]).0@ != name,
        meta.merges_to(r, name),
    ensures
        r.overrides@ == meta.overrides@,
        r.pkg_url == meta.pkg_url,
        r.pkg_fmt == meta.pkg_fmt,
        r.bin_dir == meta.bin_dir,
{
    without_overrides_all_holds(meta, name);
}

}
