//! Constructors: what is made holds what it was made from.
use vstd::prelude::*;

use crate::bin_resolver::{CachingResolver, DefaultBinaryResolver};
use crate::builder::BuildOptions;
use crate::cache::{Cache, CacheEntry};
use crate::cli::CliArgs;
use crate::config::{BinaryProvider, Config, HttpConfig, PrebuiltBinariesConfig};
use crate::downloader::{create_downloader, DefaultCrateDownloader};
use crate::git_client::GitClient;
use crate::paths::JoinedPath;
use crate::providers::binstall::BinstallProvider;
use crate::providers::delivery::Delivery;
use crate::providers::github::GithubProvider;
use crate::providers::gitlab::GitlabProvider;
use crate::providers::quickinstall::QuickinstallProvider;
use crate::resolver;
use crate::resolver::DefaultCrateResolver;

verus! {

/// The deliveries of a provider: its own, to the cache that was given, verified or not.
pub open spec fn delivers_for(
    delivery: Delivery,
    provider: BinaryProvider,
    cache_dir: JoinedPath,
    verify: bool,
    exe_suffix: String,
) -> bool {
    &&& delivery.provider == provider
    &&& delivery.cache_dir == cache_dir
    &&& delivery.verify_checksums == verify
    &&& delivery.exe_suffix == exe_suffix
}

/// Each provider delivers under its own name, and verifies checksums where it is told to.
/// Quickinstall publishes no checksums, so there are none to verify.
pub proof fn providers_deliver_under_their_names(
    cache_dir: JoinedPath,
    verify: bool,
    exe_suffix: String,
    windows: bool,
    binstall: BinstallProvider,
    github: GithubProvider,
    gitlab: GitlabProvider,
    quickinstall: QuickinstallProvider,
)
    requires
        call_ensures(BinstallProvider::new, (cache_dir, verify, exe_suffix, windows), binstall),
        call_ensures(GithubProvider::new, (cache_dir, verify, exe_suffix), github),
        call_ensures(GitlabProvider::new, (cache_dir, verify, exe_suffix), gitlab),
        call_ensures(QuickinstallProvider::new, (cache_dir, exe_suffix), quickinstall),
    ensures
        delivers_for(
            binstall.delivery,
            BinaryProvider::Binstall,
            cache_dir,
            verify,
            exe_suffix,
        ),
        binstall.windows == windows,
        delivers_for(
            github.delivery,
            BinaryProvider::GithubReleases,
            cache_dir,
            verify,
            exe_suffix,
        ),
        delivers_for(
            gitlab.delivery,
            BinaryProvider::GitlabReleases,
            cache_dir,
            verify,
            exe_suffix,
        ),
        delivers_for(
            quickinstall.delivery,
            BinaryProvider::Quickinstall,
            cache_dir,
            false,
            exe_suffix,
        ),
{
}

/// Caches, downloaders and resolvers keep what they were made from.
pub proof fn parts_keep_what_they_were_made_from(
    config: Config,
    prebuilt: PrebuiltBinariesConfig,
    inner: DefaultBinaryResolver,
    cache: Cache,
    made_cache: Cache,
    downloader: DefaultCrateDownloader,
    resolver: DefaultBinaryResolver,
    caching: CachingResolver,
    crates: DefaultCrateResolver,
    inner_crates: DefaultCrateResolver,
    caching_crates: resolver::CachingResolver,
    created: resolver::CachingResolver,
    created_downloader: DefaultCrateDownloader,
    http: HttpConfig,
    git: GitClient,
)
    requires
        call_ensures(DefaultCrateResolver::new, (config,), crates),
        call_ensures(resolver::CachingResolver::new, (inner_crates, cache), caching_crates),
        call_ensures(resolver::create_resolver, (config, cache), created),
        call_ensures(create_downloader, (config, cache), created_downloader),
        call_ensures(GitClient::new, (cache, http), git),
        call_ensures(Cache::new, (config,), made_cache),
        call_ensures(DefaultCrateDownloader::new, (cache, config), downloader),
        call_ensures(DefaultBinaryResolver::new, (config, prebuilt), resolver),
        call_ensures(CachingResolver::new, (inner, cache), caching),
    ensures
        made_cache.config == config,
        downloader.cache == cache && downloader.config == config,
        resolver.config == config && resolver.prebuilt_binaries == prebuilt,
        caching.inner == inner && caching.cache == cache,
        crates.config == config,
        caching_crates.inner == inner_crates && caching_crates.cache == cache,
        created.inner.config == config && created.cache == cache,
        created_downloader.config == config && created_downloader.cache == cache,
        git.cache == cache && git.http_config == http,
{
}

/// An entry holds its value and the time at which it was made, so that it has no age then.
pub proof fn entries_are_new_when_they_are_made<T>(value: T, now: i128, entry: CacheEntry<T>)
    requires
        call_ensures(CacheEntry::<T>::new, (value, now), entry),
    ensures
        entry.value == value,
        entry.cached_at == now,
        entry.spec_age(now) == 0,
{
}

/// Without options nothing is asked for: no source, no switch, no argument.
pub proof fn nothing_is_asked_for_without_options(args: CliArgs, options: BuildOptions)
    requires
        call_ensures(CliArgs::default, (), args),
        call_ensures(BuildOptions::default, (), options),
    ensures
        args.git is None && args.registry is None && args.path is None && args.github is None
            && args.gitlab is None && args.index is None,
        args.branch is None && args.tag is None && args.rev is None && args.version is None,
        args.features is None && !args.all_features && !args.no_default_features,
        args.profile is None && !args.debug && args.target is None && args.toolchain is None,
        !args.locked && !args.frozen && !args.offline && !args.no_exec && !args.list_targets,
        args.crate_spec is None && args.args@.len() == 0 && args.verbose == 0,
        args.prebuilt_binary is None && args.prebuilt_binary_sources is None && !args.refresh,
        options.features@.len() == 0 && !options.all_features && !options.no_default_features,
        options.profile is None && options.target is None && options.toolchain is None,
        !options.locked && !options.offline && !options.ignore_rust_version,
        options.jobs is None && options.build_target is DefaultBin,
{
}

/// A location is its base and the segments joined onto it, in their order, and a copy is the
/// same location.
pub proof fn locations_grow_by_their_segments(
    base: &str,
    segment: &str,
    place: JoinedPath,
    below: JoinedPath,
    copy: JoinedPath,
)
    requires
        call_ensures(JoinedPath::join, (place, segment), below),
        call_ensures(JoinedPath::copied, (&place,), copy),
    ensures
        below@.base == place@.base,
        below@.segments == place@.segments + seq![segment@],
        copy@.base == place@.base && copy@.segments == place@.segments,
        call_ensures(JoinedPath::new, (base,), place) ==> place@.base == base@
            && place@.segments.len() == 0,
{
    assert(place@.segments.push(segment@) =~= place@.segments + seq![segment@]);
}

}
