use std::cell::Cell;

use cgx::cache::{Cache, CacheEntry, Renamed};
use cgx::cli::CliArgs;
use cgx::config::{Config, ConfigFile, PlatformDirs};
use cgx::cratespec::{CrateSpec, Forge, RegistrySource};
use cgx::error::Error;
use cgx::git;
use cgx::paths::JoinedPath;
use cgx::resolver::{CachingResolver, DefaultCrateResolver, ResolvedCrate, ResolvedSource};

const SECOND: u128 = 1_000_000_000;

fn test_config(timeout_secs: u128) -> Config {
    let dirs = PlatformDirs {
        config_dir: "/config".to_string(),
        cache_dir: "/cache".to_string(),
        bins_dir: "/data/bins".to_string(),
        build_dir: "/data/build".to_string(),
    };
    let mut file = ConfigFile::default();
    file.resolve_cache_timeout = Some(timeout_secs * SECOND);
    Config::load_from_layers(file, &CliArgs::default(), &dirs)
}

fn test_cache_with_timeout(timeout_secs: u128) -> Cache {
    Cache::new(test_config(timeout_secs))
}

fn test_cache() -> Cache {
    test_cache_with_timeout(3600)
}

fn test_resolved() -> ResolvedCrate {
    ResolvedCrate {
        name: "serde".to_string(),
        version: "1.0.0".to_string(),
        source: ResolvedSource::CratesIo,
    }
}

fn test_resolved_alt() -> ResolvedCrate {
    ResolvedCrate {
        name: "serde".to_string(),
        version: "1.0.1".to_string(),
        source: ResolvedSource::CratesIo,
    }
}

fn entry_at(value: ResolvedCrate, seconds: i128) -> Option<CacheEntry<ResolvedCrate>> {
    Some(CacheEntry::new(value, seconds * 1_000_000_000))
}

fn network_error() -> Error {
    Error::Registry {
        message: "network error".to_string(),
    }
}

fn path_text(path: &JoinedPath) -> String {
    let mut joined = std::path::PathBuf::from(&path.base);
    for segment in &path.segments {
        joined = joined.join(segment);
    }
    joined.to_string_lossy().to_string()
}

#[test]
fn cache_miss_calls_closure() {
    let cache = test_cache();
    let resolved = test_resolved();
    let call_count = Cell::new(0);

    let (result, store) = cache.get_or_resolve(None, 0, || {
        call_count.set(call_count.get() + 1);
        Ok(resolved.clone())
    });

    assert_eq!(result.unwrap(), resolved);
    assert_eq!(call_count.get(), 1);
    assert!(store);
}

#[test]
fn cache_hit_valid_skips_closure() {
    let cache = test_cache();
    let resolved = test_resolved();
    let call_count = Cell::new(0);

    let (result, store) = cache.get_or_resolve(entry_at(resolved.clone(), 0), 1, || {
        call_count.set(call_count.get() + 1);
        Ok(test_resolved_alt())
    });

    assert_eq!(result.unwrap(), resolved);
    assert_eq!(call_count.get(), 0);
    assert!(!store);
}

#[test]
fn cache_hit_expired_calls_closure() {
    let cache = test_cache_with_timeout(0);
    let new_resolved = test_resolved_alt();
    let call_count = Cell::new(0);

    let (result, store) = cache.get_or_resolve(entry_at(test_resolved(), 0), 1_000_000_000, || {
        call_count.set(call_count.get() + 1);
        Ok(new_resolved.clone())
    });

    assert_eq!(result.unwrap(), new_resolved);
    assert_eq!(call_count.get(), 1);
    assert!(store);
}

#[test]
fn network_error_with_stale_returns_stale() {
    let cache = test_cache_with_timeout(0);
    let resolved = test_resolved();

    let (result, store) =
        cache.get_or_resolve(entry_at(resolved.clone(), 0), 1_000_000_000, || {
            Err(network_error())
        });

    assert_eq!(result.unwrap(), resolved);
    assert!(!store);
}

#[test]
fn network_error_without_stale_propagates() {
    let cache = test_cache();

    let (result, _) = cache.get_or_resolve(None, 0, || Err(network_error()));

    assert!(matches!(result.unwrap_err(), Error::Registry { .. }));
}

#[test]
fn io_error_with_stale_returns_stale() {
    let cache = test_cache_with_timeout(0);
    let resolved = test_resolved();

    let (result, _) = cache.get_or_resolve(entry_at(resolved.clone(), 0), 1_000_000_000, || {
        Err(Error::Io {
            message: "io error".to_string(),
        })
    });

    assert_eq!(result.unwrap(), resolved);
}

#[test]
fn other_error_never_uses_stale() {
    let cache = test_cache_with_timeout(0);
    let call_count = Cell::new(0);

    let (result, _) = cache.get_or_resolve(entry_at(test_resolved(), 0), 1_000_000_000, || {
        call_count.set(call_count.get() + 1);
        Err(Error::VersionMismatch {
            requirement: "2.0.0".to_string(),
            found: "1.0.0".to_string(),
        })
    });

    assert_eq!(call_count.get(), 1);
    assert!(matches!(result.unwrap_err(), Error::VersionMismatch { .. }));
}

#[test]
fn successful_resolve_updates_cache() {
    let cache = test_cache_with_timeout(0);
    let new_resolved = test_resolved_alt();

    let (result, store) = cache.get_or_resolve(entry_at(test_resolved(), 0), 1_000_000_000, || {
        Ok(new_resolved.clone())
    });

    assert_eq!(result.unwrap(), new_resolved);
    assert!(store);
}

#[test]
fn source_cache_hit_skips_downloader() {
    let cache = test_cache();
    let resolved = test_resolved();
    let cache_path = cache.source_cache_path(&resolved);
    let call_count = Cell::new(0);

    let result = cache.get_or_download(&resolved, true, |_download_path| {
        call_count.set(call_count.get() + 1);
        Err(Error::Io {
            message: "should not be called".to_string(),
        })
    });

    assert_eq!(result.unwrap().crate_path, cache_path);
    assert_eq!(call_count.get(), 0);
}

#[test]
fn source_cache_miss_calls_downloader() {
    let cache = test_cache();
    let resolved = test_resolved();
    let cache_path = cache.source_cache_path(&resolved);
    let call_count = Cell::new(0);

    let result = cache.get_or_download(&resolved, false, |download_path| {
        call_count.set(call_count.get() + 1);
        assert_eq!(download_path, cache_path);
        Ok(Renamed::Moved)
    });

    assert_eq!(result.unwrap().crate_path, cache_path);
    assert_eq!(call_count.get(), 1);
}

#[test]
fn download_error_without_cache() {
    let cache = test_cache();
    let resolved = test_resolved();

    let result = cache.get_or_download(&resolved, false, |_download_path| {
        Err(Error::Io {
            message: "download failed".to_string(),
        })
    });

    assert!(matches!(result.unwrap_err(), Error::Io { .. }));
}

#[test]
fn lost_races_use_what_the_winner_downloaded() {
    let cache = test_cache();
    let resolved = test_resolved();
    let cache_path = cache.source_cache_path(&resolved);

    let result = cache.get_or_download(&resolved, false, |_| Ok(Renamed::AlreadyExists));
    assert_eq!(result.unwrap().crate_path, cache_path);

    let failed = Error::Io {
        message: "cannot rename".to_string(),
    };
    let result = cache.get_or_download(&resolved, false, |_| Ok(Renamed::Failed(failed.clone())));
    assert_eq!(result, Err(failed));
}

#[test]
fn hash_stability() {
    let json = r#"{"CratesIo":{"name":"serde","version":null}}"#;
    let hash1 = Cache::compute_spec_hash(json);
    let hash2 = Cache::compute_spec_hash(json);
    assert_eq!(hash1, hash2);
}

#[test]
fn hash_uniqueness() {
    let hash1 = Cache::compute_spec_hash(r#"{"CratesIo":{"name":"serde","version":null}}"#);
    let hash2 = Cache::compute_spec_hash(r#"{"CratesIo":{"name":"tokio","version":null}}"#);
    assert_ne!(hash1, hash2);
}

#[test]
fn hashes_are_sha256_in_hexadecimal() {
    assert_eq!(
        Cache::compute_hash(b"abc"),
        "ba7816bf8f01cfea414140de5dae2223b00361a396177a9cb410ff61f20015ad"
    );
    let path = test_cache().resolve_cache_path("abc");
    assert_eq!(
        path.segments,
        vec![
            "resolve",
            "ba7816bf8f01cfea414140de5dae2223b00361a396177a9cb410ff61f20015ad.json"
        ]
    );
}

#[test]
fn cache_path_format_crates_io() {
    let path_str = path_text(&test_cache().source_cache_path(&test_resolved()));

    assert!(path_str.contains("sources"));
    assert!(path_str.contains("crates-io"));
    assert!(path_str.contains("serde"));
    assert!(path_str.contains("1.0.0"));
}

fn crate_from(source: ResolvedSource) -> ResolvedCrate {
    ResolvedCrate {
        name: "test".to_string(),
        version: "1.0.0".to_string(),
        source,
    }
}

#[test]
fn cache_path_format_git() {
    let resolved = crate_from(ResolvedSource::Git {
        repo: "https://github.com/test/test.git".to_string(),
        commit: "abc123".to_string(),
    });

    let path_str = path_text(&test_cache().source_cache_path(&resolved));

    assert!(path_str.contains("sources"));
    assert!(path_str.contains("git"));
    assert!(path_str.contains("abc123"));
}

#[test]
fn cache_path_format_github() {
    let resolved = crate_from(ResolvedSource::Forge {
        forge: Forge::GitHub {
            custom_url: None,
            owner: "owner".to_string(),
            repo: "repo".to_string(),
        },
        commit: "abc123".to_string(),
    });

    let path_str = path_text(&test_cache().source_cache_path(&resolved));

    assert!(path_str.contains("sources"));
    assert!(path_str.contains("github"));
    assert!(path_str.contains("owner"));
    assert!(path_str.contains("repo"));
    assert!(path_str.contains("abc123"));
}

#[test]
fn cache_path_format_gitlab() {
    let resolved = crate_from(ResolvedSource::Forge {
        forge: Forge::GitLab {
            custom_url: None,
            owner: "owner".to_string(),
            repo: "repo".to_string(),
        },
        commit: "def456".to_string(),
    });

    let path_str = path_text(&test_cache().source_cache_path(&resolved));

    assert!(path_str.contains("sources"));
    assert!(path_str.contains("gitlab"));
    assert!(path_str.contains("owner"));
    assert!(path_str.contains("repo"));
    assert!(path_str.contains("def456"));
}

#[test]
fn cache_path_format_registry_named() {
    let resolved = crate_from(ResolvedSource::Registry {
        source: RegistrySource::Named("my-registry".to_string()),
    });

    let path_str = path_text(&test_cache().source_cache_path(&resolved));

    assert!(path_str.contains("sources"));
    assert!(path_str.contains("registry"));
    assert!(path_str.contains("my-registry"));
    assert!(path_str.contains("test"));
    assert!(path_str.contains("1.0.0"));
}

#[test]
fn cache_path_format_registry_index_url() {
    let index_url = url::Url::parse("https://example.com/index").unwrap();
    let resolved = crate_from(ResolvedSource::Registry {
        source: RegistrySource::IndexUrl(index_url.to_string()),
    });

    let path_str = path_text(&test_cache().source_cache_path(&resolved));

    assert!(path_str.contains("sources"));
    assert!(path_str.contains("registry-index"));
    assert!(path_str.contains("test"));
    assert!(path_str.contains("1.0.0"));
}

#[test]
fn ages_are_never_negative() {
    let entry = CacheEntry::new((), 5);
    assert_eq!(entry.age(12), 7);
    assert_eq!(entry.age(5), 0);
    assert_eq!(entry.age(-3), 0);
    let early = CacheEntry::new((), i128::MIN);
    assert_eq!(early.age(i128::MAX), u128::MAX);
    assert_eq!(early.age(-1), (1u128 << 127) - 1);
    assert_eq!(CacheEntry::new("v", 0).into_inner(), "v");
}

#[test]
fn git_urls_share_an_identifier_between_repository_and_checkouts() {
    let cache = test_cache();
    let url = "https://github.com/tokio-rs/tokio.git/";
    let ident = cache.compute_git_ident(url);
    // The name without `.git` and slashes, and the first eight digits of the URL's digest.
    let hash = Cache::compute_hash(url.as_bytes());
    assert_eq!(ident, format!("tokio-{}", &hash[..8]));
    assert_eq!(cache.git_db_path(url).segments, vec!["git-db".to_string(), ident.clone()]);
    assert_eq!(
        cache.git_checkout_path(url, "c1").segments,
        vec!["git-checkouts".to_string(), ident.clone(), "c1".to_string()]
    );
    assert_ne!(cache.git_checkout_path(url, "c1"), cache.git_checkout_path(url, "c2"));
    // Repeated suffixes are all taken off.
    assert!(cache.compute_git_ident("x/y.git.git//").starts_with("y-"));
    assert!(cache.compute_git_ident("").starts_with("-"));
}

#[test]
fn sources_of_different_kinds_are_kept_apart() {
    let cache = test_cache();
    let git = |commit: &str| {
        cache.source_cache_path(&crate_from(ResolvedSource::Git {
            repo: "r".to_string(),
            commit: commit.to_string(),
        }))
    };
    assert_eq!(git("a"), git("a"));
    assert_ne!(git("a"), git("b"));
    let named = cache.source_cache_path(&crate_from(ResolvedSource::Registry {
        source: RegistrySource::Named("x".to_string()),
    }));
    let index = cache.source_cache_path(&crate_from(ResolvedSource::Registry {
        source: RegistrySource::IndexUrl("x".to_string()),
    }));
    assert_ne!(named, index);
}

#[test]
fn only_passing_failures_fall_back_to_old_entries() {
    let cache = test_cache();
    assert!(cache.should_use_stale_cache(&network_error()));
    assert!(cache.should_use_stale_cache(&Error::from(git::Error::InvalidCommitHash {
        hash: "x".to_string()
    })));
    assert!(cache.should_use_stale_cache(&Error::Io {
        message: String::new()
    }));
    assert!(!cache.should_use_stale_cache(&Error::Json {
        message: String::new()
    }));
    assert!(!cache.should_use_stale_cache(&Error::NoProvidersConfigured));
}

#[test]
fn local_directories_are_never_cached() {
    let config = test_config(3600);
    let resolver = CachingResolver::new(DefaultCrateResolver::new(config.clone()), Cache::new(config));
    let spec = CrateSpec::LocalDir {
        path: ".".to_string(),
        name: None,
        version: None,
    };
    // Neither a fresh entry nor a failure that may pass brings the cache in.
    let (result, store) =
        resolver.resolve(&spec, entry_at(test_resolved(), 0), 1, || Ok(test_resolved_alt()));
    assert_eq!(result.unwrap(), test_resolved_alt());
    assert!(!store);
    let (result, _) =
        resolver.resolve(&spec, entry_at(test_resolved(), 0), 1, || Err(network_error()));
    assert_eq!(result, Err(network_error()));
}

#[test]
fn cached_sources_are_there_or_not() {
    let cache = test_cache();
    let resolved = test_resolved();
    assert_eq!(cache.get_cached_source(&resolved, false), None);
    let cached = cache.get_cached_source(&resolved, true).unwrap();
    assert_eq!(cached.crate_path, cache.source_cache_path(&resolved));
    assert_eq!(cached.resolved, resolved);
}
