use std::cell::Cell;

use cgx::bin_resolver::{
    admission, create_resolver, Admission, CachingResolver, DefaultBinaryResolver, FoundBinary,
    ProviderAnswer, ResolvedBinary, SearchAction, SearchEvent, SearchPhase,
};
use cgx::builder::{BuildOptions, Metadata, Package, Target, TargetKind};
use cgx::cache::{BinaryEntry, Cache, CacheEntry, Renamed};
use cgx::cli::CliArgs;
use cgx::config::{
    BinaryProvider, Config, ConfigFile, PlatformDirs, PrebuiltBinariesConfig, UsePrebuiltBinaries,
};
use cgx::cratespec::{CrateSpec, Forge, RegistrySource};
use cgx::downloader::{
    entry_destination, find_version, DefaultCrateDownloader, DownloadPlan, DownloadedCrate,
    IndexAnswer,
};
use cgx::error::Error;
use cgx::git::Error as GitError;
use cgx::messages::BinResolutionMessage;
use cgx::paths::JoinedPath;
use cgx::resolver::{IndexChoice, ResolvedCrate, ResolvedSource};
use cgx::run::{
    awaits, list_targets, next, start, version_line, RunAction, RunEvent, RunPhase,
    Targets,
};
use cgx::version::IndexVersion;

fn config(offline: bool) -> Config {
    let dirs = PlatformDirs {
        config_dir: "/config".to_string(),
        cache_dir: "/cache".to_string(),
        bins_dir: "/data/bins".to_string(),
        build_dir: "/data/build".to_string(),
    };
    let mut file = ConfigFile::defaults();
    file.offline = Some(offline);
    Config::load_from_layers(file, &CliArgs::default(), &dirs)
}

fn krate(source: ResolvedSource) -> ResolvedCrate {
    ResolvedCrate {
        name: "tool".to_string(),
        version: "1.2.3".to_string(),
        source,
    }
}

fn downloader(offline: bool) -> DefaultCrateDownloader {
    DefaultCrateDownloader::new(Cache::new(config(offline)), config(offline))
}

#[test]
fn returns_path_directly() {
    let local = krate(ResolvedSource::LocalDir {
        path: "/work/tool".to_string(),
    });
    assert_eq!(
        downloader(false).download(&local),
        DownloadPlan::Local {
            path: JoinedPath::new("/work/tool")
        }
    );
}

#[test]
fn sources_come_from_where_the_crate_is() {
    let downloader = downloader(false);
    let git = krate(ResolvedSource::Git {
        repo: "https://x/r".to_string(),
        commit: "c".to_string(),
    });
    assert_eq!(
        downloader.download(&git),
        DownloadPlan::Checkout {
            url: "https://x/r".to_string(),
            commit: "c".to_string(),
        }
    );
    let forge = krate(ResolvedSource::Forge {
        forge: Forge::GitHub {
            custom_url: None,
            owner: "o".to_string(),
            repo: "r".to_string(),
        },
        commit: "c".to_string(),
    });
    assert_eq!(
        downloader.download(&forge),
        DownloadPlan::Checkout {
            url: "https://github.com/o/r.git".to_string(),
            commit: "c".to_string(),
        }
    );
    let registry = krate(ResolvedSource::Registry {
        source: RegistrySource::Named("mine".to_string()),
    });
    match downloader.download(&registry) {
        DownloadPlan::Registry { path } => {
            assert_eq!(path, downloader.cache.source_cache_path(&registry));
        }
        other => panic!("unexpected plan {:?}", other),
    }
    let query = downloader.registry_query(&registry).unwrap();
    assert_eq!(query.index, IndexChoice::Named("mine".to_string()));
    assert_eq!(query.name, "tool");
    assert!(!query.cached_only);
    let mut nameless = krate(ResolvedSource::CratesIo);
    nameless.name = "no name".to_string();
    assert!(matches!(
        downloader.registry_query(&nameless),
        Err(Error::Registry { .. })
    ));
}

#[test]
fn downloader_cache_hit_skips_redownload() {
    let called = Cell::new(false);
    let krate = krate(ResolvedSource::CratesIo);
    let downloaded = downloader(false)
        .download_cached(&krate, true, |_| {
            called.set(true);
            Ok(Renamed::Moved)
        })
        .unwrap();
    assert!(!called.get());
    assert_eq!(downloaded.resolved, krate);
}

#[test]
fn downloader_offline_mode_with_cached_works() {
    let krate = krate(ResolvedSource::CratesIo);
    let downloaded = downloader(true)
        .download_cached(&krate, true, |_| unreachable!("offline"))
        .unwrap();
    assert_eq!(
        downloaded.crate_path.segments,
        vec!["sources", "crates-io", "tool", "1.2.3"]
    );
    let git = downloader(true).download_git(&krate, Ok(JoinedPath::new("/tree"))).unwrap();
    assert_eq!(git.crate_path, JoinedPath::new("/tree"));
}

#[test]
fn downloader_offline_mode_without_cached_fails() {
    let krate = krate(ResolvedSource::CratesIo);
    let offline = Error::OfflineMode {
        name: "tool".to_string(),
        version: "1.2.3".to_string(),
    };
    let result = downloader(true).download_cached(&krate, false, |_| unreachable!("offline"));
    assert_eq!(result, Err(offline.clone()));
    let git_error = GitError::InvalidCommitHash {
        hash: "x".to_string(),
    };
    let result = downloader(true).download_git(&krate, Err(git_error.clone()));
    assert_eq!(result, Err(offline));
    // Online the git failure itself comes out.
    let result = downloader(false).download_git(&krate, Err(git_error.clone()));
    assert_eq!(result, Err(Error::Git { source: git_error }));
}

#[test]
fn downloads_are_of_the_exact_version() {
    let entry = |version: &str| IndexVersion {
        version: version.to_string(),
        yanked: true,
    };
    let entries = vec![entry("1.2.30"), entry("junk"), entry("1.2.3"), entry("1.2.3")];
    assert_eq!(find_version(&entries, "tool", "1.2.3"), Ok(2));
    assert_eq!(
        find_version(&entries, "tool", "1.2.4"),
        Err(Error::NoMatchingVersion {
            name: "tool".to_string(),
            requirement: "1.2.4".to_string(),
        })
    );
    let krate = krate(ResolvedSource::CratesIo);
    let downloader = downloader(false);
    assert_eq!(
        downloader.download_registry(&krate, &IndexAnswer::Versions(entries)),
        Ok(2)
    );
    assert_eq!(
        downloader.download_registry(&krate, &IndexAnswer::Missing),
        Err(Error::CrateNotFoundInRegistry {
            name: "tool".to_string()
        })
    );
    assert_eq!(
        downloader.accept_address(&krate, None),
        Err(Error::DownloadUrlUnavailable {
            name: "tool".to_string(),
            version: "1.2.3".to_string(),
        })
    );
    assert_eq!(
        downloader.accept_address(&krate, Some("https://dl".to_string())),
        Ok("https://dl".to_string())
    );
}

#[test]
fn archives_lose_their_top_directory() {
    let parts = |texts: &[&str]| texts.iter().map(|t| t.to_string()).collect::<Vec<_>>();
    let root = JoinedPath::new("/dl");
    assert_eq!(
        entry_destination(&root, &parts(&["serde-1.0.200", "src", "lib.rs"])),
        Some(root.clone().join("src").join("lib.rs"))
    );
    assert_eq!(entry_destination(&root, &parts(&["serde-1.0.200"])), None);
    assert_eq!(entry_destination(&root, &vec![]), None);
}

fn resolver(mode: UsePrebuiltBinaries, providers: Vec<BinaryProvider>) -> DefaultBinaryResolver {
    DefaultBinaryResolver::new(
        config(false),
        PrebuiltBinariesConfig {
            use_prebuilt_binaries: mode,
            binary_providers: providers,
            verify_checksums: true,
        },
    )
}

const LINUX: &str = "x86_64-unknown-linux-gnu";

fn found_by(provider: BinaryProvider) -> SearchEvent {
    SearchEvent::Answered(ProviderAnswer::Found(FoundBinary {
        binary: ResolvedBinary {
            krate: krate(ResolvedSource::CratesIo),
            provider,
            path: JoinedPath::new("/cache/binaries/tool"),
        },
        file_name: Some("tool".to_string()),
    }))
}

#[test]
fn the_first_provider_with_a_binary_wins() {
    let resolver = resolver(
        UsePrebuiltBinaries::Auto,
        vec![
            BinaryProvider::Binstall,
            BinaryProvider::GithubReleases,
            BinaryProvider::Quickinstall,
        ],
    );
    let krate = krate(ResolvedSource::CratesIo);
    let step = resolver.resolve(&krate);
    assert_eq!(
        step.action,
        SearchAction::Ask {
            provider: BinaryProvider::Binstall
        }
    );
    // Every provider is announced, in the configured order.
    assert_eq!(
        step.messages,
        vec![
            BinaryProvider::Binstall,
            BinaryProvider::GithubReleases,
            BinaryProvider::Quickinstall,
        ]
        .into_iter()
        .map(|provider| BinResolutionMessage::CheckingProvider {
            krate: krate.clone(),
            provider,
        })
        .collect::<Vec<_>>()
    );
    let not_found = SearchEvent::Answered(ProviderAnswer::NotFound);
    let step = resolver.next(&krate, LINUX, step.phase, not_found);
    assert_eq!(
        step.action,
        SearchAction::Ask {
            provider: BinaryProvider::GithubReleases
        }
    );
    assert!(step.messages.is_empty());
    let step = resolver.next(&krate, LINUX, step.phase, found_by(BinaryProvider::GithubReleases));
    // The others are asked all the same, but the first binary is used.
    assert_eq!(
        step.action,
        SearchAction::Ask {
            provider: BinaryProvider::Quickinstall
        }
    );
    let step = resolver.next(&krate, LINUX, step.phase, found_by(BinaryProvider::Quickinstall));
    let hash = DefaultBinaryResolver::compute_source_hash(&krate.source);
    let place = JoinedPath::new("/data/bins")
        .join("tool-1.2.3")
        .join(&hash)
        .join("prebuilt-GithubReleases-x86_64-unknown-linux-gnu")
        .join("tool");
    assert_eq!(
        step.action,
        SearchAction::Copy {
            from: JoinedPath::new("/cache/binaries/tool"),
            to: place.clone(),
        }
    );
    let step = resolver.next(&krate, LINUX, step.phase, SearchEvent::Copied);
    match step.action {
        SearchAction::Finish(Ok(Some(binary))) => assert_eq!(binary.path, place),
        other => panic!("unexpected action {:?}", other),
    }
    assert!(!resolver.awaits(&step.phase, &SearchEvent::Copied));
}

#[test]
fn failing_providers_are_passed_over() {
    let krate = krate(ResolvedSource::CratesIo);
    let failed = || {
        SearchEvent::Answered(ProviderAnswer::Failed(Error::BinaryDownloadFailed {
            url: "u".to_string(),
        }))
    };
    let auto = resolver(UsePrebuiltBinaries::Auto, vec![BinaryProvider::Quickinstall]);
    let step = auto.resolve(&krate);
    let step = auto.next(&krate, LINUX, step.phase, failed());
    assert_eq!(step.action, SearchAction::Finish(Ok(None)));
    assert_eq!(
        step.messages,
        vec![BinResolutionMessage::NoBinaryFound {
            krate: krate.clone(),
            reasons: vec!["no binary found from any configured provider".to_string()],
        }]
    );

    let always = resolver(UsePrebuiltBinaries::Always, vec![BinaryProvider::Quickinstall]);
    let step = always.next(&krate, LINUX, SearchPhase::Asking { index: 0, found: None }, failed());
    assert_eq!(
        step.action,
        SearchAction::Finish(Err(Error::PrebuiltBinaryRequired {
            name: "tool".to_string(),
            version: "1.2.3".to_string(),
        }))
    );
}

#[test]
fn a_search_needs_providers_and_a_file_name() {
    let krate = krate(ResolvedSource::CratesIo);
    let none = resolver(UsePrebuiltBinaries::Auto, vec![]);
    assert_eq!(
        none.resolve(&krate).action,
        SearchAction::Finish(Err(Error::NoProvidersConfigured))
    );
    let one = resolver(UsePrebuiltBinaries::Auto, vec![BinaryProvider::Quickinstall]);
    let nameless = SearchEvent::Answered(ProviderAnswer::Found(FoundBinary {
        binary: ResolvedBinary {
            krate: krate.clone(),
            provider: BinaryProvider::Quickinstall,
            path: JoinedPath::new("/"),
        },
        file_name: None,
    }));
    let step = one.next(&krate, LINUX, SearchPhase::Asking { index: 0, found: None }, nameless);
    assert_eq!(
        step.action,
        SearchAction::Finish(Err(Error::Io {
            message: "binary path has no filename".to_string()
        }))
    );
}

#[test]
fn customized_builds_and_never_mode_skip_the_search() {
    let plain = BuildOptions::default();
    let mut custom = BuildOptions::default();
    custom.all_features = true;
    assert_eq!(admission(&plain, UsePrebuiltBinaries::Auto), Admission::Search);
    assert_eq!(admission(&plain, UsePrebuiltBinaries::Always), Admission::Search);
    assert_eq!(
        admission(&plain, UsePrebuiltBinaries::Never),
        Admission::Skip(BinResolutionMessage::PrebuiltBinariesDisabled)
    );
    assert_eq!(
        admission(&custom, UsePrebuiltBinaries::Always),
        Admission::Skip(BinResolutionMessage::DisqualifiedDueToCustomization {
            reason: "--all-features specified".to_string()
        })
    );
}

#[test]
fn source_hashes_are_digests_of_the_source() {
    let hash = |source: ResolvedSource| DefaultBinaryResolver::compute_source_hash(&source);
    let digest = |text: &str| Cache::compute_hash(text.as_bytes())[..16].to_string();
    let text = |t: &str| t.to_string();
    assert_eq!(hash(ResolvedSource::CratesIo), digest("crates-io"));
    assert_eq!(
        hash(ResolvedSource::Registry {
            source: RegistrySource::Named(text("mine"))
        }),
        digest("registry:named:mine")
    );
    assert_eq!(
        hash(ResolvedSource::Registry {
            source: RegistrySource::IndexUrl(text("https://i/"))
        }),
        digest("registry:index:https://i/")
    );
    assert_eq!(
        hash(ResolvedSource::Git {
            repo: text("r"),
            commit: text("c")
        }),
        digest("git:r:c")
    );
    assert_eq!(
        hash(ResolvedSource::LocalDir { path: text("/p") }),
        digest("local:/p")
    );
}

/// A forge as it is held elsewhere, to see that it is shown in the same way.
#[derive(Debug)]
enum ShownForge {
    GitHub {
        custom_url: Option<url::Url>,
        owner: String,
        repo: String,
    },
    GitLab {
        custom_url: Option<url::Url>,
        owner: String,
        repo: String,
    },
}

#[test]
fn forges_are_hashed_as_they_are_shown() {
    let url = url::Url::parse("https://git.example.com:8443/base?q=1#f").unwrap();
    let digest = |shown: &ShownForge| {
        Cache::compute_hash(format!("forge:{:?}:c", shown).as_bytes())[..16].to_string()
    };
    let hash = |forge: Forge| {
        DefaultBinaryResolver::compute_source_hash(&ResolvedSource::Forge {
            forge,
            commit: "c".to_string(),
        })
    };
    let owner = "o\"wner\u{301}\n".to_string();
    let repo = "r".to_string();
    let shown = ShownForge::GitHub {
        custom_url: Some(url.clone()),
        owner: owner.clone(),
        repo: repo.clone(),
    };
    let forge = Forge::GitHub {
        custom_url: Some(url.to_string()),
        owner: owner.clone(),
        repo: repo.clone(),
    };
    assert_eq!(hash(forge), digest(&shown));
    let shown = ShownForge::GitLab {
        custom_url: None,
        owner: owner.clone(),
        repo: repo.clone(),
    };
    let forge = Forge::GitLab {
        custom_url: None,
        owner,
        repo,
    };
    assert_eq!(hash(forge), digest(&shown));
    // Nothing else reads the fields of the shown forge.
    if let ShownForge::GitLab { custom_url, owner, repo } | ShownForge::GitHub { custom_url, owner, repo } = shown {
        assert!(custom_url.is_none() && !owner.is_empty() && !repo.is_empty());
    }
}

#[test]
fn version_lines_carry_known_stamps() {
    let some = |t: &str| Some(t.to_string());
    assert_eq!(
        version_line("1.0.0", &some("abc"), &some("2025-01-01")),
        "cgx 1.0.0 (abc 2025-01-01)"
    );
    assert_eq!(version_line("1.0.0", &None, &some("2025-01-01")), "cgx 1.0.0");
    assert_eq!(version_line("1.0.0", &some("abc"), &None), "cgx 1.0.0");
    assert_eq!(
        version_line("1.0.0", &some("VERGEN_IDEMPOTENT_OUTPUT"), &some("d")),
        "cgx 1.0.0"
    );
    assert_eq!(
        version_line("1.0.0", &some("abc"), &some("VERGEN_IDEMPOTENT_OUTPUT")),
        "cgx 1.0.0"
    );
}

#[test]
fn asking_for_the_version_is_all_that_happens() {
    let mut args = CliArgs::default();
    args.version = Some(String::new());
    let step = start(&args, "1.0.0", &None, &None);
    assert_eq!(
        step.action,
        RunAction::PrintVersion {
            line: "cgx 1.0.0".to_string()
        }
    );
    assert_eq!(step.phase, RunPhase::Finished);
    args.version = Some("14".to_string());
    assert_eq!(start(&args, "1.0.0", &None, &None).action, RunAction::Load);
}

fn downloaded() -> RunEvent {
    RunEvent::Downloaded {
        crate_path: JoinedPath::new("/src/tool"),
    }
}

#[test]
fn a_run_ends_with_the_binary() {
    let mut args = CliArgs::default();
    args.crate_spec = Some("tool@1".to_string());
    args.args = vec!["-x".to_string()];
    args.features = Some("a,b".to_string());
    let resolved = krate(ResolvedSource::CratesIo);
    let step = start(&args, "1.0.0", &None, &None);
    let step = next(&args, step.phase, RunEvent::Loaded(config(false)));
    assert_eq!(
        step.action,
        RunAction::Resolve {
            spec: CrateSpec::load(&config(false), &args).unwrap()
        }
    );
    let step = next(&args, step.phase, RunEvent::Resolved(resolved.clone()));
    assert_eq!(
        step.action,
        RunAction::Download {
            krate: resolved.clone()
        }
    );
    let source = DownloadedCrate {
        resolved,
        crate_path: JoinedPath::new("/src/tool"),
    };
    let options = BuildOptions::load(&config(false), &args).unwrap();
    assert_eq!(options.features, vec!["a".to_string(), "b".to_string()]);
    let step = next(&args, step.phase, downloaded());
    assert_eq!(
        step.action,
        RunAction::Search {
            krate: source.clone(),
            options: options.clone(),
        }
    );
    let searching = step.phase.clone();
    let step = next(&args, step.phase, RunEvent::Searched(None));
    assert_eq!(
        step.action,
        RunAction::Build {
            krate: source,
            options,
        }
    );
    let built = RunEvent::Built(JoinedPath::new("/bin/tool"));
    let step = next(&args, step.phase, built.clone());
    assert_eq!(
        step.action,
        RunAction::Execute {
            path: JoinedPath::new("/bin/tool"),
            args: vec!["-x".to_string()],
        }
    );
    assert!(!awaits(&step.phase, &RunEvent::Loaded(config(false))));

    args.no_exec = true;
    let step = next(&args, RunPhase::Building, built);
    assert_eq!(
        step.action,
        RunAction::PrintPath {
            path: JoinedPath::new("/bin/tool")
        }
    );
    let step = next(&args, searching, RunEvent::Searched(Some(prebuilt_tool())));
    assert_eq!(
        step.action,
        RunAction::PrintPath {
            path: JoinedPath::new("/bins/tool")
        }
    );
}

#[test]
fn a_run_needs_a_crate() {
    let args = CliArgs::default();
    let step = next(&args, RunPhase::Loading, RunEvent::Loaded(config(false)));
    assert_eq!(step.action, RunAction::Fail(Error::MissingCrateParameter));
    assert_eq!(step.phase, RunPhase::Finished);
}

#[test]
fn listing_targets_builds_nothing() {
    let mut args = CliArgs::default();
    args.list_targets = true;
    let downloading = RunPhase::Downloading {
        krate: krate(ResolvedSource::CratesIo),
        options: BuildOptions::default(),
    };
    let step = next(&args, downloading, downloaded());
    assert_eq!(
        step.action,
        RunAction::Inspect {
            crate_path: JoinedPath::new("/src/tool")
        }
    );
    let package = Package {
        id: "tool 1.2.3".to_string(),
        name: "tool".to_string(),
        version: "1.2.3".to_string(),
        targets: vec![
            Target {
                name: "a".to_string(),
                kinds: vec![TargetKind::Bin],
            },
            Target {
                name: "l".to_string(),
                kinds: vec![TargetKind::Other],
            },
            Target {
                name: "e".to_string(),
                kinds: vec![TargetKind::Other, TargetKind::Example],
            },
        ],
        default_run: Some("a".to_string()),
    };
    let inspecting = step.phase.clone();
    let metadata = Metadata {
        packages: vec![package],
        workspace_members: vec![],
    };
    let step = next(&args, step.phase, RunEvent::Inspected(metadata));
    assert_eq!(
        step.action,
        RunAction::PrintLines {
            lines: vec![
                "default_run: a".to_string(),
                "bin: a".to_string(),
                "example: e".to_string(),
            ]
        }
    );
    let empty = Metadata {
        packages: vec![],
        workspace_members: vec![],
    };
    let step = next(&args, inspecting, RunEvent::Inspected(empty));
    assert_eq!(
        step.action,
        RunAction::Fail(Error::PackageNotFoundInWorkspace {
            name: "tool".to_string(),
            available: vec![],
        })
    );
}

#[test]
fn listings_need_something_to_run() {
    let none = Targets {
        default_run: None,
        bins: vec![],
        examples: vec![],
    };
    assert_eq!(
        list_targets("lib", &none),
        Err(Error::NoPackageBinaries {
            krate: "lib".to_string()
        })
    );
    let example = Targets {
        default_run: None,
        bins: vec![],
        examples: vec!["e".to_string()],
    };
    assert_eq!(
        list_targets("lib", &example),
        Ok(vec!["default_run: <not set>".to_string(), "example: e".to_string()])
    );
}

#[test]
fn failures_end_a_run() {
    let resolving = RunPhase::Resolving {
        options: BuildOptions::default(),
    };
    for phase in [RunPhase::Loading, resolving, RunPhase::Building] {
        let event = RunEvent::Failed(Error::MissingCrateParameter);
        assert!(awaits(&phase, &event));
        let step = next(&CliArgs::default(), phase, event);
        assert_eq!(step.action, RunAction::Fail(Error::MissingCrateParameter));
        assert_eq!(step.phase, RunPhase::Finished);
    }
}

#[test]
fn addresses_follow_the_pattern_of_the_registry() {
    let downloader = downloader(false);
    let krate = krate(ResolvedSource::CratesIo);
    assert_eq!(
        downloader.download_address(&krate, "https://crates.io/api/v1/crates", "tool"),
        Ok("https://static.crates.io/crates/tool/tool-1.2.3.crate".to_string())
    );
    assert_eq!(
        downloader.download_address(&krate, "https://r/{prefix}/{crate}-{version}.crate", "Tool"),
        Ok("https://r/To/ol/Tool-1.2.3.crate".to_string())
    );
    assert_eq!(
        downloader.download_address(&krate, "https://r/", "tool"),
        Ok("https://r/tool/1.2.3/download".to_string())
    );
    assert_eq!(
        downloader.download_address(&krate, "https://r", "tool"),
        Ok("https://r/tool/1.2.3/download".to_string())
    );
    assert_eq!(
        downloader.download_address(&krate, "", "tool"),
        Ok("/tool/1.2.3/download".to_string())
    );
    assert_eq!(
        downloader.download_address(&krate, "https://r/", "not a name"),
        Err(Error::DownloadUrlUnavailable {
            name: "tool".to_string(),
            version: "1.2.3".to_string(),
        })
    );
}

fn binaries(offline: bool, mode: UsePrebuiltBinaries) -> CachingResolver {
    let mut prebuilt = PrebuiltBinariesConfig::load(&config(offline), &CliArgs::default());
    prebuilt.use_prebuilt_binaries = mode;
    create_resolver(config(offline), prebuilt, Cache::new(config(offline)))
}

fn prebuilt_tool() -> ResolvedBinary {
    ResolvedBinary {
        krate: krate(ResolvedSource::CratesIo),
        provider: BinaryProvider::GithubReleases,
        path: JoinedPath::new("/bins/tool"),
    }
}

const HOUR: i128 = 3_600_000_000_000;

#[test]
fn negative_cache_persists() {
    let resolver = binaries(false, UsePrebuiltBinaries::Auto);
    let krate = krate(ResolvedSource::CratesIo);
    let options = BuildOptions::default();
    let lookup = BinResolutionMessage::CacheLookup { krate: krate.clone() };

    // First run - checks providers, finds no binary, caches negative result
    let miss = BinResolutionMessage::CacheMiss { krate: krate.clone() };
    assert_eq!(
        resolver.messages(&krate, &options, &None, false, 0),
        vec![lookup.clone(), miss.clone()]
    );
    let (result, keep) = resolver.resolve(&krate, &options, None, false, 0, || Ok(None));
    assert_eq!(result, Ok(None));
    assert!(keep);

    // Second run - should use cached negative result (no provider checks)
    let entry = || -> Option<BinaryEntry> { Some(CacheEntry::new(None, 0)) };
    let hit = BinResolutionMessage::CacheHit { krate: krate.clone() };
    assert_eq!(
        resolver.messages(&krate, &options, &entry(), false, HOUR - 1),
        vec![lookup.clone(), hit]
    );
    let (result, keep) = resolver.resolve(&krate, &options, entry(), false, HOUR - 1, || {
        unreachable!("negative result cached")
    });
    assert_eq!(result, Ok(None));
    assert!(!keep);

    // Once it is too old, the providers are asked again.
    assert_eq!(
        resolver.messages(&krate, &options, &entry(), false, HOUR),
        vec![lookup, miss]
    );
    let (result, keep) =
        resolver.resolve(&krate, &options, entry(), false, HOUR, || Ok(Some(prebuilt_tool())));
    assert_eq!(result, Ok(Some(prebuilt_tool())));
    assert!(keep);

    // Where only a prebuilt binary will do, having none is an error, cached or not.
    let resolver = binaries(false, UsePrebuiltBinaries::Always);
    let (result, _) =
        resolver.resolve(&krate, &options, entry(), false, 1, || unreachable!("cached"));
    assert_eq!(
        result,
        Err(Error::PrebuiltBinaryRequired {
            name: "tool".to_string(),
            version: "1.2.3".to_string(),
        })
    );
}

#[test]
fn refresh_bypasses_binary_cache() {
    let resolver = binaries(false, UsePrebuiltBinaries::Auto);
    let krate = krate(ResolvedSource::CratesIo);
    let options = BuildOptions::default();
    let entry = || -> Option<BinaryEntry> { Some(CacheEntry::new(None, 0)) };
    assert!(resolver.messages(&krate, &options, &entry(), true, 1).is_empty());
    let (result, keep) =
        resolver.resolve(&krate, &options, entry(), true, 1, || Ok(Some(prebuilt_tool())));
    assert_eq!(result, Ok(Some(prebuilt_tool())));
    assert!(keep);
    // A failure is not covered by what is bypassed, but an old entry covers it.
    let failure = || Error::Io {
        message: "disk".to_string(),
    };
    let (result, keep) =
        resolver.resolve(&krate, &options, entry(), true, 1, || Err(failure()));
    assert_eq!(result, Err(failure()));
    assert!(!keep);
    let (result, keep) =
        resolver.resolve(&krate, &options, entry(), false, HOUR, || Err(failure()));
    assert_eq!(result, Ok(None));
    assert!(!keep);
    let (result, _) = resolver.resolve(&krate, &options, entry(), false, HOUR, || {
        Err(Error::NoProvidersConfigured)
    });
    assert_eq!(result, Err(Error::NoProvidersConfigured));
}

#[test]
fn offline_no_provider_is_asked() {
    let resolver = binaries(true, UsePrebuiltBinaries::Auto);
    let krate = krate(ResolvedSource::CratesIo);
    let options = BuildOptions::default();
    for refresh in [false, true] {
        let (result, keep) =
            resolver.resolve(&krate, &options, None, refresh, 0, || unreachable!("offline"));
        assert_eq!(result, Ok(None));
        assert!(!keep);
        let old = Some(CacheEntry::new(Some(prebuilt_tool()), 0));
        let (result, _) =
            resolver.resolve(&krate, &options, old, refresh, 9 * HOUR, || unreachable!("offline"));
        assert_eq!(result, Ok(Some(prebuilt_tool())));
    }
}

#[test]
fn builds_that_have_no_prebuilt_binary_ignore_the_cache() {
    let krate = krate(ResolvedSource::CratesIo);
    let entry = || Some(CacheEntry::new(Some(prebuilt_tool()), 0));
    let mut customized = BuildOptions::default();
    customized.all_features = true;
    let resolver = binaries(false, UsePrebuiltBinaries::Auto);
    let (result, keep) =
        resolver.resolve(&krate, &customized, entry(), false, 1, || unreachable!("customized"));
    assert_eq!(result, Ok(None));
    assert!(!keep);
    assert_eq!(
        resolver.messages(&krate, &customized, &entry(), false, 1),
        vec![BinResolutionMessage::DisqualifiedDueToCustomization {
            reason: "--all-features specified".to_string()
        }]
    );
    let resolver = binaries(false, UsePrebuiltBinaries::Never);
    let options = BuildOptions::default();
    let (result, _) =
        resolver.resolve(&krate, &options, entry(), false, 1, || unreachable!("never"));
    assert_eq!(result, Ok(None));
    assert_eq!(
        resolver.messages(&krate, &options, &entry(), false, 1),
        vec![BinResolutionMessage::PrebuiltBinariesDisabled]
    );
    // With the defaults again the cached binary is used.
    let resolver = binaries(false, UsePrebuiltBinaries::Auto);
    let (result, _) =
        resolver.resolve(&krate, &options, entry(), false, 1, || unreachable!("cached"));
    assert_eq!(result, Ok(Some(prebuilt_tool())));
    let a = resolver.cache.binary_entry_path("a");
    assert_eq!(a.segments[0], "resolve-binary");
    assert_eq!(a.segments[1], format!("{}.json", Cache::compute_hash(b"a")));
}
