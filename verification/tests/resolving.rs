use cgx::cache::{Cache, CacheEntry};
use cgx::cli::CliArgs;
use cgx::config::{Config, ConfigFile, PlatformDirs};
use cgx::cratespec::{CrateSpec, Forge, GitSelector, RegistrySource};
use cgx::builder::Package;
use cgx::error::Error;
use cgx::git::Error as GitError;
use cgx::registry::check_name;
use cgx::resolver::{
    CachingResolver, CloneSource, DefaultCrateResolver, Findings, IndexChoice, RegistryQuery,
    ResolutionPlan, ResolvedCrate, ResolvedSource,
};
use cgx::version::{select_version, IndexVersion};

const SECOND: i128 = 1_000_000_000;

fn config(offline: bool) -> Config {
    let dirs = PlatformDirs {
        config_dir: "/config".to_string(),
        cache_dir: "/cache".to_string(),
        bins_dir: "/data/bins".to_string(),
        build_dir: "/data/build".to_string(),
    };
    let mut file = ConfigFile::defaults();
    file.offline = Some(offline);
    Config::load_from_layers(file, &CliArgs::default(), &dirs)
}

fn caching(offline: bool) -> CachingResolver {
    let config = config(offline);
    CachingResolver::new(DefaultCrateResolver::new(config.clone()), Cache::new(config))
}

/// Resolve a specification for which nothing is cached, given what is found out for it.
fn resolve(spec: &CrateSpec, findings: Findings) -> Result<ResolvedCrate, Error> {
    let resolver = caching(false);
    resolver
        .resolve(spec, None, 0, || resolver.inner.resolve(spec, findings))
        .0
}

fn package(name: &str, version: &str) -> Package {
    Package {
        id: name.to_string(),
        name: name.to_string(),
        version: version.to_string(),
        targets: vec![],
        default_run: None,
    }
}

fn requirement(text: &str) -> Option<String> {
    Some(semver::VersionReq::parse(text).unwrap().to_string())
}

fn local(name: Option<&str>, version: Option<String>) -> CrateSpec {
    CrateSpec::LocalDir {
        path: "/work/cgx".to_string(),
        name: name.map(|n| n.to_string()),
        version,
    }
}

fn cgx_here() -> Findings {
    Findings::LocalDir {
        packages: vec![package("cgx", "0.0.6")],
    }
}

fn two_packages() -> Findings {
    Findings::LocalDir {
        packages: vec![package("package-one", "0.1.0"), package("package-two", "0.2.0")],
    }
}

#[test]
fn cgx_no_name() {
    let resolved = resolve(&local(None, None), cgx_here()).unwrap();
    assert_eq!(resolved.name, "cgx");
    assert!(matches!(resolved.source, ResolvedSource::LocalDir { .. }));
}

#[test]
fn cgx_with_name() {
    let resolved = resolve(&local(Some("cgx"), None), cgx_here()).unwrap();
    assert_eq!(resolved.name, "cgx");
}

#[test]
fn wrong_name() {
    let result = resolve(&local(Some("not-cgx"), None), cgx_here());
    assert!(matches!(
        result.unwrap_err(),
        Error::PackageNotFoundInWorkspace { .. }
    ));
}

#[test]
fn version_matches_exactly() {
    // Use the exact version from the actual crate; of course that matches
    let resolved = resolve(&local(None, requirement("=0.0.6")), cgx_here()).unwrap();
    assert_eq!(resolved.version, "0.0.6");

    // Use a version requirement that will match but isn't the actual version
    let resolved = resolve(&local(None, requirement(">0.0.1")), cgx_here()).unwrap();
    assert_eq!(resolved.version, "0.0.6");
}

#[test]
fn resolver_version_mismatch() {
    let result = resolve(&local(None, requirement(">=999.0.0")), cgx_here());
    assert!(matches!(result.unwrap_err(), Error::VersionMismatch { .. }));

    let spec = rustlings(GitSelector::DefaultBranch, requirement(">=999.0.0"));
    let result = resolve(&spec, rustlings_at("c0ffee"));
    assert_eq!(
        result.unwrap_err(),
        Error::VersionMismatch {
            requirement: ">=999.0.0".to_string(),
            found: "6.0.0".to_string(),
        }
    );
}

#[test]
fn workspace_ambiguity() {
    let result = resolve(&local(None, None), two_packages());
    assert_eq!(result.unwrap_err(), Error::AmbiguousPackageName { count: 2 });
}

#[test]
fn workspace_with_name() {
    let resolved = resolve(&local(Some("package-one"), None), two_packages()).unwrap();
    assert_eq!(resolved.name, "package-one");
    assert_eq!(resolved.version, "0.1.0");
}

fn index(versions: &[(&str, bool)]) -> Findings {
    Findings::Registry(Some(
        versions
            .iter()
            .map(|(version, yanked)| IndexVersion {
                version: version.to_string(),
                yanked: *yanked,
            })
            .collect(),
    ))
}

fn serde_index() -> Findings {
    index(&[
        ("0.9.15", false),
        ("1.0.9", false),
        ("1.0.10", false),
        ("1.0.11", true),
        ("2.0.0-rc.1", false),
        ("not-a-version", false),
        ("1.0.2", false),
    ])
}

fn on_crates_io(name: &str, version: Option<String>) -> CrateSpec {
    CrateSpec::CratesIo {
        name: name.to_string(),
        version,
    }
}

#[test]
fn serde_latest() {
    let resolved = resolve(&on_crates_io("serde", None), serde_index()).unwrap();
    assert_eq!(resolved.name, "serde");
    assert_eq!(resolved.version, "1.0.10");
    assert!(matches!(resolved.source, ResolvedSource::CratesIo));
}

#[test]
fn with_version() {
    let version_req = semver::VersionReq::parse("^1.0").unwrap();
    let spec = on_crates_io("serde", Some(version_req.to_string()));
    let resolved = resolve(&spec, serde_index()).unwrap();
    assert_eq!(resolved.name, "serde");
    assert!(version_req.matches(&semver::Version::parse(&resolved.version).unwrap()));
}

#[test]
fn star_version() {
    let spec = on_crates_io("tokio", Some(semver::VersionReq::STAR.to_string()));
    let resolved = resolve(&spec, index(&[("1.47.0", false), ("1.48.0", false)])).unwrap();
    assert_eq!(resolved.name, "tokio");
    assert_eq!(resolved.version, "1.48.0");
}

#[test]
fn nonexistent() {
    let spec = on_crates_io("definitely-not-a-real-crate-xyzzy-12345", None);
    let result = resolve(&spec, Findings::Registry(None));
    assert!(matches!(
        result.unwrap_err(),
        Error::CrateNotFoundInRegistry { .. }
    ));
}

#[test]
fn non_existent_version() {
    let spec = on_crates_io("serde", requirement(">=999.0.0"));
    let result = resolve(&spec, serde_index());
    assert!(matches!(result.unwrap_err(), Error::NoMatchingVersion { .. }));
}

#[test]
fn selects_highest_version() {
    let version_req = semver::VersionReq::parse(">=1.0.0").unwrap();
    let spec = on_crates_io("serde", Some(version_req.to_string()));
    let resolved = resolve(&spec, serde_index()).unwrap();
    let version = semver::Version::parse(&resolved.version).unwrap();
    assert!(version.major >= 1);
    assert!(version_req.matches(&version));
    assert_eq!(resolved.version, "1.0.10");
}

#[test]
fn offline_without_cached_fails() {
    let resolver = caching(true);
    let spec = on_crates_io("definitely-not-real-crate-xyzzy-offline-99999", None);
    assert_eq!(
        resolver.inner.plan(&spec),
        Ok(ResolutionPlan::Registry(RegistryQuery {
            index: IndexChoice::CratesIo,
            name: "definitely-not-real-crate-xyzzy-offline-99999".to_string(),
            cached_only: true,
        }))
    );
    let (result, _) = resolver.resolve(&spec, None, 0, || {
        resolver.inner.resolve(&spec, Findings::Registry(None))
    });
    assert_eq!(
        result.unwrap_err(),
        Error::OfflineMode {
            name: "definitely-not-real-crate-xyzzy-offline-99999".to_string(),
            version: "*".to_string(),
        }
    );
}

#[test]
fn offline_with_cached_works() {
    let spec = on_crates_io("serde", requirement("^1.0"));
    let online_resolved = resolve(&spec, serde_index()).unwrap();

    // Now try offline mode - should work because the crate resolution is cached
    let entry = Some(CacheEntry::new(online_resolved.clone(), 0));
    let (offline_resolved, _) = caching(true).resolve(&spec, entry, SECOND, || {
        unreachable!("a fresh entry needs no resolver")
    });
    assert_eq!(offline_resolved.unwrap(), online_resolved);
}

#[test]
fn stale_invalid_crate_returned_in_offline_mode() {
    let resolver = caching(true);
    let timeout = resolver.cache.config.resolve_cache_timeout as i128;
    let spec = on_crates_io("+invalid-crate-name", None);
    let fake_resolved = ResolvedCrate {
        name: "+invalid-crate-name".to_string(),
        version: "1.0.0".to_string(),
        source: ResolvedSource::CratesIo,
    };
    // A stale entry, older than the timeout. The registry refuses the name.
    let entry = Some(CacheEntry::new(fake_resolved.clone(), 0));
    let (resolved, _) = resolver.resolve(&spec, entry, timeout + SECOND, || {
        resolver.inner.plan(&spec).map(|_| unreachable!("the name is refused"))
    });
    assert_eq!(resolved.unwrap(), fake_resolved);
}

#[test]
fn cache_serves_non_stale_entry_without_registry_lookup() {
    let spec = on_crates_io("serde", None);
    let fake_resolved = ResolvedCrate {
        name: "serde".to_string(),
        version: "999.99.99".to_string(),
        source: ResolvedSource::CratesIo,
    };
    let entry = Some(CacheEntry::new(fake_resolved, 0));
    let (resolved, _) = caching(false).resolve(&spec, entry, SECOND, || {
        unreachable!("the registry is not asked")
    });
    let resolved = resolved.expect("Should return cached entry");
    assert_eq!(resolved.name, "serde");
    assert_eq!(resolved.version, "999.99.99");
}

#[test]
fn stale_cache_not_used_for_permanent_errors() {
    let resolver = caching(false);
    let timeout = resolver.cache.config.resolve_cache_timeout as i128;
    let spec = on_crates_io("serde", requirement("=999.99.99"));
    let fake_resolved = ResolvedCrate {
        name: "serde".to_string(),
        version: "999.99.99".to_string(),
        source: ResolvedSource::CratesIo,
    };
    let entry = Some(CacheEntry::new(fake_resolved, 0));
    let (result, _) = resolver.resolve(&spec, entry, timeout + SECOND, || {
        resolver.inner.resolve(&spec, serde_index())
    });
    assert!(matches!(result.unwrap_err(), Error::NoMatchingVersion { .. }));
}

const RUSTLINGS: &str = "https://github.com/rust-lang/rustlings.git";

fn rustlings(selector: GitSelector, version: Option<String>) -> CrateSpec {
    CrateSpec::Git {
        repo: RUSTLINGS.to_string(),
        selector,
        name: Some("rustlings".to_string()),
        version,
    }
}

fn rustlings_on_github(selector: GitSelector) -> CrateSpec {
    CrateSpec::Forge {
        forge: Forge::GitHub {
            custom_url: None,
            owner: "rust-lang".to_string(),
            repo: "rustlings".to_string(),
        },
        selector,
        name: Some("rustlings".to_string()),
        version: None,
    }
}

fn rustlings_at(commit: &str) -> Findings {
    Findings::Git {
        commit: commit.to_string(),
        packages: vec![package("rustlings", "6.0.0"), package("rustlings-macros", "6.0.0")],
    }
}

fn clone_of(spec: &CrateSpec) -> CloneSource {
    match DefaultCrateResolver::new(config(false)).plan(spec) {
        Ok(ResolutionPlan::Git { clone, .. }) => clone,
        other => panic!("unexpected plan {:?}", other),
    }
}

#[test]
fn default_branch() {
    let spec = rustlings(GitSelector::DefaultBranch, None);
    assert_eq!(
        clone_of(&spec),
        CloneSource::Shallow {
            url: RUSTLINGS.to_string(),
            expected_ref: None,
        }
    );
    let resolved = resolve(&spec, rustlings_at("c0ffee")).unwrap();
    assert_eq!(resolved.name, "rustlings");
    if let ResolvedSource::Git { repo, commit } = &resolved.source {
        assert_eq!(repo, RUSTLINGS);
        assert_eq!(commit, "c0ffee");
    } else {
        panic!("Expected Git source, got {:?}", resolved.source);
    }
}

#[test]
fn with_branch() {
    let spec = rustlings(GitSelector::Branch("main".to_string()), None);
    assert_eq!(
        clone_of(&spec),
        CloneSource::Shallow {
            url: format!("{}#refs/heads/main", RUSTLINGS),
            expected_ref: Some("refs/heads/main".to_string()),
        }
    );
    let resolved = resolve(&spec, rustlings_at("c0ffee")).unwrap();
    if let ResolvedSource::Git { commit, .. } = &resolved.source {
        assert!(!commit.is_empty());
    } else {
        panic!("Expected Git source, got {:?}", resolved.source);
    }
}

#[test]
fn with_tag() {
    let spec = rustlings(GitSelector::Tag("v6.0.0".to_string()), None);
    assert_eq!(
        clone_of(&spec),
        CloneSource::Shallow {
            url: format!("{}#refs/tags/v6.0.0", RUSTLINGS),
            expected_ref: Some("refs/tags/v6.0.0".to_string()),
        }
    );
    let resolved = resolve(&spec, rustlings_at("c0ffee")).unwrap();
    if let ResolvedSource::Git { commit, .. } = &resolved.source {
        assert!(!commit.is_empty());
    } else {
        panic!("Expected Git source, got {:?}", resolved.source);
    }
}

#[test]
fn with_commit() {
    let commit = "28d2bb04326d7036514245d73f10fb72b9ed108c";
    let spec = rustlings(GitSelector::Commit(commit.to_string()), None);
    assert_eq!(
        clone_of(&spec),
        CloneSource::AtCommit {
            url: RUSTLINGS.to_string(),
            commit: commit.to_string(),
        }
    );
    let resolved = resolve(&spec, rustlings_at(commit)).unwrap();
    assert_eq!(resolved.name, "rustlings");
    if let ResolvedSource::Git { repo, commit: c } = &resolved.source {
        assert_eq!(repo, RUSTLINGS);
        assert_eq!(c, commit);
    } else {
        panic!("Expected Git source, got {:?}", resolved.source);
    }
}

#[test]
fn github() {
    let spec = rustlings_on_github(GitSelector::DefaultBranch);
    match DefaultCrateResolver::new(config(false)).plan(&spec) {
        Ok(ResolutionPlan::Git { repo, .. }) => assert_eq!(repo, RUSTLINGS),
        other => panic!("unexpected plan {:?}", other),
    }
    let resolved = resolve(&spec, rustlings_at("c0ffee")).unwrap();
    assert_eq!(resolved.name, "rustlings");
    if let ResolvedSource::Forge { forge, commit } = &resolved.source {
        assert!(matches!(forge, Forge::GitHub { .. }));
        assert!(!commit.is_empty());
    } else {
        panic!("Expected Forge source, got {:?}", resolved.source);
    }
}

#[test]
fn github_with_branch() {
    let spec = rustlings_on_github(GitSelector::Branch("main".to_string()));
    let resolved = resolve(&spec, rustlings_at("c0ffee")).unwrap();
    if let ResolvedSource::Forge { forge, commit } = &resolved.source {
        assert!(matches!(forge, Forge::GitHub { .. }));
        assert!(!commit.is_empty());
    } else {
        panic!("Expected Forge source, got {:?}", resolved.source);
    }
}

#[test]
fn github_with_tag() {
    let spec = rustlings_on_github(GitSelector::Tag("v6.0.0".to_string()));
    let resolved = resolve(&spec, rustlings_at("c0ffee")).unwrap();
    if let ResolvedSource::Forge { forge, commit } = &resolved.source {
        assert!(matches!(forge, Forge::GitHub { .. }));
        assert!(!commit.is_empty());
    } else {
        panic!("Expected Forge source, got {:?}", resolved.source);
    }
}

#[test]
fn crates_io() {
    let resolved = resolve(&on_crates_io("serde", None), serde_index()).unwrap();
    assert_eq!(resolved.name, "serde");
    assert!(matches!(resolved.source, ResolvedSource::CratesIo));
}

#[test]
fn local_dir() {
    let resolved = resolve(&local(None, None), cgx_here()).unwrap();
    assert_eq!(resolved.name, "cgx");
}

#[test]
fn git() {
    let spec = rustlings(GitSelector::DefaultBranch, None);
    let resolved = resolve(&spec, rustlings_at("c0ffee")).unwrap();
    assert!(matches!(resolved.source, ResolvedSource::Git { .. }));
}

#[test]
fn git_failures_pass_through_the_cache() {
    // A selector that names nothing is a failure that may pass, but there is no old entry.
    let spec = rustlings(GitSelector::Branch("nonexistent-branch-xyzzy-99999".to_string()), None);
    let error = Error::from(GitError::ResolveSelector {
        message: "Branch 'nonexistent-branch-xyzzy-99999' not found".to_string(),
        reason: String::new(),
    });
    let (result, _) = caching(false).resolve(&spec, None, 0, || Err(error.clone()));
    assert!(matches!(result.unwrap_err(), Error::Git { .. }));
}

#[test]
fn forge() {
    let spec = rustlings_on_github(GitSelector::DefaultBranch);
    let resolved = resolve(&spec, rustlings_at("c0ffee")).unwrap();
    assert!(matches!(resolved.source, ResolvedSource::Forge { .. }));
}

#[test]
fn registries_are_asked_at_their_index() {
    let resolver = DefaultCrateResolver::new(config(false));
    let query = |source: RegistrySource| match resolver.plan(&CrateSpec::Registry {
        source,
        name: "x".to_string(),
        version: None,
    }) {
        Ok(ResolutionPlan::Registry(query)) => query,
        other => panic!("unexpected plan {:?}", other),
    };
    assert_eq!(
        query(RegistrySource::Named("mine".to_string())).index,
        IndexChoice::Named("mine".to_string())
    );
    let by_url = query(RegistrySource::IndexUrl("https://i/".to_string()));
    assert_eq!(by_url.index, IndexChoice::Url("https://i/".to_string()));
    assert!(!by_url.cached_only);

    let spec = CrateSpec::Registry {
        source: RegistrySource::Named("mine".to_string()),
        name: "x".to_string(),
        version: None,
    };
    assert_eq!(
        resolve(&spec, index(&[("0.1.0", false)])).unwrap().source,
        ResolvedSource::Registry {
            source: RegistrySource::Named("mine".to_string())
        }
    );
}

#[test]
fn yanked_and_malformed_versions_are_passed_over() {
    let entry = |version: &str, yanked| IndexVersion {
        version: version.to_string(),
        yanked,
    };
    let entries = vec![
        entry("1.2.0", false),
        entry("9.0.0", true),
        entry("banana", false),
        entry("1.10.0", false),
        entry("1.9.0", false),
    ];
    assert_eq!(select_version(&entries, "*"), Some(3));
    assert_eq!(select_version(&entries, "<1.9"), Some(0));
    assert_eq!(select_version(&entries, "^9"), None);
    assert_eq!(select_version(&vec![], "*"), None);
    // Of equal versions the last one counts.
    let twice = vec![entry("1.0.0", false), entry("1.0.0", false)];
    assert_eq!(select_version(&twice, "*"), Some(1));
    // Pre-releases come below their release, and count only where they are asked for.
    let previews = vec![entry("1.0.0-rc.2", false), entry("1.0.0-rc.10", false)];
    assert_eq!(select_version(&previews, "*"), None);
    assert_eq!(select_version(&previews, ">=1.0.0-rc.1"), Some(1));
}

#[test]
fn custom_forges_are_cloned_from_their_own_url() {
    let forge = Forge::GitLab {
        custom_url: Some("https://gitlab.mycorp.com/".to_string()),
        owner: "o".to_string(),
        repo: "r".to_string(),
    };
    assert_eq!(forge.git_url(), "https://gitlab.mycorp.com/o/r.git");
}

#[test]
fn public_forges_are_recognised_by_their_url() {
    let parse = Forge::try_parse_from_url;
    let github = |owner: &str, repo: &str| {
        Some(Forge::GitHub {
            custom_url: None,
            owner: owner.to_string(),
            repo: repo.to_string(),
        })
    };
    assert_eq!(parse("https://github.com/o/r"), github("o", "r"));
    assert_eq!(parse("https://github.com//o/r.git/"), github("o", "r"));
    // One `.git` is taken off, no more.
    assert_eq!(parse("https://github.com/o/r.git.git"), github("o", "r.git"));
    assert_eq!(parse("HTTPS://GitHub.com/o/r"), github("o", "r"));
    assert_eq!(parse("http://github.com/o/r"), None);
    assert_eq!(parse("https://github.com/o"), None);
    assert_eq!(parse("https://codeberg.org/o/r"), None);
    assert_eq!(parse("not a url"), None);
    // Parsing undoes the forming of a clone URL.
    let forge = github("rust-lang", "cargo").unwrap();
    assert_eq!(parse(&forge.git_url()), Some(forge));
}

#[test]
fn registries_are_not_asked_for_impossible_names() {
    let resolver = DefaultCrateResolver::new(config(false));
    for name in ["", "a b", "a/b", "\u{e9}", "+x"] {
        assert!(matches!(
            resolver.plan(&on_crates_io(name, None)),
            Err(Error::Registry { ref message }) if !message.is_empty()
        ));
        assert!(check_name(name).is_err());
    }
    for name in ["a", "A-b_9", "cargo-deny"] {
        assert!(resolver.plan(&on_crates_io(name, None)).is_ok());
    }
}
