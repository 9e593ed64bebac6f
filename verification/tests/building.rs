use cgx::builder::{
    built_dir, cargo_args, plan_build, prepare_build_dir, resolve_binary_target, resolve_package_name, workspace_packages, BuildDir,
    BuildOptions, BuildTarget, Metadata, Package, Target, TargetKind,
};
use cgx::downloader::DownloadedCrate;
use cgx::error::{Error, TargetClass};
use cgx::paths::JoinedPath;
use cgx::resolver::{ResolvedCrate, ResolvedSource};
use cgx::run::executable_targets;

fn target(name: &str, kind: TargetKind) -> Target {
    Target {
        name: name.to_string(),
        kinds: vec![kind],
    }
}

fn package(name: &str, bins: &[&str], examples: &[&str], default_run: Option<&str>) -> Package {
    let mut targets: Vec<Target> = vec![target("lib", TargetKind::Other)];
    targets.extend(bins.iter().map(|b| target(b, TargetKind::Bin)));
    targets.extend(examples.iter().map(|e| target(e, TargetKind::Example)));
    Package {
        id: format!("path+file:///ws#{}", name),
        name: name.to_string(),
        version: "1.0.0".to_string(),
        targets,
        default_run: default_run.map(|d| d.to_string()),
    }
}

fn metadata(packages: Vec<Package>) -> Metadata {
    let workspace_members = packages.iter().map(|p| p.id.clone()).collect();
    Metadata {
        packages,
        workspace_members,
    }
}

fn krate(name: &str, source: ResolvedSource) -> DownloadedCrate {
    DownloadedCrate {
        resolved: ResolvedCrate {
            name: name.to_string(),
            version: "1.0.0".to_string(),
            source,
        },
        crate_path: JoinedPath::new("/src"),
    }
}

fn dev(build_target: BuildTarget) -> BuildOptions {
    let mut options = BuildOptions::default();
    options.profile = Some("dev".to_string());
    options.build_target = build_target;
    options
}

fn multiple_bins_with_default() -> Metadata {
    metadata(vec![package(
        "single-crate-multiple-bins-with-default",
        &["bin1", "bin2"],
        &[],
        Some("bin1"),
    )])
}

#[test]
fn simple_bin_no_deps_from_registry() {
    let metadata = metadata(vec![package("simple-bin-no-deps", &["simple-bin-no-deps"], &[], None)]);
    let krate = krate("simple-bin-no-deps", ResolvedSource::CratesIo);
    let plan = plan_build(&krate, &dev(BuildTarget::DefaultBin), &metadata).unwrap();
    assert_eq!(
        plan.options.build_target,
        BuildTarget::Bin("simple-bin-no-deps".to_string())
    );
    assert_eq!(plan.options.profile, Some("dev".to_string()));
    assert!(plan.cached);
}

#[test]
fn default_bin_selected_automatically() {
    let krate = krate("single-crate-multiple-bins-with-default", ResolvedSource::CratesIo);
    let options = dev(BuildTarget::DefaultBin);
    let plan = plan_build(&krate, &options, &multiple_bins_with_default()).unwrap();
    assert_eq!(plan.options.build_target, BuildTarget::Bin("bin1".to_string()));
}

#[test]
fn explicit_bin_overrides_default() {
    let krate = krate("single-crate-multiple-bins-with-default", ResolvedSource::CratesIo);
    let options = dev(BuildTarget::Bin("bin2".to_string()));
    let plan = plan_build(&krate, &options, &multiple_bins_with_default()).unwrap();
    assert_eq!(plan.options.build_target, BuildTarget::Bin("bin2".to_string()));
    assert_eq!(
        resolve_binary_target(&krate, &options, &multiple_bins_with_default()),
        Ok(BuildTarget::Bin("bin2".to_string()))
    );
}

#[test]
fn multiple_bins_without_default_fails() {
    let metadata = metadata(vec![package(
        "single-crate-multiple-bins",
        &["bin1", "bin2"],
        &[],
        None,
    )]);
    let krate = krate("single-crate-multiple-bins", ResolvedSource::CratesIo);
    let result = plan_build(&krate, &dev(BuildTarget::DefaultBin), &metadata);
    assert!(matches!(
        result,
        Err(Error::AmbiguousBinaryTarget { ref package, ref available })
            if package == "single-crate-multiple-bins"
                && available.len() == 2
                && available.contains(&"bin1".to_string())
                && available.contains(&"bin2".to_string())
    ));
}

fn workspace() -> Metadata {
    metadata(vec![
        package("bin1", &["bin1"], &[], None),
        package("bin2", &["bin2"], &[], None),
    ])
}

#[test]
fn workspace_with_correct_package_succeeds() {
    let krate = krate(
        "bin1",
        ResolvedSource::Git {
            repo: "https://github.com/example/test.git".to_string(),
            commit: "abc123".to_string(),
        },
    );
    let plan = plan_build(&krate, &dev(BuildTarget::DefaultBin), &workspace()).unwrap();
    assert_eq!(plan.options.build_target, BuildTarget::Bin("bin1".to_string()));
    assert_eq!(
        resolve_package_name(&workspace(), "bin1"),
        Ok(Some("bin1".to_string()))
    );
}

#[test]
fn workspace_with_wrong_package_fails() {
    let krate = krate("nonexistent-package", ResolvedSource::CratesIo);
    let result = plan_build(&krate, &dev(BuildTarget::DefaultBin), &workspace());
    assert!(matches!(
        result,
        Err(Error::PackageNotFoundInWorkspace { ref name, ref available })
            if name == "nonexistent-package" && !available.is_empty()
    ));
    assert_eq!(
        resolve_package_name(&workspace(), "nonexistent-package"),
        Err(Error::PackageNotFoundInWorkspace {
            name: "nonexistent-package".to_string(),
            available: vec!["bin1".to_string(), "bin2".to_string()],
        })
    );
}

#[test]
fn local_dir_never_cached() {
    let metadata = metadata(vec![package("simple-bin-no-deps", &["simple-bin-no-deps"], &[], None)]);
    let krate = krate(
        "simple-bin-no-deps",
        ResolvedSource::LocalDir {
            path: "/src".to_string(),
        },
    );
    let plan = plan_build(&krate, &dev(BuildTarget::DefaultBin), &metadata).unwrap();
    assert!(!plan.cached);
    assert_eq!(
        plan.options.build_target,
        BuildTarget::Bin("simple-bin-no-deps".to_string())
    );
    // It is built where its sources are.
    assert_eq!(
        prepare_build_dir(&krate, &JoinedPath::new("/build")),
        BuildDir::InPlace {
            path: JoinedPath::new("/src")
        }
    );
}

#[test]
fn other_crates_are_built_in_a_fresh_directory() {
    assert_eq!(
        prepare_build_dir(&krate("tool", ResolvedSource::CratesIo), &JoinedPath::new("/build")),
        BuildDir::Temporary {
            parent: JoinedPath::new("/build"),
            prefix: "cgx-build-tool".to_string(),
            source: JoinedPath::new("/src"),
        }
    );
}

#[test]
fn targets_have_to_exist() {
    let metadata = metadata(vec![package("tool", &["a", "b"], &["demo"], None)]);
    let krate = krate("tool", ResolvedSource::CratesIo);
    let resolve = |wanted: BuildTarget| resolve_binary_target(&krate, &dev(wanted), &metadata);
    let example = BuildTarget::Example("demo".to_string());
    assert_eq!(resolve(example.clone()), Ok(example));
    assert_eq!(
        resolve(BuildTarget::Bin("demo".to_string())),
        Err(Error::RunnableTargetNotFound {
            kind: TargetClass::Binary,
            package: "tool".to_string(),
            target: "demo".to_string(),
            available: vec!["a".to_string(), "b".to_string()],
        })
    );
    assert_eq!(
        resolve(BuildTarget::Example("a".to_string())),
        Err(Error::RunnableTargetNotFound {
            kind: TargetClass::Example,
            package: "tool".to_string(),
            target: "a".to_string(),
            available: vec!["a".to_string(), "b".to_string()],
        })
    );
}

#[test]
fn libraries_have_nothing_to_run() {
    let metadata = metadata(vec![package("lib", &[], &["demo"], None)]);
    let krate = krate("lib", ResolvedSource::CratesIo);
    assert_eq!(
        resolve_binary_target(&krate, &dev(BuildTarget::DefaultBin), &metadata),
        Err(Error::NoPackageBinaries {
            krate: "lib".to_string()
        })
    );
}

#[test]
fn a_default_binary_has_to_exist_too() {
    let metadata = metadata(vec![package("tool", &["a"], &[], Some("gone"))]);
    let krate = krate("tool", ResolvedSource::CratesIo);
    assert!(matches!(
        resolve_binary_target(&krate, &dev(BuildTarget::DefaultBin), &metadata),
        Err(Error::RunnableTargetNotFound { ref target, .. }) if target == "gone"
    ));
}

#[test]
fn single_members_need_no_package_name() {
    assert_eq!(resolve_package_name(&metadata(vec![]), "x"), Ok(None));
    let mut two = workspace();
    // Packages outside the workspace do not count.
    two.workspace_members.pop();
    assert_eq!(workspace_packages(&two), vec!["bin1".to_string()]);
    assert_eq!(resolve_package_name(&two, "x"), Ok(None));
}

#[test]
fn builds_have_places_of_their_own() {
    let bins = JoinedPath::new("/bins");
    let tool = krate("tool", ResolvedSource::CratesIo).resolved;
    let place = built_dir(&bins, &tool, "release");
    assert_eq!(place.base, "/bins");
    assert_eq!(place.segments.len(), 3);
    assert_eq!(place.segments[0], format!("tool-{}", tool.version));
    assert_eq!(place.segments[1].len(), 16);
    assert_eq!(
        place.segments[2],
        cgx::cache::Cache::compute_hash(b"release")
    );
    assert_ne!(place, built_dir(&bins, &tool, "dev"));
    let other = krate(
        "tool",
        ResolvedSource::Git {
            repo: "https://example.com/tool.git".to_string(),
            commit: "abc".to_string(),
        },
    )
    .resolved;
    assert_ne!(place, built_dir(&bins, &other, "release"));
}

#[test]
fn executable_targets_are_those_of_the_crate() {
    let workspace = metadata(vec![
        package("other", &["o"], &[], None),
        package("tool", &["a", "b"], &["e"], Some("b")),
    ]);
    let targets = executable_targets("tool", &workspace).unwrap();
    assert_eq!(targets.default_run, Some("b".to_string()));
    assert_eq!(targets.bins, vec!["a".to_string(), "b".to_string()]);
    assert_eq!(targets.examples, vec!["e".to_string()]);
    assert_eq!(
        executable_targets("missing", &workspace),
        Err(Error::PackageNotFoundInWorkspace {
            name: "missing".to_string(),
            available: vec!["other".to_string(), "tool".to_string()],
        })
    );
}

#[test]
fn cargo_is_told_every_option() {
    let text = |args: Vec<String>| args.join(" ");
    let mut options = BuildOptions::default();
    options.build_target = BuildTarget::Bin("tool".to_string());
    assert_eq!(
        text(cargo_args(&options, &None)),
        "build --message-format=json-render-diagnostics --release --bin tool"
    );
    options.build_target = BuildTarget::Example("demo".to_string());
    options.features = vec!["a".to_string(), "b".to_string(), "c".to_string()];
    options.all_features = true;
    options.no_default_features = true;
    options.profile = Some("dev".to_string());
    options.target = Some("x86_64-unknown-linux-musl".to_string());
    options.locked = true;
    options.offline = true;
    options.jobs = Some(12);
    options.ignore_rust_version = true;
    options.toolchain = Some("nightly".to_string());
    assert_eq!(
        text(cargo_args(&options, &Some("member".to_string()))),
        "+nightly build --message-format=json-render-diagnostics --profile dev --package member \
         --example demo --features a,b,c --all-features --no-default-features --locked --offline \
         --ignore-rust-version --target x86_64-unknown-linux-musl --jobs 12"
    );
}
