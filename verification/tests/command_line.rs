use cgx::builder::{BuildOptions, BuildTarget};
use cgx::cli::CliArgs;
use cgx::config::{Config, ConfigFile, PlatformDirs, ToolConfig};
use cgx::cratespec::{CrateSpec, Forge, GitSelector, RegistrySource};
use cgx::error::Error;
use cgx::load::parse_features;

/// The grammar of the command line, as far as these tests use it.
fn command() -> clap::Command {
    let value = |name: &'static str| clap::Arg::new(name).long(name);
    let flag = |name: &'static str| {
        clap::Arg::new(name)
            .long(name)
            .action(clap::ArgAction::SetTrue)
    };
    clap::Command::new("cgx")
        .disable_version_flag(true)
        .arg(value("git"))
        .arg(value("registry"))
        .arg(value("path"))
        .arg(value("github"))
        .arg(value("gitlab"))
        .arg(value("index"))
        .arg(value("github-url"))
        .arg(value("gitlab-url"))
        .arg(value("branch"))
        .arg(value("tag"))
        .arg(value("rev"))
        .arg(
            value("version")
                .short('V')
                .num_args(0..=1)
                .default_missing_value(""),
        )
        .arg(value("features").short('F'))
        .arg(flag("all-features"))
        .arg(flag("no-default-features"))
        .arg(value("profile"))
        .arg(flag("debug"))
        .arg(value("target"))
        .arg(flag("locked"))
        .arg(flag("frozen"))
        .arg(flag("offline"))
        .arg(value("jobs").short('j'))
        .arg(flag("ignore-rust-version"))
        .arg(value("bin"))
        .arg(value("example"))
        .arg(value("color"))
        .arg(
            clap::Arg::new("command")
                .num_args(0..)
                .trailing_var_arg(true)
                .required_unless_present_any(["version", "path", "git", "github", "gitlab"]),
        )
}

fn parse_from(args: Vec<String>) -> CliArgs {
    let matches = command().get_matches_from(args);
    let value = |name: &str| matches.get_one::<String>(name).cloned();
    let mut cli = CliArgs::default();
    cli.git = value("git");
    cli.registry = value("registry");
    cli.path = value("path");
    cli.github = value("github");
    cli.gitlab = value("gitlab");
    cli.index = value("index");
    cli.github_url = value("github-url");
    cli.gitlab_url = value("gitlab-url");
    cli.branch = value("branch");
    cli.tag = value("tag");
    cli.rev = value("rev");
    cli.version = value("version");
    cli.features = value("features");
    cli.all_features = matches.get_flag("all-features");
    cli.no_default_features = matches.get_flag("no-default-features");
    cli.profile = value("profile");
    cli.debug = matches.get_flag("debug");
    cli.target = value("target");
    cli.locked = matches.get_flag("locked");
    cli.frozen = matches.get_flag("frozen");
    cli.offline = matches.get_flag("offline");
    cli.jobs = value("jobs").map(|n| n.parse().unwrap());
    cli.ignore_rust_version = matches.get_flag("ignore-rust-version");
    cli.bin = value("bin");
    cli.example = value("example");
    cli.color = value("color");
    let words = matches
        .get_many::<String>("command")
        .map(|words| words.cloned().collect())
        .unwrap_or_default();
    let words = CliArgs::split_command(words);
    cli.version = cli.version.or(words.version);
    cli.crate_spec = words.crate_spec;
    cli.args = words.args;
    cli
}

fn default_config() -> Config {
    let dirs = PlatformDirs {
        config_dir: "/config".to_string(),
        cache_dir: "/cache".to_string(),
        bins_dir: "/data/bins".to_string(),
        build_dir: "/data/build".to_string(),
    };
    Config::load_from_layers(ConfigFile::default(), &CliArgs::default(), &dirs)
}

fn strings(texts: &[&str]) -> Vec<String> {
    texts.iter().map(|t| t.to_string()).collect()
}

fn cli_of(args: &[&str]) -> CliArgs {
    let mut full_args = vec!["cgx"];
    full_args.extend_from_slice(args);
    parse_from(strings(&full_args))
}

fn parse_cratespec_from_args(args: &[&str]) -> Result<CrateSpec, Error> {
    CrateSpec::load(&default_config(), &cli_of(args))
}

fn parse_build_options_from_args(args: &[&str]) -> Result<BuildOptions, Error> {
    BuildOptions::load(&default_config(), &cli_of(args))
}

/// The text that a version requirement is printed in.
fn requirement(text: &str) -> String {
    semver::VersionReq::parse(text).unwrap().to_string()
}

#[test]
fn verify_cli() {
    command().debug_assert();
}

#[test]
fn test_simple_crate() {
    let cr = parse_cratespec_from_args(&["ripgrep"]).unwrap();
    assert!(matches!(
        cr,
        CrateSpec::CratesIo { ref name, version: None } if name == "ripgrep"
    ));
}

#[test]
fn test_crate_with_at_version() {
    let cr = parse_cratespec_from_args(&["ripgrep@14"]).unwrap();
    assert!(matches!(
        cr,
        CrateSpec::CratesIo { ref name, version: Some(ref v) }
        if name == "ripgrep" && v == &requirement("14")
    ));
}

#[test]
fn test_crate_with_flag_version() {
    let cr = parse_cratespec_from_args(&["ripgrep", "--version", "14"]).unwrap();
    assert!(matches!(
        cr,
        CrateSpec::CratesIo { ref name, version: Some(ref v) }
        if name == "ripgrep" && v == &requirement("14")
    ));
}

#[test]
fn test_crate_with_matching_versions() {
    let cr = parse_cratespec_from_args(&["ripgrep@14", "--version", "14"]).unwrap();
    assert!(matches!(
        cr,
        CrateSpec::CratesIo { ref name, version: Some(ref v) }
        if name == "ripgrep" && v == &requirement("14")
    ));
}

#[test]
fn test_crate_with_conflicting_versions() {
    let result = parse_cratespec_from_args(&["ripgrep@14", "--version", "15"]);
    assert!(matches!(result, Err(Error::ConflictingVersions { .. })));
}

#[test]
fn test_cargo_subcommand() {
    let cr = parse_cratespec_from_args(&["cargo", "deny"]).unwrap();
    assert!(matches!(
        cr,
        CrateSpec::CratesIo { ref name, version: None } if name == "cargo-deny"
    ));
}

#[test]
fn test_cargo_subcommand_with_version() {
    let cr = parse_cratespec_from_args(&["cargo", "deny@1"]).unwrap();
    assert!(matches!(
        cr,
        CrateSpec::CratesIo { ref name, version: Some(ref v) }
        if name == "cargo-deny" && v == &requirement("1")
    ));
}

#[test]
fn test_git_source() {
    let cr = parse_cratespec_from_args(&["--git", "https://github.com/foo/bar", "mycrate"]).unwrap();
    assert!(matches!(
        cr,
        CrateSpec::Forge {
            forge: Forge::GitHub { custom_url: None, ref owner, ref repo },
            selector: GitSelector::DefaultBranch,
            ref name,
            version: None
        } if owner == "foo" && repo == "bar" && name.as_deref() == Some("mycrate")
    ));
}

#[test]
fn test_git_with_branch() {
    let cr = parse_cratespec_from_args(&[
        "--git",
        "https://github.com/foo/bar",
        "--branch",
        "main",
        "mycrate",
    ])
    .unwrap();
    assert!(matches!(
        cr,
        CrateSpec::Forge {
            forge: Forge::GitHub { custom_url: None, ref owner, ref repo },
            selector: GitSelector::Branch(ref b),
            ref name,
            version: None
        } if owner == "foo" && repo == "bar" && b == "main" && name.as_deref() == Some("mycrate")
    ));
}

#[test]
fn test_git_with_tag() {
    let cr = parse_cratespec_from_args(&[
        "--git",
        "https://github.com/foo/bar",
        "--tag",
        "v1.0",
        "mycrate",
    ])
    .unwrap();
    assert!(matches!(
        cr,
        CrateSpec::Forge {
            forge: Forge::GitHub { custom_url: None, ref owner, ref repo },
            selector: GitSelector::Tag(ref t),
            ref name,
            version: None
        } if owner == "foo" && repo == "bar" && t == "v1.0" && name.as_deref() == Some("mycrate")
    ));
}

#[test]
fn test_git_with_rev() {
    let cr = parse_cratespec_from_args(&[
        "--git",
        "https://github.com/foo/bar",
        "--rev",
        "abc123",
        "mycrate",
    ])
    .unwrap();
    assert!(matches!(
        cr,
        CrateSpec::Forge {
            forge: Forge::GitHub { custom_url: None, ref owner, ref repo },
            selector: GitSelector::Commit(ref c),
            ref name,
            version: None
        } if owner == "foo" && repo == "bar" &&
             c == "abc123" &&
             name.as_deref() == Some("mycrate")
    ));
}

#[test]
fn test_git_github_https_url() {
    let cr =
        parse_cratespec_from_args(&["--git", "https://github.com/owner/repo", "mycrate"]).unwrap();
    assert!(matches!(
        cr,
        CrateSpec::Forge {
            forge: Forge::GitHub {
                custom_url: None,
                ref owner,
                ref repo
            },
            selector: GitSelector::DefaultBranch,
            ref name,
            version: None
        } if owner == "owner" && repo == "repo" && name.as_deref() == Some("mycrate")
    ));
}

#[test]
fn test_git_github_https_url_with_git_suffix() {
    let cr = parse_cratespec_from_args(&["--git", "https://github.com/owner/repo.git", "mycrate"])
        .unwrap();
    assert!(matches!(
        cr,
        CrateSpec::Forge {
            forge: Forge::GitHub {
                custom_url: None,
                ref owner,
                ref repo
            },
            selector: GitSelector::DefaultBranch,
            ref name,
            version: None
        } if owner == "owner" && repo == "repo" && name.as_deref() == Some("mycrate")
    ));
}

#[test]
fn test_git_gitlab_https_url() {
    let cr =
        parse_cratespec_from_args(&["--git", "https://gitlab.com/owner/repo", "mycrate"]).unwrap();
    assert!(matches!(
        cr,
        CrateSpec::Forge {
            forge: Forge::GitLab {
                custom_url: None,
                ref owner,
                ref repo
            },
            selector: GitSelector::DefaultBranch,
            ref name,
            version: None
        } if owner == "owner" && repo == "repo" && name.as_deref() == Some("mycrate")
    ));
}

#[test]
fn test_git_scheme_not_transformed() {
    let cr = parse_cratespec_from_args(&["--git", "git://github.com/owner/repo", "mycrate"]).unwrap();
    assert!(matches!(
        cr,
        CrateSpec::Git { ref repo, selector: GitSelector::DefaultBranch, ref name, version: None }
        if repo == "git://github.com/owner/repo" && name.as_deref() == Some("mycrate")
    ));
}

#[test]
fn test_git_custom_domain_not_transformed() {
    let cr =
        parse_cratespec_from_args(&["--git", "https://github.enterprise.com/owner/repo", "mycrate"])
            .unwrap();
    assert!(matches!(
        cr,
        CrateSpec::Git { ref repo, selector: GitSelector::DefaultBranch, ref name, version: None }
        if repo == "https://github.enterprise.com/owner/repo" && name.as_deref() == Some("mycrate")
    ));
}

#[test]
fn test_git_github_url_with_extra_path_not_transformed() {
    let cr =
        parse_cratespec_from_args(&["--git", "https://github.com/owner/repo/pull/15", "mycrate"])
            .unwrap();
    assert!(matches!(
        cr,
        CrateSpec::Git { ref repo, selector: GitSelector::DefaultBranch, ref name, version: None }
        if repo == "https://github.com/owner/repo/pull/15" && name.as_deref() == Some("mycrate")
    ));
}

#[test]
fn test_git_github_url_with_tree_path_not_transformed() {
    let cr = parse_cratespec_from_args(&[
        "--git",
        "https://github.com/owner/repo/tree/master/some/path",
        "mycrate",
    ])
    .unwrap();
    assert!(matches!(
        cr,
        CrateSpec::Git { ref repo, selector: GitSelector::DefaultBranch, ref name, version: None }
        if repo == "https://github.com/owner/repo/tree/master/some/path" &&
           name.as_deref() == Some("mycrate")
    ));
}

#[test]
fn test_registry() {
    let cr = parse_cratespec_from_args(&["--registry", "my-registry", "mycrate"]).unwrap();
    assert!(matches!(
        cr,
        CrateSpec::Registry {
            source: RegistrySource::Named(ref registry),
            ref name,
            version: None
        } if registry == "my-registry" && name == "mycrate"
    ));
}

#[test]
fn test_index() {
    let cr =
        parse_cratespec_from_args(&["--index", "https://my-index.com/git/index", "mycrate"]).unwrap();
    assert!(matches!(
        cr,
        CrateSpec::Registry {
            source: RegistrySource::IndexUrl(ref index),
            ref name,
            version: None
        } if index.as_str() == "https://my-index.com/git/index" && name == "mycrate"
    ));
}

#[test]
fn test_index_with_version() {
    let cr = parse_cratespec_from_args(&["--index", "sparse+https://my-index.com/", "mycrate@1.0"])
        .unwrap();
    assert!(matches!(
        cr,
        CrateSpec::Registry {
            source: RegistrySource::IndexUrl(ref index),
            ref name,
            version: Some(ref v)
        } if index.as_str() == "sparse+https://my-index.com/" &&
             name == "mycrate" &&
             v == &requirement("1.0")
    ));
}

#[test]
fn test_local_path() {
    let cr = parse_cratespec_from_args(&["--path", "./my-crate", "mycrate"]).unwrap();
    assert!(matches!(
        cr,
        CrateSpec::LocalDir { ref path, ref name, version: None }
        if path == "./my-crate" && name.as_deref() == Some("mycrate")
    ));
}

#[test]
fn test_github() {
    let cr = parse_cratespec_from_args(&["--github", "owner/repo", "mycrate"]).unwrap();
    assert!(matches!(
        cr,
        CrateSpec::Forge {
            forge: Forge::GitHub {
                custom_url: None,
                ref owner,
                ref repo
            },
            selector: GitSelector::DefaultBranch,
            ref name,
            version: None
        } if owner == "owner" && repo == "repo" && name.as_deref() == Some("mycrate")
    ));
}

#[test]
fn test_github_with_custom_url() {
    let cr = parse_cratespec_from_args(&[
        "--github",
        "owner/repo",
        "--github-url",
        "https://github.mycorp.com",
        "mycrate",
    ])
    .unwrap();
    assert!(matches!(
        cr,
        CrateSpec::Forge {
            forge: Forge::GitHub {
                custom_url: Some(ref url),
                ref owner,
                ref repo
            },
            selector: GitSelector::DefaultBranch,
            ref name,
            version: None
        } if owner == "owner" &&
             repo == "repo" &&
             name.as_deref() == Some("mycrate") &&
             url.as_str() == "https://github.mycorp.com/"
    ));
}

#[test]
fn test_github_with_branch() {
    let cr = parse_cratespec_from_args(&["--github", "owner/repo", "--branch", "develop", "mycrate"])
        .unwrap();
    assert!(matches!(
        cr,
        CrateSpec::Forge {
            forge: Forge::GitHub {
                custom_url: None,
                ref owner,
                ref repo
            },
            selector: GitSelector::Branch(ref b),
            ref name,
            version: None
        } if owner == "owner" &&
             repo == "repo" &&
             b == "develop" &&
             name.as_deref() == Some("mycrate")
    ));
}

#[test]
fn test_gitlab() {
    let cr = parse_cratespec_from_args(&["--gitlab", "owner/repo", "mycrate"]).unwrap();
    assert!(matches!(
        cr,
        CrateSpec::Forge {
            forge: Forge::GitLab {
                custom_url: None,
                ref owner,
                ref repo
            },
            selector: GitSelector::DefaultBranch,
            ref name,
            version: None
        } if owner == "owner" && repo == "repo" && name.as_deref() == Some("mycrate")
    ));
}

#[test]
fn test_gitlab_with_custom_url() {
    let cr = parse_cratespec_from_args(&[
        "--gitlab",
        "owner/repo",
        "--gitlab-url",
        "https://gitlab.mycorp.com",
        "mycrate",
    ])
    .unwrap();
    assert!(matches!(
        cr,
        CrateSpec::Forge {
            forge: Forge::GitLab {
                custom_url: Some(ref url),
                ref owner,
                ref repo
            },
            selector: GitSelector::DefaultBranch,
            ref name,
            version: None
        } if owner == "owner" &&
             repo == "repo" &&
             name.as_deref() == Some("mycrate") &&
             url.as_str() == "https://gitlab.mycorp.com/"
    ));
}

#[test]
fn test_git_selector_without_git_source() {
    let result = parse_cratespec_from_args(&["--branch", "main", "mycrate"]);
    assert!(matches!(result, Err(Error::GitSelectorWithoutGitSource)));
}

#[test]
fn test_invalid_repo_format() {
    let result = parse_cratespec_from_args(&["--github", "invalid-repo", "mycrate"]);
    assert!(matches!(result, Err(Error::InvalidRepoFormat { .. })));
}

#[test]
fn test_invalid_version() {
    let result = parse_cratespec_from_args(&["ripgrep@not-a-version"]);
    assert!(matches!(result, Err(Error::InvalidVersionReq { .. })));
}

#[test]
fn test_invalid_index_url() {
    let result = parse_cratespec_from_args(&["--index", "not-a-valid-url", "mycrate"]);
    assert!(matches!(result, Err(Error::InvalidUrl { .. })));
}

#[test]
fn test_git_without_crate_name() {
    let cr = parse_cratespec_from_args(&["--git", "https://github.com/foo/bar"]).unwrap();
    assert!(matches!(
        cr,
        CrateSpec::Forge {
            forge: Forge::GitHub { custom_url: None, ref owner, ref repo },
            selector: GitSelector::DefaultBranch,
            name: None,
            version: None
        } if owner == "foo" && repo == "bar"
    ));
}

#[test]
fn test_github_without_crate_name() {
    let cr = parse_cratespec_from_args(&["--github", "owner/repo"]).unwrap();
    assert!(matches!(
        cr,
        CrateSpec::Forge {
            forge: Forge::GitHub { custom_url: None, ref owner, ref repo },
            selector: GitSelector::DefaultBranch,
            name: None,
            version: None
        } if owner == "owner" && repo == "repo"
    ));
}

#[test]
fn test_gitlab_without_crate_name() {
    let cr = parse_cratespec_from_args(&["--gitlab", "owner/repo"]).unwrap();
    assert!(matches!(
        cr,
        CrateSpec::Forge {
            forge: Forge::GitLab { custom_url: None, ref owner, ref repo },
            selector: GitSelector::DefaultBranch,
            name: None,
            version: None
        } if owner == "owner" && repo == "repo"
    ));
}

#[test]
fn test_path_without_crate_name() {
    let cr = parse_cratespec_from_args(&["--path", "./my-crate"]).unwrap();
    assert!(matches!(
        cr,
        CrateSpec::LocalDir { ref path, name: None, version: None }
        if path == "./my-crate"
    ));
}

#[test]
fn test_features_parsing_comma_separated() {
    let opts = parse_build_options_from_args(&["--features", "foo,bar,baz", "ripgrep"]).unwrap();
    assert_eq!(opts.features, vec!["foo", "bar", "baz"]);
}

#[test]
fn test_features_parsing_space_separated() {
    let opts = parse_build_options_from_args(&["--features", "foo bar baz", "ripgrep"]).unwrap();
    assert_eq!(opts.features, vec!["foo", "bar", "baz"]);
}

#[test]
fn test_features_parsing_mixed_separators() {
    let opts = parse_build_options_from_args(&["--features", "foo, bar baz", "ripgrep"]).unwrap();
    assert_eq!(opts.features, vec!["foo", "bar", "baz"]);
}

#[test]
fn test_features_parsing_with_extra_whitespace() {
    let opts = parse_build_options_from_args(&["--features", "  foo  ,  bar  ", "ripgrep"]).unwrap();
    assert_eq!(opts.features, vec!["foo", "bar"]);
}

#[test]
fn test_all_features() {
    let opts = parse_build_options_from_args(&["--all-features", "ripgrep"]).unwrap();
    assert!(opts.all_features);
}

#[test]
fn test_no_default_features() {
    let opts = parse_build_options_from_args(&["--no-default-features", "ripgrep"]).unwrap();
    assert!(opts.no_default_features);
}

#[test]
fn test_debug_maps_to_dev_profile() {
    let opts = parse_build_options_from_args(&["--debug", "ripgrep"]).unwrap();
    assert_eq!(opts.profile, Some("dev".to_string()));
}

#[test]
fn test_profile_custom() {
    let opts =
        parse_build_options_from_args(&["--profile", "release-with-debug", "ripgrep"]).unwrap();
    assert_eq!(opts.profile, Some("release-with-debug".to_string()));
}

#[test]
fn cli_test_frozen_implies_locked_and_offline() {
    let opts = parse_build_options_from_args(&["--frozen", "ripgrep"]).unwrap();
    assert!(opts.locked);
    assert!(opts.offline);
}

#[test]
fn test_locked_without_frozen() {
    let opts = parse_build_options_from_args(&["--locked", "ripgrep"]).unwrap();
    assert!(opts.locked);
    assert!(!opts.offline);
}

#[test]
fn test_offline_without_frozen() {
    let opts = parse_build_options_from_args(&["--offline", "ripgrep"]).unwrap();
    assert!(!opts.locked);
    assert!(opts.offline);
}

#[test]
fn test_target() {
    let opts =
        parse_build_options_from_args(&["--target", "x86_64-unknown-linux-musl", "ripgrep"]).unwrap();
    assert_eq!(opts.target, Some("x86_64-unknown-linux-musl".to_string()));
}

#[test]
fn test_jobs() {
    let opts = parse_build_options_from_args(&["-j", "4", "ripgrep"]).unwrap();
    assert_eq!(opts.jobs, Some(4));
}

#[test]
fn test_ignore_rust_version() {
    let opts = parse_build_options_from_args(&["--ignore-rust-version", "ripgrep"]).unwrap();
    assert!(opts.ignore_rust_version);
}

#[test]
fn test_build_options_defaults() {
    let opts = parse_build_options_from_args(&["ripgrep"]).unwrap();
    assert_eq!(opts, Default::default());
}

#[test]
fn test_bin_flag() {
    let opts = parse_build_options_from_args(&["--bin", "mybinary", "ripgrep"]).unwrap();
    assert_eq!(opts.build_target, BuildTarget::Bin("mybinary".to_string()));
    assert_eq!(opts.build_target, BuildTarget::Bin("mybinary".to_string()));
}

#[test]
fn test_example_flag() {
    let opts = parse_build_options_from_args(&["--example", "myexample", "ripgrep"]).unwrap();
    assert_eq!(opts.build_target, BuildTarget::Example("myexample".to_string()));
}

#[test]
fn test_extract_toolchain_nightly() {
    let args = vec!["cgx", "+nightly", "ripgrep"];
    let (toolchain, filtered) = CliArgs::extract_toolchain(strings(&args));

    assert_eq!(toolchain, Some("nightly".to_string()));
    assert_eq!(filtered, vec!["cgx", "ripgrep"]);
}

#[test]
fn test_extract_toolchain_specific_version() {
    let args = vec!["cgx", "+1.70.0", "ripgrep"];
    let (toolchain, filtered) = CliArgs::extract_toolchain(strings(&args));

    assert_eq!(toolchain.as_deref(), Some("1.70.0"));
    assert_eq!(filtered, vec!["cgx", "ripgrep"]);
}

#[test]
fn test_extract_toolchain_stable() {
    let args = vec!["cgx", "+stable", "ripgrep"];
    let (toolchain, filtered) = CliArgs::extract_toolchain(strings(&args));

    assert_eq!(toolchain, Some("stable".to_string()));
    assert_eq!(filtered, vec!["cgx", "ripgrep"]);
}

#[test]
fn test_extract_toolchain_with_other_flags() {
    let args = vec![
        "cgx",
        "+nightly",
        "--git",
        "https://github.com/foo/bar",
        "mycrate",
    ];
    let (toolchain, filtered) = CliArgs::extract_toolchain(strings(&args));

    assert_eq!(toolchain, Some("nightly".to_string()));
    assert_eq!(
        filtered,
        vec!["cgx", "--git", "https://github.com/foo/bar", "mycrate"]
    );
}

#[test]
fn test_no_toolchain() {
    let args = vec!["cgx", "ripgrep"];
    let (toolchain, filtered) = CliArgs::extract_toolchain(strings(&args));

    assert_eq!(toolchain, None);
    assert_eq!(filtered, vec!["cgx", "ripgrep"]);
}

#[test]
fn test_bare_plus() {
    let args = vec!["cgx", "+", "ripgrep"];
    let (toolchain, filtered) = CliArgs::extract_toolchain(strings(&args));

    assert_eq!(toolchain, None);
    assert_eq!(filtered, vec!["cgx", "+", "ripgrep"]);
}

#[test]
fn test_plus_in_middle_not_toolchain() {
    let args = vec!["cgx", "ripgrep", "+something"];
    let (toolchain, filtered) = CliArgs::extract_toolchain(strings(&args));

    assert_eq!(toolchain, None);
    assert_eq!(filtered, vec!["cgx", "ripgrep", "+something"]);
}

#[test]
fn test_toolchain_with_version_flag() {
    let args = vec!["cgx", "+nightly", "ripgrep", "--version", "14"];
    let (toolchain, filtered) = CliArgs::extract_toolchain(strings(&args));
    let mut cli = parse_from(filtered);
    cli.toolchain = toolchain;

    assert_eq!(cli.toolchain, Some("nightly".to_string()));
    assert_eq!(cli.crate_spec, Some("ripgrep".to_string()));
}

#[test]
fn test_toolchain_propagates_to_build_options() {
    let args = vec!["cgx", "+nightly", "ripgrep"];
    let (toolchain, filtered) = CliArgs::extract_toolchain(strings(&args));
    let mut cli = parse_from(filtered);
    cli.toolchain = toolchain;

    let config = default_config();
    let opts = BuildOptions::load(&config, &cli).unwrap();
    assert_eq!(opts.toolchain, Some("nightly".to_string()));
}

#[test]
fn test_no_toolchain_in_build_options() {
    let args = vec!["cgx", "ripgrep"];
    let (toolchain, filtered) = CliArgs::extract_toolchain(strings(&args));
    let mut cli = parse_from(filtered);
    cli.toolchain = toolchain;

    let config = default_config();
    let opts = BuildOptions::load(&config, &cli).unwrap();
    assert_eq!(opts.toolchain, None);
}

#[test]
fn cargo_subcommand_leaves_its_name_out_of_the_arguments() {
    let cli = cli_of(&["cargo", "deny@1", "check", "--all"]);
    assert_eq!(CrateSpec::get_binary_args(&cli), strings(&["check", "--all"]));
    let cli = cli_of(&["ripgrep", "deny", "-i"]);
    assert_eq!(CrateSpec::get_binary_args(&cli), strings(&["deny", "-i"]));
}

#[test]
fn cargo_with_a_source_is_a_crate_of_that_name() {
    let cli = cli_of(&["--registry", "mine", "cargo", "deny"]);
    assert!(matches!(
        CrateSpec::load(&default_config(), &cli),
        Ok(CrateSpec::Registry { ref name, .. }) if name == "cargo"
    ));
    assert_eq!(CrateSpec::get_binary_args(&cli), strings(&["deny"]));
}

#[test]
fn a_crate_is_needed_where_nothing_else_names_one() {
    let mut cli = CliArgs::default();
    assert_eq!(
        CrateSpec::load(&default_config(), &cli),
        Err(Error::MissingCrateParameter)
    );
    cli.registry = Some("mine".to_string());
    assert_eq!(
        CrateSpec::load(&default_config(), &cli),
        Err(Error::MissingCrateParameter)
    );
}

#[test]
fn aliases_and_pins_apply_where_no_flag_names_a_source() {
    let mut config = default_config();
    config.aliases = vec![("rg".to_string(), "ripgrep".to_string())];
    config.tools = vec![(
        "ripgrep".to_string(),
        ToolConfig::Version("14.0".to_string()),
    )];
    let load = |args: &[&str]| CrateSpec::load(&config, &cli_of(args)).unwrap();
    assert_eq!(
        load(&["rg"]),
        CrateSpec::CratesIo {
            name: "ripgrep".to_string(),
            version: Some(requirement("14.0")),
        }
    );
    // The command line has the last word on the version.
    assert_eq!(
        load(&["rg@13"]),
        CrateSpec::CratesIo {
            name: "ripgrep".to_string(),
            version: Some(requirement("13")),
        }
    );
    assert_eq!(
        load(&["--registry", "mine", "rg"]),
        CrateSpec::Registry {
            source: RegistrySource::Named("mine".to_string()),
            name: "rg".to_string(),
            version: None,
        }
    );
}

#[test]
fn detailed_tools_name_their_source() {
    let tool = |registry: Option<&str>, git: Option<&str>, path: Option<&str>| ToolConfig::Detailed {
        version: None,
        features: Some(strings(&["schema"])),
        registry: registry.map(|s| s.to_string()),
        git: git.map(|s| s.to_string()),
        branch: None,
        tag: Some("v1".to_string()),
        rev: None,
        path: path.map(|s| s.to_string()),
    };
    let mut config = default_config();
    config.tools = vec![
        ("a".to_string(), tool(Some("mine"), None, None)),
        ("b".to_string(), tool(None, Some("https://git.example/x"), None)),
        ("c".to_string(), tool(None, None, Some("./c"))),
    ];
    let load = |args: &[&str]| CrateSpec::load(&config, &cli_of(args)).unwrap();
    assert_eq!(
        load(&["a"]),
        CrateSpec::Registry {
            source: RegistrySource::Named("mine".to_string()),
            name: "a".to_string(),
            version: None,
        }
    );
    assert_eq!(
        load(&["b"]),
        CrateSpec::Git {
            repo: "https://git.example/x".to_string(),
            selector: GitSelector::Tag("v1".to_string()),
            name: Some("b".to_string()),
            version: None,
        }
    );
    assert_eq!(
        load(&["c"]),
        CrateSpec::LocalDir {
            path: "./c".to_string(),
            name: Some("c".to_string()),
            version: None,
        }
    );
    let options = BuildOptions::load(&config, &cli_of(&["a"])).unwrap();
    assert_eq!(options.features, strings(&["schema"]));
    let options = BuildOptions::load(&config, &cli_of(&["--features", "x", "a"])).unwrap();
    assert_eq!(options.features, strings(&["x"]));
}

#[test]
fn a_default_registry_takes_the_place_of_crates_io() {
    let mut config = default_config();
    config.default_registry = Some("mine".to_string());
    assert_eq!(
        CrateSpec::load(&config, &cli_of(&["tool@1"])).unwrap(),
        CrateSpec::Registry {
            source: RegistrySource::Named("mine".to_string()),
            name: "tool".to_string(),
            version: Some(requirement("1")),
        }
    );
}

#[test]
fn load_errors_name_what_is_wrong() {
    assert_eq!(
        parse_cratespec_from_args(&["ripgrep@14", "--version", "15"]),
        Err(Error::ConflictingVersions {
            at_version: "14".to_string(),
            flag_version: "15".to_string(),
        })
    );
    for repo in ["one", "a/b/c", "/b", "a/"] {
        assert_eq!(
            parse_cratespec_from_args(&["--gitlab", repo]),
            Err(Error::InvalidRepoFormat {
                repo: repo.to_string()
            })
        );
    }
    assert!(matches!(
        parse_cratespec_from_args(&["--github", "a/b", "--github-url", "nowhere"]),
        Err(Error::InvalidUrl { ref url, .. }) if url == "nowhere"
    ));
}

#[test]
fn features_hold_no_separators() {
    assert_eq!(parse_features(",, a\tb ,c/d ,"), strings(&["a", "b", "c/d"]));
    assert_eq!(parse_features(" , "), Vec::<String>::new());
}

#[test]
fn subcommands_are_the_crates_of_their_name() {
    let by_cargo = cli_of(&["cargo", "deny@1", "check"]);
    let by_name = cli_of(&["cargo-deny@1", "check"]);
    let config = default_config();
    assert_eq!(
        CrateSpec::load(&config, &by_cargo),
        CrateSpec::load(&config, &by_name)
    );
    assert_eq!(
        CrateSpec::get_binary_args(&by_cargo),
        CrateSpec::get_binary_args(&by_name)
    );
}

#[test]
fn options_behind_the_crate_are_for_the_tool() {
    let cli = cli_of(&["--features", "serde", "ripgrep", "--color=always"]);
    assert_eq!(cli.features, Some("serde".to_string()));
    assert_eq!(cli.color, None);
    assert_eq!(cli.crate_spec, Some("ripgrep".to_string()));
    assert_eq!(CrateSpec::get_binary_args(&cli), strings(&["--color=always"]));

    let cli = cli_of(&["ripgrep", "--features", "serde", "--color=always"]);
    assert_eq!(cli.features, None);
    assert_eq!(
        CrateSpec::get_binary_args(&cli),
        strings(&["--features", "serde", "--color=always"])
    );

    // With and without a separator.
    for args in [vec!["ripgrep", "--", "--version"], vec!["ripgrep", "--version"]] {
        let cli = cli_of(&args);
        assert_eq!(cli.version, None);
        assert_eq!(CrateSpec::get_binary_args(&cli), strings(&["--version"]));
    }
    let cli = cli_of(&["ripgrep", "--version", "-x"]);
    assert_eq!(CrateSpec::get_binary_args(&cli), strings(&["--version", "-x"]));
    let cli = cli_of(&["ripgrep", "--version", "14", "--", "--version"]);
    assert_eq!(cli.version, Some("14".to_string()));
    assert_eq!(CrateSpec::get_binary_args(&cli), strings(&["--version"]));
    let cli = cli_of(&["--path", "."]);
    assert_eq!(cli.crate_spec, None);
    assert!(cli.args.is_empty());
}

#[test]
fn cargo_may_call_the_program() {
    for program in ["cargo-cgx", "/home/u/.cargo/bin/cargo-cgx", "C:\\bin\\cargo-cgx.exe"] {
        assert_eq!(
            CliArgs::strip_subcommand(strings(&[program, "cgx", "ripgrep", "pattern"])),
            strings(&[program, "ripgrep", "pattern"])
        );
        assert_eq!(
            CliArgs::strip_subcommand(strings(&[program, "ripgrep", "cgx"])),
            strings(&[program, "ripgrep", "cgx"])
        );
        assert_eq!(CliArgs::strip_subcommand(strings(&[program])), strings(&[program]));
    }
    // Under its own name the program can be asked for the crate of that name.
    assert_eq!(
        CliArgs::strip_subcommand(strings(&["/bin/cgx", "cgx", "--help"])),
        strings(&["/bin/cgx", "cgx", "--help"])
    );
}
