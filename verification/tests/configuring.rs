use cgx::cli::CliArgs;
use cgx::config::{
    config_candidates, discover_config_files, BinaryProvider, Config, ConfigFile, PlatformDirs,
    PrebuiltBinariesConfig, ToolConfig, UsePrebuiltBinaries, DEFAULT_RESOLVE_CACHE_TIMEOUT,
};
use cgx::logging::{configured_filter, settings, LogLevel};
use cgx::paths::JoinedPath;
use figment::providers::{Format, Toml};
use figment::value::{Dict, Value};
use figment::Figment;

const MINUTE: u128 = 60_000_000_000;

fn dirs() -> PlatformDirs {
    PlatformDirs {
        config_dir: "/home/u/.config/cgx".to_string(),
        cache_dir: "/home/u/.cache/cgx".to_string(),
        bins_dir: "/home/u/.local/share/cgx/bins".to_string(),
        build_dir: "/home/u/.local/share/cgx/build".to_string(),
    }
}

fn text_in(dict: &Dict, key: &str) -> Option<String> {
    dict.get(key).and_then(|v| v.as_str()).map(|s| s.to_string())
}

fn flag_in(dict: &Dict, key: &str) -> Option<bool> {
    dict.get(key).and_then(|v| v.to_bool())
}

fn texts_in(dict: &Dict, key: &str) -> Option<Vec<String>> {
    let values = dict.get(key)?.as_array()?;
    Some(values.iter().map(|v| v.as_str().unwrap().to_string()).collect())
}

fn tool_of(value: &Value) -> ToolConfig {
    match value.as_dict() {
        None => ToolConfig::Version(value.as_str().unwrap().to_string()),
        Some(dict) => ToolConfig::Detailed {
            version: text_in(dict, "version"),
            features: texts_in(dict, "features"),
            registry: text_in(dict, "registry"),
            git: text_in(dict, "git"),
            branch: text_in(dict, "branch"),
            tag: text_in(dict, "tag"),
            rev: text_in(dict, "rev"),
            path: text_in(dict, "path"),
        },
    }
}

/// What the values say. Timeouts are in minutes here.
fn file_of(dict: &Dict) -> ConfigFile {
    let mut file = ConfigFile::default();
    file.bin_dir = text_in(dict, "bin_dir");
    file.build_dir = text_in(dict, "build_dir");
    file.cache_dir = text_in(dict, "cache_dir");
    file.locked = flag_in(dict, "locked");
    file.offline = flag_in(dict, "offline");
    file.toolchain = text_in(dict, "toolchain");
    file.resolve_cache_timeout = text_in(dict, "resolve_cache_timeout")
        .map(|t| t.strip_suffix('m').unwrap().parse::<u128>().unwrap() * MINUTE);
    file.tools = dict.get("tools").and_then(|v| v.as_dict()).map(|tools| {
        tools.iter().map(|(name, tool)| (name.clone(), tool_of(tool))).collect()
    });
    file.aliases = dict.get("aliases").and_then(|v| v.as_dict()).map(|aliases| {
        aliases
            .iter()
            .map(|(name, actual)| (name.clone(), actual.as_str().unwrap().to_string()))
            .collect()
    });
    file
}

/// The configuration with the given files, as they are found from the given directory.
fn load_from(files: &[(&str, &str)], ancestors: &[&str], args: &CliArgs) -> Config {
    let text_of = |path: &JoinedPath| {
        let mut full = std::path::PathBuf::from(&path.base);
        for segment in &path.segments {
            full = full.join(segment);
        }
        let name = full.to_string_lossy().to_string();
        files.iter().find(|(file, _)| *file == name).map(|(_, text)| text.to_string())
    };
    let ancestors: Vec<String> = ancestors.iter().map(|a| a.to_string()).collect();
    let candidates = config_candidates(args, &system(), &dirs(), &ancestors);
    let exists: Vec<bool> = candidates.iter().map(|c| text_of(c).is_some()).collect();
    let layers = discover_config_files(args, &candidates, &exists)
        .iter()
        .map(|path| match text_of(path) {
            Some(text) => parsed(&text),
            None => ConfigFile::default(),
        })
        .collect();
    Config::load_from_files(layers, args, &dirs())
}

/// What the text of a file says.
fn parsed(text: &str) -> ConfigFile {
    let dict: Dict = Figment::from(Toml::string(text)).extract().unwrap();
    file_of(&dict)
}

fn load(files: &[(&str, &str)], args: &CliArgs) -> Config {
    load_from(files, &["/a/b", "/a", "/"], args)
}

fn below(base: &str, segment: &str) -> JoinedPath {
    JoinedPath::new(base).join(segment)
}

#[test]
fn test_config_defaults() {
    let config = load(&[], &CliArgs::default());

    assert!(!config.offline);
    assert!(!config.locked);
    assert_eq!(config.toolchain, None);
    assert_eq!(config.resolve_cache_timeout, 60 * MINUTE);
}

#[test]
fn test_cli_overrides() {
    let mut args = CliArgs::default();
    args.toolchain = Some("nightly".to_string());
    args.offline = true;
    args.locked = true;
    let config = load(&[], &args);

    assert!(config.offline);
    assert!(config.locked);
    assert_eq!(config.toolchain, Some("nightly".to_string()));
}

#[test]
fn config_test_frozen_implies_locked_and_offline() {
    let mut args = CliArgs::default();
    args.frozen = true;
    let config = load(&[], &args);

    assert!(config.offline);
    assert!(config.locked);
}

#[test]
fn test_cli_args_override_config_files() {
    let file = "offline = false\nlocked = false\ntoolchain = \"nightly\"";
    let mut args = CliArgs::default();
    args.toolchain = Some("stable".to_string());
    args.offline = true;
    args.locked = true;
    let config = load(&[("/a/cgx.toml", file)], &args);

    assert!(config.offline);
    assert!(config.locked);
    assert_eq!(config.toolchain, Some("stable".to_string()));
}

fn hierarchy() -> Vec<String> {
    vec!["/a/b".to_string(), "/a".to_string(), "/".to_string()]
}

fn system() -> Option<JoinedPath> {
    Some(JoinedPath::new("/etc/cgx.toml"))
}

#[test]
fn test_discover_only_explicit_file() {
    let mut args = CliArgs::default();
    args.config_file = Some("/elsewhere/explicit.toml".to_string());
    let candidates = config_candidates(&args, &system(), &dirs(), &hierarchy());
    // Whether or not it exists.
    for exists in [true, false] {
        assert_eq!(
            discover_config_files(&args, &candidates, &vec![exists]),
            vec![JoinedPath::new("/elsewhere/explicit.toml")]
        );
    }
}

#[test]
fn test_discover_hierarchy_without_explicit() {
    let args = CliArgs::default();
    let candidates = config_candidates(&args, &system(), &dirs(), &hierarchy());
    assert_eq!(
        candidates,
        vec![
            JoinedPath::new("/etc/cgx.toml"),
            below("/home/u/.config/cgx", "cgx.toml"),
            below("/", "cgx.toml"),
            below("/a", "cgx.toml"),
            below("/a/b", "cgx.toml"),
        ]
    );
    let exists = vec![false, false, false, true, true];
    assert_eq!(
        discover_config_files(&args, &candidates, &exists),
        vec![below("/a", "cgx.toml"), below("/a/b", "cgx.toml")]
    );
}

#[test]
fn test_system_config_dir_cli_arg() {
    let mut args = CliArgs::default();
    args.system_config_dir = Some("/system".to_string());
    args.user_config_dir = Some("/user".to_string());
    let config = load(&[("/system/cgx.toml", "resolve_cache_timeout = \"5m\"")], &args);
    assert_eq!(config.resolve_cache_timeout, 5 * MINUTE);
    let candidates = config_candidates(&args, &system(), &dirs(), &vec![]);
    // The user file comes after the system file, so it overrides it.
    assert_eq!(
        candidates,
        vec![below("/system", "cgx.toml"), below("/user", "cgx.toml")]
    );
    let candidates = config_candidates(&CliArgs::default(), &None, &dirs(), &vec![]);
    assert_eq!(candidates, vec![below("/home/u/.config/cgx", "cgx.toml")]);
}

#[test]
fn test_app_dir_config_location() {
    let mut args = CliArgs::default();
    args.app_dir = Some("/app".to_string());
    let files = [("/app/config/cgx.toml", "resolve_cache_timeout = \"7m\"")];
    let config = load(&files, &args);
    assert_eq!(config.resolve_cache_timeout, 7 * MINUTE);
    assert_eq!(config.config_dir, below("/app", "config"));
    let candidates = config_candidates(&args, &None, &dirs(), &vec![]);
    assert_eq!(candidates, vec![below("/app", "config").join("cgx.toml")]);
}

#[test]
fn test_app_dir_cache_location() {
    let mut args = CliArgs::default();
    args.app_dir = Some("/app".to_string());
    assert_eq!(load(&[], &args).cache_dir, below("/app", "cache"));
}

#[test]
fn test_app_dir_bins_location() {
    let mut args = CliArgs::default();
    args.app_dir = Some("/app".to_string());
    assert_eq!(load(&[], &args).bin_dir, below("/app", "bins"));
}

#[test]
fn test_app_dir_build_location() {
    let mut args = CliArgs::default();
    args.app_dir = Some("/app".to_string());
    assert_eq!(load(&[], &args).build_dir, below("/app", "build"));
}

#[test]
fn test_user_config_dir_overrides_app_dir() {
    let mut args = CliArgs::default();
    args.app_dir = Some("/app".to_string());
    args.user_config_dir = Some("/user".to_string());
    let files = [
        ("/app/config/cgx.toml", "resolve_cache_timeout = \"9m\""),
        ("/user/cgx.toml", "resolve_cache_timeout = \"11m\""),
    ];
    let config = load(&files, &args);
    // user_config_dir should override app_dir for config location
    assert_eq!(config.resolve_cache_timeout, 11 * MINUTE);
    assert_eq!(config.config_dir, JoinedPath::new("/user"));
    // But cache/bins/build should still come from app_dir
    assert_eq!(config.cache_dir, below("/app", "cache"));
    assert_eq!(config.bin_dir, below("/app", "bins"));
    assert_eq!(config.build_dir, below("/app", "build"));
}

#[test]
fn test_config_file_overrides_take_precedence_over_app_dir() {
    let file = "cache_dir = \"/t/my-cache\"\nbin_dir = \"/t/my-bins\"\nbuild_dir = \"/t/my-build\"";
    let mut args = CliArgs::default();
    args.app_dir = Some("/t/app".to_string());
    args.config_file = Some("/t/explicit.toml".to_string());
    let config = load_from(&[("/t/explicit.toml", file)], &["/t/work", "/t", "/"], &args);

    // Explicit config file settings should win over app_dir
    assert_eq!(config.cache_dir, JoinedPath::new("/t/my-cache"));
    assert_eq!(config.bin_dir, JoinedPath::new("/t/my-bins"));
    assert_eq!(config.build_dir, JoinedPath::new("/t/my-build"));
}

#[test]
fn platform_directories_are_the_last_resort() {
    let config = load(&[], &CliArgs::default());
    assert_eq!(config.config_dir, JoinedPath::new("/home/u/.config/cgx"));
    assert_eq!(config.cache_dir, JoinedPath::new("/home/u/.cache/cgx"));
    assert_eq!(config.bin_dir, JoinedPath::new("/home/u/.local/share/cgx/bins"));
    assert_eq!(config.build_dir, JoinedPath::new("/home/u/.local/share/cgx/build"));
}

#[test]
fn missing_settings_have_their_defaults() {
    let config = Config::load_from_layers(ConfigFile::default(), &CliArgs::default(), &dirs());
    assert_eq!(config.resolve_cache_timeout, DEFAULT_RESOLVE_CACHE_TIMEOUT);
    assert!(config.tools.is_empty());
    assert!(config.aliases.is_empty());
    let mut file = ConfigFile::default();
    file.resolve_cache_timeout = Some(6 * MINUTE);
    file.aliases = Some(vec![("rg".to_string(), "ripgrep".to_string())]);
    let config = Config::load_from_layers(file, &CliArgs::default(), &dirs());
    assert_eq!(config.resolve_cache_timeout, 6 * MINUTE);
    assert_eq!(config.aliases, vec![("rg".to_string(), "ripgrep".to_string())]);
}

#[test]
fn verbosity_sets_level_form_and_filter() {
    let quiet = settings(0);
    assert_eq!(quiet.level, LogLevel::Warn);
    assert!(quiet.simple_format);
    assert_eq!(quiet.default_filter, "warn");
    for (verbose, level, name) in [
        (1, LogLevel::Info, tracing::Level::INFO),
        (2, LogLevel::Debug, tracing::Level::DEBUG),
        (3, LogLevel::Trace, tracing::Level::TRACE),
        (200, LogLevel::Trace, tracing::Level::TRACE),
    ] {
        let log = settings(verbose);
        assert_eq!(log.level, level);
        assert!(!log.simple_format);
        assert_eq!(log.default_filter, format!("info,{}", name));
    }
}

const ROOT: &str = r#"
resolve_cache_timeout = "1m"
[tools]
ripgrep = "*"
root_tool = "1"
taplo-cli = { version = "1.11.0", features = ["schema"] }
[aliases]
rg = "ripgrep"
taplo = "taplo-cli"
dummytool = "root"
"#;

const WORK: &str = r#"
resolve_cache_timeout = "2m"
[tools]
work_tool = "2"
[aliases]
dummytool = "work"
"#;

const PROJECT1: &str = r#"
resolve_cache_timeout = "3m"
[tools]
project1_tool = "3"
[aliases]
dummytool = "project1"
"#;

const PROJECT2: &str = r#"
resolve_cache_timeout = "5m"
[tools]
project2_tool = "5"
[aliases]
dummytool = "project2"
"#;

const EXPLICIT: &str = r#"
resolve_cache_timeout = "6m"
[tools]
project1_tool = "6"
[aliases]
dummytool = "not_called_cgx_project1"
"#;

const TREE: [(&str, &str); 5] = [
    ("/root/cgx.toml", ROOT),
    ("/root/work/cgx.toml", WORK),
    ("/root/work/project1/cgx.toml", PROJECT1),
    ("/root/work/project2/cgx.toml", PROJECT2),
    ("/elsewhere/not_called_cgx.toml", EXPLICIT),
];

const PROJECT1_DIRS: [&str; 4] = ["/root/work/project1", "/root/work", "/root", "/"];
const PROJECT2_DIRS: [&str; 4] = ["/root/work/project2", "/root/work", "/root", "/"];

fn has_tool(config: &Config, name: &str) -> bool {
    config.tools.iter().any(|(tool, _)| tool == name)
}

fn alias(config: &Config, name: &str) -> Option<String> {
    config
        .aliases
        .iter()
        .find(|(alias, _)| alias == name)
        .map(|(_, actual)| actual.clone())
}

#[test]
fn test_config_hierarchy_project1() {
    let config = load_from(&TREE, &PROJECT1_DIRS, &CliArgs::default());

    assert_eq!(config.resolve_cache_timeout, 3 * MINUTE);

    assert!(has_tool(&config, "ripgrep"));
    assert!(has_tool(&config, "root_tool"));
    assert!(has_tool(&config, "taplo-cli"));
    assert!(has_tool(&config, "work_tool"));
    assert!(has_tool(&config, "project1_tool"));
    assert_eq!(config.tools.len(), 5);

    assert_eq!(alias(&config, "dummytool"), Some("project1".to_string()));
    assert_eq!(alias(&config, "rg"), Some("ripgrep".to_string()));
    assert_eq!(alias(&config, "taplo"), Some("taplo-cli".to_string()));
    assert_eq!(config.aliases.len(), 3);
}

#[test]
fn test_config_hierarchy_project2() {
    let config = load_from(&TREE, &PROJECT2_DIRS, &CliArgs::default());

    assert_eq!(config.resolve_cache_timeout, 5 * MINUTE);

    assert!(has_tool(&config, "ripgrep"));
    assert!(has_tool(&config, "root_tool"));
    assert!(has_tool(&config, "taplo-cli"));
    assert!(has_tool(&config, "work_tool"));
    assert!(has_tool(&config, "project2_tool"));
    assert_eq!(config.tools.len(), 5);

    assert_eq!(alias(&config, "dummytool"), Some("project2".to_string()));
    assert_eq!(alias(&config, "rg"), Some("ripgrep".to_string()));
    assert_eq!(alias(&config, "taplo"), Some("taplo-cli".to_string()));
    assert_eq!(config.aliases.len(), 3);
}

#[test]
fn test_config_hierarchy_work() {
    let config = load_from(&TREE, &PROJECT1_DIRS[1..], &CliArgs::default());

    assert_eq!(config.resolve_cache_timeout, 2 * MINUTE);

    assert!(has_tool(&config, "ripgrep"));
    assert!(has_tool(&config, "root_tool"));
    assert!(has_tool(&config, "taplo-cli"));
    assert!(has_tool(&config, "work_tool"));
    assert_eq!(config.tools.len(), 4);

    assert_eq!(alias(&config, "dummytool"), Some("work".to_string()));
    assert_eq!(alias(&config, "rg"), Some("ripgrep".to_string()));
    assert_eq!(alias(&config, "taplo"), Some("taplo-cli".to_string()));
    assert_eq!(config.aliases.len(), 3);
}

#[test]
fn test_config_hierarchy_root() {
    let config = load_from(&TREE, &PROJECT1_DIRS[2..], &CliArgs::default());

    assert_eq!(config.resolve_cache_timeout, MINUTE);

    assert!(has_tool(&config, "ripgrep"));
    assert!(has_tool(&config, "root_tool"));
    assert!(has_tool(&config, "taplo-cli"));
    assert_eq!(config.tools.len(), 3);

    assert_eq!(alias(&config, "dummytool"), Some("root".to_string()));
    assert_eq!(alias(&config, "rg"), Some("ripgrep".to_string()));
    assert_eq!(alias(&config, "taplo"), Some("taplo-cli".to_string()));
    assert_eq!(config.aliases.len(), 3);
}

#[test]
fn test_explicit_config_file() {
    let mut args = CliArgs::default();
    args.config_file = Some("/elsewhere/not_called_cgx.toml".to_string());
    let config = load_from(&TREE, &["/"], &args);

    assert_eq!(config.resolve_cache_timeout, 6 * MINUTE);

    assert!(has_tool(&config, "project1_tool"));
    assert_eq!(config.tools.len(), 1);

    assert_eq!(
        alias(&config, "dummytool"),
        Some("not_called_cgx_project1".to_string())
    );
    assert_eq!(config.aliases.len(), 1);
}

#[test]
fn test_config_file_reads_only_specified_file() {
    let mut args = CliArgs::default();
    args.config_file = Some("/elsewhere/not_called_cgx.toml".to_string());
    let config = load_from(&TREE, &PROJECT1_DIRS, &args);

    // Should have the explicit config's timeout (6m), not any from the hierarchy (1m/2m/3m)
    assert_eq!(config.resolve_cache_timeout, 6 * MINUTE);

    // Should have only the tool from explicit config, not from hierarchy
    assert!(has_tool(&config, "project1_tool"));
    assert_eq!(config.tools.len(), 1);

    // Should have only the alias from explicit config
    assert_eq!(
        alias(&config, "dummytool"),
        Some("not_called_cgx_project1".to_string())
    );
    assert_eq!(config.aliases.len(), 1);
}

#[test]
fn test_tools_detailed_config_preserved() {
    let config = load_from(&TREE, &PROJECT1_DIRS[2..], &CliArgs::default());

    let (_, taplo_tool) = config.tools.iter().find(|(name, _)| name == "taplo-cli").unwrap();
    assert!(matches!(
        taplo_tool,
        ToolConfig::Detailed {
            version: Some(v),
            features: Some(f),
            ..
        } if v == "1.11.0" && f == &vec!["schema".to_string()]
    ));
}

#[test]
fn test_nonexistent_explicit_config_file() {
    let mut args = CliArgs::default();
    args.config_file = Some("/nonexistent.toml".to_string());
    let config = load_from(&TREE, &PROJECT1_DIRS, &args);
    assert_eq!(config.resolve_cache_timeout, 60 * MINUTE);
}

#[test]
fn test_no_config_files_uses_defaults() {
    let mut args = CliArgs::default();
    args.system_config_dir = Some("/tmp/x/system".to_string());
    args.user_config_dir = Some("/tmp/x/user".to_string());
    let config = load_from(&[], &["/tmp/x", "/tmp", "/"], &args);

    assert_eq!(config.resolve_cache_timeout, 60 * MINUTE);
    assert!(!config.offline);
    assert!(!config.locked);
    assert_eq!(config.toolchain, None);
    assert_eq!(config.tools.len(), 0);
    assert_eq!(config.aliases.len(), 0);
}

#[test]
fn test_system_config_dir_vs_user_config() {
    let mut args = CliArgs::default();
    args.system_config_dir = Some("/system".to_string());
    args.user_config_dir = Some("/user".to_string());
    let files = [
        ("/system/cgx.toml", "resolve_cache_timeout = \"10m\""),
        ("/user/cgx.toml", "resolve_cache_timeout = \"20m\""),
    ];
    let config = load(&files, &args);
    // User config should override system config
    assert_eq!(config.resolve_cache_timeout, 20 * MINUTE);
}

#[test]
fn flags_that_were_not_given_override_nothing() {
    let mut args = CliArgs::default();
    args.config_file = Some("c.toml".to_string());
    let files = [("c.toml", "offline = true\nlocked = true")];
    let config = load(&files, &args);
    assert!(config.offline);
    assert!(config.locked);
    assert_eq!(ConfigFile::cli_overrides(&args), ConfigFile::default());

    // A nearer file may take it back, and a flag may turn it on again.
    let files = [
        ("/a/cgx.toml", "offline = true\nlocked = true\ntoolchain = \"nightly\""),
        ("/a/b/cgx.toml", "offline = false"),
    ];
    let mut args = CliArgs::default();
    let config = load(&files, &args);
    assert!(!config.offline);
    assert!(config.locked);
    assert_eq!(config.toolchain, Some("nightly".to_string()));
    args.offline = true;
    args.toolchain = Some("stable".to_string());
    let config = load(&files, &args);
    assert!(config.offline);
    assert_eq!(config.toolchain, Some("stable".to_string()));
}

#[test]
fn settings_of_a_tool_are_put_together() {
    let files = [
        (
            "/a/cgx.toml",
            "[tools]\nx = { version = \"1\", features = [\"f\"] }\ny = \"1\"\nz = { git = \"g\" }",
        ),
        (
            "/a/b/cgx.toml",
            "[tools]\nx = { version = \"2\" }\ny = { tag = \"t\" }\nz = \"3\"",
        ),
    ];
    let config = load(&files, &CliArgs::default());
    let detailed = |version: Option<&str>, features: Option<Vec<String>>, tag: Option<&str>| {
        ToolConfig::Detailed {
            version: version.map(|v| v.to_string()),
            features,
            registry: None,
            git: None,
            branch: None,
            tag: tag.map(|t| t.to_string()),
            rev: None,
            path: None,
        }
    };
    assert_eq!(
        config.tools,
        vec![
            ("x".to_string(), detailed(Some("2"), Some(vec!["f".to_string()]), None)),
            ("y".to_string(), detailed(None, None, Some("t"))),
            ("z".to_string(), ToolConfig::Version("3".to_string())),
        ]
    );
    // The same as when the files are merged before they are read.
    let together: Dict = Figment::from(Toml::string(files[0].1))
        .merge(Toml::string(files[1].1))
        .extract()
        .unwrap();
    assert_eq!(file_of(&together).tools, Some(config.tools));
}

#[test]
fn every_setting_of_a_later_layer_wins() {
    let lower = "bin_dir = \"a\"\nbuild_dir = \"b\"\ncache_dir = \"c\"\nresolve_cache_timeout = \"1m\"";
    let upper = "bin_dir = \"x\"\ncache_dir = \"z\"\n[aliases]\nrg = \"ripgrep\"";
    let merged = parsed(lower).merge(parsed(upper));
    let together: Dict = Figment::from(Toml::string(lower))
        .merge(Toml::string(upper))
        .extract()
        .unwrap();
    assert_eq!(merged, file_of(&together));
    assert_eq!(merged.bin_dir, Some("x".to_string()));
    assert_eq!(merged.build_dir, Some("b".to_string()));
    assert_eq!(merged.cache_dir, Some("z".to_string()));
    assert_eq!(merged.resolve_cache_timeout, Some(MINUTE));
    assert_eq!(
        merged.aliases,
        Some(vec![("rg".to_string(), "ripgrep".to_string())])
    );
}

#[test]
fn providers_come_from_flags_or_files_or_are_the_default_ones() {
    let mut args = CliArgs::default();
    let mut config = load(&[], &args);
    let default = PrebuiltBinariesConfig::load(&config, &args);
    assert_eq!(
        default.binary_providers,
        vec![
            BinaryProvider::Binstall,
            BinaryProvider::GithubReleases,
            BinaryProvider::GitlabReleases,
            BinaryProvider::Quickinstall,
        ]
    );
    assert_eq!(default.use_prebuilt_binaries, UsePrebuiltBinaries::Auto);
    assert!(default.verify_checksums);
    config.binary_providers = Some(vec![]);
    let none = PrebuiltBinariesConfig::load(&config, &args);
    assert!(none.binary_providers.is_empty());
    assert_eq!(none.use_prebuilt_binaries, UsePrebuiltBinaries::Never);
    args.prebuilt_binary_sources = Some(vec![BinaryProvider::Quickinstall]);
    args.prebuilt_binary = Some(UsePrebuiltBinaries::Always);
    let asked = PrebuiltBinariesConfig::load(&config, &args);
    assert_eq!(asked.binary_providers, vec![BinaryProvider::Quickinstall]);
    assert_eq!(asked.use_prebuilt_binaries, UsePrebuiltBinaries::Always);
}

#[test]
fn test_app_dir_complete_isolation() {
    let mut args = CliArgs::default();
    args.app_dir = Some("/t/app".to_string());
    let config = load_from(&[], &["/t/work", "/t", "/"], &args);

    // All directories should be under app_dir
    assert_eq!(config.config_dir, below("/t/app", "config"));
    assert_eq!(config.cache_dir, below("/t/app", "cache"));
    assert_eq!(config.bin_dir, below("/t/app", "bins"));
    assert_eq!(config.build_dir, below("/t/app", "build"));
}

#[test]
fn test_user_config_dir_cli_arg() {
    let mut args = CliArgs::default();
    args.user_config_dir = Some("/t/user".to_string());
    let files = [("/t/user/cgx.toml", "resolve_cache_timeout = \"8m\"")];
    let config = load_from(&files, &["/t/work", "/t", "/"], &args);

    assert_eq!(config.resolve_cache_timeout, 8 * MINUTE);
    assert_eq!(config.config_dir, JoinedPath::new("/t/user"));
}

#[test]
fn test_all_three_overrides() {
    let files = [
        (
            "/t/system/cgx.toml",
            "[tools]\nsystem_tool = \"1\"\n[aliases]\ndummytool = \"system\"",
        ),
        ("/t/app/config/cgx.toml", "[tools]\napp_tool = \"1\""),
        (
            "/t/user/cgx.toml",
            "resolve_cache_timeout = \"12m\"\n[tools]\nuser_tool = \"1\"\n[aliases]\ndummytool = \"user\"",
        ),
    ];
    let mut args = CliArgs::default();
    args.system_config_dir = Some("/t/system".to_string());
    args.app_dir = Some("/t/app".to_string());
    args.user_config_dir = Some("/t/user".to_string());
    let config = load_from(&files, &["/t/work", "/t", "/"], &args);

    // Should have merged tools from all configs
    assert!(has_tool(&config, "system_tool"));
    assert!(has_tool(&config, "user_tool"));
    assert_eq!(config.tools.len(), 2);

    // User config should override alias
    assert_eq!(alias(&config, "dummytool"), Some("user".to_string()));

    // Config dir from user_config_dir
    assert_eq!(config.config_dir, JoinedPath::new("/t/user"));

    // Other dirs from app_dir
    assert_eq!(config.cache_dir, below("/t/app", "cache"));
    assert_eq!(config.bin_dir, below("/t/app", "bins"));
    assert_eq!(config.build_dir, below("/t/app", "build"));
}

#[test]
fn test_hierarchy_still_works_with_overrides() {
    let files = [
        ("/t/work/cgx.toml", "[tools]\nroot_tool = \"1\""),
        ("/t/work/sub/cgx.toml", "[tools]\nsub_tool = \"1\""),
    ];
    let mut args = CliArgs::default();
    args.app_dir = Some("/t/app".to_string());
    let config = load_from(&files, &["/t/work/sub", "/t/work", "/t", "/"], &args);

    // Should have tools from both hierarchy configs
    assert!(has_tool(&config, "root_tool"));
    assert!(has_tool(&config, "sub_tool"));
    assert_eq!(config.tools.len(), 2);
}

#[test]
fn the_configured_level_comes_last() {
    let level = Some("debug".to_string());
    assert_eq!(configured_filter(0, false, &level), level);
    assert_eq!(configured_filter(1, false, &level), None);
    assert_eq!(configured_filter(0, true, &level), None);
    assert_eq!(configured_filter(0, false, &None), None);
}
