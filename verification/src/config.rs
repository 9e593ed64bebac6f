//! Settings: where they are looked for, what the command line overrides, and how the
//! merged settings become the configuration.
use vstd::prelude::*;
use vstd::string::*;

use crate::cli::CliArgs;
use crate::layers::{
    all_names_are_kept, entry_in, entry_of, is_valid, last_alias_wins, last_layer_wins, layer_views,
    merge_layers, merged, nothing, unset_stays_unset, LayerView,
};
use crate::paths::{at, JoinedPath, PathView};
use crate::text::clone_opt;

verus! {

/// Where prebuilt binaries are looked for.
#[derive(Clone, Copy, Debug, PartialEq, Eq, Hash, Structural)]
pub enum BinaryProvider {
    /// The locations that `cargo-binstall` metadata names.
    Binstall,
    /// Releases of the crate's GitHub repository.
    GithubReleases,
    /// Releases of the crate's GitLab repository.
    GitlabReleases,
    /// The community-driven quickinstall repository.
    Quickinstall,
}

/// Whether prebuilt binaries are used.
#[derive(Clone, Copy, Debug, PartialEq, Eq, Hash, Structural)]
pub enum UsePrebuiltBinaries {
    /// Where there is one; otherwise the crate is built from source.
    Auto,
    /// Only prebuilt binaries will do.
    Always,
    /// Everything is built from source.
    Never,
}

/// How prebuilt binaries are looked for.
#[derive(Clone, Debug, PartialEq, Eq)]
pub struct PrebuiltBinariesConfig {
    pub use_prebuilt_binaries: UsePrebuiltBinaries,
    /// The providers to ask, in this order.
    pub binary_providers: Vec<BinaryProvider>,
    pub verify_checksums: bool,
}

/// The providers that are asked where nothing else is said, in this order.
pub open spec fn default_providers() -> Seq<BinaryProvider> {
    seq![
        BinaryProvider::Binstall,
        BinaryProvider::GithubReleases,
        BinaryProvider::GitlabReleases,
        BinaryProvider::Quickinstall,
    ]
}

/// The providers to ask: those on the command line, else those in the configuration, else the
/// default ones.
pub open spec fn providers_of(config: Config, args: CliArgs) -> Seq<BinaryProvider> {
    match (args.prebuilt_binary_sources, config.binary_providers) {
        (Some(providers), _) => providers@,
        (None, Some(providers)) => providers@,
        (None, None) => default_providers(),
    }
}

fn copy_providers(providers: &Vec<BinaryProvider>) -> (r: Vec<BinaryProvider>)
    ensures
        r@ == providers@,
{
    let mut r: Vec<BinaryProvider> = Vec::new();
    let mut i: usize = 0;
    while i < providers.len()
        invariant
            i <= providers.len(),
            r@ == providers@.take(i as int),
        decreases providers.len() - i,
    {
        r.push(providers[i]);
        assert(r@ =~= providers@.take(i + 1));
        i = i + 1;
    }
    assert(r@ =~= providers@);
    r
}

impl PrebuiltBinariesConfig {
    /// This is how prebuilt binaries are looked for under a configuration and a command line.
    pub open spec fn is_loaded(self, config: Config, args: CliArgs) -> bool {
        &&& self.binary_providers@ == providers_of(config, args)
        &&& self.use_prebuilt_binaries == (match args.prebuilt_binary {
            Some(mode) => mode,
            None => if providers_of(config, args).len() == 0 {
                UsePrebuiltBinaries::Never
            } else {
                UsePrebuiltBinaries::Auto
            },
        })
        &&& self.verify_checksums
    }

    /// How prebuilt binaries are looked for. Where the command line does not say whether they
    /// are used, they are where there are providers to ask. Checksums are verified.
    pub fn load(config: &Config, args: &CliArgs) -> (r: Self)
        ensures
            r.is_loaded(*config, *args),
    {
        let binary_providers = match (&args.prebuilt_binary_sources, &config.binary_providers) {
            (Some(providers), _) => copy_providers(providers),
            (None, Some(providers)) => copy_providers(providers),
            (None, None) => vec![
                BinaryProvider::Binstall,
                BinaryProvider::GithubReleases,
                BinaryProvider::GitlabReleases,
                BinaryProvider::Quickinstall,
            ],
        };
        assert(args.prebuilt_binary_sources is None && config.binary_providers is None
            ==> binary_providers@ =~= default_providers());
        let use_prebuilt_binaries = match args.prebuilt_binary {
            Some(mode) => mode,
            None => if binary_providers.len() == 0 {
                UsePrebuiltBinaries::Never
            } else {
                UsePrebuiltBinaries::Auto
            },
        };
        PrebuiltBinariesConfig { use_prebuilt_binaries, binary_providers, verify_checksums: true }
    }
}

/// How HTTP requests are made. Times are in nanoseconds.
#[derive(Clone, Debug, PartialEq, Eq)]
pub struct HttpConfig {
    pub timeout: u128,
    pub backoff_base: u128,
    pub backoff_max: u128,
    pub retries: usize,
    pub proxy: Option<String>,
}

/// Settings of a single tool.
#[derive(Clone, Debug, PartialEq, Eq)]
pub enum ToolConfig {
    /// A version requirement.
    Version(String),
    /// Version, features and source.
    Detailed {
        version: Option<String>,
        features: Option<Vec<String>>,
        registry: Option<String>,
        git: Option<String>,
        branch: Option<String>,
        tag: Option<String>,
        rev: Option<String>,
        path: Option<String>,
    },
}

/// What one layer of settings says: a file, the defaults or the command line.
#[derive(Clone, Debug, PartialEq, Eq)]
pub struct ConfigFile {
    pub bin_dir: Option<String>,
    pub build_dir: Option<String>,
    pub cache_dir: Option<String>,
    pub locked: Option<bool>,
    pub log_level: Option<String>,
    pub offline: Option<bool>,
    /// In nanoseconds.
    pub resolve_cache_timeout: Option<u128>,
    pub toolchain: Option<String>,
    pub default_registry: Option<String>,
    pub binary_providers: Option<Vec<BinaryProvider>>,
    pub tools: Option<Vec<(String, ToolConfig)>>,
    pub aliases: Option<Vec<(String, String)>>,
}

/// The directories that the platform provides for the program.
#[derive(Clone, Debug, PartialEq, Eq)]
pub struct PlatformDirs {
    pub config_dir: String,
    pub cache_dir: String,
    /// The directory for binaries under the platform's data directory.
    pub bins_dir: String,
    /// The directory for builds under the platform's data directory.
    pub build_dir: String,
}

/// The configuration.
#[derive(Clone, Debug, PartialEq, Eq)]
pub struct Config {
    /// Directory of the user configuration file.
    pub config_dir: JoinedPath,
    /// Directory under which everything cached is kept.
    pub cache_dir: JoinedPath,
    /// Directory for binaries that can be used again.
    pub bin_dir: JoinedPath,
    /// Directory for builds.
    pub build_dir: JoinedPath,
    /// How long a resolved crate is used before it is resolved again, in nanoseconds.
    pub resolve_cache_timeout: u128,
    pub offline: bool,
    pub locked: bool,
    /// Rust toolchain to build with.
    pub toolchain: Option<String>,
    pub log_level: Option<String>,
    /// Registry to use in place of crates.io.
    pub default_registry: Option<String>,
    /// Providers of prebuilt binaries.
    pub binary_providers: Option<Vec<BinaryProvider>>,
    /// Settings of single tools.
    pub tools: Vec<(String, ToolConfig)>,
    /// Names that stand for crate names.
    pub aliases: Vec<(String, String)>,
}

/// One hour, in nanoseconds.
pub const DEFAULT_RESOLVE_CACHE_TIMEOUT: u128 = 3_600_000_000_000;

impl Default for ConfigFile {
    /// A layer that says nothing.
    fn default() -> (r: Self)
        ensures
            r.bin_dir is None,
            r.build_dir is None,
            r.cache_dir is None,
            r.locked is None,
            r.log_level is None,
            r.offline is None,
            r.resolve_cache_timeout is None,
            r.toolchain is None,
            r.default_registry is None,
            r.binary_providers is None,
            r.tools is None,
            r.aliases is None,
            r@ == nothing(),
    {
        ConfigFile {
            bin_dir: None,
            build_dir: None,
            cache_dir: None,
            locked: None,
            log_level: None,
            offline: None,
            resolve_cache_timeout: None,
            toolchain: None,
            default_registry: None,
            binary_providers: None,
            tools: None,
            aliases: None,
        }
    }
}

/// The command line asks for a locked build.
pub open spec fn locked_by(args: CliArgs) -> bool {
    args.locked || args.frozen
}

/// The command line asks to stay off the network.
pub open spec fn offline_by(args: CliArgs) -> bool {
    args.offline || args.frozen
}

impl ConfigFile {
    /// The lowest layer: resolved crates are kept for an hour, nothing is locked, and the
    /// network may be used.
    pub fn defaults() -> (r: Self)
        ensures
            r@ == defaults_layer(),
    {
        let mut r = ConfigFile::default();
        r.resolve_cache_timeout = Some(DEFAULT_RESOLVE_CACHE_TIMEOUT);
        r.locked = Some(false);
        r.offline = Some(false);
        r
    }

    /// The highest layer: what the command line says. A flag that was not given says nothing,
    /// and `--frozen` is both `--locked` and `--offline`.
    pub fn cli_overrides(args: &CliArgs) -> (r: Self)
        ensures
            r@ == overrides_layer(*args),
    {
        let mut r = ConfigFile::default();
        if args.locked || args.frozen {
            r.locked = Some(true);
        }
        if args.offline || args.frozen {
            r.offline = Some(true);
        }
        r.toolchain = clone_opt(&args.toolchain);
        r
    }
}

/// What holds where nothing else is said.
pub open spec fn defaults_layer() -> LayerView {
    LayerView {
        resolve_cache_timeout: Some(DEFAULT_RESOLVE_CACHE_TIMEOUT),
        locked: Some(false),
        offline: Some(false),
        ..nothing()
    }
}

/// What the command line says: a flag that was not given says nothing.
pub open spec fn overrides_layer(args: CliArgs) -> LayerView {
    LayerView {
        locked: if locked_by(args) {
            Some(true)
        } else {
            None
        },
        offline: if offline_by(args) {
            Some(true)
        } else {
            None
        },
        toolchain: args.toolchain,
        ..nothing()
    }
}

/// All layers from the lowest precedence to the highest: the defaults, the files in their
/// order, the command line.
pub open spec fn all_layers(args: CliArgs, files: Seq<LayerView>) -> Seq<LayerView> {
    (seq![defaults_layer()] + files).push(overrides_layer(args))
}

/// The directory of the user configuration file: the one named for it, else `config` under
/// the directory of the program, else the platform's.
pub open spec fn config_dir_of(args: CliArgs, dirs: PlatformDirs) -> PathView {
    match (args.user_config_dir, args.app_dir) {
        (Some(dir), _) => at(dir@),
        (None, Some(app)) => at(app@).join("config"@),
        (None, None) => at(dirs.config_dir@),
    }
}

/// A working directory: the one that a file sets, else `name` under the directory of the
/// program, else the platform's.
pub open spec fn working_dir_of(
    set: Option<String>,
    app_dir: Option<String>,
    name: Seq<char>,
    platform: Seq<char>,
) -> PathView {
    match (set, app_dir) {
        (Some(dir), _) => at(dir@),
        (None, Some(app)) => at(app@).join(name),
        (None, None) => at(platform),
    }
}

fn working_dir(
    set: &Option<String>,
    app_dir: &Option<String>,
    name: &str,
    platform: &str,
) -> (r: JoinedPath)
    ensures
        r@ == working_dir_of(*set, *app_dir, name@, platform@),
{
    match set {
        Some(dir) => JoinedPath::new(dir.as_str()),
        None => match app_dir {
            Some(app) => JoinedPath::new(app.as_str()).join(name),
            None => JoinedPath::new(platform),
        },
    }
}

impl Config {
    /// The configuration is what the merged layers give, with the directories that the command
    /// line and the platform provide.
    pub open spec fn is_loaded(
        self,
        merged: LayerView,
        args: CliArgs,
        dirs: PlatformDirs,
    ) -> bool {
        &&& self.config_dir@ == config_dir_of(args, dirs)
        &&& self.cache_dir@ == working_dir_of(
            merged.cache_dir,
            args.app_dir,
            "cache"@,
            dirs.cache_dir@,
        )
        &&& self.bin_dir@ == working_dir_of(
            merged.bin_dir,
            args.app_dir,
            "bins"@,
            dirs.bins_dir@,
        )
        &&& self.build_dir@ == working_dir_of(
            merged.build_dir,
            args.app_dir,
            "build"@,
            dirs.build_dir@,
        )
        &&& self.resolve_cache_timeout == (match merged.resolve_cache_timeout {
            Some(timeout) => timeout,
            None => DEFAULT_RESOLVE_CACHE_TIMEOUT,
        })
        &&& self.offline == (merged.offline == Some(true))
        &&& self.locked == (merged.locked == Some(true))
        &&& self.toolchain == merged.toolchain
        &&& self.log_level == merged.log_level
        &&& self.default_registry == merged.default_registry
        &&& self.binary_providers == merged.binary_providers
        &&& self.tools@ == (match merged.tools {
            Some(tools) => tools,
            None => Seq::empty(),
        })
        &&& self.aliases@ == (match merged.aliases {
            Some(aliases) => aliases,
            None => Seq::empty(),
        })
    }

    /// The configuration, given what each file says, the lowest precedence first. The defaults
    /// are below all files and the command line is above them.
    pub fn load_from_files(files: Vec<ConfigFile>, args: &CliArgs, dirs: &PlatformDirs) -> (r: Self)
        ensures
            r.is_loaded(merged(all_layers(*args, layer_views(files@))), *args, *dirs),
            flags_and_defaults_hold(r, layer_views(files@), *args),
            forall|k: int|
                #![trigger files@[k]]
                0 <= k < files@.len() ==> settings_hold(r, layer_views(files@), *args, k),
    {
        let ghost said = layer_views(files@);
        let mut layers = files;
        layers.insert(0, ConfigFile::defaults());
        layers.push(ConfigFile::cli_overrides(args));
        assert(layer_views(layers@) =~= all_layers(*args, said));
        let r = Self::load_from_layers(merge_layers(layers), args, dirs);
        proof {
            flags_win_and_defaults_stay(r, said, *args, *dirs);
            assert forall|k: int| 0 <= k < files@.len() implies settings_hold(
                r,
                said,
                *args,
                k,
            ) by {
                nearer_settings_win(r, said, *args, *dirs, k);
            }
        }
        r
    }

    /// The configuration that the merged layers give, with the directories that the command
    /// line and the platform provide.
    pub fn load_from_layers(merged: ConfigFile, args: &CliArgs, dirs: &PlatformDirs) -> (r: Self)
        ensures
            r.is_loaded(merged@, *args, *dirs),
    {
        let config_dir = working_dir(
            &args.user_config_dir,
            &args.app_dir,
            "config",
            dirs.config_dir.as_str(),
        );
        let cache_dir = working_dir(
            &merged.cache_dir,
            &args.app_dir,
            "cache",
            dirs.cache_dir.as_str(),
        );
        let bin_dir = working_dir(&merged.bin_dir, &args.app_dir, "bins", dirs.bins_dir.as_str());
        let build_dir = working_dir(
            &merged.build_dir,
            &args.app_dir,
            "build",
            dirs.build_dir.as_str(),
        );
        Config {
            config_dir,
            cache_dir,
            bin_dir,
            build_dir,
            resolve_cache_timeout: match merged.resolve_cache_timeout {
                Some(timeout) => timeout,
                None => DEFAULT_RESOLVE_CACHE_TIMEOUT,
            },
            offline: match merged.offline {
                Some(offline) => offline,
                None => false,
            },
            locked: match merged.locked {
                Some(locked) => locked,
                None => false,
            },
            toolchain: merged.toolchain,
            log_level: merged.log_level,
            default_registry: merged.default_registry,
            binary_providers: merged.binary_providers,
            tools: match merged.tools {
                Some(tools) => tools,
                None => Vec::new(),
            },
            aliases: match merged.aliases {
                Some(aliases) => aliases,
                None => Vec::new(),
            },
        }
    }
}

/// The place of the system configuration file, where the platform has one: in the directory
/// named for it, else where the platform keeps it.
pub open spec fn system_config_of(args: CliArgs, platform: Option<JoinedPath>) -> Option<PathView> {
    match (args.system_config_dir, platform) {
        (Some(dir), _) => Some(at(dir@).join("cgx.toml"@)),
        (None, Some(path)) => Some(path@),
        (None, None) => None,
    }
}

/// The places where configuration files are looked for, the lowest precedence first. A file
/// that was named is the only one. Otherwise the system file comes first, then the user file,
/// then those of the working directory's ancestors, the outermost first. `ancestors` starts
/// with the working directory itself.
pub open spec fn config_candidates_of(
    args: CliArgs,
    system: Option<JoinedPath>,
    dirs: PlatformDirs,
    ancestors: Seq<String>,
) -> Seq<PathView> {
    match args.config_file {
        Some(path) => seq![at(path@)],
        None => {
            let head = match system_config_of(args, system) {
                Some(path) => seq![path],
                None => Seq::empty(),
            };
            head.push(config_dir_of(args, dirs).join("cgx.toml"@)) + Seq::new(
                ancestors.len(),
                |i: int| at(ancestors[ancestors.len() - 1 - i]@).join("cgx.toml"@),
            )
        },
    }
}

/// The views of locations.
pub open spec fn path_views(paths: Seq<JoinedPath>) -> Seq<PathView> {
    paths.map_values(|p: JoinedPath| p@)
}

/// Where configuration files are looked for, the lowest precedence first.
pub fn config_candidates(
    args: &CliArgs,
    system: &Option<JoinedPath>,
    dirs: &PlatformDirs,
    ancestors: &Vec<String>,
) -> (r: Vec<JoinedPath>)
    ensures
        path_views(r@) == config_candidates_of(*args, *system, *dirs, ancestors@),
{
    let mut r: Vec<JoinedPath> = Vec::new();
    if let Some(path) = &args.config_file {
        r.push(JoinedPath::new(path.as_str()));
        assert(path_views(r@) =~= seq![at(path@)]);
        return r;
    }
    if let Some(dir) = &args.system_config_dir {
        r.push(JoinedPath::new(dir.as_str()).join("cgx.toml"));
    } else if let Some(path) = system {
        r.push(path.copied());
    }
    let ghost head = match system_config_of(*args, *system) {
        Some(path) => seq![path],
        None => Seq::empty(),
    };
    assert(path_views(r@) =~= head);
    let user = working_dir(
        &args.user_config_dir,
        &args.app_dir,
        "config",
        dirs.config_dir.as_str(),
    );
    let ghost before = r@;
    r.push(user.join("cgx.toml"));
    assert(path_views(r@) =~= path_views(before).push(r@.last()@));
    let ghost base = path_views(r@);
    let ghost tail = Seq::new(
        ancestors@.len(),
        |i: int| at(ancestors@[ancestors@.len() - 1 - i]@).join("cgx.toml"@),
    );
    let mut i: usize = ancestors.len();
    assert(base + tail.take(0) =~= base);
    while i > 0
        invariant
            i <= ancestors.len(),
            path_views(r@) == base + tail.take(ancestors@.len() - i),
            tail == Seq::new(
                ancestors@.len(),
                |i: int| at(ancestors@[ancestors@.len() - 1 - i]@).join("cgx.toml"@),
            ),
        decreases i,
    {
        i = i - 1;
        let ghost before = r@;
        r.push(JoinedPath::new(ancestors[i].as_str()).join("cgx.toml"));
        proof {
            let n = ancestors@.len() - i;
            assert(path_views(r@) =~= path_views(before).push(r@.last()@));
            assert(tail.take(n) =~= tail.take(n - 1).push(tail[n - 1]));
            assert(base + tail.take(n) =~= (base + tail.take(n - 1)).push(tail[n - 1]));
        }
    }
    assert(tail.take(ancestors@.len() as int) =~= tail);
    r
}

/// The candidates that are to be read: those that exist, in their order. A file that was
/// named is read whether or not it exists.
pub open spec fn config_files_of(
    named: bool,
    candidates: Seq<PathView>,
    exists: Seq<bool>,
) -> Seq<PathView>
    decreases candidates.len(),
{
    if named || candidates.len() == 0 {
        candidates
    } else {
        let rest = config_files_of(named, candidates.drop_last(), exists);
        if exists[candidates.len() - 1] {
            rest.push(candidates.last())
        } else {
            rest
        }
    }
}

/// The configuration files to read, the lowest precedence first, given which of the
/// candidates exist.
pub fn discover_config_files(
    args: &CliArgs,
    candidates: &Vec<JoinedPath>,
    exists: &Vec<bool>,
) -> (r: Vec<JoinedPath>)
    requires
        candidates@.len() == exists@.len(),
    ensures
        path_views(r@) == config_files_of(
            args.config_file is Some,
            path_views(candidates@),
            exists@,
        ),
{
    let named = args.config_file.is_some();
    let mut r: Vec<JoinedPath> = Vec::new();
    let mut i: usize = 0;
    let ghost all = path_views(candidates@);
    assert(path_views(r@) =~= all.take(0));
    while i < candidates.len()
        invariant
            i <= candidates.len(),
            candidates.len() == exists.len(),
            named == (args.config_file is Some),
            all == path_views(candidates@),
            path_views(r@) == config_files_of(named, all.take(i as int), exists@),
        decreases candidates.len() - i,
    {
        let ghost before = r@;
        let ghost seen = all.take(i + 1);
        assert(seen.drop_last() =~= all.take(i as int));
        assert(named ==> seen =~= all.take(i as int).push(all[i as int]));
        if named || exists[i] {
            r.push(candidates[i].copied());
            assert(path_views(r@) =~= path_views(before).push(all[i as int]));
        }
        i = i + 1;
    }
    assert(all.take(i as int) =~= all);
    r
}

/// `--frozen` is the same as `--locked` and `--offline` together.
pub proof fn frozen_is_locked_and_offline(frozen: CliArgs, both: CliArgs)
    requires
        frozen.frozen,
        both.locked,
        both.offline,
    ensures
        locked_by(frozen) == locked_by(both),
        offline_by(frozen) == offline_by(both),
        locked_by(frozen) && offline_by(frozen),
{
}

/// A configuration file that was named is the only one read, wherever else others exist.
pub proof fn named_file_is_the_only_one(
    args: CliArgs,
    system: Option<JoinedPath>,
    dirs: PlatformDirs,
    ancestors: Seq<String>,
    exists: Seq<bool>,
)
    requires
        args.config_file is Some,
    ensures
        config_files_of(true, config_candidates_of(args, system, dirs, ancestors), exists) == seq![
            at(args.config_file->Some_0@),
        ],
{
}

/// Of two existing files the one nearer to the working directory is read later, so that it
/// has the higher precedence, and a file of the directory tree has a higher one than the
/// user file.
pub proof fn nearer_files_win(
    args: CliArgs,
    system: Option<JoinedPath>,
    dirs: PlatformDirs,
    ancestors: Seq<String>,
    i: int,
    j: int,
)
    requires
        args.config_file is None,
        0 <= i < j < ancestors.len(),
    ensures
        ({
            let all = config_candidates_of(args, system, dirs, ancestors);
            let n = all.len();
            &&& all[n - 1 - j] == at(ancestors[j]@).join("cgx.toml"@)
            &&& all[n - 1 - i] == at(ancestors[i]@).join("cgx.toml"@)
            &&& n - 1 - j < n - 1 - i
            &&& all[n - 1 - ancestors.len()] == config_dir_of(args, dirs).join("cgx.toml"@)
        }),
{
}

/// Of everything that file `k` sets and no later file does, the configuration has what that
/// file says, unless a flag says otherwise.
pub open spec fn settings_hold(
    config: Config,
    files: Seq<LayerView>,
    args: CliArgs,
    k: int,
) -> bool {
    &&& (files[k].resolve_cache_timeout is Some && (forall|j: int|
        k < j < files.len() ==> (#[trigger] files[j]).resolve_cache_timeout is None)
        ==> files[k].resolve_cache_timeout == Some(config.resolve_cache_timeout))
    &&& (files[k].offline is Some && !offline_by(args) && (forall|j: int|
        k < j < files.len() ==> (#[trigger] files[j]).offline is None)
        ==> files[k].offline->Some_0 == config.offline)
    &&& (files[k].locked is Some && !locked_by(args) && (forall|j: int|
        k < j < files.len() ==> (#[trigger] files[j]).locked is None)
        ==> files[k].locked->Some_0 == config.locked)
    &&& (files[k].toolchain is Some && args.toolchain is None && (forall|j: int|
        k < j < files.len() ==> (#[trigger] files[j]).toolchain is None) ==> files[k].toolchain
        == config.toolchain)
    &&& (files[k].log_level is Some && (forall|j: int|
        k < j < files.len() ==> (#[trigger] files[j]).log_level is None) ==> files[k].log_level
        == config.log_level)
    &&& (files[k].default_registry is Some && (forall|j: int|
        k < j < files.len() ==> (#[trigger] files[j]).default_registry is None)
        ==> files[k].default_registry == config.default_registry)
    &&& (files[k].binary_providers is Some && (forall|j: int|
        k < j < files.len() ==> (#[trigger] files[j]).binary_providers is None)
        ==> files[k].binary_providers == config.binary_providers)
    &&& (files[k].cache_dir is Some && (forall|j: int|
        k < j < files.len() ==> (#[trigger] files[j]).cache_dir is None)
        ==> config.cache_dir@ == at(files[k].cache_dir->Some_0@))
    &&& (files[k].bin_dir is Some && (forall|j: int|
        k < j < files.len() ==> (#[trigger] files[j]).bin_dir is None) ==> config.bin_dir@
        == at(files[k].bin_dir->Some_0@))
    &&& (files[k].build_dir is Some && (forall|j: int|
        k < j < files.len() ==> (#[trigger] files[j]).build_dir is None) ==> config.build_dir@
        == at(files[k].build_dir->Some_0@))
}

/// What a file sets overrides the defaults, what a later file sets overrides the earlier ones,
/// and a flag that was given overrides all files. File `k` is any of them.
pub proof fn nearer_settings_win(
    config: Config,
    files: Seq<LayerView>,
    args: CliArgs,
    dirs: PlatformDirs,
    k: int,
)
    requires
        config.is_loaded(merged(all_layers(args, files)), args, dirs),
        0 <= k < files.len(),
    ensures
        settings_hold(config, files, args, k),
{
    let layers = all_layers(args, files);
    assert(layers[k + 1] == files[k]);
    assert(layers[layers.len() - 1] == overrides_layer(args));
    assert forall|j: int| k + 1 < j < layers.len() - 1 implies #[trigger] layers[j] == files[j
        - 1] by {}
    last_layer_wins(layers, k + 1);
}

/// The configuration has what the flags say, and the defaults for what is set nowhere.
pub open spec fn flags_and_defaults_hold(
    config: Config,
    files: Seq<LayerView>,
    args: CliArgs,
) -> bool {
    &&& (offline_by(args) ==> config.offline)
    &&& (locked_by(args) ==> config.locked)
    &&& (args.toolchain is Some ==> config.toolchain == args.toolchain)
    &&& ((forall|j: int| 0 <= j < files.len() ==> (#[trigger] files[j]).offline is None)
        ==> config.offline == offline_by(args))
    &&& ((forall|j: int| 0 <= j < files.len() ==> (#[trigger] files[j]).locked is None)
        ==> config.locked == locked_by(args))
    &&& ((forall|j: int| 0 <= j < files.len() ==> (#[trigger] files[j]).toolchain is None)
        ==> config.toolchain == args.toolchain)
    &&& ((forall|j: int|
        0 <= j < files.len() ==> (#[trigger] files[j]).resolve_cache_timeout is None)
        ==> config.resolve_cache_timeout == DEFAULT_RESOLVE_CACHE_TIMEOUT)
    &&& ((forall|j: int| 0 <= j < files.len() ==> (#[trigger] files[j]).binary_providers is None)
        ==> config.binary_providers is None)
}

/// Flags that were given have the last word, and what is set nowhere has its default.
pub proof fn flags_win_and_defaults_stay(
    config: Config,
    files: Seq<LayerView>,
    args: CliArgs,
    dirs: PlatformDirs,
)
    requires
        config.is_loaded(merged(all_layers(args, files)), args, dirs),
    ensures
        flags_and_defaults_hold(config, files, args),
{
    let layers = all_layers(args, files);
    assert(layers[layers.len() - 1] == overrides_layer(args));
    assert(layers[0] == defaults_layer());
    assert forall|j: int| 0 < j < layers.len() - 1 implies #[trigger] layers[j] == files[j - 1] by {}
    last_layer_wins(layers, layers.len() - 1);
    last_layer_wins(layers, 0);
    unset_stays_unset(layers);
}

/// The tools and the aliases are exactly those that any file names, and an alias stands for
/// what the last file that names it says.
pub proof fn names_come_from_all_files(
    config: Config,
    files: Seq<LayerView>,
    args: CliArgs,
    dirs: PlatformDirs,
    name: Seq<char>,
)
    requires
        config.is_loaded(merged(all_layers(args, files)), args, dirs),
        forall|j: int| 0 <= j < files.len() ==> is_valid(#[trigger] files[j]),
    ensures
        entry_of(config.tools@, name) is Some <==> exists|j: int|
            0 <= j < files.len() && entry_in((#[trigger] files[j]).tools, name) is Some,
        entry_of(config.aliases@, name) is Some <==> exists|j: int|
            0 <= j < files.len() && entry_in((#[trigger] files[j]).aliases, name) is Some,
        forall|k: int|
            0 <= k < files.len() && entry_in((#[trigger] files[k]).aliases, name) is Some && (
            forall|j: int|
                k < j < files.len() ==> entry_in((#[trigger] files[j]).aliases, name) is None)
                ==> entry_of(config.aliases@, name) == entry_in(files[k].aliases, name),
{
    let layers = all_layers(args, files);
    let n = layers.len() - 1;
    assert(layers[n] == overrides_layer(args));
    assert(layers[0] == defaults_layer());
    assert forall|j: int| 0 < j < n implies #[trigger] layers[j] == files[j - 1] by {}
    assert forall|j: int| 0 <= j < files.len() implies #[trigger] files[j] == layers[j + 1] by {}
    all_names_are_kept(layers, name);
    assert(entry_of(config.tools@, name) == entry_in(merged(layers).tools, name));
    assert(entry_of(config.aliases@, name) == entry_in(merged(layers).aliases, name));
    assert forall|j: int| 0 <= j < layers.len() implies is_valid(#[trigger] layers[j]) by {
        if 0 < j < n {
            assert(is_valid(files[j - 1]));
        }
    }
    assert forall|k: int|
        0 <= k < files.len() && entry_in((#[trigger] files[k]).aliases, name) is Some && (forall|
            j: int,
        | k < j < files.len() ==> entry_in((#[trigger] files[j]).aliases, name) is None) implies
    entry_of(config.aliases@, name) == entry_in(files[k].aliases, name) by {
        assert(layers[k + 1] == files[k]);
        assert forall|j: int| k + 1 < j < layers.len() implies entry_in(
            (#[trigger] layers[j]).aliases,
            name,
        ) is None by {
            if j < n {
                assert(layers[j] == files[j - 1]);
            }
        }
        last_alias_wins(layers, name, k + 1);
    }
    if exists|j: int| 0 <= j < files.len() && entry_in((#[trigger] files[j]).tools, name) is Some {
        let j = choose|j: int|
            0 <= j < files.len() && entry_in((#[trigger] files[j]).tools, name) is Some;
        assert(entry_in(layers[j + 1].tools, name) is Some);
    }
    if exists|j: int|
        0 <= j < files.len() && entry_in((#[trigger] files[j]).aliases, name) is Some {
        let j = choose|j: int|
            0 <= j < files.len() && entry_in((#[trigger] files[j]).aliases, name) is Some;
        assert(entry_in(layers[j + 1].aliases, name) is Some);
    }
}

}
