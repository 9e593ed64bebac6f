//! Settings: which of them hold, where they come from, and what holds without any.
use vstd::prelude::*;
use vstd::string::*;

use crate::cli::CliArgs;
use crate::config::{
    all_layers, config_candidates_of, config_files_of, defaults_layer, overrides_layer, Config,
    PlatformDirs, PrebuiltBinariesConfig, ToolConfig,
};
use crate::layers::{
    entries_are_put_together, entry_in, entry_of, is_valid, last_layer_wins, merged, nothing, over,
    position, LayerView,
};
use crate::paths::{JoinedPath, PathView};

verus! {

/// An entry is found by its name, and of several with one name the first is.
pub proof fn first_entries_are_found<T>(entries: Seq<(String, T)>, name: Seq<char>, i: int)
    requires
        0 <= i < entries.len(),
        entries[i].0@ == name,
        forall|j: int| 0 <= j < i ==> (#[trigger] entries[j]).0@ != name,
    ensures
        position(entries, name) == Some(i),
        entry_of(entries, name) == Some(entries[i].1),
    decreases entries.len(),
{
    let before = entries.drop_last();
    if i < before.len() {
        first_entries_are_found(before, name, i);
    } else {
        assert forall|j: int| 0 <= j < before.len() implies (#[trigger] before[j]).0@ != name by {
            assert(before[j] == entries[j]);
        }
        unknown_entries_are_not_found(before, name);
    }
}

/// Where no entry has the name, none is found.
pub proof fn unknown_entries_are_not_found<T>(entries: Seq<(String, T)>, name: Seq<char>)
    requires
        forall|j: int| 0 <= j < entries.len() ==> (#[trigger] entries[j]).0@ != name,
    ensures
        position(entries, name) is None,
        entry_of(entries, name) is None,
    decreases entries.len(),
{
    if entries.len() > 0 {
        let before = entries.drop_last();
        assert forall|j: int| 0 <= j < before.len() implies (#[trigger] before[j]).0@ != name by {
            assert(before[j] == entries[j]);
        }
        assert(entries[entries.len() - 1] == entries.last());
        unknown_entries_are_not_found(before, name);
    }
}

/// What one layer leaves open in the details of a tool, the other fills in; what both say is
/// decided by the upper one.
pub open spec fn fills_in<T>(lower: Option<T>, upper: Option<T>, r: Option<T>) -> bool {
    &&& upper is Some ==> r == upper
    &&& upper is None ==> r == lower
}

/// A tool with details in two layers has the details of both, and those of the upper layer
/// where both speak.
pub proof fn details_are_put_together(lower: LayerView, upper: LayerView, name: Seq<char>)
    requires
        is_valid(upper),
        entry_in(lower.tools, name) matches Some(tool) && tool is Detailed,
        entry_in(upper.tools, name) matches Some(tool) && tool is Detailed,
    ensures
        ({
            let a = entry_in(lower.tools, name)->Some_0;
            let b = entry_in(upper.tools, name)->Some_0;
            entry_in(over(lower, upper).tools, name) matches Some(ToolConfig::Detailed {
                version,
                features,
                registry,
                git,
                branch,
                tag,
                rev,
                path,
            }) && {
                &&& fills_in(a->version, b->version, version)
                &&& fills_in(a->features, b->features, features)
                &&& fills_in(a->registry, b->registry, registry)
                &&& fills_in(a->git, b->git, git)
                &&& fills_in(a->branch, b->branch, branch)
                &&& fills_in(a->tag, b->tag, tag)
                &&& fills_in(a->rev, b->rev, rev)
                &&& fills_in(a->path, b->path, path)
            }
        }),
{
    entries_are_put_together(lower, upper, name);
}

/// A tool that only one of two layers speaks of has the settings of that layer, and one with a
/// plain version in either has those of the upper layer.
pub proof fn plain_settings_are_not_mixed(lower: LayerView, upper: LayerView, name: Seq<char>)
    requires
        is_valid(upper),
    ensures
        entry_in(upper.tools, name) is None ==> entry_in(over(lower, upper).tools, name)
            == entry_in(lower.tools, name),
        entry_in(lower.tools, name) is None ==> entry_in(over(lower, upper).tools, name)
            == entry_in(upper.tools, name),
        (entry_in(upper.tools, name) matches Some(tool) && tool is Version) ==> entry_in(
            over(lower, upper).tools,
            name,
        ) == entry_in(upper.tools, name),
        (entry_in(upper.tools, name) is Some && (entry_in(lower.tools, name) matches Some(tool)
            && tool is Version)) ==> entry_in(over(lower, upper).tools, name) == entry_in(
            upper.tools,
            name,
        ),
        entry_in(upper.aliases, name) is Some ==> entry_in(over(lower, upper).aliases, name)
            == entry_in(upper.aliases, name),
        entry_in(upper.aliases, name) is None ==> entry_in(over(lower, upper).aliases, name)
            == entry_in(lower.aliases, name),
{
    entries_are_put_together(lower, upper, name);
}

/// Each setting of two layers is the one of the upper layer, where it has one, and otherwise
/// the one of the lower layer.
pub proof fn layers_fill_each_other_in(lower: LayerView, upper: LayerView)
    ensures
        fills_in(lower.bin_dir, upper.bin_dir, over(lower, upper).bin_dir),
        fills_in(lower.build_dir, upper.build_dir, over(lower, upper).build_dir),
        fills_in(lower.cache_dir, upper.cache_dir, over(lower, upper).cache_dir),
        fills_in(lower.locked, upper.locked, over(lower, upper).locked),
        fills_in(lower.log_level, upper.log_level, over(lower, upper).log_level),
        fills_in(lower.offline, upper.offline, over(lower, upper).offline),
        fills_in(
            lower.resolve_cache_timeout,
            upper.resolve_cache_timeout,
            over(lower, upper).resolve_cache_timeout,
        ),
        fills_in(lower.toolchain, upper.toolchain, over(lower, upper).toolchain),
        fills_in(lower.default_registry, upper.default_registry, over(lower, upper).default_registry),
        fills_in(lower.binary_providers, upper.binary_providers, over(lower, upper).binary_providers),
        upper.tools is None ==> over(lower, upper).tools == lower.tools,
        lower.tools is None ==> over(lower, upper).tools == upper.tools,
        upper.aliases is None ==> over(lower, upper).aliases == lower.aliases,
        lower.aliases is None ==> over(lower, upper).aliases == upper.aliases,
{
}

/// Layers are put on top of each other one by one, and what is said nowhere stays unsaid.
pub proof fn layers_are_put_on_top(layers: Seq<LayerView>, layer: LayerView)
    ensures
        merged(layers.push(layer)) == over(merged(layers), layer),
        merged(seq![layer]) == layer,
        over(nothing(), layer) == layer,
        over(layer, nothing()) == layer,
{
    assert(layers.push(layer).drop_last() =~= layers);
    assert(seq![layer].drop_last() =~= Seq::empty());
    assert(over(nothing(), layer) == layer);
    assert(merged(Seq::<LayerView>::empty()) == nothing());
}

/// The lowest layer keeps resolved crates for an hour, locks nothing and uses the network. Of
/// everything else it says nothing.
pub proof fn defaults_are_an_hour_unlocked_and_online()
    ensures
        defaults_layer().resolve_cache_timeout == Some(3_600_000_000_000u128),
        defaults_layer().locked == Some(false),
        defaults_layer().offline == Some(false),
        defaults_layer().bin_dir is None,
        defaults_layer().build_dir is None,
        defaults_layer().cache_dir is None,
        defaults_layer().log_level is None,
        defaults_layer().toolchain is None,
        defaults_layer().default_registry is None,
        defaults_layer().binary_providers is None,
        defaults_layer().tools is None,
        defaults_layer().aliases is None,
{
}

/// The command line speaks of locking, the network and the toolchain only, and only where the
/// flag was given. `--frozen` speaks of the first two.
pub proof fn flags_speak_where_they_are_given(args: CliArgs)
    ensures
        overrides_layer(args).locked == Some(true) <==> args.locked || args.frozen,
        overrides_layer(args).locked is None <==> !args.locked && !args.frozen,
        overrides_layer(args).offline == Some(true) <==> args.offline || args.frozen,
        overrides_layer(args).offline is None <==> !args.offline && !args.frozen,
        overrides_layer(args).toolchain == args.toolchain,
        overrides_layer(args).bin_dir is None,
        overrides_layer(args).build_dir is None,
        overrides_layer(args).cache_dir is None,
        overrides_layer(args).log_level is None,
        overrides_layer(args).resolve_cache_timeout is None,
        overrides_layer(args).default_registry is None,
        overrides_layer(args).binary_providers is None,
        overrides_layer(args).tools is None,
        overrides_layer(args).aliases is None,
{
}

/// Without files a configuration has the defaults, and what the flags say.
pub proof fn flags_are_enough(config: Config, args: CliArgs, dirs: PlatformDirs)
    requires
        config.is_loaded(merged(all_layers(args, Seq::empty())), args, dirs),
    ensures
        config.resolve_cache_timeout == 3_600_000_000_000u128,
        config.locked == (args.locked || args.frozen),
        config.offline == (args.offline || args.frozen),
        config.toolchain == args.toolchain,
        config.log_level is None,
        config.default_registry is None,
        config.binary_providers is None,
        config.tools@.len() == 0,
        config.aliases@.len() == 0,
{
    let layers = all_layers(args, Seq::empty());
    assert(layers =~= seq![defaults_layer(), overrides_layer(args)]);
    layers_are_put_on_top(seq![defaults_layer()], overrides_layer(args));
    assert(layers =~= seq![defaults_layer()].push(overrides_layer(args)));
    layers_are_put_on_top(Seq::empty(), defaults_layer());
}

/// A configuration has the settings of the last file that the flags leave alone, and with a
/// file more it has those of that file wherever it speaks.
pub proof fn last_files_decide(
    config: Config,
    files: Seq<LayerView>,
    file: LayerView,
    args: CliArgs,
    dirs: PlatformDirs,
)
    requires
        config.is_loaded(merged(all_layers(args, files.push(file))), args, dirs),
    ensures
        file.resolve_cache_timeout matches Some(timeout) ==> config.resolve_cache_timeout
            == timeout,
        file.log_level is Some ==> config.log_level == file.log_level,
        file.default_registry is Some ==> config.default_registry == file.default_registry,
        file.binary_providers is Some ==> config.binary_providers == file.binary_providers,
        file.toolchain is Some && args.toolchain is None ==> config.toolchain == file.toolchain,
        args.toolchain is Some ==> config.toolchain == args.toolchain,
        args.frozen ==> config.locked && config.offline,
        args.locked ==> config.locked,
        args.offline ==> config.offline,
        !args.locked && !args.frozen ==> (file.locked matches Some(locked) ==> config.locked
            == locked),
        !args.offline && !args.frozen ==> (file.offline matches Some(offline) ==> config.offline
            == offline),
        file.cache_dir matches Some(dir) ==> config.cache_dir@ == (PathView {
            base: dir@,
            segments: Seq::empty(),
        }),
        file.bin_dir matches Some(dir) ==> config.bin_dir@ == (PathView {
            base: dir@,
            segments: Seq::empty(),
        }),
        file.build_dir matches Some(dir) ==> config.build_dir@ == (PathView {
            base: dir@,
            segments: Seq::empty(),
        }),
{
    let layers = all_layers(args, files.push(file));
    let n = layers.len() - 1;
    assert(layers[n] == overrides_layer(args));
    assert(layers[n - 1] == file);
    last_layer_wins(layers, n);
    last_layer_wins(layers, n - 1);
}

/// A directory that no file sets is under the directory of the program, where there is one, and
/// otherwise the platform's. Each has its own name and place.
pub proof fn directories_are_under_the_program_or_the_platform(
    config: Config,
    layer: LayerView,
    args: CliArgs,
    dirs: PlatformDirs,
)
    requires
        config.is_loaded(layer, args, dirs),
    ensures
        layer.cache_dir is None ==> match args.app_dir {
            Some(app) => config.cache_dir@.base == app@ && config.cache_dir@.segments == seq![
                "cache"@,
            ],
            None => config.cache_dir@.base == dirs.cache_dir@ && config.cache_dir@.segments.len()
                == 0,
        },
        layer.bin_dir is None ==> match args.app_dir {
            Some(app) => config.bin_dir@.base == app@ && config.bin_dir@.segments == seq!["bins"@],
            None => config.bin_dir@.base == dirs.bins_dir@ && config.bin_dir@.segments.len() == 0,
        },
        layer.build_dir is None ==> match args.app_dir {
            Some(app) => config.build_dir@.base == app@ && config.build_dir@.segments == seq![
                "build"@,
            ],
            None => config.build_dir@.base == dirs.build_dir@ && config.build_dir@.segments.len()
                == 0,
        },
        layer.cache_dir matches Some(dir) ==> config.cache_dir@.base == dir@
            && config.cache_dir@.segments.len() == 0,
        layer.bin_dir matches Some(dir) ==> config.bin_dir@.base == dir@
            && config.bin_dir@.segments.len() == 0,
        layer.build_dir matches Some(dir) ==> config.build_dir@.base == dir@
            && config.build_dir@.segments.len() == 0,
        args.user_config_dir matches Some(dir) ==> config.config_dir@.base == dir@
            && config.config_dir@.segments.len() == 0,
        args.user_config_dir is None ==> match args.app_dir {
            Some(app) => config.config_dir@.base == app@ && config.config_dir@.segments == seq![
                "config"@,
            ],
            None => config.config_dir@.base == dirs.config_dir@
                && config.config_dir@.segments.len() == 0,
        },
{
    assert(Seq::<Seq<char>>::empty().push("cache"@) =~= seq!["cache"@]);
    assert(Seq::<Seq<char>>::empty().push("bins"@) =~= seq!["bins"@]);
    assert(Seq::<Seq<char>>::empty().push("build"@) =~= seq!["build"@]);
    assert(Seq::<Seq<char>>::empty().push("config"@) =~= seq!["config"@]);
}

/// What the layers say together is what the configuration holds.
pub proof fn configurations_hold_what_was_said(
    config: Config,
    layer: LayerView,
    args: CliArgs,
    dirs: PlatformDirs,
)
    requires
        config.is_loaded(layer, args, dirs),
    ensures
        layer.resolve_cache_timeout matches Some(timeout) ==> config.resolve_cache_timeout
            == timeout,
        layer.resolve_cache_timeout is None ==> config.resolve_cache_timeout
            == 3_600_000_000_000u128,
        layer.offline matches Some(offline) ==> config.offline == offline,
        layer.offline is None ==> !config.offline,
        layer.locked matches Some(locked) ==> config.locked == locked,
        layer.locked is None ==> !config.locked,
        config.toolchain == layer.toolchain,
        config.log_level == layer.log_level,
        config.default_registry == layer.default_registry,
        config.binary_providers == layer.binary_providers,
        layer.tools matches Some(tools) ==> config.tools@ == tools,
        layer.tools is None ==> config.tools@.len() == 0,
        layer.aliases matches Some(aliases) ==> config.aliases@ == aliases,
        layer.aliases is None ==> config.aliases@.len() == 0,
{
}

/// The file `cgx.toml` in a directory.
pub open spec fn is_config_file_in(path: PathView, base: Seq<char>, segments: Seq<Seq<char>>) -> bool {
    path.base == base && path.segments == segments.push("cgx.toml"@)
}

/// Where no file was named, the system file comes first, where there is one, then the user
/// file, then one for each directory from the outermost to the working directory; there are no
/// others. The system file is in the directory named for it, else where the platform keeps it.
pub proof fn files_are_looked_for_from_the_outside(
    args: CliArgs,
    system: Option<JoinedPath>,
    dirs: PlatformDirs,
    ancestors: Seq<String>,
)
    requires
        args.config_file is None,
    ensures
        ({
            let all = config_candidates_of(args, system, dirs, ancestors);
            let n = if args.system_config_dir is Some || system is Some {
                1int
            } else {
                0
            };
            &&& all.len() == n + 1 + ancestors.len()
            &&& args.system_config_dir matches Some(dir) ==> is_config_file_in(
                all[0],
                dir@,
                Seq::empty(),
            )
            &&& args.system_config_dir is None ==> (system matches Some(path) ==> all[0] == path@)
            &&& match (args.user_config_dir, args.app_dir) {
                (Some(dir), _) => is_config_file_in(all[n], dir@, Seq::empty()),
                (None, Some(app)) => is_config_file_in(all[n], app@, seq!["config"@]),
                (None, None) => is_config_file_in(all[n], dirs.config_dir@, Seq::empty()),
            }
            &&& forall|i: int|
                #![trigger ancestors[i]]
                0 <= i < ancestors.len() ==> is_config_file_in(
                    all[all.len() - 1 - i],
                    ancestors[i]@,
                    Seq::empty(),
                )
        }),
{
    assert(Seq::<Seq<char>>::empty().push("config"@) =~= seq!["config"@]);
}

/// Where no file was named, a candidate more is read exactly where it exists, behind those that
/// are read already.
pub proof fn existing_files_are_read(candidates: Seq<PathView>, exists: Seq<bool>, path: PathView)
    requires
        exists.len() == candidates.len() + 1,
    ensures
        config_files_of(false, Seq::empty(), exists).len() == 0,
        exists.last() ==> config_files_of(false, candidates.push(path), exists) == config_files_of(
            false,
            candidates,
            exists.drop_last(),
        ).push(path),
        !exists.last() ==> config_files_of(false, candidates.push(path), exists)
            == config_files_of(false, candidates, exists.drop_last()),
        config_files_of(true, candidates, exists.drop_last()) == candidates,
{
    assert(candidates.push(path).drop_last() =~= candidates);
    later_flags_do_not_matter(candidates, exists, exists.drop_last());
}

proof fn later_flags_do_not_matter(candidates: Seq<PathView>, a: Seq<bool>, b: Seq<bool>)
    requires
        forall|i: int| 0 <= i < candidates.len() ==> #[trigger] a[i] == b[i],
    ensures
        config_files_of(false, candidates, a) == config_files_of(false, candidates, b),
    decreases candidates.len(),
{
    if candidates.len() > 0 {
        later_flags_do_not_matter(candidates.drop_last(), a, b);
        assert(a[candidates.len() - 1] == b[candidates.len() - 1]);
    }
}

/// The providers on the command line are asked, else those of the configuration, else all of
/// them: binstall first, then GitHub, GitLab and quickinstall. Checksums are verified.
pub proof fn providers_come_from_the_nearest_place(
    config: Config,
    args: CliArgs,
    r: PrebuiltBinariesConfig,
)
    requires
        r.is_loaded(config, args),
    ensures
        args.prebuilt_binary_sources matches Some(providers) ==> r.binary_providers@
            == providers@,
        args.prebuilt_binary_sources is None ==> (config.binary_providers matches Some(providers)
            ==> r.binary_providers@ == providers@),
        args.prebuilt_binary_sources is None && config.binary_providers is None ==> {
            &&& r.binary_providers@.len() == 4
            &&& r.binary_providers@[0] is Binstall
            &&& r.binary_providers@[1] is GithubReleases
            &&& r.binary_providers@[2] is GitlabReleases
            &&& r.binary_providers@[3] is Quickinstall
        },
        r.verify_checksums,
{
}

/// Whether prebuilt binaries are used is what the command line says. Where it does not, they
/// are unless no provider is left to ask.
pub proof fn binaries_are_used_unless_there_is_nobody_to_ask(
    config: Config,
    args: CliArgs,
    r: PrebuiltBinariesConfig,
)
    requires
        r.is_loaded(config, args),
    ensures
        args.prebuilt_binary matches Some(mode) ==> r.use_prebuilt_binaries == mode,
        args.prebuilt_binary is None ==> (r.use_prebuilt_binaries is Never
            <==> r.binary_providers@.len() == 0),
        args.prebuilt_binary is None ==> (r.use_prebuilt_binaries is Auto
            <==> r.binary_providers@.len() > 0),
{
}

}
