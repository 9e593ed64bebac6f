//! How the layers of settings are put on top of each other.
//!
//! What a later layer sets takes the place of what an earlier one does. The named entries of
//! `tools` and `aliases` are put together name by name.
use vstd::prelude::*;
use vstd::string::*;

use crate::config::{BinaryProvider, ConfigFile, ToolConfig};
use crate::text::same;

verus! {

/// What a layer says.
pub struct LayerView {
    pub bin_dir: Option<String>,
    pub build_dir: Option<String>,
    pub cache_dir: Option<String>,
    pub locked: Option<bool>,
    pub log_level: Option<String>,
    pub offline: Option<bool>,
    pub resolve_cache_timeout: Option<u128>,
    pub toolchain: Option<String>,
    pub default_registry: Option<String>,
    pub binary_providers: Option<Vec<BinaryProvider>>,
    pub tools: Option<Seq<(String, ToolConfig)>>,
    pub aliases: Option<Seq<(String, String)>>,
}

/// The contents of an optional list.
pub open spec fn contents<T>(list: Option<Vec<T>>) -> Option<Seq<T>> {
    match list {
        Some(l) => Some(l@),
        None => None,
    }
}

impl View for ConfigFile {
    type V = LayerView;

    open spec fn view(&self) -> LayerView {
        LayerView {
            bin_dir: self.bin_dir,
            build_dir: self.build_dir,
            cache_dir: self.cache_dir,
            locked: self.locked,
            log_level: self.log_level,
            offline: self.offline,
            resolve_cache_timeout: self.resolve_cache_timeout,
            toolchain: self.toolchain,
            default_registry: self.default_registry,
            binary_providers: self.binary_providers,
            tools: contents(self.tools),
            aliases: contents(self.aliases),
        }
    }
}

/// What layers say.
pub open spec fn layer_views(layers: Seq<ConfigFile>) -> Seq<LayerView> {
    layers.map_values(|l: ConfigFile| l@)
}

/// The position of the first entry of that name.
pub open spec fn position<T>(entries: Seq<(String, T)>, name: Seq<char>) -> Option<int>
    decreases entries.len(),
{
    if entries.len() == 0 {
        None
    } else {
        match position(entries.drop_last(), name) {
            Some(i) => Some(i),
            None => if entries.last().0@ == name {
                Some(entries.len() - 1)
            } else {
                None
            },
        }
    }
}

/// What the entry of that name says.
pub open spec fn entry_of<T>(entries: Seq<(String, T)>, name: Seq<char>) -> Option<T> {
    match position(entries, name) {
        Some(i) => Some(entries[i].1),
        None => None,
    }
}

/// No name occurs twice.
pub open spec fn names_distinct<T>(entries: Seq<(String, T)>) -> bool {
    forall|i: int, j: int|
        0 <= i < j < entries.len() ==> (#[trigger] entries[i]).0@ != (#[trigger] entries[j]).0@
}

/// The position of the first entry of that name.
pub fn find<T>(entries: &Vec<(String, T)>, name: &str) -> (r: Option<usize>)
    ensures
        match r {
            Some(i) => i < entries@.len() && position(entries@, name@) == Some(i as int),
            None => position(entries@, name@) is None,
        },
{
    let mut r: Option<usize> = None;
    let mut i: usize = 0;
    while i < entries.len()
        invariant
            i <= entries.len(),
            match r {
                Some(k) => k < i && position(entries@.take(i as int), name@) == Some(k as int),
                None => position(entries@.take(i as int), name@) is None,
            },
        decreases entries.len() - i,
    {
        assert(entries@.take(i + 1).drop_last() =~= entries@.take(i as int));
        if r.is_none() && same(entries[i].0.as_str(), name) {
            r = Some(i);
        }
        i = i + 1;
    }
    assert(entries@.take(i as int) =~= entries@);
    r
}

/// The setting of the later layer, where it has one.
pub open spec fn later<T>(lower: Option<T>, upper: Option<T>) -> Option<T> {
    match upper {
        Some(_) => upper,
        None => lower,
    }
}

/// The settings of a tool that two layers speak of. Two detailed ones are put together setting
/// by setting; otherwise those of the later layer hold.
pub open spec fn tool_over(lower: ToolConfig, upper: ToolConfig) -> ToolConfig {
    match (lower, upper) {
        (
            ToolConfig::Detailed { version, features, registry, git, branch, tag, rev, path },
            ToolConfig::Detailed {
                version: version2,
                features: features2,
                registry: registry2,
                git: git2,
                branch: branch2,
                tag: tag2,
                rev: rev2,
                path: path2,
            },
        ) => ToolConfig::Detailed {
            version: later(version, version2),
            features: later(features, features2),
            registry: later(registry, registry2),
            git: later(git, git2),
            branch: later(branch, branch2),
            tag: later(tag, tag2),
            rev: later(rev, rev2),
            path: later(path, path2),
        },
        _ => upper,
    }
}

/// How the settings of a tool in two layers are put together.
pub open spec fn tools_combine() -> spec_fn(ToolConfig, ToolConfig) -> ToolConfig {
    |lower: ToolConfig, upper: ToolConfig| tool_over(lower, upper)
}

/// How an alias in two layers is decided: the later one holds.
pub open spec fn aliases_combine() -> spec_fn(String, String) -> String {
    |lower: String, upper: String| upper
}

/// The entries with one more put in: where its name is there already, the two are combined.
pub open spec fn put<T>(
    entries: Seq<(String, T)>,
    entry: (String, T),
    combine: spec_fn(T, T) -> T,
) -> Seq<(String, T)> {
    match position(entries, entry.0@) {
        Some(i) => entries.update(i, (entry.0, combine(entries[i].1, entry.1))),
        None => entries.push(entry),
    }
}

/// The entries of a lower layer with those of an upper one put in, one after the other.
pub open spec fn all_put<T>(
    lower: Seq<(String, T)>,
    upper: Seq<(String, T)>,
    combine: spec_fn(T, T) -> T,
) -> Seq<(String, T)>
    decreases upper.len(),
{
    if upper.len() == 0 {
        lower
    } else {
        put(all_put(lower, upper.drop_last(), combine), upper.last(), combine)
    }
}

/// The entries of two layers. A layer without any leaves those of the other as they are.
pub open spec fn entries_over<T>(
    lower: Option<Seq<(String, T)>>,
    upper: Option<Seq<(String, T)>>,
    combine: spec_fn(T, T) -> T,
) -> Option<Seq<(String, T)>> {
    match (lower, upper) {
        (Some(l), Some(u)) => Some(all_put(l, u, combine)),
        _ => later(lower, upper),
    }
}

/// What two layers say together.
pub open spec fn over(lower: LayerView, upper: LayerView) -> LayerView {
    LayerView {
        bin_dir: later(lower.bin_dir, upper.bin_dir),
        build_dir: later(lower.build_dir, upper.build_dir),
        cache_dir: later(lower.cache_dir, upper.cache_dir),
        locked: later(lower.locked, upper.locked),
        log_level: later(lower.log_level, upper.log_level),
        offline: later(lower.offline, upper.offline),
        resolve_cache_timeout: later(lower.resolve_cache_timeout, upper.resolve_cache_timeout),
        toolchain: later(lower.toolchain, upper.toolchain),
        default_registry: later(lower.default_registry, upper.default_registry),
        binary_providers: later(lower.binary_providers, upper.binary_providers),
        tools: entries_over(lower.tools, upper.tools, tools_combine()),
        aliases: entries_over(lower.aliases, upper.aliases, aliases_combine()),
    }
}

/// A layer that says nothing.
pub open spec fn nothing() -> LayerView {
    LayerView {
        bin_dir: None,
        build_dir: None,
        cache_dir: None,
        locked: None,
        log_level: None,
        offline: None,
        resolve_cache_timeout: None,
        toolchain: None,
        default_registry: None,
        binary_providers: None,
        tools: None,
        aliases: None,
    }
}

/// What layers say together, the lowest first.
pub open spec fn merged(layers: Seq<LayerView>) -> LayerView
    decreases layers.len(),
{
    if layers.len() == 0 {
        nothing()
    } else {
        over(merged(layers.drop_last()), layers.last())
    }
}

fn later_of<T>(lower: Option<T>, upper: Option<T>) -> (r: Option<T>)
    ensures
        r == later(lower, upper),
{
    match upper {
        Some(value) => Some(value),
        None => lower,
    }
}

fn merge_tool(lower: ToolConfig, upper: ToolConfig) -> (r: ToolConfig)
    ensures
        r == tool_over(lower, upper),
{
    match (lower, upper) {
        (
            ToolConfig::Detailed { version, features, registry, git, branch, tag, rev, path },
            ToolConfig::Detailed {
                version: version2,
                features: features2,
                registry: registry2,
                git: git2,
                branch: branch2,
                tag: tag2,
                rev: rev2,
                path: path2,
            },
        ) => ToolConfig::Detailed {
            version: later_of(version, version2),
            features: later_of(features, features2),
            registry: later_of(registry, registry2),
            git: later_of(git, git2),
            branch: later_of(branch, branch2),
            tag: later_of(tag, tag2),
            rev: later_of(rev, rev2),
            path: later_of(path, path2),
        },
        (_, upper) => upper,
    }
}

fn put_tool(entries: &mut Vec<(String, ToolConfig)>, entry: (String, ToolConfig))
    ensures
        final(entries)@ == put(old(entries)@, entry, tools_combine()),
{
    let ghost before = entries@;
    match find(entries, entry.0.as_str()) {
        Some(i) => {
            let lower = entries.remove(i).1;
            entries.insert(i, (entry.0, merge_tool(lower, entry.1)));
            assert(entries@ =~= before.update(
                i as int,
                (entry.0, tool_over(before[i as int].1, entry.1)),
            ));
        },
        None => entries.push(entry),
    }
}

fn put_alias(entries: &mut Vec<(String, String)>, entry: (String, String))
    ensures
        final(entries)@ == put(old(entries)@, entry, aliases_combine()),
{
    let ghost before = entries@;
    match find(entries, entry.0.as_str()) {
        Some(i) => {
            entries.remove(i);
            entries.insert(i, entry);
            assert(entries@ =~= before.update(i as int, (entry.0, entry.1)));
        },
        None => entries.push(entry),
    }
}

fn merge_tools(
    lower: Option<Vec<(String, ToolConfig)>>,
    upper: Option<Vec<(String, ToolConfig)>>,
) -> (r: Option<Vec<(String, ToolConfig)>>)
    ensures
        contents(r) == entries_over(contents(lower), contents(upper), tools_combine()),
{
    match (lower, upper) {
        (Some(below), Some(above)) => {
            let mut entries = below;
            let mut rest = above;
            let ghost mut done: int = 0;
            assert(above@.take(0) =~= Seq::empty());
            while rest.len() > 0
                invariant
                    0 <= done <= above@.len(),
                    rest@ == above@.skip(done),
                    entries@ == all_put(below@, above@.take(done), tools_combine()),
                decreases rest.len(),
            {
                let entry = rest.remove(0);
                put_tool(&mut entries, entry);
                proof {
                    assert(above@.take(done + 1).drop_last() =~= above@.take(done));
                    assert(rest@ =~= above@.skip(done + 1));
                    done = done + 1;
                }
            }
            assert(above@.take(done) =~= above@);
            Some(entries)
        },
        (lower, upper) => later_of(lower, upper),
    }
}

fn merge_aliases(lower: Option<Vec<(String, String)>>, upper: Option<Vec<(String, String)>>) -> (r:
    Option<Vec<(String, String)>>)
    ensures
        contents(r) == entries_over(contents(lower), contents(upper), aliases_combine()),
{
    match (lower, upper) {
        (Some(below), Some(above)) => {
            let mut entries = below;
            let mut rest = above;
            let ghost mut done: int = 0;
            assert(above@.take(0) =~= Seq::empty());
            while rest.len() > 0
                invariant
                    0 <= done <= above@.len(),
                    rest@ == above@.skip(done),
                    entries@ == all_put(below@, above@.take(done), aliases_combine()),
                decreases rest.len(),
            {
                let entry = rest.remove(0);
                put_alias(&mut entries, entry);
                proof {
                    assert(above@.take(done + 1).drop_last() =~= above@.take(done));
                    assert(rest@ =~= above@.skip(done + 1));
                    done = done + 1;
                }
            }
            assert(above@.take(done) =~= above@);
            Some(entries)
        },
        (lower, upper) => later_of(lower, upper),
    }
}

impl ConfigFile {
    /// What this layer and a later one say together.
    pub fn merge(self, upper: ConfigFile) -> (r: ConfigFile)
        ensures
            r@ == over(self@, upper@),
    {
        ConfigFile {
            bin_dir: later_of(self.bin_dir, upper.bin_dir),
            build_dir: later_of(self.build_dir, upper.build_dir),
            cache_dir: later_of(self.cache_dir, upper.cache_dir),
            locked: later_of(self.locked, upper.locked),
            log_level: later_of(self.log_level, upper.log_level),
            offline: later_of(self.offline, upper.offline),
            resolve_cache_timeout: later_of(
                self.resolve_cache_timeout,
                upper.resolve_cache_timeout,
            ),
            toolchain: later_of(self.toolchain, upper.toolchain),
            default_registry: later_of(self.default_registry, upper.default_registry),
            binary_providers: later_of(self.binary_providers, upper.binary_providers),
            tools: merge_tools(self.tools, upper.tools),
            aliases: merge_aliases(self.aliases, upper.aliases),
        }
    }
}

/// What layers say together, the lowest first.
pub fn merge_layers(layers: Vec<ConfigFile>) -> (r: ConfigFile)
    ensures
        r@ == merged(layer_views(layers@)),
{
    let ghost all = layer_views(layers@);
    let mut r = ConfigFile::default();
    let mut rest = layers;
    let ghost mut done: int = 0;
    assert(all.take(0) =~= Seq::empty());
    while rest.len() > 0
        invariant
            0 <= done <= layers@.len(),
            all == layer_views(layers@),
            rest@ == layers@.skip(done),
            r@ == merged(all.take(done)),
        decreases rest.len(),
    {
        let layer = rest.remove(0);
        r = r.merge(layer);
        proof {
            assert(all.take(done + 1).drop_last() =~= all.take(done));
            assert(rest@ =~= layers@.skip(done + 1));
            done = done + 1;
        }
    }
    assert(all.take(done) =~= all);
    r
}

proof fn position_is_first<T>(entries: Seq<(String, T)>, name: Seq<char>)
    ensures
        match position(entries, name) {
            Some(i) => {
                &&& 0 <= i < entries.len()
                &&& entries[i].0@ == name
                &&& forall|j: int| 0 <= j < i ==> (#[trigger] entries[j]).0@ != name
            },
            None => forall|j: int| 0 <= j < entries.len() ==> (#[trigger] entries[j]).0@ != name,
        },
    decreases entries.len(),
{
    if entries.len() > 0 {
        let before = entries.drop_last();
        position_is_first(before, name);
        assert forall|j: int| 0 <= j < before.len() implies before[j] == #[trigger] entries[j] by {}
    }
}

proof fn first_is_position<T>(entries: Seq<(String, T)>, name: Seq<char>, i: int)
    requires
        0 <= i < entries.len(),
        entries[i].0@ == name,
        forall|j: int| 0 <= j < i ==> (#[trigger] entries[j]).0@ != name,
    ensures
        position(entries, name) == Some(i),
{
    position_is_first(entries, name);
}

proof fn put_says<T>(
    entries: Seq<(String, T)>,
    entry: (String, T),
    combine: spec_fn(T, T) -> T,
    name: Seq<char>,
)
    ensures
        entry_of(put(entries, entry, combine), name) == (if name == entry.0@ {
            match entry_of(entries, name) {
                Some(lower) => Some(combine(lower, entry.1)),
                None => Some(entry.1),
            }
        } else {
            entry_of(entries, name)
        }),
{
    let after = put(entries, entry, combine);
    position_is_first(entries, entry.0@);
    position_is_first(entries, name);
    position_is_first(after, name);
    match position(entries, entry.0@) {
        Some(i) => {
            if name == entry.0@ {
                first_is_position(after, name, i);
            } else {
                match position(entries, name) {
                    Some(k) => first_is_position(after, name, k),
                    None => {},
                }
            }
        },
        None => {
            if name == entry.0@ {
                first_is_position(after, name, entries.len() as int);
            } else {
                match position(entries, name) {
                    Some(k) => first_is_position(after, name, k),
                    None => {},
                }
            }
        },
    }
}

/// What two lists of entries say together of a name.
pub open spec fn combined<T>(
    lower: Option<T>,
    upper: Option<T>,
    combine: spec_fn(T, T) -> T,
) -> Option<T> {
    match (lower, upper) {
        (Some(l), Some(u)) => Some(combine(l, u)),
        _ => later(lower, upper),
    }
}

proof fn all_put_says<T>(
    lower: Seq<(String, T)>,
    upper: Seq<(String, T)>,
    combine: spec_fn(T, T) -> T,
    name: Seq<char>,
)
    ensures
        entry_of(all_put(lower, upper, combine), name) is Some <==> entry_of(lower, name) is Some
            || entry_of(upper, name) is Some,
        names_distinct(upper) ==> entry_of(all_put(lower, upper, combine), name) == combined(
            entry_of(lower, name),
            entry_of(upper, name),
            combine,
        ),
    decreases upper.len(),
{
    if upper.len() > 0 {
        let before = upper.drop_last();
        all_put_says(lower, before, combine, name);
        put_says(all_put(lower, before, combine), upper.last(), combine, name);
        position_is_first(before, name);
        position_is_first(upper, name);
        if names_distinct(upper) {
            assert forall|i: int, j: int| 0 <= i < j < before.len() implies (
            #[trigger] before[i]).0@ != (#[trigger] before[j]).0@ by {
                assert(before[i] == upper[i] && before[j] == upper[j]);
            }
            if upper.last().0@ == name {
                match position(before, name) {
                    Some(k) => {
                        assert(upper[k].0@ != upper[upper.len() - 1].0@);
                    },
                    None => {},
                }
            }
        }
    }
}

/// What a layer's entries say of a name.
pub open spec fn entry_in<T>(entries: Option<Seq<(String, T)>>, name: Seq<char>) -> Option<T> {
    match entries {
        Some(list) => entry_of(list, name),
        None => None,
    }
}

/// No tool and no alias occurs twice in the layer.
pub open spec fn is_valid(layer: LayerView) -> bool {
    &&& layer.tools matches Some(tools) ==> names_distinct(tools)
    &&& layer.aliases matches Some(aliases) ==> names_distinct(aliases)
}

/// Of a tool or an alias two layers say together what the later one says, where it speaks of
/// it, and otherwise what the earlier one does. Detailed settings of a tool in both are put
/// together.
pub proof fn entries_are_put_together(lower: LayerView, upper: LayerView, name: Seq<char>)
    requires
        is_valid(upper),
    ensures
        entry_in(over(lower, upper).tools, name) == combined(
            entry_in(lower.tools, name),
            entry_in(upper.tools, name),
            tools_combine(),
        ),
        entry_in(over(lower, upper).aliases, name) == later(
            entry_in(lower.aliases, name),
            entry_in(upper.aliases, name),
        ),
{
    if lower.tools is Some && upper.tools is Some {
        all_put_says(lower.tools->Some_0, upper.tools->Some_0, tools_combine(), name);
    }
    if lower.aliases is Some && upper.aliases is Some {
        all_put_says(lower.aliases->Some_0, upper.aliases->Some_0, aliases_combine(), name);
    }
}

/// A setting is the one of the last layer that has it.
pub proof fn last_layer_wins(layers: Seq<LayerView>, k: int)
    requires
        0 <= k < layers.len(),
    ensures
        layers[k].bin_dir is Some && (forall|j: int|
            k < j < layers.len() ==> (#[trigger] layers[j]).bin_dir is None) ==> merged(
            layers,
        ).bin_dir == layers[k].bin_dir,
        layers[k].build_dir is Some && (forall|j: int|
            k < j < layers.len() ==> (#[trigger] layers[j]).build_dir is None) ==> merged(
            layers,
        ).build_dir == layers[k].build_dir,
        layers[k].cache_dir is Some && (forall|j: int|
            k < j < layers.len() ==> (#[trigger] layers[j]).cache_dir is None) ==> merged(
            layers,
        ).cache_dir == layers[k].cache_dir,
        layers[k].locked is Some && (forall|j: int|
            k < j < layers.len() ==> (#[trigger] layers[j]).locked is None) ==> merged(
            layers,
        ).locked == layers[k].locked,
        layers[k].log_level is Some && (forall|j: int|
            k < j < layers.len() ==> (#[trigger] layers[j]).log_level is None) ==> merged(
            layers,
        ).log_level == layers[k].log_level,
        layers[k].offline is Some && (forall|j: int|
            k < j < layers.len() ==> (#[trigger] layers[j]).offline is None) ==> merged(
            layers,
        ).offline == layers[k].offline,
        layers[k].resolve_cache_timeout is Some && (forall|j: int|
            k < j < layers.len() ==> (#[trigger] layers[j]).resolve_cache_timeout is None)
            ==> merged(layers).resolve_cache_timeout == layers[k].resolve_cache_timeout,
        layers[k].toolchain is Some && (forall|j: int|
            k < j < layers.len() ==> (#[trigger] layers[j]).toolchain is None) ==> merged(
            layers,
        ).toolchain == layers[k].toolchain,
        layers[k].default_registry is Some && (forall|j: int|
            k < j < layers.len() ==> (#[trigger] layers[j]).default_registry is None) ==> merged(
            layers,
        ).default_registry == layers[k].default_registry,
        layers[k].binary_providers is Some && (forall|j: int|
            k < j < layers.len() ==> (#[trigger] layers[j]).binary_providers is None) ==> merged(
            layers,
        ).binary_providers == layers[k].binary_providers,
    decreases layers.len(),
{
    let before = layers.drop_last();
    assert forall|j: int| 0 <= j < before.len() implies #[trigger] before[j] == layers[j] by {}
    if k < before.len() {
        last_layer_wins(before, k);
        assert(layers[layers.len() - 1] == layers.last());
    }
}

/// A setting that no layer has is not set.
pub proof fn unset_stays_unset(layers: Seq<LayerView>)
    ensures
        (forall|j: int| 0 <= j < layers.len() ==> (#[trigger] layers[j]).bin_dir is None)
            ==> merged(layers).bin_dir is None,
        (forall|j: int| 0 <= j < layers.len() ==> (#[trigger] layers[j]).build_dir is None)
            ==> merged(layers).build_dir is None,
        (forall|j: int| 0 <= j < layers.len() ==> (#[trigger] layers[j]).cache_dir is None)
            ==> merged(layers).cache_dir is None,
        (forall|j: int| 0 <= j < layers.len() ==> (#[trigger] layers[j]).locked is None)
            ==> merged(layers).locked is None,
        (forall|j: int| 0 <= j < layers.len() ==> (#[trigger] layers[j]).log_level is None)
            ==> merged(layers).log_level is None,
        (forall|j: int| 0 <= j < layers.len() ==> (#[trigger] layers[j]).offline is None)
            ==> merged(layers).offline is None,
        (forall|j: int|
            0 <= j < layers.len() ==> (#[trigger] layers[j]).resolve_cache_timeout is None)
            ==> merged(layers).resolve_cache_timeout is None,
        (forall|j: int| 0 <= j < layers.len() ==> (#[trigger] layers[j]).toolchain is None)
            ==> merged(layers).toolchain is None,
        (forall|j: int| 0 <= j < layers.len() ==> (#[trigger] layers[j]).default_registry is None)
            ==> merged(layers).default_registry is None,
        (forall|j: int| 0 <= j < layers.len() ==> (#[trigger] layers[j]).binary_providers is None)
            ==> merged(layers).binary_providers is None,
    decreases layers.len(),
{
    if layers.len() > 0 {
        let before = layers.drop_last();
        assert forall|j: int| 0 <= j < before.len() implies #[trigger] before[j] == layers[j] by {}
        assert(layers[layers.len() - 1] == layers.last());
        unset_stays_unset(before);
    }
}

/// The tools and aliases of all layers are exactly those that any layer names.
pub proof fn all_names_are_kept(layers: Seq<LayerView>, name: Seq<char>)
    ensures
        entry_in(merged(layers).tools, name) is Some <==> exists|j: int|
            0 <= j < layers.len() && entry_in((#[trigger] layers[j]).tools, name) is Some,
        entry_in(merged(layers).aliases, name) is Some <==> exists|j: int|
            0 <= j < layers.len() && entry_in((#[trigger] layers[j]).aliases, name) is Some,
    decreases layers.len(),
{
    if layers.len() > 0 {
        let before = layers.drop_last();
        let lower = merged(before);
        let upper = layers.last();
        all_names_are_kept(before, name);
        assert forall|j: int| 0 <= j < before.len() implies #[trigger] before[j] == layers[j] by {}
        assert(layers[layers.len() - 1] == upper);
        if lower.tools is Some && upper.tools is Some {
            all_put_says(lower.tools->Some_0, upper.tools->Some_0, tools_combine(), name);
        }
        if lower.aliases is Some && upper.aliases is Some {
            all_put_says(lower.aliases->Some_0, upper.aliases->Some_0, aliases_combine(), name);
        }
        if entry_in(lower.tools, name) is Some {
            let j = choose|j: int|
                0 <= j < before.len() && entry_in((#[trigger] before[j]).tools, name) is Some;
            assert(entry_in(layers[j].tools, name) is Some);
        }
        if entry_in(lower.aliases, name) is Some {
            let j = choose|j: int|
                0 <= j < before.len() && entry_in((#[trigger] before[j]).aliases, name) is Some;
            assert(entry_in(layers[j].aliases, name) is Some);
        }
        if exists|j: int|
            0 <= j < layers.len() && entry_in((#[trigger] layers[j]).tools, name) is Some {
            let j = choose|j: int|
                0 <= j < layers.len() && entry_in((#[trigger] layers[j]).tools, name) is Some;
            if j < before.len() {
                assert(entry_in(before[j].tools, name) is Some);
            }
        }
        if exists|j: int|
            0 <= j < layers.len() && entry_in((#[trigger] layers[j]).aliases, name) is Some {
            let j = choose|j: int|
                0 <= j < layers.len() && entry_in((#[trigger] layers[j]).aliases, name) is Some;
            if j < before.len() {
                assert(entry_in(before[j].aliases, name) is Some);
            }
        }
    }
}

/// An alias stands for what the last layer that names it says.
pub proof fn last_alias_wins(layers: Seq<LayerView>, name: Seq<char>, k: int)
    requires
        forall|j: int| 0 <= j < layers.len() ==> is_valid(#[trigger] layers[j]),
        0 <= k < layers.len(),
        entry_in(layers[k].aliases, name) is Some,
        forall|j: int|
            k < j < layers.len() ==> entry_in((#[trigger] layers[j]).aliases, name) is None,
    ensures
        entry_in(merged(layers).aliases, name) == entry_in(layers[k].aliases, name),
    decreases layers.len(),
{
    let before = layers.drop_last();
    assert forall|j: int| 0 <= j < before.len() implies #[trigger] before[j] == layers[j] by {}
    assert(layers[layers.len() - 1] == layers.last());
    entries_are_put_together(merged(before), layers.last(), name);
    if k < before.len() {
        last_alias_wins(before, name, k);
    }
}

}
