//! From the command line and the configuration to a specification and build options: what is
//! written is what is meant, however it is written.
use vstd::prelude::*;
use vstd::string::*;

use crate::builder::{BuildOptions, BuildTarget};
use crate::cli::CliArgs;
use crate::config::{Config, ToolConfig};
use crate::cratespec::{is_public, repository_in, CrateSpec, Forge, GitSelector, RegistrySource};
use crate::error::Error;
use crate::laws::texts::{separated_texts_come_apart, texts_without_separator};
use crate::layers::entry_of;
use crate::load::{features_in, is_subcommand, loads, tool_args_of, wants_options};
use crate::text::{opt_view, pieces, views};
use crate::urls::url_of;
use crate::version::requirement_text;

verus! {

/// A flag says where the crate comes from.
pub open spec fn some_source(args: CliArgs) -> bool {
    !(args.git is None && args.registry is None && args.path is None && args.github is None
        && args.gitlab is None && args.index is None)
}

/// The two command lines differ at most in the crate, its version and the tool's arguments.
pub open spec fn same_but_crate(a: CliArgs, b: CliArgs) -> bool {
    &&& a.git == b.git && a.registry == b.registry && a.path == b.path
    &&& a.github == b.github && a.gitlab == b.gitlab && a.index == b.index
    &&& a.github_url == b.github_url && a.gitlab_url == b.gitlab_url
    &&& a.branch == b.branch && a.tag == b.tag && a.rev == b.rev
}

/// The text names a crate without a version, and is no request for a cargo subcommand.
pub open spec fn is_plain_name(args: CliArgs, name: Seq<char>) -> bool {
    &&& opt_view(args.crate_spec) == Some(name)
    &&& !name.contains('@')
    &&& name == "cargo"@ && !some_source(args) ==> args.args@.len() == 0
}

/// A version behind an `@` is the same as one given with `--version`, and giving it in both
/// ways is the same as giving it in one.
pub proof fn versions_may_be_written_in_two_ways(
    config: Config,
    name: Seq<char>,
    version: Seq<char>,
    at: CliArgs,
    flag: CliArgs,
    both: CliArgs,
    r: Result<CrateSpec, Error>,
)
    requires
        version.len() > 0,
        same_but_crate(at, flag),
        same_but_crate(at, both),
        is_plain_name(flag, name),
        opt_view(flag.version) == Some(version),
        opt_view(at.crate_spec) == Some(name + "@"@ + version),
        at.version is None,
        opt_view(both.crate_spec) == Some(name + "@"@ + version),
        opt_view(both.version) == Some(version),
    ensures
        loads(r, config, at) <==> loads(r, config, flag),
        loads(r, config, at) <==> loads(r, config, both),
{
    reveal_strlit("@");
    reveal_strlit("cargo");
    let text = name + "@"@ + version;
    assert(text =~= name.push('@') + version);
    assert(text.contains('@')) by {
        assert(text[name.len() as int] == '@');
    }
    assert(!"cargo"@.contains('@'));
    separated_texts_come_apart(name, '@', version);
    texts_without_separator(name, '@');
    assert(!is_subcommand(at) && !is_subcommand(both) && !is_subcommand(flag));
}

/// Two versions that differ are an error, which names both.
pub proof fn versions_have_to_agree(
    config: Config,
    args: CliArgs,
    name: Seq<char>,
    at: Seq<char>,
    flag: Seq<char>,
    r: Result<CrateSpec, Error>,
)
    requires
        loads(r, config, args),
        !name.contains('@'),
        opt_view(args.crate_spec) == Some(name + "@"@ + at),
        opt_view(args.version) == Some(flag),
        flag.len() > 0,
        at != flag,
        args.branch is None && args.tag is None && args.rev is None,
    ensures
        r matches Err(Error::ConflictingVersions { at_version, flag_version }) && at_version@ == at
            && flag_version@ == flag,
{
    reveal_strlit("@");
    reveal_strlit("cargo");
    let text = name + "@"@ + at;
    assert(text =~= name.push('@') + at);
    assert(text[name.len() as int] == '@');
    assert(!"cargo"@.contains('@'));
    separated_texts_come_apart(name, '@', at);
}

/// `cargo NAME` is the same as `cargo-NAME`, for the crate and for the arguments of the tool.
pub proof fn subcommands_load_as_crates(
    config: Config,
    subcommand: CliArgs,
    direct: CliArgs,
    name: Seq<char>,
    r: Result<CrateSpec, Error>,
)
    requires
        same_but_crate(subcommand, direct),
        subcommand.version == direct.version,
        !some_source(subcommand),
        opt_view(subcommand.crate_spec) == Some("cargo"@),
        opt_view(direct.crate_spec) == Some("cargo-"@ + name),
        subcommand.args@.len() > 0,
        subcommand.args@[0]@ == name,
        views(direct.args@) == views(subcommand.args@).skip(1),
    ensures
        loads(r, config, subcommand) <==> loads(r, config, direct),
        tool_args_of(subcommand) == tool_args_of(direct),
        tool_args_of(direct) == views(direct.args@),
{
    reveal_strlit("cargo");
    reveal_strlit("cargo-");
    assert("cargo"@.len() < ("cargo-"@ + name).len());
}

/// The tool gets all its arguments, in their order, unless the first is the subcommand that
/// `cargo` was asked for.
pub proof fn tools_get_their_arguments(args: CliArgs)
    ensures
        some_source(args) || args.args@.len() == 0 || opt_view(args.crate_spec) != Some("cargo"@)
            ==> tool_args_of(args).len() == args.args@.len() && forall|i: int|
            0 <= i < args.args@.len() ==> #[trigger] tool_args_of(args)[i] == args.args@[i]@,
        !some_source(args) && args.args@.len() > 0 && opt_view(args.crate_spec) == Some("cargo"@)
            ==> tool_args_of(args).len() == args.args@.len() - 1 && forall|i: int|
            0 <= i < args.args@.len() - 1 ==> #[trigger] tool_args_of(args)[i] == args.args@[i
                + 1]@,
{
}

/// An alias stands for its crate: asking for the alias is asking for the crate, where no flag
/// says where the crate comes from.
pub proof fn aliases_stand_for_crates(
    config: Config,
    without: Config,
    alias: CliArgs,
    actual: CliArgs,
    name: Seq<char>,
    stands_for: String,
    r: Result<CrateSpec, Error>,
)
    requires
        same_but_crate(alias, actual),
        alias.version == actual.version,
        !some_source(alias),
        is_plain_name(alias, name),
        is_plain_name(actual, stands_for@),
        entry_of(config.aliases@, name) == Some(stands_for),
        without.aliases@.len() == 0,
        without.tools == config.tools,
        without.default_registry == config.default_registry,
    ensures
        loads(r, config, alias) <==> loads(r, without, actual),
{
    texts_without_separator(name, '@');
    texts_without_separator(stands_for@, '@');
}

/// The settings say only a version.
pub open spec fn only_version(tool: ToolConfig, version: String) -> bool {
    ||| tool == ToolConfig::Version(version)
    ||| tool matches ToolConfig::Detailed {
        version: v,
        registry: None,
        git: None,
        path: None,
        ..
    } && v == Some(version)
}

/// A version in the settings of a tool is the same as one on the command line, whether it is
/// written as a plain text or as the `version` of detailed settings.
pub proof fn pins_are_versions(
    config: Config,
    without: Config,
    pinned: CliArgs,
    flagged: CliArgs,
    name: Seq<char>,
    tool: ToolConfig,
    version: String,
    r: Result<CrateSpec, Error>,
)
    requires
        same_but_crate(pinned, flagged),
        !some_source(pinned),
        is_plain_name(pinned, name),
        is_plain_name(flagged, name),
        pinned.version is None,
        flagged.version == Some(version),
        version@.len() > 0,
        entry_of(config.aliases@, name) is None,
        entry_of(config.tools@, name) == Some(tool),
        only_version(tool, version),
        without.tools@.len() == 0,
        without.aliases == config.aliases,
        without.default_registry == config.default_registry,
    ensures
        loads(r, config, pinned) <==> loads(r, without, flagged),
{
    texts_without_separator(name, '@');
}

/// A pinned crate loads with the requirement that the pin states, or not at all where it
/// states none.
pub proof fn pinned_crates_have_their_version(
    config: Config,
    args: CliArgs,
    name: Seq<char>,
    tool: ToolConfig,
    version: String,
    r: Result<CrateSpec, Error>,
)
    requires
        loads(r, config, args),
        !some_source(args),
        is_plain_name(args, name),
        args.version is None,
        args.branch is None && args.tag is None && args.rev is None,
        entry_of(config.aliases@, name) is None,
        entry_of(config.tools@, name) == Some(tool),
        only_version(tool, version),
        config.default_registry is None,
    ensures
        match requirement_text(version@) {
            Ok(printed) => r matches Ok(CrateSpec::CratesIo { name: n, version: v }) && n@ == name
                && opt_view(v) == Some(printed),
            Err(why) => r matches Err(Error::InvalidVersionReq { version: v, reason }) && v@
                == version@ && reason@ == why,
        },
{
    texts_without_separator(name, '@');
}

/// A version on the command line overrules the one in the settings.
pub proof fn flags_overrule_pins(
    config: Config,
    other: Config,
    args: CliArgs,
    name: Seq<char>,
    tool: ToolConfig,
    pin: String,
    r: Result<CrateSpec, Error>,
)
    requires
        !some_source(args),
        is_plain_name(args, name),
        args.version is Some && args.version->Some_0@.len() > 0,
        entry_of(config.tools@, name) == Some(tool),
        only_version(tool, pin),
        other.tools@.len() == 0,
        entry_of(config.aliases@, name) is None,
        other.aliases == config.aliases,
        other.default_registry == config.default_registry,
    ensures
        loads(r, config, args) <==> loads(r, other, args),
{
    texts_without_separator(name, '@');
}

/// The flags that the settings of a tool stand for.
pub open spec fn flags_stand_for(flags: CliArgs, tool: ToolConfig) -> bool {
    tool matches ToolConfig::Detailed { version, registry, git, branch, tag, rev, path, .. } && {
        &&& flags.version == version
        &&& version matches Some(v) ==> v@.len() > 0
        &&& flags.github is None && flags.gitlab is None && flags.index is None
        &&& flags.git == git
        &&& match git {
            Some(_) => flags.registry is None && flags.path is None && flags.branch == branch
                && flags.tag == tag && flags.rev == rev,
            None => flags.branch is None && flags.tag is None && flags.rev is None
                && flags.registry == registry && (match registry {
                Some(_) => flags.path is None,
                None => flags.path == path && path is Some,
            }),
        }
    }
}

/// A tool whose settings say where it comes from loads as if the flags said so.
pub proof fn configured_sources_are_flags(
    config: Config,
    plain: CliArgs,
    flags: CliArgs,
    name: Seq<char>,
    tool: ToolConfig,
    r: Result<CrateSpec, Error>,
)
    requires
        !some_source(plain),
        plain.branch is None && plain.tag is None && plain.rev is None,
        plain.version is None,
        is_plain_name(plain, name),
        is_plain_name(flags, name),
        entry_of(config.aliases@, name) is None,
        entry_of(config.tools@, name) == Some(tool),
        flags_stand_for(flags, tool),
    ensures
        loads(r, config, plain) <==> loads(r, config, flags),
{
    texts_without_separator(name, '@');
}

/// What the flags say of branch, tag and commit, of which at most one is given.
pub open spec fn selects(args: CliArgs, selector: GitSelector) -> bool {
    match selector {
        GitSelector::Branch(b) => args.branch == Some(b) && args.tag is None && args.rev is None,
        GitSelector::Tag(t) => args.branch is None && args.tag == Some(t) && args.rev is None,
        GitSelector::Commit(c) => args.branch is None && args.tag is None && args.rev == Some(c),
        GitSelector::DefaultBranch => args.branch is None && args.tag is None && args.rev is None,
    }
}

/// The version that the flag names, as a requirement is printed.
pub open spec fn flag_requirement(args: CliArgs, printed: Option<Seq<char>>) -> bool {
    match args.version {
        None => printed is None,
        Some(v) => v@.len() > 0 && printed is Some && requirement_text(v@) == Ok::<
            Seq<char>,
            Seq<char>,
        >(printed->Some_0),
    }
}

/// The crate that the command line names, if it names one.
pub open spec fn names_crate(args: CliArgs, name: Option<Seq<char>>) -> bool {
    match name {
        Some(n) => is_plain_name(args, n),
        None => args.crate_spec is None,
    }
}

/// The specification has that name and version.
pub open spec fn is_named(
    name: Option<String>,
    version: Option<String>,
    n: Option<Seq<char>>,
    v: Option<Seq<char>>,
) -> bool {
    opt_view(name) == n && opt_view(version) == v
}

/// With `--git` the crate comes from that repository, at what the flags select: from the forge
/// that the URL names, or from the URL itself.
pub proof fn git_flags(
    config: Config,
    args: CliArgs,
    selector: GitSelector,
    n: Option<Seq<char>>,
    v: Option<Seq<char>>,
    r: Result<CrateSpec, Error>,
)
    requires
        loads(r, config, args),
        args.git is Some,
        selects(args, selector),
        names_crate(args, n),
        flag_requirement(args, v),
    ensures
        match r {
            Ok(CrateSpec::Forge { forge, selector: s, name, version }) => s == selector && is_named(
                name,
                version,
                n,
                v,
            ) && (url_of(args.git->Some_0@) matches Ok(url) && is_public(
                Some(forge),
                repository_in(url),
            )),
            Ok(CrateSpec::Git { repo, selector: s, name, version }) => s == selector && repo@
                == args.git->Some_0@ && is_named(name, version, n, v) && (url_of(
                args.git->Some_0@,
            ) matches Ok(url) ==> is_public(None, repository_in(url))),
            _ => false,
        },
{
    if let Some(name) = n {
        texts_without_separator(name, '@');
    }
}

/// With `--path` the crate is in that directory.
pub proof fn path_flags(
    config: Config,
    args: CliArgs,
    n: Option<Seq<char>>,
    v: Option<Seq<char>>,
    r: Result<CrateSpec, Error>,
)
    requires
        loads(r, config, args),
        args.path is Some,
        args.git is None && args.registry is None,
        selects(args, GitSelector::DefaultBranch),
        names_crate(args, n),
        flag_requirement(args, v),
    ensures
        r matches Ok(CrateSpec::LocalDir { path, name, version }) && path@ == args.path->Some_0@
            && is_named(name, version, n, v),
{
    if let Some(name) = n {
        texts_without_separator(name, '@');
    }
}

/// With `--registry` the crate comes from the registry of that name, and with `--index` from
/// the one at that URL. A registry has to be told a name.
pub proof fn registry_flags(
    config: Config,
    args: CliArgs,
    n: Option<Seq<char>>,
    v: Option<Seq<char>>,
    r: Result<CrateSpec, Error>,
)
    requires
        loads(r, config, args),
        args.git is None && args.path is None && args.github is None && args.gitlab is None,
        args.registry is Some || args.index is Some,
        selects(args, GitSelector::DefaultBranch),
        names_crate(args, n),
        flag_requirement(args, v),
    ensures
        args.registry is Some && n is None ==> r matches Err(Error::MissingCrateParameter),
        args.registry is Some && n is Some ==> (r matches Ok(
            CrateSpec::Registry { source: RegistrySource::Named(registry), name, version },
        ) && registry@ == args.registry->Some_0@ && name@ == n->Some_0 && opt_view(version) == v),
        args.registry is None ==> match url_of(args.index->Some_0@) {
            Err(why) => r matches Err(Error::InvalidUrl { url, reason }) && url@
                == args.index->Some_0@ && reason@ == why,
            Ok(url) => match n {
                None => r matches Err(Error::MissingCrateParameter),
                Some(wanted) => r matches Ok(
                    CrateSpec::Registry { source: RegistrySource::IndexUrl(index), name, version },
                ) && index@ == url.text && name@ == wanted && opt_view(version) == v,
            },
        },
{
    if let Some(name) = n {
        texts_without_separator(name, '@');
    }
}

/// With `--github OWNER/REPO` or `--gitlab OWNER/REPO` the crate comes from that repository of
/// that forge, at what the flags select, and from an instance of one's own where its URL is
/// given.
pub proof fn forge_flags(
    config: Config,
    args: CliArgs,
    owner: Seq<char>,
    repo: Seq<char>,
    selector: GitSelector,
    n: Option<Seq<char>>,
    v: Option<Seq<char>>,
    r: Result<CrateSpec, Error>,
)
    requires
        loads(r, config, args),
        args.git is None && args.registry is None && args.path is None,
        args.github is Some || args.gitlab is Some,
        args.github is Some ==> args.github->Some_0@ == owner + "/"@ + repo,
        args.github is None ==> args.gitlab->Some_0@ == owner + "/"@ + repo,
        owner.len() > 0 && repo.len() > 0,
        !owner.contains('/') && !repo.contains('/'),
        selects(args, selector),
        names_crate(args, n),
        flag_requirement(args, v),
    ensures
        ({
            let instance = if args.github is Some {
                args.github_url
            } else {
                args.gitlab_url
            };
            match r {
                Ok(CrateSpec::Forge { forge, selector: s, name, version }) => {
                    &&& s == selector
                    &&& is_named(name, version, n, v)
                    &&& match forge {
                        Forge::GitHub { custom_url, owner: o, repo: p } => args.github is Some && o@
                            == owner && p@ == repo && is_instance(instance, custom_url),
                        Forge::GitLab { custom_url, owner: o, repo: p } => args.github is None && o@
                            == owner && p@ == repo && is_instance(instance, custom_url),
                    }
                },
                Err(Error::InvalidUrl { url, reason }) => instance is Some && url@
                    == instance->Some_0@ && url_of(url@) == Err::<crate::urls::UrlView, Seq<char>>(
                    reason@,
                ),
                _ => false,
            }
        }),
{
    if let Some(name) = n {
        texts_without_separator(name, '@');
    }
    reveal_strlit("/");
    let text = owner + "/"@ + repo;
    assert(text =~= owner.push('/') + repo);
    separated_texts_come_apart(owner, '/', repo);
    texts_without_separator(owner, '/');
    assert(pieces(text, '/') =~= seq![owner, repo]);
}

/// The custom URL is that of the instance, as it is printed.
pub open spec fn is_instance(instance: Option<String>, custom_url: Option<String>) -> bool {
    match (instance, custom_url) {
        (None, None) => true,
        (Some(given), Some(printed)) => url_of(given@) matches Ok(url) && url.text == printed@,
        _ => false,
    }
}

/// The text is an owner and a repository with a slash between them.
pub open spec fn is_owner_and_repository(text: Seq<char>) -> bool {
    exists|owner: Seq<char>, repo: Seq<char>|
        {
            &&& owner.len() > 0 && repo.len() > 0
            &&& !owner.contains('/') && !repo.contains('/')
            &&& text == #[trigger] (owner.push('/') + repo)
        }
}

/// Pieces hold no separator, and two of them have one between them.
proof fn two_pieces(text: Seq<char>, separator: char)
    ensures
        pieces(text, separator).len() > 0,
        forall|i: int|
            0 <= i < pieces(text, separator).len() ==> !(#[trigger] pieces(
                text,
                separator,
            )[i]).contains(separator),
        pieces(text, separator).len() == 1 ==> pieces(text, separator)[0] == text,
        pieces(text, separator).len() == 2 ==> text == pieces(text, separator)[0].push(separator)
            + pieces(text, separator)[1],
    decreases text.len(),
{
    let all = pieces(text, separator);
    if text.len() == 0 {
        assert(all[0] =~= text);
    } else {
        let cut = text.drop_last();
        let before = pieces(cut, separator);
        two_pieces(cut, separator);
        assert(cut.push(text.last()) =~= text);
        if text.last() == separator {
            assert(all == before.push(Seq::empty()));
            assert forall|i: int| 0 <= i < all.len() implies !(#[trigger] all[i]).contains(
                separator,
            ) by {
                if i < before.len() {
                    assert(all[i] == before[i]);
                }
            }
            if all.len() == 2 {
                assert(text =~= all[0].push(separator) + all[1]);
            }
        } else {
            let last = before.last().push(text.last());
            assert(all == before.drop_last().push(last));
            assert forall|i: int| 0 <= i < all.len() implies !(#[trigger] all[i]).contains(
                separator,
            ) by {
                if i < before.len() - 1 {
                    assert(all[i] == before[i]);
                } else {
                    assert(!before[before.len() - 1].contains(separator));
                    if last.contains(separator) {
                        let k = choose|k: int| 0 <= k < last.len() && last[k] == separator;
                        assert(before.last()[k] == separator);
                        assert(before.last().contains(separator));
                    }
                }
            }
            if all.len() == 2 {
                assert(text =~= all[0].push(separator) + all[1]);
            }
        }
    }
}

/// A forge takes nothing but an owner and a repository.
pub proof fn forges_want_owner_and_repository(
    config: Config,
    args: CliArgs,
    given: String,
    n: Option<Seq<char>>,
    v: Option<Seq<char>>,
    r: Result<CrateSpec, Error>,
)
    requires
        loads(r, config, args),
        args.git is None && args.registry is None && args.path is None,
        args.github == Some(given) || (args.github is None && args.gitlab == Some(given)),
        names_crate(args, n),
        flag_requirement(args, v),
    ensures
        !is_owner_and_repository(given@) ==> (r matches Err(Error::InvalidRepoFormat { repo })
            && repo@ == given@),
        is_owner_and_repository(given@) ==> !(r matches Err(Error::InvalidRepoFormat { .. })),
{
    if let Some(name) = n {
        texts_without_separator(name, '@');
    }
    let parts = pieces(given@, '/');
    two_pieces(given@, '/');
    if parts.len() == 2 && parts[0].len() > 0 && parts[1].len() > 0 {
        assert(!parts[0].contains('/') && !parts[1].contains('/'));
        assert(given@ == parts[0].push('/') + parts[1]);
    }
    if is_owner_and_repository(given@) {
        let (owner, repo) = choose|owner: Seq<char>, repo: Seq<char>|
            {
                &&& owner.len() > 0 && repo.len() > 0
                &&& !owner.contains('/') && !repo.contains('/')
                &&& given@ == #[trigger] (owner.push('/') + repo)
            };
        separated_texts_come_apart(owner, '/', repo);
        texts_without_separator(owner, '/');
        assert(parts =~= seq![owner, repo]);
    }
}

/// Where nothing says where a crate comes from, it comes from the default registry, or else
/// from crates.io. It has to be named.
pub proof fn crates_come_from_crates_io(
    config: Config,
    args: CliArgs,
    n: Option<Seq<char>>,
    v: Option<Seq<char>>,
    r: Result<CrateSpec, Error>,
)
    requires
        loads(r, config, args),
        !some_source(args),
        selects(args, GitSelector::DefaultBranch),
        names_crate(args, n),
        flag_requirement(args, v),
        n matches Some(name) ==> entry_of(config.aliases@, name) is None && entry_of(
            config.tools@,
            name,
        ) is None,
    ensures
        n is None ==> r matches Err(Error::MissingCrateParameter),
        n is Some && config.default_registry is None ==> (r matches Ok(
            CrateSpec::CratesIo { name, version },
        ) && name@ == n->Some_0 && opt_view(version) == v),
        n is Some && config.default_registry is Some ==> (r matches Ok(
            CrateSpec::Registry { source: RegistrySource::Named(registry), name, version },
        ) && registry@ == config.default_registry->Some_0@ && name@ == n->Some_0 && opt_view(
            version,
        ) == v),
{
    if let Some(name) = n {
        texts_without_separator(name, '@');
    }
}

/// A branch, a tag or a commit without a repository is an error, and nothing else is that
/// error.
pub proof fn selectors_need_a_repository(config: Config, args: CliArgs, r: Result<CrateSpec, Error>)
    requires
        loads(r, config, args),
    ensures
        r matches Err(Error::GitSelectorWithoutGitSource) <==> !(args.branch is None && args.tag
            is None && args.rev is None) && args.git is None && args.github is None && args.gitlab
            is None,
{
}

/// A version on the command line that is none is an error.
pub proof fn versions_have_to_be_requirements(
    config: Config,
    args: CliArgs,
    name: Seq<char>,
    version: Seq<char>,
    r: Result<CrateSpec, Error>,
)
    requires
        loads(r, config, args),
        selects(args, GitSelector::DefaultBranch),
        is_plain_name(args, name),
        opt_view(args.version) == Some(version),
        version.len() > 0,
    ensures
        requirement_text(version) is Err ==> (r matches Err(
            Error::InvalidVersionReq { version: v, reason },
        ) && v@ == version && requirement_text(version) == Err::<Seq<char>, Seq<char>>(reason@)),
        requirement_text(version) is Ok ==> !(r matches Err(Error::InvalidVersionReq { .. })),
{
    texts_without_separator(name, '@');
}

/// Every option of a build is the one that was asked for: the flags, and where they say
/// nothing the configuration.
pub proof fn options_are_what_was_asked_for(config: Config, args: CliArgs, options: BuildOptions)
    requires
        wants_options(config, args, options),
    ensures
        options.all_features == args.all_features,
        options.no_default_features == args.no_default_features,
        options.ignore_rust_version == args.ignore_rust_version,
        options.jobs == args.jobs,
        options.target == args.target,
        options.locked <==> config.locked || args.locked || args.frozen,
        options.offline <==> config.offline || args.offline || args.frozen,
        args.debug ==> opt_view(options.profile) == Some("dev"@),
        !args.debug ==> opt_view(options.profile) == opt_view(args.profile),
        args.toolchain is Some ==> options.toolchain == args.toolchain,
        args.toolchain is None ==> options.toolchain == config.toolchain,
        args.bin is Some ==> options.build_target == BuildTarget::Bin(args.bin->Some_0),
        args.bin is None && args.example is Some ==> options.build_target == BuildTarget::Example(
            args.example->Some_0,
        ),
        args.bin is None && args.example is None ==> options.build_target is DefaultBin,
        args.features is Some ==> views(options.features@) == features_in(args.features->Some_0@),
{
}

/// Without features on the command line the settings of the tool name them, and without those
/// there are none.
pub proof fn features_come_from_flags_or_settings(
    config: Config,
    args: CliArgs,
    options: BuildOptions,
    name: Seq<char>,
)
    requires
        wants_options(config, args, options),
        args.features is None,
        is_plain_name(args, name),
        entry_of(config.aliases@, name) is None,
    ensures
        some_source(args) ==> options.features@.len() == 0,
        !some_source(args) ==> match entry_of(config.tools@, name) {
            Some(ToolConfig::Detailed { features: Some(features), .. }) => views(options.features@)
                == views(features@),
            _ => options.features@.len() == 0,
        },
{
    texts_without_separator(name, '@');
    assert(views(options.features@).len() == options.features@.len());
}

}
