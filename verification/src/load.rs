//! From the command line and the configuration to a crate specification and build options.
use vstd::prelude::*;
use vstd::string::*;

use crate::builder::{BuildOptions, BuildTarget};
use crate::cli::CliArgs;
use crate::config::{locked_by, offline_by, Config, ToolConfig};
use crate::cratespec::{
    is_public, repository_in, CrateSpec, Forge, GitSelector, RegistrySource,
};
use crate::error::Error;
use crate::layers::{entry_of, find};
use crate::text::{
    after_first, before_first, clone_all, clone_opt, is_space, is_whitespace, opt_view, pieces,
    same, split, split_once, views,
};
use crate::urls::{parse_url, url_of};
use crate::version::{parse_requirement, requirement_text};

verus! {

/// A flag says where the crate comes from.
pub open spec fn has_source(args: CliArgs) -> bool {
    ||| args.git is Some
    ||| args.registry is Some
    ||| args.path is Some
    ||| args.github is Some
    ||| args.gitlab is Some
    ||| args.index is Some
}

/// Whether a flag says where the crate comes from.
pub fn names_source(args: &CliArgs) -> (r: bool)
    ensures
        r == has_source(*args),
{
    args.git.is_some() || args.registry.is_some() || args.path.is_some() || args.github.is_some()
        || args.gitlab.is_some() || args.index.is_some()
}

/// The first argument of the tool is the name of a cargo subcommand: `cargo` was asked for, and
/// no flag says where it comes from.
pub open spec fn is_subcommand(args: CliArgs) -> bool {
    !has_source(args) && opt_view(args.crate_spec) == Some("cargo"@) && args.args@.len() > 0
}

/// Whether the first argument of the tool is the name of a cargo subcommand.
pub fn names_subcommand(args: &CliArgs) -> (r: bool)
    ensures
        r == is_subcommand(*args),
{
    match &args.crate_spec {
        Some(text) => !names_source(args) && same(text.as_str(), "cargo") && args.args.len() > 0,
        None => false,
    }
}

/// The arguments for the tool. The name of a cargo subcommand is not one of them.
pub open spec fn tool_args_of(args: CliArgs) -> Seq<Seq<char>> {
    if is_subcommand(args) {
        views(args.args@).skip(1)
    } else {
        views(args.args@)
    }
}

/// The crate that was asked for, as it was written: name and, perhaps, `@` and a version.
pub open spec fn asked_for(args: CliArgs) -> Option<Seq<char>> {
    if is_subcommand(args) {
        Some("cargo-"@ + args.args@[0]@)
    } else {
        opt_view(args.crate_spec)
    }
}

fn asked(args: &CliArgs) -> (r: Option<String>)
    ensures
        opt_view(r) == asked_for(*args),
{
    if names_subcommand(args) {
        Some("cargo-".to_owned().concat(args.args[0].as_str()))
    } else {
        clone_opt(&args.crate_spec)
    }
}

/// The name that stands in front of the `@`.
pub open spec fn written_name(args: CliArgs) -> Option<Seq<char>> {
    match asked_for(args) {
        Some(text) => Some(before_first(text, '@')),
        None => None,
    }
}

/// The version behind the `@`.
pub open spec fn at_version(args: CliArgs) -> Option<Seq<char>> {
    match asked_for(args) {
        Some(text) => after_first(text, '@'),
        None => None,
    }
}

/// The version given with `--version`. Without a value the flag asks for something else.
pub open spec fn flag_version(args: CliArgs) -> Option<Seq<char>> {
    match args.version {
        Some(version) => if version@.len() == 0 {
            None
        } else {
            Some(version@)
        },
        None => None,
    }
}

/// What an alias stands for.
pub open spec fn alias_of(aliases: Seq<(String, String)>, name: Seq<char>) -> Option<Seq<char>> {
    opt_view(entry_of(aliases, name))
}

fn find_alias(aliases: &Vec<(String, String)>, name: &str) -> (r: Option<String>)
    ensures
        opt_view(r) == alias_of(aliases@, name@),
{
    match find(aliases, name) {
        Some(i) => Some(aliases[i].1.clone()),
        None => None,
    }
}

/// The name of the crate. An alias stands for its crate, unless a flag says where the crate
/// comes from.
pub open spec fn crate_name(config: Config, args: CliArgs) -> Option<Seq<char>> {
    match written_name(args) {
        Some(name) => if has_source(args) {
            Some(name)
        } else {
            match alias_of(config.aliases@, name) {
                Some(actual) => Some(actual),
                None => Some(name),
            }
        },
        None => None,
    }
}

/// The settings for the crate. They say where a crate comes from, so they count only where no
/// flag does.
pub open spec fn tool_settings(config: Config, args: CliArgs) -> Option<ToolConfig> {
    match crate_name(config, args) {
        Some(name) => if has_source(args) {
            None
        } else {
            entry_of(config.tools@, name)
        },
        None => None,
    }
}

/// The version that the settings pin.
pub open spec fn pinned_version(tool: Option<ToolConfig>) -> Option<Seq<char>> {
    match tool {
        Some(ToolConfig::Version(version)) => Some(version@),
        Some(ToolConfig::Detailed { version, .. }) => opt_view(version),
        None => None,
    }
}

/// The version that is wanted: the one on the command line, else the pinned one.
pub open spec fn wanted_version(config: Config, args: CliArgs) -> Option<Seq<char>> {
    if at_version(args) is Some {
        at_version(args)
    } else if flag_version(args) is Some {
        flag_version(args)
    } else {
        pinned_version(tool_settings(config, args))
    }
}

/// The selector that the flags name.
pub open spec fn selector_of(
    branch: Option<String>,
    tag: Option<String>,
    rev: Option<String>,
) -> GitSelector {
    match (branch, tag, rev) {
        (Some(b), _, _) => GitSelector::Branch(b),
        (None, Some(t), _) => GitSelector::Tag(t),
        (None, None, Some(c)) => GitSelector::Commit(c),
        (None, None, None) => GitSelector::DefaultBranch,
    }
}

fn selector(branch: &Option<String>, tag: &Option<String>, rev: &Option<String>) -> (r: GitSelector)
    ensures
        r == selector_of(*branch, *tag, *rev),
{
    match (branch, tag, rev) {
        (Some(b), _, _) => GitSelector::Branch(b.clone()),
        (None, Some(t), _) => GitSelector::Tag(t.clone()),
        (None, None, Some(c)) => GitSelector::Commit(c.clone()),
        (None, None, None) => GitSelector::DefaultBranch,
    }
}

/// A branch, tag or commit is named, but no git repository.
pub open spec fn selector_without_repository(args: CliArgs) -> bool {
    &&& args.branch is Some || args.tag is Some || args.rev is Some
    &&& args.git is None && args.github is None && args.gitlab is None
}

/// Name and version, as a specification holds them.
pub open spec fn named(
    name: Option<String>,
    version: Option<String>,
    n: Option<Seq<char>>,
    v: Option<Seq<char>>,
) -> bool {
    opt_view(name) == n && opt_view(version) == v
}

/// The specification of a crate in the repository at a URL: that of a forge, where the URL
/// names the root of a repository of one.
pub open spec fn loads_git(
    r: Result<CrateSpec, Error>,
    url: Seq<char>,
    wanted: GitSelector,
    n: Option<Seq<char>>,
    v: Option<Seq<char>>,
) -> bool {
    match r {
        Ok(CrateSpec::Forge { forge, selector, name, version }) => {
            &&& url_of(url) matches Ok(parsed) && is_public(Some(forge), repository_in(parsed))
            &&& selector == wanted
            &&& named(name, version, n, v)
        },
        Ok(CrateSpec::Git { repo, selector, name, version }) => {
            &&& url_of(url) matches Ok(parsed) ==> is_public(None, repository_in(parsed))
            &&& repo@ == url
            &&& selector == wanted
            &&& named(name, version, n, v)
        },
        _ => false,
    }
}

/// The specification of a crate in a named registry. A name is needed.
pub open spec fn loads_registry(
    r: Result<CrateSpec, Error>,
    registry: String,
    n: Option<Seq<char>>,
    v: Option<Seq<char>>,
) -> bool {
    match n {
        Some(wanted) => r matches Ok(CrateSpec::Registry { source, name, version }) && source
            == RegistrySource::Named(registry) && name@ == wanted && opt_view(version) == v,
        None => r matches Err(Error::MissingCrateParameter),
    }
}

/// The specification of a crate in a local directory.
pub open spec fn loads_path(
    r: Result<CrateSpec, Error>,
    dir: String,
    n: Option<Seq<char>>,
    v: Option<Seq<char>>,
) -> bool {
    r matches Ok(CrateSpec::LocalDir { path, name, version }) && path == dir && named(
        name,
        version,
        n,
        v,
    )
}

/// The specification of a crate in the registry at an index URL. A name is needed.
pub open spec fn loads_index(
    r: Result<CrateSpec, Error>,
    index: String,
    n: Option<Seq<char>>,
    v: Option<Seq<char>>,
) -> bool {
    match (url_of(index@), n) {
        (Err(why), _) => r matches Err(Error::InvalidUrl { url, reason }) && url == index && reason@
            == why,
        (Ok(_), None) => r matches Err(Error::MissingCrateParameter),
        (Ok(url), Some(wanted)) => r matches Ok(
            CrateSpec::Registry { source: RegistrySource::IndexUrl(text), name, version },
        ) && text@ == url.text && name@ == wanted && opt_view(version) == v,
    }
}

/// Owner and repository, where the text is exactly the two with a slash between.
pub open spec fn owner_and_repo(text: Seq<char>) -> Option<(Seq<char>, Seq<char>)> {
    let parts = pieces(text, '/');
    if parts.len() == 2 && parts[0].len() > 0 && parts[1].len() > 0 {
        Some((parts[0], parts[1]))
    } else {
        None
    }
}

/// The base URL of an instance, in its normalised text, or why there is none.
pub open spec fn instance_url(custom: Option<String>) -> Result<Option<Seq<char>>, Seq<char>> {
    match custom {
        Some(text) => match url_of(text@) {
            Ok(url) => Ok(Some(url.text)),
            Err(reason) => Err(reason),
        },
        None => Ok(None),
    }
}

/// The specification of a crate in a repository of a forge.
pub open spec fn loads_forge(
    r: Result<CrateSpec, Error>,
    github: bool,
    repository: String,
    custom: Option<String>,
    wanted: GitSelector,
    n: Option<Seq<char>>,
    v: Option<Seq<char>>,
) -> bool {
    match (owner_and_repo(repository@), instance_url(custom)) {
        (None, _) => r matches Err(Error::InvalidRepoFormat { repo }) && repo == repository,
        (Some(_), Err(why)) => r matches Err(Error::InvalidUrl { url, reason }) && Some(url)
            == custom && reason@ == why,
        (Some((o, p)), Ok(base)) => r matches Ok(
            CrateSpec::Forge { forge, selector, name, version },
        ) && selector == wanted && named(name, version, n, v) && (match forge {
            Forge::GitHub { custom_url, owner, repo } => github && opt_view(custom_url) == base
                && owner@ == o && repo@ == p,
            Forge::GitLab { custom_url, owner, repo } => !github && opt_view(custom_url) == base
                && owner@ == o && repo@ == p,
        }),
    }
}

/// The specification of a crate for which nothing says where it comes from: it comes from the
/// default registry, or else from crates.io. A name is needed.
pub open spec fn loads_default(
    r: Result<CrateSpec, Error>,
    default_registry: Option<String>,
    n: Option<Seq<char>>,
    v: Option<Seq<char>>,
) -> bool {
    match (default_registry, n) {
        (Some(registry), _) => loads_registry(r, registry, n, v),
        (None, Some(wanted)) => r matches Ok(CrateSpec::CratesIo { name, version }) && name@
            == wanted && opt_view(version) == v,
        (None, None) => r matches Err(Error::MissingCrateParameter),
    }
}

/// The specification of a crate for which no flag says where it comes from: the settings for
/// the tool may.
pub open spec fn loads_configured(
    r: Result<CrateSpec, Error>,
    tool: Option<ToolConfig>,
    default_registry: Option<String>,
    n: Option<Seq<char>>,
    v: Option<Seq<char>>,
) -> bool {
    match tool {
        Some(ToolConfig::Detailed { git: Some(url), branch, tag, rev, .. }) => loads_git(
            r,
            url@,
            selector_of(branch, tag, rev),
            n,
            v,
        ),
        Some(ToolConfig::Detailed { git: None, registry: Some(registry), .. }) => loads_registry(
            r,
            registry,
            n,
            v,
        ),
        Some(ToolConfig::Detailed { git: None, registry: None, path: Some(dir), .. }) => {
            loads_path(r, dir, n, v)
        },
        _ => loads_default(r, default_registry, n, v),
    }
}

/// The specification of a crate, by the flag that says where it comes from.
pub open spec fn loads_source(
    r: Result<CrateSpec, Error>,
    config: Config,
    args: CliArgs,
    n: Option<Seq<char>>,
    v: Option<Seq<char>>,
) -> bool {
    let wanted = selector_of(args.branch, args.tag, args.rev);
    if args.git is Some {
        loads_git(r, args.git->Some_0@, wanted, n, v)
    } else if args.registry is Some {
        loads_registry(r, args.registry->Some_0, n, v)
    } else if args.path is Some {
        loads_path(r, args.path->Some_0, n, v)
    } else if args.github is Some {
        loads_forge(r, true, args.github->Some_0, args.github_url, wanted, n, v)
    } else if args.gitlab is Some {
        loads_forge(r, false, args.gitlab->Some_0, args.gitlab_url, wanted, n, v)
    } else if args.index is Some {
        loads_index(r, args.index->Some_0, n, v)
    } else {
        loads_configured(r, tool_settings(config, args), config.default_registry, n, v)
    }
}

/// What the command line and the configuration ask for.
pub open spec fn loads(r: Result<CrateSpec, Error>, config: Config, args: CliArgs) -> bool {
    if selector_without_repository(args) {
        r matches Err(Error::GitSelectorWithoutGitSource)
    } else if at_version(args) is Some && flag_version(args) is Some && at_version(args)
        != flag_version(args) {
        r matches Err(Error::ConflictingVersions { at_version: a, flag_version: f }) && Some(a@)
            == at_version(args) && Some(f@) == flag_version(args)
    } else {
        match wanted_version(config, args) {
            Some(text) => match requirement_text(text) {
                Ok(printed) => loads_source(
                    r,
                    config,
                    args,
                    crate_name(config, args),
                    Some(printed),
                ),
                Err(why) => r matches Err(Error::InvalidVersionReq { version, reason }) && version@
                    == text && reason@ == why,
            },
            None => loads_source(r, config, args, crate_name(config, args), None),
        }
    }
}

fn load_git(url: &str, selector: GitSelector, name: Option<String>, version: Option<String>) -> (r:
    Result<CrateSpec, Error>)
    ensures
        loads_git(r, url@, selector, opt_view(name), opt_view(version)),
{
    match Forge::try_parse_from_url(url) {
        Some(forge) => Ok(CrateSpec::Forge { forge, selector, name, version }),
        None => Ok(CrateSpec::Git { repo: url.to_owned(), selector, name, version }),
    }
}

fn load_registry(registry: &String, name: Option<String>, version: Option<String>) -> (r: Result<
    CrateSpec,
    Error,
>)
    ensures
        loads_registry(r, *registry, opt_view(name), opt_view(version)),
{
    match name {
        Some(name) => Ok(
            CrateSpec::Registry { source: RegistrySource::Named(registry.clone()), name, version },
        ),
        None => Err(Error::MissingCrateParameter),
    }
}

fn load_index(index: &String, name: Option<String>, version: Option<String>) -> (r: Result<
    CrateSpec,
    Error,
>)
    ensures
        loads_index(r, *index, opt_view(name), opt_view(version)),
{
    match parse_url(index.as_str()) {
        Ok(url) => match name {
            Some(name) => Ok(
                CrateSpec::Registry {
                    source: RegistrySource::IndexUrl(url.text),
                    name,
                    version,
                },
            ),
            None => Err(Error::MissingCrateParameter),
        },
        Err(reason) => Err(Error::InvalidUrl { url: index.clone(), reason }),
    }
}

fn split_repository(text: &str) -> (r: Option<(String, String)>)
    ensures
        match r {
            Some((owner, repo)) => owner_and_repo(text@) == Some((owner@, repo@)),
            None => owner_and_repo(text@) is None,
        },
{
    let mut parts = split(text, '/');
    assert(views(parts@).len() == parts@.len());
    if parts.len() != 2 {
        return None;
    }
    assert(views(parts@)[0] == parts@[0]@);
    assert(views(parts@)[1] == parts@[1]@);
    let repo = parts.remove(1);
    let owner = parts.remove(0);
    if owner.as_str().is_empty() || repo.as_str().is_empty() {
        None
    } else {
        Some((owner, repo))
    }
}

fn load_forge(
    github: bool,
    repository: &String,
    custom: &Option<String>,
    selector: GitSelector,
    name: Option<String>,
    version: Option<String>,
) -> (r: Result<CrateSpec, Error>)
    ensures
        loads_forge(
            r,
            github,
            *repository,
            *custom,
            selector,
            opt_view(name),
            opt_view(version),
        ),
{
    let (owner, repo) = match split_repository(repository.as_str()) {
        Some(parts) => parts,
        None => {
            return Err(Error::InvalidRepoFormat { repo: repository.clone() });
        },
    };
    let custom_url = match custom {
        Some(text) => match parse_url(text.as_str()) {
            Ok(url) => Some(url.text),
            Err(reason) => {
                return Err(Error::InvalidUrl { url: text.clone(), reason });
            },
        },
        None => None,
    };
    let forge = if github {
        Forge::GitHub { custom_url, owner, repo }
    } else {
        Forge::GitLab { custom_url, owner, repo }
    };
    Ok(CrateSpec::Forge { forge, selector, name, version })
}

fn load_default(
    default_registry: &Option<String>,
    name: Option<String>,
    version: Option<String>,
) -> (r: Result<CrateSpec, Error>)
    ensures
        loads_default(r, *default_registry, opt_view(name), opt_view(version)),
{
    match default_registry {
        Some(registry) => load_registry(registry, name, version),
        None => match name {
            Some(name) => Ok(CrateSpec::CratesIo { name, version }),
            None => Err(Error::MissingCrateParameter),
        },
    }
}

fn load_configured(
    tool: Option<&ToolConfig>,
    default_registry: &Option<String>,
    name: Option<String>,
    version: Option<String>,
) -> (r: Result<CrateSpec, Error>)
    ensures
        loads_configured(
            r,
            match tool {
                Some(t) => Some(*t),
                None => None,
            },
            *default_registry,
            opt_view(name),
            opt_view(version),
        ),
{
    match tool {
        Some(ToolConfig::Detailed { git: Some(url), branch, tag, rev, .. }) => load_git(
            url.as_str(),
            selector(branch, tag, rev),
            name,
            version,
        ),
        Some(ToolConfig::Detailed { git: None, registry: Some(registry), .. }) => load_registry(
            registry,
            name,
            version,
        ),
        Some(ToolConfig::Detailed { git: None, registry: None, path: Some(dir), .. }) => Ok(
            CrateSpec::LocalDir { path: dir.clone(), name, version },
        ),
        _ => load_default(default_registry, name, version),
    }
}

fn load_source(
    config: &Config,
    args: &CliArgs,
    tool: Option<&ToolConfig>,
    name: Option<String>,
    version: Option<String>,
) -> (r: Result<CrateSpec, Error>)
    requires
        tool_settings(*config, *args) == (match tool {
            Some(t) => Some(*t),
            None => None,
        }),
    ensures
        loads_source(r, *config, *args, opt_view(name), opt_view(version)),
{
    let wanted = selector(&args.branch, &args.tag, &args.rev);
    if let Some(url) = &args.git {
        load_git(url.as_str(), wanted, name, version)
    } else if let Some(registry) = &args.registry {
        load_registry(registry, name, version)
    } else if let Some(path) = &args.path {
        Ok(CrateSpec::LocalDir { path: path.clone(), name, version })
    } else if let Some(repository) = &args.github {
        load_forge(true, repository, &args.github_url, wanted, name, version)
    } else if let Some(repository) = &args.gitlab {
        load_forge(false, repository, &args.gitlab_url, wanted, name, version)
    } else if let Some(index) = &args.index {
        load_index(index, name, version)
    } else {
        load_configured(tool, &config.default_registry, name, version)
    }
}

fn name_and_version(args: &CliArgs) -> (r: (Option<String>, Option<String>))
    ensures
        opt_view(r.0) == written_name(*args),
        opt_view(r.1) == at_version(*args),
{
    match asked(args) {
        Some(text) => match split_once(text.as_str(), '@') {
            Some((name, version)) => (Some(name), Some(version)),
            None => (Some(text), None),
        },
        None => (None, None),
    }
}

fn version_flag(args: &CliArgs) -> (r: Option<String>)
    ensures
        opt_view(r) == flag_version(*args),
{
    match &args.version {
        Some(version) => if version.as_str().is_empty() {
            None
        } else {
            Some(version.clone())
        },
        None => None,
    }
}

fn actual_name(config: &Config, args: &CliArgs, written: Option<String>) -> (r: Option<String>)
    requires
        opt_view(written) == written_name(*args),
    ensures
        opt_view(r) == crate_name(*config, *args),
{
    match written {
        Some(name) => if names_source(args) {
            Some(name)
        } else {
            match find_alias(&config.aliases, name.as_str()) {
                Some(actual) => Some(actual),
                None => Some(name),
            }
        },
        None => None,
    }
}

fn settings<'a>(config: &'a Config, args: &CliArgs, name: &Option<String>) -> (r: Option<
    &'a ToolConfig,
>)
    requires
        opt_view(*name) == crate_name(*config, *args),
    ensures
        tool_settings(*config, *args) == (match r {
            Some(t) => Some(*t),
            None => None,
        }),
{
    match name {
        Some(n) => if names_source(args) {
            None
        } else {
            match find(&config.tools, n.as_str()) {
                Some(i) => Some(&config.tools[i].1),
                None => None,
            }
        },
        None => None,
    }
}

impl CrateSpec {
    /// The crate that the command line and the configuration ask for.
    pub fn load(config: &Config, args: &CliArgs) -> (r: Result<CrateSpec, Error>)
        ensures
            loads(r, *config, *args),
    {
        if (args.branch.is_some() || args.tag.is_some() || args.rev.is_some())
            && args.git.is_none() && args.github.is_none() && args.gitlab.is_none() {
            return Err(Error::GitSelectorWithoutGitSource);
        }
        let (written, at) = name_and_version(args);
        let flag = version_flag(args);
        if let (Some(a), Some(f)) = (&at, &flag) {
            if !same(a.as_str(), f.as_str()) {
                return Err(
                    Error::ConflictingVersions { at_version: a.clone(), flag_version: f.clone() },
                );
            }
        }
        let name = actual_name(config, args, written);
        let tool = settings(config, args, &name);
        let stated = match (at, flag) {
            (Some(a), _) => Some(a),
            (None, Some(f)) => Some(f),
            (None, None) => match tool {
                Some(ToolConfig::Version(version)) => Some(version.clone()),
                Some(ToolConfig::Detailed { version, .. }) => clone_opt(version),
                None => None,
            },
        };
        let version = match stated {
            Some(text) => match parse_requirement(text.as_str()) {
                Ok(printed) => Some(printed),
                Err(reason) => {
                    return Err(Error::InvalidVersionReq { version: text, reason });
                },
            },
            None => None,
        };
        load_source(config, args, tool, name, version)
    }

    /// The arguments for the tool. The name of a cargo subcommand is not one of them.
    pub fn get_binary_args(args: &CliArgs) -> (r: Vec<String>)
        ensures
            views(r@) == tool_args_of(*args),
    {
        let mut r = clone_all(&args.args);
        if names_subcommand(args) {
            assert(views(r@).len() == r@.len() && views(args.args@).len() == args.args@.len());
            let ghost before = r@;
            r.remove(0);
            assert(views(r@) =~= views(before).skip(1));
        }
        r
    }
}

/// The character stands between features.
pub open spec fn separates_features(c: char) -> bool {
    c == ',' || is_space(c)
}

/// The features in a list: the longest runs of characters that do not separate them.
pub open spec fn features_in(list: Seq<char>) -> Seq<Seq<char>>
    decreases list.len(),
{
    if list.len() == 0 {
        Seq::empty()
    } else {
        let before = features_in(list.drop_last());
        if separates_features(list.last()) {
            before
        } else if list.len() > 1 && !separates_features(list[list.len() - 2]) {
            before.drop_last().push(before.last().push(list.last()))
        } else {
            before.push(seq![list.last()])
        }
    }
}

/// The features in a list, separated by commas, white space or both.
pub fn parse_features(list: &str) -> (r: Vec<String>)
    ensures
        views(r@) == features_in(list@),
{
    let chars = crate::text::chars_of(list);
    let mut r: Vec<String> = Vec::new();
    let mut i: usize = 0;
    // The feature under way begins at `from`; there is none where `from == i`.
    let mut from: usize = 0;
    assert(list@.take(0) =~= Seq::<char>::empty());
    assert(views(r@) =~= features_in(list@.take(0)));
    while i < chars.len()
        invariant
            from <= i <= chars.len(),
            chars@ == list@,
            from < i ==> features_in(list@.take(i as int)) == views(r@).push(
                list@.subrange(from as int, i as int),
            ),
            from == i ==> features_in(list@.take(i as int)) == views(r@),
            from < i <==> i > 0 && !separates_features(list@[i - 1]),
        decreases chars.len() - i,
    {
        let ghost seen = list@.take(i + 1);
        proof {
            assert(seen.drop_last() =~= list@.take(i as int));
            assert(seen.last() == list@[i as int]);
            if from < i {
                let before = features_in(list@.take(i as int));
                assert(before.drop_last() =~= views(r@));
                assert(list@.subrange(from as int, i as int).push(list@[i as int])
                    =~= list@.subrange(from as int, i + 1));
                assert(seen[seen.len() - 2] == list@[i - 1]);
            } else {
                assert(i > 0 ==> seen[seen.len() - 2] == list@[i - 1]);
                assert(seq![list@[i as int]] =~= list@.subrange(i as int, i + 1));
            }
        }
        if chars[i] == ',' || is_whitespace(chars[i]) {
            if from < i {
                let feature = list.substring_char(from, i).to_owned();
                let ghost before = r@;
                r.push(feature);
                assert(views(r@) =~= views(before).push(feature@));
            }
            from = i + 1;
        }
        i = i + 1;
    }
    assert(list@.take(i as int) =~= list@);
    if from < i {
        let feature = list.substring_char(from, i).to_owned();
        let ghost before = r@;
        r.push(feature);
        assert(views(r@) =~= views(before).push(feature@));
    }
    r
}

/// The features to activate: those on the command line, else those in the settings for the
/// tool.
pub open spec fn wanted_features(config: Config, args: CliArgs) -> Seq<Seq<char>> {
    match (args.features, tool_settings(config, args)) {
        (Some(list), _) => features_in(list@),
        (None, Some(ToolConfig::Detailed { features: Some(features), .. })) => views(features@),
        _ => Seq::empty(),
    }
}

/// The options are how the command line and the configuration want the crate built.
pub open spec fn wants_options(config: Config, args: CliArgs, options: BuildOptions) -> bool {
    &&& views(options.features@) == wanted_features(config, args)
    &&& options.all_features == args.all_features
    &&& options.no_default_features == args.no_default_features
    &&& opt_view(options.profile) == (if args.debug {
        Some("dev"@)
    } else {
        opt_view(args.profile)
    })
    &&& options.target == args.target
    &&& options.locked == (config.locked || locked_by(args))
    &&& options.offline == (config.offline || offline_by(args))
    &&& options.jobs == args.jobs
    &&& options.ignore_rust_version == args.ignore_rust_version
    &&& options.build_target == (match (args.bin, args.example) {
        (Some(name), _) => BuildTarget::Bin(name),
        (None, Some(name)) => BuildTarget::Example(name),
        (None, None) => BuildTarget::DefaultBin,
    })
    &&& options.toolchain == (if args.toolchain is Some {
        args.toolchain
    } else {
        config.toolchain
    })
}

impl BuildOptions {
    /// How the command line and the configuration want the crate built.
    pub fn load(config: &Config, args: &CliArgs) -> (r: Result<BuildOptions, Error>)
        ensures
            r matches Ok(options) && wants_options(*config, *args, options),
    {
        let features = match &args.features {
            Some(list) => parse_features(list.as_str()),
            None => {
                let (written, _) = name_and_version(args);
                let name = actual_name(config, args, written);
                match settings(config, args, &name) {
                    Some(ToolConfig::Detailed { features: Some(features), .. }) => clone_all(
                        features,
                    ),
                    _ => Vec::new(),
                }
            },
        };
        assert(args.features is None && !(tool_settings(*config, *args)
            matches Some(ToolConfig::Detailed { features: Some(_), .. })) ==> views(features@)
            =~= Seq::empty());
        Ok(
            BuildOptions {
                features,
                all_features: args.all_features,
                no_default_features: args.no_default_features,
                profile: if args.debug {
                    Some("dev".to_owned())
                } else {
                    clone_opt(&args.profile)
                },
                target: clone_opt(&args.target),
                locked: config.locked || args.locked || args.frozen,
                offline: config.offline || args.offline || args.frozen,
                jobs: args.jobs,
                ignore_rust_version: args.ignore_rust_version,
                build_target: match (&args.bin, &args.example) {
                    (Some(name), _) => BuildTarget::Bin(name.clone()),
                    (None, Some(name)) => BuildTarget::Example(name.clone()),
                    (None, None) => BuildTarget::DefaultBin,
                },
                toolchain: match &args.toolchain {
                    Some(toolchain) => Some(toolchain.clone()),
                    None => clone_opt(&config.toolchain),
                },
            },
        )
    }
}

/// A flag that says where the crate comes from is the last word: what the configuration says
/// of aliases, tools and registries then changes nothing.
pub proof fn source_flags_overrule_the_configuration(
    a: Config,
    b: Config,
    args: CliArgs,
    r: Result<CrateSpec, Error>,
)
    requires
        has_source(args),
    ensures
        loads(r, a, args) <==> loads(r, b, args),
{
}

/// Asking for `cargo` with a subcommand is asking for the crate of the subcommand: the same
/// crate and version are meant, and the same arguments are left for the tool.
pub proof fn subcommands_are_crates(subcommand: CliArgs, direct: CliArgs)
    requires
        is_subcommand(subcommand),
        opt_view(direct.crate_spec) == Some("cargo-"@ + subcommand.args@[0]@),
        views(direct.args@) == views(subcommand.args@).skip(1),
    ensures
        written_name(direct) == written_name(subcommand),
        at_version(direct) == at_version(subcommand),
        !is_subcommand(direct),
{
    reveal_strlit("cargo");
    reveal_strlit("cargo-");
    assert("cargo"@.len() < ("cargo-"@ + subcommand.args@[0]@).len());
}

/// Features are never empty, and hold neither commas nor white space.
pub proof fn features_are_clean(list: Seq<char>, i: int)
    requires
        0 <= i < features_in(list).len(),
    ensures
        features_in(list)[i].len() > 0,
        forall|k: int|
            0 <= k < features_in(list)[i].len() ==> !separates_features(
                #[trigger] features_in(list)[i][k],
            ),
    decreases list.len(),
{
    let before = features_in(list.drop_last());
    open_run_is_a_feature(list.drop_last());
    if separates_features(list.last()) {
        features_are_clean(list.drop_last(), i);
    } else if list.len() > 1 && !separates_features(list[list.len() - 2]) {
        assert(list.drop_last().last() == list[list.len() - 2]);
        features_are_clean(list.drop_last(), i);
    } else if i < before.len() {
        features_are_clean(list.drop_last(), i);
    }
}

proof fn open_run_is_a_feature(list: Seq<char>)
    ensures
        list.len() > 0 && !separates_features(list.last()) ==> features_in(list).len() > 0,
    decreases list.len(),
{
    if list.len() > 1 {
        open_run_is_a_feature(list.drop_last());
        assert(list.drop_last().last() == list[list.len() - 2]);
    }
}

}
