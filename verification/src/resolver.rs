//! From what the user asks for to one exact crate.
use vstd::pervasive::unreached;
use vstd::prelude::*;
use vstd::string::*;

use crate::builder::{find_package, names_of, package_at, package_names, Package};
use crate::cache::{is_fresh, resolution_outcome, Cache, CacheEntry};
use crate::config::Config;
use crate::cratespec::{git_url_of, CrateSpec, Forge, GitSelector, RegistrySource};
use crate::error::Error;
use crate::registry::{check_name, is_crate_name, name_problem_of};
use crate::text::views;
use crate::version::{
    accepts, highest_at, highest_eligible, is_newest, requirement_accepts, select_version,
    IndexVersion,
};

verus! {

/// Where a resolved crate comes from. Unlike a specification it names no branch or tag,
/// only exact commits.
#[derive(Debug, PartialEq, Eq, Hash)]
pub enum ResolvedSource {
    /// crates.io.
    CratesIo,
    /// Another registry.
    Registry { source: RegistrySource },
    /// A git repository, at a commit.
    Git { repo: String, commit: String },
    /// A repository in a software forge, at a commit.
    Forge { forge: Forge, commit: String },
    /// A local directory.
    LocalDir { path: String },
}

impl Clone for ResolvedSource {
    fn clone(&self) -> (r: Self)
        ensures
            r == *self,
    {
        match self {
            ResolvedSource::CratesIo => ResolvedSource::CratesIo,
            ResolvedSource::Registry { source } => ResolvedSource::Registry {
                source: source.clone(),
            },
            ResolvedSource::Git { repo, commit } => ResolvedSource::Git {
                repo: repo.clone(),
                commit: commit.clone(),
            },
            ResolvedSource::Forge { forge, commit } => ResolvedSource::Forge {
                forge: forge.clone(),
                commit: commit.clone(),
            },
            ResolvedSource::LocalDir { path } => ResolvedSource::LocalDir { path: path.clone() },
        }
    }
}

/// An exact crate: its name, its version and where it was found.
#[derive(Debug, PartialEq, Eq, Hash)]
pub struct ResolvedCrate {
    pub name: String,
    /// The exact version.
    pub version: String,
    pub source: ResolvedSource,
}

impl Clone for ResolvedCrate {
    fn clone(&self) -> (r: Self)
        ensures
            r == *self,
    {
        ResolvedCrate {
            name: self.name.clone(),
            version: self.version.clone(),
            source: self.source.clone(),
        }
    }
}

/// The requirement that an absent one stands for: every version will do.
pub open spec fn stated_requirement(version: Option<String>) -> Seq<char> {
    match version {
        Some(requirement) => requirement@,
        None => "*"@,
    }
}

/// Which of the packages is meant: the first of that name, or the only one.
pub open spec fn package_selection(
    r: Result<usize, Error>,
    packages: Seq<Package>,
    name: Option<String>,
) -> bool {
    match name {
        Some(n) => match package_at(packages, n@) {
            Some(i) => r matches Ok(k) && k == i,
            None => r matches Err(Error::PackageNotFoundInWorkspace { name, available }) && name
                == n && views(available@) == package_names(packages),
        },
        None => if packages.len() == 1 {
            r == Ok::<usize, Error>(0)
        } else {
            r matches Err(Error::AmbiguousPackageName { count }) && count == packages.len()
        },
    }
}

/// Which of the packages is meant.
pub fn select_package(packages: &Vec<Package>, name: &Option<String>) -> (r: Result<usize, Error>)
    ensures
        package_selection(r, packages@, *name),
        r matches Ok(i) ==> i < packages@.len(),
{
    match name {
        Some(n) => match find_package(packages, n.as_str()) {
            Some(i) => Ok(i),
            None => Err(
                Error::PackageNotFoundInWorkspace {
                    name: n.clone(),
                    available: names_of(packages),
                },
            ),
        },
        None => if packages.len() == 1 {
            Ok(0)
        } else {
            Err(Error::AmbiguousPackageName { count: packages.len() })
        },
    }
}

/// The version found is one that was asked for.
pub open spec fn version_fits(version: Option<String>, found: Seq<char>) -> bool {
    match version {
        Some(requirement) => requirement_accepts(requirement@, found) == Some(true),
        None => true,
    }
}

/// Whether the version found is one that was asked for.
pub fn check_version(version: &Option<String>, found: &str) -> (r: Result<(), Error>)
    ensures
        r is Ok == version_fits(*version, found@),
        r matches Err(e) ==> (e matches Error::VersionMismatch { requirement, found: f }
            && Some(requirement) == *version && f@ == found@),
{
    match version {
        Some(requirement) => match accepts(requirement.as_str(), found) {
            Some(true) => Ok(()),
            _ => Err(
                Error::VersionMismatch {
                    requirement: requirement.clone(),
                    found: found.to_owned(),
                },
            ),
        },
        None => Ok(()),
    }
}

/// What the packages that were found give: the one that is meant, if its version fits, from
/// the place where it was found.
pub open spec fn package_resolution(
    r: Result<ResolvedCrate, Error>,
    packages: Seq<Package>,
    name: Option<String>,
    version: Option<String>,
    source: ResolvedSource,
) -> bool {
    match r {
        Ok(krate) => exists|i: usize|
            {
                &&& #[trigger] package_selection(Ok(i), packages, name)
                &&& version_fits(version, packages[i as int].version@)
                &&& krate.name == packages[i as int].name
                &&& krate.version == packages[i as int].version
                &&& krate.source == source
            },
        Err(e) => package_selection(Err(e), packages, name) || exists|i: usize|
            {
                &&& #[trigger] package_selection(Ok(i), packages, name)
                &&& !version_fits(version, packages[i as int].version@)
                &&& e matches Error::VersionMismatch { requirement, found } && Some(requirement)
                    == version && found@ == packages[i as int].version@
            },
    }
}

/// The crate that is meant among the packages that were found in one place.
pub fn resolve_packages(
    packages: &Vec<Package>,
    name: &Option<String>,
    version: &Option<String>,
    source: ResolvedSource,
) -> (r: Result<ResolvedCrate, Error>)
    ensures
        package_resolution(r, packages@, *name, *version, source),
{
    let i: usize = match select_package(packages, name) {
        Ok(i) => i,
        Err(e) => {
            return Err(e);
        },
    };
    assert(package_selection(Ok(i), packages@, *name));
    match check_version(version, packages[i].version.as_str()) {
        Ok(()) => Ok(
            ResolvedCrate {
                name: packages[i].name.clone(),
                version: packages[i].version.clone(),
                source,
            },
        ),
        Err(e) => Err(e),
    }
}

/// Which registry index to ask.
#[derive(Debug, PartialEq, Eq)]
pub enum IndexChoice {
    /// That of crates.io.
    CratesIo,
    /// That of a registry configured in `.cargo/config.toml`.
    Named(String),
    /// The one at the URL.
    Url(String),
}

/// A question to a registry: which versions of the crate there are.
#[derive(Debug, PartialEq, Eq)]
pub struct RegistryQuery {
    pub index: IndexChoice,
    pub name: String,
    /// Only what is cached may be looked at.
    pub cached_only: bool,
}

/// The index to ask for a registry; without one that of crates.io.
pub open spec fn index_of(source: Option<RegistrySource>) -> IndexChoice {
    match source {
        None => IndexChoice::CratesIo,
        Some(RegistrySource::Named(name)) => IndexChoice::Named(name),
        Some(RegistrySource::IndexUrl(url)) => IndexChoice::Url(url),
    }
}

/// The index to ask for a registry; without one that of crates.io.
pub fn index_choice(source: &Option<RegistrySource>) -> (r: IndexChoice)
    ensures
        r == index_of(*source),
{
    match source {
        None => IndexChoice::CratesIo,
        Some(RegistrySource::Named(name)) => IndexChoice::Named(name.clone()),
        Some(RegistrySource::IndexUrl(url)) => IndexChoice::Url(url.clone()),
    }
}

/// The source that a registry stands for.
pub open spec fn registry_source_of(source: Option<RegistrySource>) -> ResolvedSource {
    match source {
        None => ResolvedSource::CratesIo,
        Some(registry) => ResolvedSource::Registry { source: registry },
    }
}

/// How a repository is cloned.
#[derive(Debug, PartialEq, Eq)]
pub enum CloneSource {
    /// In full, and then at the commit.
    AtCommit { url: String, commit: String },
    /// Only the tip of what the selector names. The URL carries the reference as its
    /// fragment, which has to be the one that is checked out.
    Shallow { url: String, expected_ref: Option<String> },
}

/// The repository is cloned as the selector asks: commits need the history, everything else
/// only the tip.
pub open spec fn clone_is(clone: CloneSource, repo: Seq<char>, selector: GitSelector) -> bool {
    match selector {
        GitSelector::Commit(c) => clone matches CloneSource::AtCommit { url, commit } && url@
            == repo && commit == c,
        GitSelector::DefaultBranch => clone matches CloneSource::Shallow { url, expected_ref }
            && url@ == repo && expected_ref is None,
        GitSelector::Branch(b) => clone matches CloneSource::Shallow { url, expected_ref: Some(e) }
            && url@ == repo + ("#refs/heads/"@ + b@) && e@ == "refs/heads/"@ + b@,
        GitSelector::Tag(t) => clone matches CloneSource::Shallow { url, expected_ref: Some(e) }
            && url@ == repo + ("#refs/tags/"@ + t@) && e@ == "refs/tags/"@ + t@,
    }
}

/// How a repository is cloned.
pub fn clone_source(repo: &str, selector: &GitSelector) -> (r: CloneSource)
    ensures
        clone_is(r, repo@, *selector),
{
    match selector {
        GitSelector::Commit(c) => CloneSource::AtCommit {
            url: repo.to_owned(),
            commit: c.clone(),
        },
        GitSelector::DefaultBranch => CloneSource::Shallow {
            url: repo.to_owned(),
            expected_ref: None,
        },
        GitSelector::Branch(b) => CloneSource::Shallow {
            url: repo.to_owned().concat("#refs/heads/".to_owned().concat(b.as_str()).as_str()),
            expected_ref: Some("refs/heads/".to_owned().concat(b.as_str())),
        },
        GitSelector::Tag(t) => CloneSource::Shallow {
            url: repo.to_owned().concat("#refs/tags/".to_owned().concat(t.as_str()).as_str()),
            expected_ref: Some("refs/tags/".to_owned().concat(t.as_str())),
        },
    }
}

/// What has to be found out before a specification can be resolved.
#[derive(Debug, PartialEq, Eq)]
pub enum ResolutionPlan {
    /// The versions that a registry has.
    Registry(RegistryQuery),
    /// The commit that the selector names in a repository and the packages in it.
    Git { repo: String, selector: GitSelector, clone: CloneSource },
    /// The packages in a directory.
    LocalDir { path: String },
}

/// What was found out.
#[derive(Debug, PartialEq, Eq)]
pub enum Findings {
    /// The versions that the registry has of the crate; nothing where it does not have it.
    Registry(Option<Vec<IndexVersion>>),
    /// The commit and the packages in it.
    Git { commit: String, packages: Vec<Package> },
    /// The packages.
    LocalDir { packages: Vec<Package> },
}

/// The version requirement in a specification.
pub open spec fn version_of(spec: CrateSpec) -> Option<String> {
    match spec {
        CrateSpec::CratesIo { version, .. } => version,
        CrateSpec::Registry { version, .. } => version,
        CrateSpec::Git { version, .. } => version,
        CrateSpec::Forge { version, .. } => version,
        CrateSpec::LocalDir { version, .. } => version,
    }
}

/// The findings are on what the specification names.
pub open spec fn findings_fit(spec: CrateSpec, findings: Findings) -> bool {
    match spec {
        CrateSpec::CratesIo { .. } => findings is Registry,
        CrateSpec::Registry { .. } => findings is Registry,
        CrateSpec::Git { .. } => findings is Git,
        CrateSpec::Forge { .. } => findings is Git,
        CrateSpec::LocalDir { .. } => findings is LocalDir,
    }
}

/// Resolves specifications with what registries, repositories and directories hold.
#[derive(Clone, Debug)]
pub struct DefaultCrateResolver {
    pub config: Config,
}

impl DefaultCrateResolver {
    /// A resolver with the given settings.
    pub fn new(config: Config) -> (r: Self)
        ensures
            r.config == config,
    {
        DefaultCrateResolver { config }
    }

    /// The question to a registry.
    pub open spec fn query(
        self,
        query: RegistryQuery,
        name: String,
        source: Option<RegistrySource>,
    ) -> bool {
        query.index == index_of(source) && query.name == name && query.cached_only
            == self.config.offline
    }

    fn registry_query(&self, name: &String, source: &Option<RegistrySource>) -> (r: Result<
        RegistryQuery,
        Error,
    >)
        ensures
            self.asks(r, *name, *source),
    {
        match check_name(name.as_str()) {
            Ok(()) => Ok(
                RegistryQuery {
                    index: index_choice(source),
                    name: name.clone(),
                    cached_only: self.config.offline,
                },
            ),
            Err(e) => Err(e),
        }
    }

    /// The question to a registry, or why the registry cannot be asked: the name is none.
    pub open spec fn asks(
        self,
        r: Result<RegistryQuery, Error>,
        name: String,
        source: Option<RegistrySource>,
    ) -> bool {
        match r {
            Ok(query) => is_crate_name(name@) && self.query(query, name, source),
            Err(e) => !is_crate_name(name@) && (e matches Error::Registry { message } && Some(
                message@,
            ) == name_problem_of(name@)),
        }
    }

    /// What follows from the versions that a registry has: the highest that is not yanked and
    /// fits. A registry that does not know the crate fails differently offline, where only
    /// what was cached could be asked.
    pub open spec fn registry_resolution(
        self,
        r: Result<ResolvedCrate, Error>,
        crate_name: Seq<char>,
        version: Option<String>,
        source: Option<RegistrySource>,
        versions: Option<Vec<IndexVersion>>,
    ) -> bool {
        let wanted = stated_requirement(version);
        match versions {
            None => if self.config.offline {
                r matches Err(Error::OfflineMode { name, version: v }) && name@ == crate_name && v@
                    == wanted
            } else {
                r matches Err(Error::CrateNotFoundInRegistry { name }) && name@ == crate_name
            },
            Some(entries) => match highest_eligible(entries@, wanted, entries@.len() as int) {
                Some(k) => r matches Ok(krate) && krate.name@ == crate_name && krate.version
                    == entries@[k].version && krate.source == registry_source_of(source)
                    && is_newest(krate.version@, entries@, wanted),
                None => r matches Err(Error::NoMatchingVersion { name, requirement }) && name@
                    == crate_name && requirement@ == wanted,
            },
        }
    }

    /// The version of a registry crate to use, given the versions that the registry has.
    pub fn resolve_registry(
        &self,
        name: &str,
        version: &Option<String>,
        source: &Option<RegistrySource>,
        versions: &Option<Vec<IndexVersion>>,
    ) -> (r: Result<ResolvedCrate, Error>)
        ensures
            self.registry_resolution(r, name@, *version, *source, *versions),
            r matches Ok(krate) ==> versions is Some && is_newest(
                krate.version@,
                versions->Some_0@,
                stated_requirement(*version),
            ),
    {
        let requirement = match version {
            Some(requirement) => requirement.clone(),
            None => "*".to_owned(),
        };
        let entries = match versions {
            Some(entries) => entries,
            None => {
                return if self.config.offline {
                    Err(Error::OfflineMode { name: name.to_owned(), version: requirement })
                } else {
                    Err(Error::CrateNotFoundInRegistry { name: name.to_owned() })
                };
            },
        };
        let resolved_source = match source {
            None => ResolvedSource::CratesIo,
            Some(registry) => ResolvedSource::Registry { source: registry.clone() },
        };
        match select_version(entries, requirement.as_str()) {
            Some(k) => {
                assert(highest_at(k as int, entries@, requirement@));
                Ok(
                    ResolvedCrate {
                        name: name.to_owned(),
                        version: entries[k].version.clone(),
                        source: resolved_source,
                    },
                )
            },
            None => Err(Error::NoMatchingVersion { name: name.to_owned(), requirement }),
        }
    }

    /// The crate in a local directory, given the packages in it.
    pub fn resolve_local_dir(
        &self,
        path: &String,
        name: &Option<String>,
        version: &Option<String>,
        packages: &Vec<Package>,
    ) -> (r: Result<ResolvedCrate, Error>)
        ensures
            package_resolution(
                r,
                packages@,
                *name,
                *version,
                ResolvedSource::LocalDir { path: *path },
            ),
    {
        resolve_packages(packages, name, version, ResolvedSource::LocalDir { path: path.clone() })
    }

    /// The crate in a git repository, given the commit and the packages in it.
    pub fn resolve_git(
        &self,
        repo: &String,
        name: &Option<String>,
        version: &Option<String>,
        commit: String,
        packages: &Vec<Package>,
    ) -> (r: Result<ResolvedCrate, Error>)
        ensures
            package_resolution(
                r,
                packages@,
                *name,
                *version,
                ResolvedSource::Git { repo: *repo, commit },
            ),
    {
        resolve_packages(
            packages,
            name,
            version,
            ResolvedSource::Git { repo: repo.clone(), commit },
        )
    }

    /// The crate in a repository of a forge, given the commit and the packages in it. It is
    /// resolved like one in any git repository, but remembers its forge.
    pub fn resolve_forge(
        &self,
        forge: &Forge,
        name: &Option<String>,
        version: &Option<String>,
        commit: String,
        packages: &Vec<Package>,
    ) -> (r: Result<ResolvedCrate, Error>)
        ensures
            package_resolution(
                r,
                packages@,
                *name,
                *version,
                ResolvedSource::Forge { forge: *forge, commit },
            ),
    {
        resolve_packages(
            packages,
            name,
            version,
            ResolvedSource::Forge { forge: forge.clone(), commit },
        )
    }

    /// What has to be found out for a specification.
    pub open spec fn plans(self, r: Result<ResolutionPlan, Error>, spec: CrateSpec) -> bool {
        match spec {
            CrateSpec::CratesIo { name, .. } => self.plans_query(r, name, None),
            CrateSpec::Registry { source, name, .. } => self.plans_query(r, name, Some(source)),
            CrateSpec::Git { repo, selector, .. } => r matches Ok(
                ResolutionPlan::Git { repo: url, selector: s, clone },
            ) && url == repo && s == selector && clone_is(clone, repo@, selector),
            CrateSpec::Forge { forge, selector, .. } => r matches Ok(
                ResolutionPlan::Git { repo: url, selector: s, clone },
            ) && url@ == git_url_of(forge) && s == selector && clone_is(clone, url@, selector),
            CrateSpec::LocalDir { path, .. } => r == Ok::<ResolutionPlan, Error>(
                ResolutionPlan::LocalDir { path },
            ),
        }
    }

    /// A registry is to be asked.
    pub open spec fn plans_query(
        self,
        r: Result<ResolutionPlan, Error>,
        name: String,
        source: Option<RegistrySource>,
    ) -> bool {
        match r {
            Ok(plan) => plan matches ResolutionPlan::Registry(query) && self.asks(
                Ok(query),
                name,
                source,
            ),
            Err(e) => self.asks(Err(e), name, source),
        }
    }

    /// What has to be found out for a specification. A name that no registry can have is an
    /// error.
    pub fn plan(&self, spec: &CrateSpec) -> (r: Result<ResolutionPlan, Error>)
        ensures
            self.plans(r, *spec),
    {
        match spec {
            CrateSpec::CratesIo { name, .. } => match self.registry_query(name, &None) {
                Ok(query) => Ok(ResolutionPlan::Registry(query)),
                Err(e) => Err(e),
            },
            CrateSpec::Registry { source, name, .. } => {
                let source = Some(source.clone());
                match self.registry_query(name, &source) {
                    Ok(query) => Ok(ResolutionPlan::Registry(query)),
                    Err(e) => Err(e),
                }
            },
            CrateSpec::Git { repo, selector, .. } => Ok(
                ResolutionPlan::Git {
                    repo: repo.clone(),
                    selector: selector.clone(),
                    clone: clone_source(repo.as_str(), selector),
                },
            ),
            CrateSpec::Forge { forge, selector, .. } => {
                let repo = forge.git_url();
                let clone = clone_source(repo.as_str(), selector);
                Ok(ResolutionPlan::Git { repo, selector: selector.clone(), clone })
            },
            CrateSpec::LocalDir { path, .. } => Ok(
                ResolutionPlan::LocalDir { path: path.clone() },
            ),
        }
    }

    /// Whether the findings are on what the specification names.
    pub fn awaits(spec: &CrateSpec, findings: &Findings) -> (r: bool)
        ensures
            r == findings_fit(*spec, *findings),
    {
        match (spec, findings) {
            (CrateSpec::CratesIo { .. }, Findings::Registry(_)) => true,
            (CrateSpec::Registry { .. }, Findings::Registry(_)) => true,
            (CrateSpec::Git { .. }, Findings::Git { .. }) => true,
            (CrateSpec::Forge { .. }, Findings::Git { .. }) => true,
            (CrateSpec::LocalDir { .. }, Findings::LocalDir { .. }) => true,
            _ => false,
        }
    }

    /// What a specification resolves to, given what was found out.
    pub open spec fn resolution(
        self,
        r: Result<ResolvedCrate, Error>,
        spec: CrateSpec,
        findings: Findings,
    ) -> bool {
        match (spec, findings) {
            (CrateSpec::CratesIo { name, version }, Findings::Registry(versions)) => {
                self.registry_resolution(r, name@, version, None, versions)
            },
            (CrateSpec::Registry { source, name, version }, Findings::Registry(versions)) => {
                self.registry_resolution(r, name@, version, Some(source), versions)
            },
            (CrateSpec::Git { repo, name, version, .. }, Findings::Git { commit, packages }) => {
                package_resolution(
                    r,
                    packages@,
                    name,
                    version,
                    ResolvedSource::Git { repo, commit },
                )
            },
            (CrateSpec::Forge { forge, name, version, .. }, Findings::Git { commit, packages }) => {
                package_resolution(
                    r,
                    packages@,
                    name,
                    version,
                    ResolvedSource::Forge { forge, commit },
                )
            },
            (CrateSpec::LocalDir { path, name, version }, Findings::LocalDir { packages }) => {
                package_resolution(
                    r,
                    packages@,
                    name,
                    version,
                    ResolvedSource::LocalDir { path },
                )
            },
            _ => false,
        }
    }

    /// The exact crate that a specification names, given what was found out for it.
    pub fn resolve(&self, spec: &CrateSpec, findings: Findings) -> (r: Result<ResolvedCrate, Error>)
        requires
            findings_fit(*spec, findings),
        ensures
            self.resolution(r, *spec, findings),
            (spec is CratesIo || spec is Registry) && r is Ok ==> is_newest(
                r->Ok_0.version@,
                findings->Registry_0->Some_0@,
                stated_requirement(version_of(*spec)),
            ),
    {
        match spec {
            CrateSpec::CratesIo { name, version } => match findings {
                Findings::Registry(versions) => self.resolve_registry(
                    name.as_str(),
                    version,
                    &None,
                    &versions,
                ),
                _ => unreached(),
            },
            CrateSpec::Registry { source, name, version } => match findings {
                Findings::Registry(versions) => {
                    let source = Some(source.clone());
                    self.resolve_registry(name.as_str(), version, &source, &versions)
                },
                _ => unreached(),
            },
            CrateSpec::Git { repo, name, version, .. } => match findings {
                Findings::Git { commit, packages } => self.resolve_git(
                    repo,
                    name,
                    version,
                    commit,
                    &packages,
                ),
                _ => unreached(),
            },
            CrateSpec::Forge { forge, name, version, .. } => match findings {
                Findings::Git { commit, packages } => self.resolve_forge(
                    forge,
                    name,
                    version,
                    commit,
                    &packages,
                ),
                _ => unreached(),
            },
            CrateSpec::LocalDir { path, name, version } => match findings {
                Findings::LocalDir { packages } => self.resolve_local_dir(
                    path,
                    name,
                    version,
                    &packages,
                ),
                _ => unreached(),
            },
        }
    }
}

/// Resolves specifications through the cache. Local directories are never cached: what is in
/// them can change.
#[derive(Clone, Debug)]
pub struct CachingResolver {
    pub inner: DefaultCrateResolver,
    pub cache: Cache,
}

impl CachingResolver {
    /// A resolver that asks `inner` where the cache has no answer.
    pub fn new(inner: DefaultCrateResolver, cache: Cache) -> (r: Self)
        ensures
            r.inner == inner,
            r.cache == cache,
    {
        CachingResolver { inner, cache }
    }

    /// The cached crate is used, without resolving the specification again.
    pub open spec fn uses_entry(
        self,
        spec: CrateSpec,
        entry: Option<CacheEntry<ResolvedCrate>>,
        now: i128,
    ) -> bool {
        !(spec is LocalDir) && is_fresh(entry, now, self.cache.config.resolve_cache_timeout)
    }

    /// What a specification gives once the resolver has run, and whether it is stored.
    pub open spec fn gives(
        self,
        r: (Result<ResolvedCrate, Error>, bool),
        spec: CrateSpec,
        entry: Option<CacheEntry<ResolvedCrate>>,
        outcome: Result<ResolvedCrate, Error>,
    ) -> bool {
        if spec is LocalDir {
            r.0 == outcome && !r.1
        } else {
            r.0 == resolution_outcome(entry, outcome) && r.1 == outcome is Ok
        }
    }

    /// The crate that a specification names, from the cache or from `resolver`, and whether it
    /// is to be stored. `entry` is what the cache holds for the specification.
    pub fn resolve<F: FnOnce() -> Result<ResolvedCrate, Error>>(
        &self,
        spec: &CrateSpec,
        entry: Option<CacheEntry<ResolvedCrate>>,
        now: i128,
        resolver: F,
    ) -> (r: (Result<ResolvedCrate, Error>, bool))
        requires
            !self.uses_entry(*spec, entry, now) ==> resolver.requires(()),
        ensures
            self.uses_entry(*spec, entry, now) ==> r.0 == Ok::<_, Error>(entry->Some_0.value)
                && !r.1,
            !self.uses_entry(*spec, entry, now) ==> exists|outcome: Result<ResolvedCrate, Error>|
             #[trigger]
                resolver.ensures((), outcome) && self.gives(r, *spec, entry, outcome),
    {
        match spec {
            CrateSpec::LocalDir { .. } => (resolver(), false),
            _ => self.cache.get_or_resolve(entry, now, resolver),
        }
    }
}

/// The resolver for a configuration and its caches.
pub fn create_resolver(config: Config, cache: Cache) -> (r: CachingResolver)
    ensures
        r.inner.config == config,
        r.cache == cache,
{
    CachingResolver::new(DefaultCrateResolver::new(config), cache)
}

/// A crate that was found in a repository or directory is one of the packages there, under
/// its own name, and its version is one that was asked for.
pub proof fn found_crates_fit(
    krate: ResolvedCrate,
    packages: Seq<Package>,
    name: Option<String>,
    version: Option<String>,
    source: ResolvedSource,
)
    requires
        package_resolution(Ok(krate), packages, name, version, source),
    ensures
        exists|i: int|
            0 <= i < packages.len() && (#[trigger] packages[i]).name == krate.name
                && packages[i].version == krate.version,
        version_fits(version, krate.version@),
        name matches Some(n) ==> krate.name@ == n@,
        krate.source == source,
{
    let i = choose|i: usize|
        {
            &&& #[trigger] package_selection(Ok(i), packages, name)
            &&& version_fits(version, packages[i as int].version@)
            &&& krate.name == packages[i as int].name
            &&& krate.version == packages[i as int].version
            &&& krate.source == source
        };
    if name is Some {
        package_at_is_named(packages, name->Some_0@);
    }
    assert(packages[i as int].name == krate.name);
}

proof fn package_at_is_named(packages: Seq<Package>, name: Seq<char>)
    ensures
        package_at(packages, name) matches Some(i) ==> 0 <= i < packages.len() && packages[i].name@
            == name,
    decreases packages.len(),
{
    if packages.len() > 0 {
        package_at_is_named(packages.drop_last(), name);
    }
}

}
