//! From a specification to one exact crate: what is asked for is what is resolved.
use vstd::prelude::*;
use vstd::string::*;

use crate::builder::{package_at, Package};
use crate::cache::CacheEntry;
use crate::cratespec::{
    clone_paths_name_their_repository, git_url_of, is_public, repository_in, CrateSpec, Forge,
    GitSelector, RegistrySource,
};
use crate::error::Error;
use crate::laws::texts::{separated_texts_come_apart, texts_without_separator};
use crate::resolver::{
    clone_is, package_resolution, package_selection, version_fits, CachingResolver, CloneSource,
    DefaultCrateResolver, Findings, IndexChoice, ResolutionPlan, ResolvedCrate, ResolvedSource,
};
use crate::text::{has_suffix, trimmed_end};
use crate::urls::UrlView;
use crate::version::{
    highest_at, highest_eligible, is_newest, requirement_accepts, version_order, IndexVersion,
};

verus! {

/// The clones are of the same thing.
pub open spec fn same_clone(a: CloneSource, b: CloneSource) -> bool {
    match (a, b) {
        (
            CloneSource::AtCommit { url, commit },
            CloneSource::AtCommit { url: url2, commit: commit2 },
        ) => url@ == url2@ && commit@ == commit2@,
        (
            CloneSource::Shallow { url, expected_ref },
            CloneSource::Shallow { url: url2, expected_ref: ref2 },
        ) => url@ == url2@ && (match (expected_ref, ref2) {
            (Some(x), Some(y)) => x@ == y@,
            (None, None) => true,
            _ => false,
        }),
        _ => false,
    }
}

/// A crate of a forge is planned like the crate at the forge's clone URL: the same repository,
/// the same selector, the same clone. The selector is the one of the specification.
pub proof fn forge_plans_are_git_plans(
    resolver: DefaultCrateResolver,
    forge: Forge,
    repo: String,
    selector: GitSelector,
    name: Option<String>,
    version: Option<String>,
    by_forge: Result<ResolutionPlan, Error>,
    by_url: Result<ResolutionPlan, Error>,
)
    requires
        repo@ == git_url_of(forge),
        resolver.plans(by_forge, CrateSpec::Forge { forge, selector, name, version }),
        resolver.plans(by_url, CrateSpec::Git { repo, selector, name, version }),
    ensures
        ({
            let a = by_forge->Ok_0;
            let b = by_url->Ok_0;
            &&& by_forge is Ok && by_url is Ok
            &&& a is Git && b is Git
            &&& a->Git_repo@ == repo@ && b->Git_repo@ == repo@
            &&& a->Git_selector == selector && b->Git_selector == selector
            &&& same_clone(a->Git_clone, b->Git_clone)
        }),
{
}

/// The reference that a selector names in a repository, as git writes it.
pub open spec fn reference_of(selector: GitSelector) -> Option<Seq<char>> {
    match selector {
        GitSelector::Branch(b) => Some("refs/heads/"@ + b@),
        GitSelector::Tag(t) => Some("refs/tags/"@ + t@),
        _ => None,
    }
}

/// A repository is cloned at what the selector names: a branch and a tag by their reference,
/// which stands behind a `#` in the URL and is expected; a commit in full, at that commit; and
/// without a selector nothing is added to the URL.
pub proof fn clones_are_of_what_was_selected(clone: CloneSource, repo: Seq<char>, s: GitSelector)
    requires
        clone_is(clone, repo, s),
    ensures
        s matches GitSelector::Commit(c) ==> (clone matches CloneSource::AtCommit { url, commit }
            && url@ == repo && commit@ == c@),
        !(s is Commit) ==> clone is Shallow,
        s is DefaultBranch ==> clone->Shallow_url@ == repo && clone->expected_ref is None,
        reference_of(s) matches Some(name) ==> clone->Shallow_url@ == repo + "#"@ + name
            && clone->expected_ref is Some && clone->expected_ref->Some_0@ == name,
{
    reveal_strlit("#");
    reveal_strlit("refs/heads/");
    reveal_strlit("refs/tags/");
    reveal_strlit("#refs/heads/");
    reveal_strlit("#refs/tags/");
    match s {
        GitSelector::Branch(b) => {
            assert(repo + ("#refs/heads/"@ + b@) =~= repo + "#"@ + ("refs/heads/"@ + b@));
        },
        GitSelector::Tag(t) => {
            assert(repo + ("#refs/tags/"@ + t@) =~= repo + "#"@ + ("refs/tags/"@ + t@));
        },
        _ => {},
    }
}

/// Every specification is planned as what it is: a git crate from its repository at its
/// selector, a local one from its directory, and a registry crate by its name from its own
/// registry, offline from what is cached only.
pub proof fn plans_are_of_the_specification(
    resolver: DefaultCrateResolver,
    spec: CrateSpec,
    r: Result<ResolutionPlan, Error>,
)
    requires
        resolver.plans(r, spec),
    ensures
        spec matches CrateSpec::Git { repo, selector, .. } ==> (r matches Ok(
            ResolutionPlan::Git { repo: u, selector: s, clone },
        ) && u@ == repo@ && s == selector && clone_is(clone, repo@, selector)),
        spec matches CrateSpec::Forge { forge, selector, .. } ==> (r matches Ok(
            ResolutionPlan::Git { repo: u, selector: s, clone },
        ) && s == selector && clone_is(clone, u@, selector)),
        spec matches CrateSpec::LocalDir { path, .. } ==> (r matches Ok(
            ResolutionPlan::LocalDir { path: p },
        ) && p@ == path@),
        spec matches CrateSpec::CratesIo { name, .. } ==> match r {
            Ok(plan) => plan matches ResolutionPlan::Registry(q) && q.name@ == name@
                && q.index is CratesIo && q.cached_only == resolver.config.offline,
            Err(e) => e is Registry,
        },
        spec matches CrateSpec::Registry { name, source, .. } ==> match r {
            Ok(plan) => plan matches ResolutionPlan::Registry(q) && q.name@ == name@
                && q.cached_only == resolver.config.offline && (match source {
                RegistrySource::Named(n) => q.index == IndexChoice::Named(n),
                RegistrySource::IndexUrl(u) => q.index == IndexChoice::Url(u),
            }),
            Err(e) => e is Registry,
        },
{
}

/// The character is an ASCII letter or digit, a dash or a line below.
pub open spec fn is_letter_digit_or_dash(c: char) -> bool {
    ||| '0' <= c <= '9'
    ||| 'A' <= c <= 'Z'
    ||| 'a' <= c <= 'z'
    ||| c == '-'
    ||| c == '_'
}

/// A registry is asked exactly for names that a crate can have: not empty, and only ASCII
/// letters, digits, `-` and `_`.
pub proof fn only_crate_names_are_asked_for(
    resolver: DefaultCrateResolver,
    spec: CrateSpec,
    r: Result<ResolutionPlan, Error>,
    name: String,
)
    requires
        resolver.plans(r, spec),
        match spec {
            CrateSpec::CratesIo { name: n, .. } => n == name,
            CrateSpec::Registry { name: n, .. } => n == name,
            _ => false,
        },
    ensures
        r is Ok <==> name@.len() > 0 && forall|i: int|
            0 <= i < name@.len() ==> is_letter_digit_or_dash(#[trigger] name@[i]),
{
    if r is Ok {
        assert forall|i: int| 0 <= i < name@.len() implies is_letter_digit_or_dash(
            #[trigger] name@[i],
        ) by {
            assert(crate::registry::is_name_char(name@[i]));
        }
    }
}

/// The clone URL of a forge is the address of the forge, the owner, the repository and `.git`.
/// A forge without an instance of its own is at its public address.
pub proof fn clone_urls_name_their_forge(forge: Forge, owner: Seq<char>, repo: Seq<char>)
    requires
        forge matches Forge::GitHub { owner: o, repo: p, .. } ==> o@ == owner && p@ == repo,
        forge matches Forge::GitLab { owner: o, repo: p, .. } ==> o@ == owner && p@ == repo,
    ensures
        forge matches Forge::GitHub { custom_url: None, .. } ==> git_url_of(forge)
            == "https://github.com/"@ + owner + "/"@ + repo + ".git"@,
        forge matches Forge::GitLab { custom_url: None, .. } ==> git_url_of(forge)
            == "https://gitlab.com/"@ + owner + "/"@ + repo + ".git"@,
        forge matches Forge::GitHub { custom_url: Some(base), .. } ==> git_url_of(forge)
            == trimmed_end(base@, "/"@) + "/"@ + owner + "/"@ + repo + ".git"@,
        forge matches Forge::GitLab { custom_url: Some(base), .. } ==> git_url_of(forge)
            == trimmed_end(base@, "/"@) + "/"@ + owner + "/"@ + repo + ".git"@,
{
    reveal_strlit("/");
    reveal_strlit("https://github.com");
    reveal_strlit("https://gitlab.com");
    reveal_strlit("https://github.com/");
    reveal_strlit("https://gitlab.com/");
    let github = "https://github.com"@;
    let gitlab = "https://gitlab.com"@;
    if has_suffix(github, "/"@) {
        assert(github.subrange(17, 18)[0] == "/"@[0]);
    }
    if has_suffix(gitlab, "/"@) {
        assert(gitlab.subrange(17, 18)[0] == "/"@[0]);
    }
    assert(github + "/"@ + owner + "/"@ + repo + ".git"@ =~= "https://github.com/"@ + owner + "/"@
        + repo + ".git"@);
    assert(gitlab + "/"@ + owner + "/"@ + repo + ".git"@ =~= "https://gitlab.com/"@ + owner + "/"@
        + repo + ".git"@);
}

/// Two forges are cloned from the same URL only if they are the same kind of forge with the
/// same owner and repository, both at their public address.
pub proof fn public_clone_urls_differ(a: Forge, b: Forge)
    requires
        a matches Forge::GitHub { custom_url: None, .. },
        b matches Forge::GitLab { custom_url: None, .. },
    ensures
        git_url_of(a) != git_url_of(b),
{
    clone_urls_name_their_forge(a, a->GitHub_owner@, a->GitHub_repo@);
    clone_urls_name_their_forge(b, b->GitLab_owner@, b->GitLab_repo@);
    reveal_strlit("https://github.com/");
    reveal_strlit("https://gitlab.com/");
    assert(git_url_of(a)[11] == 'h');
    assert(git_url_of(b)[11] == 'l');
}

/// Taking the clone URL of a public forge apart gives the forge back. The URL is what its
/// scheme, host and path put together.
pub proof fn clone_urls_are_recognised(forge: Forge, url: UrlView, found: Option<Forge>)
    requires
        url.scheme == "https"@,
        url.host is Some,
        !url.host->Some_0.contains('/'),
        url.path.len() > 0 && url.path[0] == '/',
        "https://"@ + url.host->Some_0 + url.path == git_url_of(forge),
        forge matches Forge::GitHub { custom_url: None, .. } || forge matches Forge::GitLab {
            custom_url: None,
            ..
        },
        forge matches Forge::GitHub { owner, repo, .. } ==> owner@.len() > 0 && repo@.len() > 0
            && !owner@.contains('/') && !repo@.contains('/'),
        forge matches Forge::GitLab { owner, repo, .. } ==> owner@.len() > 0 && repo@.len() > 0
            && !owner@.contains('/') && !repo@.contains('/'),
        is_public(found, repository_in(url)),
    ensures
        forge matches Forge::GitHub { owner, repo, .. } ==> (found matches Some(
            Forge::GitHub { custom_url: None, owner: o, repo: p },
        ) && o@ == owner@ && p@ == repo@),
        forge matches Forge::GitLab { owner, repo, .. } ==> (found matches Some(
            Forge::GitLab { custom_url: None, owner: o, repo: p },
        ) && o@ == owner@ && p@ == repo@),
{
    reveal_strlit("/");
    reveal_strlit("https://");
    reveal_strlit("github.com");
    reveal_strlit("gitlab.com");
    reveal_strlit("https://github.com/");
    reveal_strlit("https://gitlab.com/");
    let (host, owner, repo) = match forge {
        Forge::GitHub { owner, repo, .. } => ("github.com"@, owner@, repo@),
        Forge::GitLab { owner, repo, .. } => ("gitlab.com"@, owner@, repo@),
    };
    clone_urls_name_their_forge(forge, owner, repo);
    let path = "/"@ + owner + "/"@ + repo + ".git"@;
    let given = url.host->Some_0;
    let text = git_url_of(forge);
    assert(text =~= "https://"@ + host + path);
    assert(text.skip(8) =~= given + url.path);
    assert(text.skip(8) =~= host + path);
    assert(given + url.path =~= given.push('/') + url.path.skip(1));
    assert(host + path =~= host.push('/') + path.skip(1));
    assert(!host.contains('/'));
    separated_texts_come_apart(given, '/', url.path.skip(1));
    separated_texts_come_apart(host, '/', path.skip(1));
    assert(given == host);
    assert(url.path =~= seq!['/'] + url.path.skip(1));
    assert(path =~= seq!['/'] + path.skip(1));
    assert(url.path == path);
    clone_paths_name_their_repository(host, owner, repo, url);
    assert("github.com"@[3] != "gitlab.com"@[3]);
}

/// A URL names a public forge only over HTTPS, at the host of the forge, and with exactly an
/// owner and a repository in its path.
pub proof fn nothing_else_is_a_public_forge(url: UrlView, found: Option<Forge>)
    requires
        is_public(found, repository_in(url)),
    ensures
        found is Some ==> url.scheme == "https"@,
        found matches Some(Forge::GitHub { custom_url, .. }) ==> custom_url is None && url.host
            == Some("github.com"@),
        found matches Some(Forge::GitLab { custom_url, .. }) ==> custom_url is None && url.host
            == Some("gitlab.com"@),
{
}

/// The version may be chosen: it is in the index, is not yanked and fits.
pub open spec fn may_choose(entry: IndexVersion, requirement: Seq<char>) -> bool {
    !entry.yanked && requirement_accepts(requirement, entry.version@) == Some(true)
}

/// The newest version is one that may be chosen, and none that may be chosen is above it.
pub proof fn newest_is_newest(version: Seq<char>, entries: Seq<IndexVersion>, requirement: Seq<char>)
    requires
        is_newest(version, entries, requirement),
    ensures
        exists|k: int|
            0 <= k < entries.len() && may_choose(#[trigger] entries[k], requirement)
                && entries[k].version@ == version,
        forall|j: int|
            0 <= j < entries.len() && may_choose(#[trigger] entries[j], requirement)
                && entries[j].version@ != version ==> version_order(entries[j].version@, version)
                != Some(1i8) && version_order(entries[j].version@, version) is Some,
{
    let k = choose|k: int|
        #[trigger] highest_at(k, entries, requirement) && entries[k].version@ == version;
    assert(may_choose(entries[k], requirement));
    assert forall|j: int|
        0 <= j < entries.len() && may_choose(#[trigger] entries[j], requirement)
            && entries[j].version@ != version implies version_order(entries[j].version@, version)
        != Some(1i8) && version_order(entries[j].version@, version) is Some by {
        assert(crate::version::eligible(entries[j], requirement));
        assert(crate::version::not_above(entries[j].version@, entries[k].version@));
    }
}

proof fn some_entry_is_highest(entries: Seq<IndexVersion>, requirement: Seq<char>, n: int)
    requires
        0 <= n <= entries.len(),
    ensures
        highest_eligible(entries, requirement, n) matches Some(k) ==> 0 <= k < n && may_choose(
            entries[k],
            requirement,
        ),
        highest_eligible(entries, requirement, n) is None ==> forall|j: int|
            0 <= j < n ==> !may_choose(#[trigger] entries[j], requirement),
    decreases n,
{
    if n > 0 {
        some_entry_is_highest(entries, requirement, n - 1);
    }
}

/// A registry crate resolves exactly where the index has a version that may be chosen. It is
/// the newest of them, under the name that was asked for, from the registry that was asked
/// for. Without a requirement any version fits.
pub proof fn registry_crates_are_what_was_asked_for(
    resolver: DefaultCrateResolver,
    spec: CrateSpec,
    entries: Vec<IndexVersion>,
    r: Result<ResolvedCrate, Error>,
    requirement: Seq<char>,
)
    requires
        spec is CratesIo || spec is Registry,
        resolver.resolution(r, spec, Findings::Registry(Some(entries))),
        spec matches CrateSpec::CratesIo { version, .. } ==> requirement == (match version {
            Some(v) => v@,
            None => "*"@,
        }),
        spec matches CrateSpec::Registry { version, .. } ==> requirement == (match version {
            Some(v) => v@,
            None => "*"@,
        }),
    ensures
        r is Ok <==> exists|j: int|
            0 <= j < entries@.len() && may_choose(#[trigger] entries@[j], requirement),
        r matches Ok(krate) ==> is_newest(krate.version@, entries@, requirement),
        r matches Ok(krate) ==> match spec {
            CrateSpec::CratesIo { name, .. } => krate.name@ == name@
                && krate.source is CratesIo,
            CrateSpec::Registry { name, source, .. } => krate.name@ == name@ && krate.source
                == (ResolvedSource::Registry { source }),
            _ => true,
        },
        r matches Err(e) ==> (e matches Error::NoMatchingVersion { name, requirement: q } && q@
            == requirement && (match spec {
            CrateSpec::CratesIo { name: n, .. } => n@ == name@,
            CrateSpec::Registry { name: n, .. } => n@ == name@,
            _ => true,
        })),
{
    some_entry_is_highest(entries@, requirement, entries@.len() as int);
    if let Some(k) = highest_eligible(entries@, requirement, entries@.len() as int) {
        assert(may_choose(entries@[k], requirement));
    }
}

/// A crate that the registry does not have is not found, and offline it may only not be
/// cached.
pub proof fn unknown_crates_are_errors(
    resolver: DefaultCrateResolver,
    spec: CrateSpec,
    r: Result<ResolvedCrate, Error>,
)
    requires
        spec is CratesIo || spec is Registry,
        resolver.resolution(r, spec, Findings::Registry(None)),
    ensures
        resolver.config.offline ==> (r matches Err(Error::OfflineMode { name, .. }) && (match spec {
            CrateSpec::CratesIo { name: n, .. } => n@ == name@,
            CrateSpec::Registry { name: n, .. } => n@ == name@,
            _ => true,
        })),
        !resolver.config.offline ==> (r matches Err(Error::CrateNotFoundInRegistry { name }) && (
        match spec {
            CrateSpec::CratesIo { name: n, .. } => n@ == name@,
            CrateSpec::Registry { name: n, .. } => n@ == name@,
            _ => true,
        })),
{
}

/// A package is one of those there.
pub open spec fn is_package_of(packages: Seq<Package>, name: Seq<char>) -> bool {
    exists|i: int| 0 <= i < packages.len() && (#[trigger] packages[i]).name@ == name
}

/// The first package of that name has that version.
pub open spec fn is_release_of(packages: Seq<Package>, name: Seq<char>, version: Seq<char>) -> bool {
    exists|i: int|
        {
            &&& 0 <= i < packages.len()
            &&& (#[trigger] packages[i]).name@ == name
            &&& packages[i].version@ == version
            &&& forall|j: int| 0 <= j < i ==> (#[trigger] packages[j]).name@ != name
        }
}

proof fn packages_are_found(packages: Seq<Package>, name: Seq<char>)
    ensures
        package_at(packages, name) is Some <==> is_package_of(packages, name),
        package_at(packages, name) matches Some(i) ==> 0 <= i < packages.len() && packages[i].name@
            == name && forall|j: int| 0 <= j < i ==> (#[trigger] packages[j]).name@ != name,
    decreases packages.len(),
{
    if packages.len() > 0 {
        let before = packages.drop_last();
        packages_are_found(before, name);
        assert forall|j: int| 0 <= j < before.len() implies before[j] == #[trigger] packages[j] by {}
        if is_package_of(packages, name) && !is_package_of(before, name) {
            let i = choose|i: int| 0 <= i < packages.len() && (#[trigger] packages[i]).name@ == name;
            if i < before.len() {
                assert(before[i].name@ == name);
            }
        }
        if is_package_of(before, name) {
            let i = choose|i: int| 0 <= i < before.len() && (#[trigger] before[i]).name@ == name;
            assert(packages[i].name@ == name);
        }
    }
}

/// The first package of a name is found where there is one of that name.
pub proof fn first_packages_are_found(packages: Seq<Package>, name: Seq<char>)
    ensures
        package_at(packages, name) is Some <==> is_package_of(packages, name),
        package_at(packages, name) matches Some(i) ==> 0 <= i < packages.len() && packages[i].name@
            == name && forall|j: int| 0 <= j < i ==> (#[trigger] packages[j]).name@ != name,
{
    packages_are_found(packages, name);
}

/// A crate in a repository or directory resolves exactly where it is there: under its name,
/// or as the only one, and with a version that fits.
pub proof fn found_packages_are_what_was_asked_for(
    r: Result<ResolvedCrate, Error>,
    packages: Seq<Package>,
    name: Option<String>,
    version: Option<String>,
    source: ResolvedSource,
)
    requires
        package_resolution(r, packages, name, version, source),
        packages.len() <= usize::MAX,
    ensures
        r matches Ok(krate) ==> {
            &&& krate.source == source
            &&& is_release_of(packages, krate.name@, krate.version@)
            &&& name matches Some(n) ==> krate.name@ == n@
            &&& name is None ==> packages.len() == 1 && krate.name@ == packages[0].name@
            &&& version matches Some(v) ==> requirement_accepts(v@, krate.version@) == Some(true)
        },
        r matches Err(e) ==> match e {
            Error::PackageNotFoundInWorkspace { name: n, available } => name is Some && n@
                == name->Some_0@ && !is_package_of(packages, n@) && available@.len()
                == packages.len() && forall|i: int|
                0 <= i < packages.len() ==> (#[trigger] available@[i])@ == packages[i].name@,
            Error::AmbiguousPackageName { count } => name is None && packages.len() != 1 && count
                == packages.len(),
            Error::VersionMismatch { requirement, found } => version is Some && requirement@
                == version->Some_0@ && requirement_accepts(requirement@, found@) != Some(true) && (
            match name {
                Some(n) => is_release_of(packages, n@, found@),
                None => packages.len() == 1 && found@ == packages[0].version@,
            }),
            _ => false,
        },
{
    if name is Some {
        packages_are_found(packages, name->Some_0@);
    }
    match r {
        Ok(krate) => {
            let i = choose|i: usize|
                {
                    &&& #[trigger] package_selection(Ok(i), packages, name)
                    &&& version_fits(version, packages[i as int].version@)
                    &&& krate.name == packages[i as int].name
                    &&& krate.version == packages[i as int].version
                    &&& krate.source == source
                };
            assert(packages[i as int].name@ == krate.name@);
            assert(is_release_of(packages, krate.name@, krate.version@));
        },
        Err(e) => {
            if let Error::VersionMismatch { requirement, found } = e {
                let i = choose|i: usize|
                    {
                        &&& #[trigger] package_selection(Ok(i), packages, name)
                        &&& !version_fits(version, packages[i as int].version@)
                        &&& e matches Error::VersionMismatch { requirement, found } && Some(
                            requirement,
                        ) == version && found@ == packages[i as int].version@
                    };
                assert(packages[i as int].version@ == found@);
            }
            if let Error::PackageNotFoundInWorkspace { name: n, available } = e {
                let listed = crate::text::views(available@);
                assert(listed == crate::builder::package_names(packages));
                assert forall|i: int| 0 <= i < packages.len() implies (#[trigger] available@[i])@
                    == packages[i].name@ by {
                    assert(listed[i] == available@[i]@);
                }
            }
        },
    }
}

/// Where a crate was found is remembered: the repository and commit, the forge and commit, or
/// the directory that the specification and the findings name. A crate of a forge is resolved
/// like one of a repository with the same contents.
pub proof fn findings_are_remembered(
    resolver: DefaultCrateResolver,
    spec: CrateSpec,
    findings: Findings,
    r: Result<ResolvedCrate, Error>,
)
    requires
        resolver.resolution(r, spec, findings),
    ensures
        spec matches CrateSpec::Git { repo, name, version, .. } ==> (findings matches Findings::Git {
            commit,
            packages,
        } && package_resolution(
            r,
            packages@,
            name,
            version,
            ResolvedSource::Git { repo, commit },
        )),
        spec matches CrateSpec::Forge { forge, name, version, .. } ==> (
        findings matches Findings::Git { commit, packages } && package_resolution(
            r,
            packages@,
            name,
            version,
            ResolvedSource::Forge { forge, commit },
        )),
        spec matches CrateSpec::LocalDir { path, name, version } ==> (
        findings matches Findings::LocalDir { packages } && package_resolution(
            r,
            packages@,
            name,
            version,
            ResolvedSource::LocalDir { path },
        )),
{
}

/// A local directory is resolved every time, and never stored. Everything else is taken from
/// the cache while it is younger than the configured time, and stored where it was resolved.
pub proof fn only_directories_are_resolved_every_time(
    resolver: CachingResolver,
    spec: CrateSpec,
    entry: Option<CacheEntry<ResolvedCrate>>,
    now: i128,
    outcome: Result<ResolvedCrate, Error>,
    r: (Result<ResolvedCrate, Error>, bool),
)
    requires
        resolver.gives(r, spec, entry, outcome),
    ensures
        resolver.uses_entry(spec, entry, now) <==> !(spec is LocalDir) && entry is Some && now
            - entry->Some_0.cached_at < resolver.cache.config.resolve_cache_timeout
            && resolver.cache.config.resolve_cache_timeout > 0,
        spec is LocalDir ==> r.0 == outcome && !r.1,
        !(spec is LocalDir) ==> r.1 == outcome is Ok,
        outcome is Ok ==> r.0 == outcome,
        !(spec is LocalDir) && entry is Some ==> (match outcome {
            Ok(_) => true,
            Err(e) => if e is Registry || e is Git || e is Io {
                r.0 == Ok::<_, Error>(entry->Some_0.value)
            } else {
                r.0 == outcome
            },
        }),
        entry is None ==> r.0 == outcome,
{
}

/// Without a requirement every version will do. With one exactly those will that satisfy it,
/// and the error names both.
pub proof fn versions_have_to_satisfy_the_requirement(
    version: &Option<String>,
    found: &str,
    r: Result<(), Error>,
)
    requires
        call_ensures(crate::resolver::check_version, (version, found), r),
    ensures
        *version is None ==> r is Ok && version_fits(*version, found@),
        *version matches Some(requirement) ==> {
            &&& r is Ok <==> requirement_accepts(requirement@, found@) == Some(true)
            &&& version_fits(*version, found@) <==> requirement_accepts(requirement@, found@)
                == Some(true)
            &&& r matches Err(e) ==> (e matches Error::VersionMismatch { requirement: q, found: f }
                && q@ == requirement@ && f@ == found@)
        },
{
}

}
