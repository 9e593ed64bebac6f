//! What is built of a crate: which target, of which package, and where.
use vstd::prelude::*;
use vstd::string::*;

use crate::bin_resolver::{source_hash_of, DefaultBinaryResolver};
use crate::digest::{sha256_hex, sha256_of};
use crate::downloader::DownloadedCrate;
use crate::error::{Error, TargetClass};
use crate::paths::{JoinedPath, PathView};
use crate::resolver::{ResolvedCrate, ResolvedSource};
use crate::text::{
    clone_all, clone_opt, decimal, decimal_of, holds, join, joined, opt_view, same, views,
};
use vstd::utf8::encode_utf8;

verus! {

/// Which executable of a crate to build.
#[derive(Debug, PartialEq, Eq, Hash)]
pub enum BuildTarget {
    /// The package's default binary, or its only one.
    DefaultBin,
    /// The binary of this name.
    Bin(String),
    /// The example of this name.
    Example(String),
}

impl Clone for BuildTarget {
    fn clone(&self) -> (r: Self)
        ensures
            r == *self,
    {
        match self {
            BuildTarget::DefaultBin => BuildTarget::DefaultBin,
            BuildTarget::Bin(name) => BuildTarget::Bin(name.clone()),
            BuildTarget::Example(name) => BuildTarget::Example(name.clone()),
        }
    }
}

impl Default for BuildTarget {
    fn default() -> (r: Self)
        ensures
            r is DefaultBin,
    {
        BuildTarget::DefaultBin
    }
}

/// How a crate is built.
#[derive(Clone, Debug, PartialEq, Eq, Hash)]
pub struct BuildOptions {
    /// Features to activate.
    pub features: Vec<String>,
    /// Activate all features.
    pub all_features: bool,
    /// Do not activate the default features.
    pub no_default_features: bool,
    /// Build profile; the release profile where there is none.
    pub profile: Option<String>,
    /// Target triple to build for.
    pub target: Option<String>,
    /// Require that `Cargo.lock` stays unchanged.
    pub locked: bool,
    /// Stay off the network.
    pub offline: bool,
    /// Number of parallel jobs; cargo decides where there is none.
    pub jobs: Option<usize>,
    /// Ignore the `rust-version` of packages.
    pub ignore_rust_version: bool,
    /// Which executable to build.
    pub build_target: BuildTarget,
    /// Rust toolchain to build with.
    pub toolchain: Option<String>,
}

impl Default for BuildOptions {
    fn default() -> (r: Self)
        ensures
            r.features@.len() == 0,
            !r.all_features,
            !r.no_default_features,
            r.profile is None,
            r.target is None,
            !r.locked,
            !r.offline,
            r.jobs is None,
            !r.ignore_rust_version,
            r.build_target is DefaultBin,
            r.toolchain is None,
    {
        BuildOptions {
            features: Vec::new(),
            all_features: false,
            no_default_features: false,
            profile: None,
            target: None,
            locked: false,
            offline: false,
            jobs: None,
            ignore_rust_version: false,
            build_target: BuildTarget::DefaultBin,
            toolchain: None,
        }
    }
}

impl BuildOptions {
    /// The options differ from `other` at most in the target.
    pub open spec fn same_but_target(self, other: BuildOptions) -> bool {
        &&& views(self.features@) == views(other.features@)
        &&& self.all_features == other.all_features
        &&& self.no_default_features == other.no_default_features
        &&& self.profile == other.profile
        &&& self.target == other.target
        &&& self.locked == other.locked
        &&& self.offline == other.offline
        &&& self.jobs == other.jobs
        &&& self.ignore_rust_version == other.ignore_rust_version
        &&& self.toolchain == other.toolchain
    }

    /// The options say the same.
    pub open spec fn same_as(self, other: BuildOptions) -> bool {
        self.same_but_target(other) && self.build_target == other.build_target
    }

    /// A copy of the options.
    pub fn copied(&self) -> (r: Self)
        ensures
            r.same_as(*self),
    {
        self.with_target(self.build_target.clone())
    }

    /// The same options for another target.
    pub fn with_target(&self, build_target: BuildTarget) -> (r: Self)
        ensures
            r.same_but_target(*self),
            r.build_target == build_target,
    {
        BuildOptions {
            features: clone_all(&self.features),
            all_features: self.all_features,
            no_default_features: self.no_default_features,
            profile: clone_opt(&self.profile),
            target: clone_opt(&self.target),
            locked: self.locked,
            offline: self.offline,
            jobs: self.jobs,
            ignore_rust_version: self.ignore_rust_version,
            build_target,
            toolchain: clone_opt(&self.toolchain),
        }
    }
}

/// The kinds of targets that matter here.
#[derive(Clone, Copy, Debug, PartialEq, Eq, Structural)]
pub enum TargetKind {
    Bin,
    Example,
    Other,
}

/// A target of a package.
#[derive(Clone, Debug, PartialEq, Eq)]
pub struct Target {
    pub name: String,
    pub kinds: Vec<TargetKind>,
}

/// A package, as cargo describes it.
#[derive(Clone, Debug, PartialEq, Eq)]
pub struct Package {
    /// The identifier that cargo gives the package.
    pub id: String,
    pub name: String,
    pub version: String,
    pub targets: Vec<Target>,
    pub default_run: Option<String>,
}

/// A crate or workspace, as cargo describes it.
#[derive(Clone, Debug, PartialEq, Eq)]
pub struct Metadata {
    pub packages: Vec<Package>,
    /// The identifiers of the packages that belong to the workspace.
    pub workspace_members: Vec<String>,
}

/// The names of the packages.
pub open spec fn package_names(packages: Seq<Package>) -> Seq<Seq<char>> {
    packages.map_values(|p: Package| p.name@)
}

/// The position of the first package of that name.
pub open spec fn package_at(packages: Seq<Package>, name: Seq<char>) -> Option<int>
    decreases packages.len(),
{
    if packages.len() == 0 {
        None
    } else {
        match package_at(packages.drop_last(), name) {
            Some(i) => Some(i),
            None => if packages.last().name@ == name {
                Some(packages.len() - 1)
            } else {
                None
            },
        }
    }
}

/// The names of the targets of a kind, in their order.
pub open spec fn targets_of_kind(targets: Seq<Target>, kind: TargetKind) -> Seq<Seq<char>>
    decreases targets.len(),
{
    if targets.len() == 0 {
        Seq::empty()
    } else {
        let before = targets_of_kind(targets.drop_last(), kind);
        if targets.last().kinds@.contains(kind) {
            before.push(targets.last().name@)
        } else {
            before
        }
    }
}

/// The position of the first package of that name.
pub fn find_package(packages: &Vec<Package>, name: &str) -> (r: Option<usize>)
    ensures
        match r {
            Some(i) => i < packages@.len() && package_at(packages@, name@) == Some(i as int)
                && packages@[i as int].name@ == name@,
            None => package_at(packages@, name@) is None,
        },
{
    let mut r: Option<usize> = None;
    let mut i: usize = 0;
    while i < packages.len()
        invariant
            i <= packages.len(),
            match r {
                Some(k) => k < i && package_at(packages@.take(i as int), name@) == Some(k as int)
                    && packages@[k as int].name@ == name@,
                None => package_at(packages@.take(i as int), name@) is None,
            },
        decreases packages.len() - i,
    {
        assert(packages@.take(i + 1).drop_last() =~= packages@.take(i as int));
        if r.is_none() && same(packages[i].name.as_str(), name) {
            r = Some(i);
        }
        i = i + 1;
    }
    assert(packages@.take(i as int) =~= packages@);
    r
}

/// The names of the packages.
pub fn names_of(packages: &Vec<Package>) -> (r: Vec<String>)
    ensures
        views(r@) == package_names(packages@),
{
    let mut r: Vec<String> = Vec::new();
    let mut i: usize = 0;
    while i < packages.len()
        invariant
            i <= packages.len(),
            views(r@) =~= package_names(packages@).take(i as int),
        decreases packages.len() - i,
    {
        let ghost before = r@;
        let name = packages[i].name.clone();
        r.push(name);
        assert(views(r@) =~= views(before).push(name@));
        i = i + 1;
    }
    r
}

fn has_kind(target: &Target, kind: TargetKind) -> (r: bool)
    ensures
        r == target.kinds@.contains(kind),
{
    let mut i: usize = 0;
    while i < target.kinds.len()
        invariant
            i <= target.kinds.len(),
            forall|k: int| 0 <= k < i ==> target.kinds@[k] != kind,
        decreases target.kinds.len() - i,
    {
        if target.kinds[i] == kind {
            return true;
        }
        i = i + 1;
    }
    false
}

/// The names of the targets of a kind, in their order.
pub fn target_names(targets: &Vec<Target>, kind: TargetKind) -> (r: Vec<String>)
    ensures
        views(r@) == targets_of_kind(targets@, kind),
{
    let mut r: Vec<String> = Vec::new();
    let mut i: usize = 0;
    assert(views(r@) =~= targets_of_kind(targets@.take(0), kind));
    while i < targets.len()
        invariant
            i <= targets.len(),
            views(r@) == targets_of_kind(targets@.take(i as int), kind),
        decreases targets.len() - i,
    {
        assert(targets@.take(i + 1).drop_last() =~= targets@.take(i as int));
        if has_kind(&targets[i], kind) {
            let ghost before = r@;
            let name = targets[i].name.clone();
            r.push(name);
            assert(views(r@) =~= views(before).push(name@));
        }
        i = i + 1;
    }
    assert(targets@.take(i as int) =~= targets@);
    r
}

/// What a target without a name stands for in a package: its default binary, if it has one.
pub open spec fn effective_target(wanted: BuildTarget, default_run: Option<String>) -> BuildTarget {
    match (wanted, default_run) {
        (BuildTarget::DefaultBin, Some(name)) => BuildTarget::Bin(name),
        _ => wanted,
    }
}

/// What the target resolves to in a package.
pub open spec fn resolution_in(
    r: Result<BuildTarget, Error>,
    krate: Seq<char>,
    wanted: BuildTarget,
    package: Package,
) -> bool {
    let bins = targets_of_kind(package.targets@, TargetKind::Bin);
    let examples = targets_of_kind(package.targets@, TargetKind::Example);
    match effective_target(wanted, package.default_run) {
        BuildTarget::DefaultBin => if bins.len() == 0 {
            r matches Err(Error::NoPackageBinaries { krate: k }) && k@ == krate
        } else if bins.len() == 1 {
            r matches Ok(BuildTarget::Bin(name)) && name@ == bins[0]
        } else {
            r matches Err(Error::AmbiguousBinaryTarget { package: p, available }) && p@
                == package.name@ && views(available@) == bins
        },
        BuildTarget::Bin(name) => if bins.contains(name@) {
            r == Ok::<BuildTarget, Error>(BuildTarget::Bin(name))
        } else {
            r matches Err(Error::RunnableTargetNotFound { kind, package: p, target, available })
                && kind == TargetClass::Binary && p@ == package.name@ && target == name && views(
                available@,
            ) == bins
        },
        BuildTarget::Example(name) => if examples.contains(name@) {
            r == Ok::<BuildTarget, Error>(BuildTarget::Example(name))
        } else {
            r matches Err(Error::RunnableTargetNotFound { kind, package: p, target, available })
                && kind == TargetClass::Example && p@ == package.name@ && target == name && views(
                available@,
            ) == bins
        },
    }
}

/// What the target resolves to in a crate or workspace.
pub open spec fn target_resolution(
    r: Result<BuildTarget, Error>,
    krate: Seq<char>,
    wanted: BuildTarget,
    metadata: Metadata,
) -> bool {
    match package_at(metadata.packages@, krate) {
        Some(i) => resolution_in(r, krate, wanted, metadata.packages@[i]),
        None => r matches Err(Error::PackageNotFoundInWorkspace { name, available }) && name@
            == krate && views(available@) == package_names(metadata.packages@),
    }
}

/// The exact target to build: the one that was asked for, where the package has it, and
/// otherwise the package's default binary or its only one.
pub fn resolve_binary_target(
    krate: &DownloadedCrate,
    options: &BuildOptions,
    metadata: &Metadata,
) -> (r: Result<BuildTarget, Error>)
    ensures
        target_resolution(r, krate.resolved.name@, options.build_target, *metadata),
        r matches Ok(target) ==> !(target is DefaultBin),
{
    let name = krate.resolved.name.as_str();
    let package = match find_package(&metadata.packages, name) {
        Some(i) => &metadata.packages[i],
        None => {
            return Err(
                Error::PackageNotFoundInWorkspace {
                    name: name.to_owned(),
                    available: names_of(&metadata.packages),
                },
            );
        },
    };
    let mut bins = target_names(&package.targets, TargetKind::Bin);
    let examples = target_names(&package.targets, TargetKind::Example);
    let build_target = match (&options.build_target, &package.default_run) {
        (BuildTarget::DefaultBin, Some(default_run)) => BuildTarget::Bin(default_run.clone()),
        _ => options.build_target.clone(),
    };
    assert(views(bins@).len() == bins@.len());
    match build_target {
        BuildTarget::DefaultBin => if bins.len() == 0 {
            Err(Error::NoPackageBinaries { krate: name.to_owned() })
        } else if bins.len() == 1 {
            assert(views(bins@)[0] == bins@[0]@);
            Ok(BuildTarget::Bin(bins.remove(0)))
        } else {
            Err(Error::AmbiguousBinaryTarget { package: package.name.clone(), available: bins })
        },
        BuildTarget::Bin(target) => if holds(&bins, target.as_str()) {
            Ok(BuildTarget::Bin(target))
        } else {
            Err(
                Error::RunnableTargetNotFound {
                    kind: TargetClass::Binary,
                    package: package.name.clone(),
                    target,
                    available: bins,
                },
            )
        },
        BuildTarget::Example(target) => if holds(&examples, target.as_str()) {
            Ok(BuildTarget::Example(target))
        } else {
            Err(
                Error::RunnableTargetNotFound {
                    kind: TargetClass::Example,
                    package: package.name.clone(),
                    target,
                    available: bins,
                },
            )
        },
    }
}

/// The names of the packages that belong to the workspace, in the order of the packages.
pub open spec fn member_names(packages: Seq<Package>, members: Seq<Seq<char>>) -> Seq<Seq<char>>
    decreases packages.len(),
{
    if packages.len() == 0 {
        Seq::empty()
    } else {
        let before = member_names(packages.drop_last(), members);
        if members.contains(packages.last().id@) {
            before.push(packages.last().name@)
        } else {
            before
        }
    }
}

/// The names of the packages that belong to the workspace, in the order of the packages.
pub fn workspace_packages(metadata: &Metadata) -> (r: Vec<String>)
    ensures
        views(r@) == member_names(metadata.packages@, views(metadata.workspace_members@)),
{
    let packages = &metadata.packages;
    let ghost members = views(metadata.workspace_members@);
    let mut r: Vec<String> = Vec::new();
    let mut i: usize = 0;
    assert(views(r@) =~= member_names(packages@.take(0), members));
    while i < packages.len()
        invariant
            i <= packages.len(),
            packages == &metadata.packages,
            members == views(metadata.workspace_members@),
            views(r@) == member_names(packages@.take(i as int), members),
        decreases packages.len() - i,
    {
        assert(packages@.take(i + 1).drop_last() =~= packages@.take(i as int));
        if holds(&metadata.workspace_members, packages[i].id.as_str()) {
            let ghost before = r@;
            let name = packages[i].name.clone();
            r.push(name);
            assert(views(r@) =~= views(before).push(name@));
        }
        i = i + 1;
    }
    assert(packages@.take(i as int) =~= packages@);
    r
}

/// The package to name to cargo.
pub open spec fn package_argument(
    r: Result<Option<String>, Error>,
    metadata: Metadata,
    crate_name: Seq<char>,
) -> bool {
    let members = member_names(metadata.packages@, views(metadata.workspace_members@));
    if members.len() <= 1 {
        r == Ok::<Option<String>, Error>(None)
    } else if members.contains(crate_name) {
        r matches Ok(Some(name)) && name@ == crate_name
    } else {
        r matches Err(Error::PackageNotFoundInWorkspace { name, available }) && name@ == crate_name
            && views(available@) == members
    }
}

/// The package to name to cargo: none where the workspace has at most one member, and
/// otherwise the crate, which has to be a member.
pub fn resolve_package_name(metadata: &Metadata, crate_name: &str) -> (r: Result<
    Option<String>,
    Error,
>)
    ensures
        package_argument(r, *metadata, crate_name@),
{
    let members = workspace_packages(metadata);
    assert(views(members@).len() == members@.len());
    if members.len() <= 1 {
        Ok(None)
    } else if holds(&members, crate_name) {
        Ok(Some(crate_name.to_owned()))
    } else {
        Err(
            Error::PackageNotFoundInWorkspace { name: crate_name.to_owned(), available: members },
        )
    }
}

/// Where a crate is built.
#[derive(Clone, Debug, PartialEq, Eq)]
pub enum BuildDir {
    /// Where its sources are.
    InPlace { path: JoinedPath },
    /// In a fresh directory, whose name begins with `prefix`, with a copy of the sources.
    Temporary { parent: JoinedPath, prefix: String, source: JoinedPath },
}

/// The crate is built there: a local one in place, every other in a fresh directory.
pub open spec fn builds_in(dir: BuildDir, krate: DownloadedCrate, build_dir: PathView) -> bool {
    if krate.resolved.source is LocalDir {
        dir matches BuildDir::InPlace { path } && path@ == krate.crate_path@
    } else {
        dir matches BuildDir::Temporary { parent, prefix, source } && parent@ == build_dir
            && prefix@ == "cgx-build-"@ + krate.resolved.name@ && source@ == krate.crate_path@
    }
}

/// Where a crate is built: a local one in place, every other in a fresh directory, so that
/// what is cached stays as it was downloaded.
pub fn prepare_build_dir(krate: &DownloadedCrate, build_dir: &JoinedPath) -> (r: BuildDir)
    ensures
        builds_in(r, *krate, build_dir@),
{
    match krate.resolved.source {
        ResolvedSource::LocalDir { .. } => BuildDir::InPlace { path: krate.crate_path.copied() },
        _ => BuildDir::Temporary {
            parent: build_dir.copied(),
            prefix: "cgx-build-".to_owned().concat(krate.resolved.name.as_str()),
            source: krate.crate_path.copied(),
        },
    }
}

/// Where the binary of a build is kept: apart from those of other crates, other sources and
/// other options.
pub open spec fn built_dir_of(
    bin_dir: PathView,
    krate: ResolvedCrate,
    options_text: Seq<char>,
) -> PathView {
    bin_dir.join(krate.name@ + "-"@ + krate.version@).join(source_hash_of(krate.source)).join(
        sha256_of(encode_utf8(options_text)),
    )
}

/// Where the binary of a build is kept. `options_text` stands for the exact options.
pub fn built_dir(bin_dir: &JoinedPath, krate: &ResolvedCrate, options_text: &str) -> (r: JoinedPath)
    ensures
        r@ == built_dir_of(bin_dir@, *krate, options_text@),
{
    bin_dir.copied().join(
        krate.name.clone().concat("-").concat(krate.version.as_str()).as_str(),
    ).join(DefaultBinaryResolver::compute_source_hash(&krate.source).as_str()).join(
        sha256_hex(options_text.as_bytes()).as_str(),
    )
}

/// Two builds share a place exactly where the crates agree in name and version, as they are
/// written together, and in the digest of their sources, and the options in their digest.
pub proof fn builds_are_kept_apart(
    bin_dir: PathView,
    a: ResolvedCrate,
    b: ResolvedCrate,
    options_a: Seq<char>,
    options_b: Seq<char>,
)
    ensures
        built_dir_of(bin_dir, a, options_a) == built_dir_of(bin_dir, b, options_b) <==> {
            &&& a.name@ + "-"@ + a.version@ == b.name@ + "-"@ + b.version@
            &&& source_hash_of(a.source) == source_hash_of(b.source)
            &&& sha256_of(encode_utf8(options_a)) == sha256_of(encode_utf8(options_b))
        },
{
    let n = bin_dir.segments.len() as int;
    let p = built_dir_of(bin_dir, a, options_a).segments;
    let q = built_dir_of(bin_dir, b, options_b).segments;
    if p == q {
        assert(p[n] == q[n]);
        assert(p[n + 1] == q[n + 1]);
        assert(p[n + 2] == q[n + 2]);
    }
}

/// An option with its value, where it is set.
pub open spec fn valued(option: Seq<char>, value: Option<Seq<char>>) -> Seq<Seq<char>> {
    match value {
        Some(v) => seq![option, v],
        None => Seq::empty(),
    }
}

/// An option without a value, where it is set.
pub open spec fn switched(option: Seq<char>, set: bool) -> Seq<Seq<char>> {
    if set {
        seq![option]
    } else {
        Seq::empty()
    }
}

/// How rustup is told the toolchain.
pub open spec fn toolchain_args(toolchain: Option<String>) -> Seq<Seq<char>> {
    match toolchain {
        Some(name) => seq!["+"@ + name@],
        None => Seq::empty(),
    }
}

/// How cargo is told the profile: without one the release profile is meant.
pub open spec fn profile_args(profile: Option<String>) -> Seq<Seq<char>> {
    match profile {
        Some(name) => seq!["--profile"@, name@],
        None => seq!["--release"@],
    }
}

/// How cargo is told the target.
pub open spec fn target_args(build_target: BuildTarget) -> Seq<Seq<char>> {
    match build_target {
        BuildTarget::Bin(name) => seq!["--bin"@, name@],
        BuildTarget::Example(name) => seq!["--example"@, name@],
        BuildTarget::DefaultBin => Seq::empty(),
    }
}

/// How cargo is told the features.
pub open spec fn feature_args(features: Seq<Seq<char>>) -> Seq<Seq<char>> {
    if features.len() > 0 {
        seq!["--features"@, joined(features)]
    } else {
        Seq::empty()
    }
}

/// The number of jobs in digits.
pub open spec fn jobs_text(jobs: Option<usize>) -> Option<Seq<char>> {
    match jobs {
        Some(n) => Some(decimal_of(n as nat)),
        None => None,
    }
}

/// What cargo is called with. The toolchain comes first.
pub open spec fn cargo_args_of(options: BuildOptions, package: Option<Seq<char>>) -> Seq<Seq<char>> {
    toolchain_args(options.toolchain) + seq![
        "build"@,
        "--message-format=json-render-diagnostics"@,
    ] + profile_args(options.profile) + valued("--package"@, package) + target_args(
        options.build_target,
    ) + feature_args(views(options.features@)) + switched(
        "--all-features"@,
        options.all_features,
    ) + switched("--no-default-features"@, options.no_default_features) + switched(
        "--locked"@,
        options.locked,
    ) + switched("--offline"@, options.offline) + switched(
        "--ignore-rust-version"@,
        options.ignore_rust_version,
    ) + valued("--target"@, opt_view(options.target)) + valued("--jobs"@, jobs_text(options.jobs))
}

fn push(args: &mut Vec<String>, arg: String)
    ensures
        views(final(args)@) == views(old(args)@).push(arg@),
{
    let ghost before = views(args@);
    args.push(arg);
    assert(views(args@) =~= before.push(arg@));
}

fn push_valued(args: &mut Vec<String>, option: &str, value: Option<String>)
    ensures
        views(final(args)@) == views(old(args)@) + valued(option@, opt_view(value)),
{
    let ghost before = views(args@);
    if let Some(v) = value {
        push(args, option.to_owned());
        push(args, v);
    }
    assert(views(args@) =~= before + valued(option@, opt_view(value)));
}

fn push_switched(args: &mut Vec<String>, option: &str, set: bool)
    ensures
        views(final(args)@) == views(old(args)@) + switched(option@, set),
{
    let ghost before = views(args@);
    if set {
        push(args, option.to_owned());
    }
    assert(views(args@) =~= before + switched(option@, set));
}

/// What cargo is called with to build a target of a package.
pub fn cargo_args(options: &BuildOptions, package: &Option<String>) -> (r: Vec<String>)
    ensures
        views(r@) == cargo_args_of(*options, opt_view(*package)),
{
    let mut r: Vec<String> = Vec::new();
    if let Some(name) = &options.toolchain {
        push(&mut r, "+".to_owned().concat(name.as_str()));
    }
    assert(views(r@) =~= toolchain_args(options.toolchain));
    push(&mut r, "build".to_owned());
    push(&mut r, "--message-format=json-render-diagnostics".to_owned());
    let ghost start = toolchain_args(options.toolchain) + seq![
        "build"@,
        "--message-format=json-render-diagnostics"@,
    ];
    assert(views(r@) =~= start);
    match &options.profile {
        Some(name) => push_valued(&mut r, "--profile", Some(name.clone())),
        None => push(&mut r, "--release".to_owned()),
    }
    assert(views(r@) =~= start + profile_args(options.profile));
    push_valued(&mut r, "--package", clone_opt(package));
    let ghost named = views(r@);
    match &options.build_target {
        BuildTarget::Bin(name) => push_valued(&mut r, "--bin", Some(name.clone())),
        BuildTarget::Example(name) => push_valued(&mut r, "--example", Some(name.clone())),
        BuildTarget::DefaultBin => {},
    }
    assert(views(r@) =~= named + target_args(options.build_target));
    let ghost targeted = views(r@);
    if options.features.len() > 0 {
        push_valued(&mut r, "--features", Some(join(&options.features)));
    }
    assert(views(r@) =~= targeted + feature_args(views(options.features@)));
    push_switched(&mut r, "--all-features", options.all_features);
    push_switched(&mut r, "--no-default-features", options.no_default_features);
    push_switched(&mut r, "--locked", options.locked);
    push_switched(&mut r, "--offline", options.offline);
    push_switched(&mut r, "--ignore-rust-version", options.ignore_rust_version);
    push_valued(&mut r, "--target", clone_opt(&options.target));
    let jobs = match options.jobs {
        Some(n) => Some(decimal(n as u128)),
        None => None,
    };
    push_valued(&mut r, "--jobs", jobs);
    r
}

/// A build: its exact options, and whether its result may come from the cache.
#[derive(Clone, Debug, PartialEq, Eq)]
pub struct BuildPlan {
    pub options: BuildOptions,
    pub cached: bool,
}

/// The build of a crate: a target that was not named is settled, everything else stays, and
/// local crates are never taken from the cache.
pub open spec fn plans_build(
    r: Result<BuildPlan, Error>,
    krate: DownloadedCrate,
    options: BuildOptions,
    metadata: Metadata,
) -> bool {
    match r {
        Ok(plan) => {
            &&& plan.options.same_but_target(options)
            &&& plan.cached == !(krate.resolved.source is LocalDir)
            &&& if options.build_target is DefaultBin {
                target_resolution(
                    Ok(plan.options.build_target),
                    krate.resolved.name@,
                    options.build_target,
                    metadata,
                )
            } else {
                plan.options.build_target == options.build_target
            }
        },
        Err(e) => options.build_target is DefaultBin && target_resolution(
            Err(e),
            krate.resolved.name@,
            options.build_target,
            metadata,
        ),
    }
}

/// The build of a crate. A target that was not named is settled first, so that the cache
/// knows the actual one. Local crates are always built: their sources can change.
pub fn plan_build(krate: &DownloadedCrate, options: &BuildOptions, metadata: &Metadata) -> (r:
    Result<BuildPlan, Error>)
    ensures
        plans_build(r, *krate, *options, *metadata),
        r matches Ok(plan) ==> !(plan.options.build_target is DefaultBin),
{
    let build_target = match &options.build_target {
        BuildTarget::DefaultBin => match resolve_binary_target(krate, options, metadata) {
            Ok(target) => target,
            Err(e) => {
                return Err(e);
            },
        },
        BuildTarget::Bin(name) => BuildTarget::Bin(name.clone()),
        BuildTarget::Example(name) => BuildTarget::Example(name.clone()),
    };
    let cached = match krate.resolved.source {
        ResolvedSource::LocalDir { .. } => false,
        _ => true,
    };
    Ok(BuildPlan { options: options.with_target(build_target), cached })
}

/// The package has the target, and it is of the kind that was asked for.
pub open spec fn offers(package: Package, wanted: BuildTarget, target: BuildTarget) -> bool {
    match target {
        BuildTarget::DefaultBin => false,
        BuildTarget::Bin(name) => !(wanted is Example) && targets_of_kind(
            package.targets@,
            TargetKind::Bin,
        ).contains(name@),
        BuildTarget::Example(name) => wanted is Example && targets_of_kind(
            package.targets@,
            TargetKind::Example,
        ).contains(name@),
    }
}

/// A target that resolved is one that the package has, of the kind that was asked for.
pub proof fn resolved_targets_exist(
    krate: Seq<char>,
    wanted: BuildTarget,
    package: Package,
    target: BuildTarget,
)
    requires
        resolution_in(Ok(target), krate, wanted, package),
    ensures
        offers(package, wanted, target),
{
    let bins = targets_of_kind(package.targets@, TargetKind::Bin);
    if bins.len() == 1 {
        assert(bins.contains(bins[0]));
    }
}

/// Exactly one outcome fits: whether a target resolves, and to what, follows from the crate
/// alone.
pub proof fn target_resolution_is_decided(
    a: BuildTarget,
    b: BuildTarget,
    e: Error,
    krate: Seq<char>,
    wanted: BuildTarget,
    metadata: Metadata,
)
    requires
        target_resolution(Ok(a), krate, wanted, metadata),
    ensures
        !target_resolution(Err(e), krate, wanted, metadata),
        !(a is DefaultBin),
        target_resolution(Ok(b), krate, wanted, metadata) ==> match (a, b) {
            (BuildTarget::Bin(x), BuildTarget::Bin(y)) => x@ == y@,
            (BuildTarget::Example(x), BuildTarget::Example(y)) => x@ == y@,
            _ => false,
        },
{
}

}
