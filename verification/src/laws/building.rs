//! Building: cargo is told exactly what was asked for, and builds what the crate has.
use vstd::prelude::*;
use vstd::string::*;

use crate::bin_resolver::source_hash_of;
use crate::builder::{
    builds_in, built_dir_of, cargo_args_of, feature_args, jobs_text, member_names, package_argument,
    package_at, plans_build, profile_args, switched, target_args, target_resolution, targets_of_kind,
    toolchain_args, valued, BuildDir, BuildOptions, BuildPlan, BuildTarget, Metadata, Package, Target,
    TargetKind,
};
use crate::digest::sha256_of;
use crate::downloader::DownloadedCrate;
use crate::error::{Error, TargetClass};
use crate::laws::resolving::{first_packages_are_found, is_package_of};
use crate::paths::PathView;
use crate::resolver::{ResolvedCrate, ResolvedSource};
use crate::text::{decimal_of, joined, opt_view, views};
use vstd::utf8::encode_utf8;

verus! {

/// The arguments `more` are the arguments `less` with some put in at one place.
pub open spec fn has_inserted(
    more: Seq<Seq<char>>,
    less: Seq<Seq<char>>,
    inserted: Seq<Seq<char>>,
) -> bool {
    exists|i: int|
        0 <= i <= less.len() && more == less.take(i) + inserted + #[trigger] less.skip(i)
}

/// The arguments differ only in one place, where one has `a` and the other `b`.
pub open spec fn has_exchanged(
    one: Seq<Seq<char>>,
    a: Seq<Seq<char>>,
    other: Seq<Seq<char>>,
    b: Seq<Seq<char>>,
) -> bool {
    exists|before: Seq<Seq<char>>, after: Seq<Seq<char>>|
        one == before + a + after && other == #[trigger] (before + b + after)
}

/// At that place.
spec fn inserted_at(
    more: Seq<Seq<char>>,
    less: Seq<Seq<char>>,
    inserted: Seq<Seq<char>>,
    i: int,
) -> bool {
    0 <= i <= less.len() && more == less.take(i) + inserted + less.skip(i)
}

proof fn inserted_last(less: Seq<Seq<char>>, inserted: Seq<Seq<char>>)
    ensures
        inserted_at(less + inserted, less, inserted, less.len() as int),
        less + Seq::<Seq<char>>::empty() == less,
{
    let n = less.len() as int;
    assert(less.take(n) =~= less);
    assert(less.take(n) + inserted + less.skip(n) =~= less + inserted);
    assert(less + Seq::<Seq<char>>::empty() =~= less);
}

proof fn more_may_follow(
    more: Seq<Seq<char>>,
    less: Seq<Seq<char>>,
    inserted: Seq<Seq<char>>,
    i: int,
    x: Seq<Seq<char>>,
)
    requires
        inserted_at(more, less, inserted, i),
    ensures
        inserted_at(more + x, less + x, inserted, i),
{
    assert((less + x).take(i) =~= less.take(i));
    assert((less + x).skip(i) =~= less.skip(i) + x);
    assert(more + x =~= (less + x).take(i) + inserted + (less + x).skip(i));
}

proof fn exchange_may_go_on(
    before: Seq<Seq<char>>,
    a: Seq<Seq<char>>,
    b: Seq<Seq<char>>,
    after: Seq<Seq<char>>,
    x: Seq<Seq<char>>,
)
    ensures
        before + a + after + x == before + a + (after + x),
        before + b + after + x == before + b + (after + x),
{
    assert(before + a + after + x =~= before + a + (after + x));
    assert(before + b + after + x =~= before + b + (after + x));
}

/// Without any option cargo builds the release profile and says what it built.
pub proof fn plain_builds(o: BuildOptions)
    requires
        o.toolchain is None && o.profile is None && o.target is None && o.jobs is None,
        o.build_target is DefaultBin,
        o.features@.len() == 0,
        !o.all_features && !o.no_default_features,
        !o.locked && !o.offline && !o.ignore_rust_version,
    ensures
        cargo_args_of(o, None) == seq![
            "build"@,
            "--message-format=json-render-diagnostics"@,
            "--release"@,
        ],
{
    assert(views(o.features@).len() == o.features@.len());
    assert(cargo_args_of(o, None) =~= seq![
        "build"@,
        "--message-format=json-render-diagnostics"@,
        "--release"@,
    ]);
}

/// A toolchain stands in front of everything else, behind a `+`.
pub proof fn toolchains_come_first(o: BuildOptions, package: Option<Seq<char>>, name: String)
    ensures
        cargo_args_of(BuildOptions { toolchain: Some(name), ..o }, package) == seq!["+"@ + name@]
            + cargo_args_of(BuildOptions { toolchain: None, ..o }, package),
{
    let inserted = seq!["+"@ + name@];
    let l0 = Seq::<Seq<char>>::empty();
    let m0 = inserted;
    inserted_last(l0, inserted);
    assert(l0 + inserted =~= m0);
    more_may_follow(m0, l0, inserted, 0, seq!["build"@, "--message-format=json-render-diagnostics"@]);
    let m1 = m0 + seq!["build"@, "--message-format=json-render-diagnostics"@];
    let l1 = l0 + seq!["build"@, "--message-format=json-render-diagnostics"@];
    more_may_follow(m1, l1, inserted, 0, profile_args(o.profile));
    let m2 = m1 + profile_args(o.profile);
    let l2 = l1 + profile_args(o.profile);
    more_may_follow(m2, l2, inserted, 0, valued("--package"@, package));
    let m3 = m2 + valued("--package"@, package);
    let l3 = l2 + valued("--package"@, package);
    more_may_follow(m3, l3, inserted, 0, target_args(o.build_target));
    let m4 = m3 + target_args(o.build_target);
    let l4 = l3 + target_args(o.build_target);
    more_may_follow(m4, l4, inserted, 0, feature_args(views(o.features@)));
    let m5 = m4 + feature_args(views(o.features@));
    let l5 = l4 + feature_args(views(o.features@));
    more_may_follow(m5, l5, inserted, 0, switched("--all-features"@, o.all_features));
    let m6 = m5 + switched("--all-features"@, o.all_features);
    let l6 = l5 + switched("--all-features"@, o.all_features);
    more_may_follow(m6, l6, inserted, 0, switched("--no-default-features"@, o.no_default_features));
    let m7 = m6 + switched("--no-default-features"@, o.no_default_features);
    let l7 = l6 + switched("--no-default-features"@, o.no_default_features);
    more_may_follow(m7, l7, inserted, 0, switched("--locked"@, o.locked));
    let m8 = m7 + switched("--locked"@, o.locked);
    let l8 = l7 + switched("--locked"@, o.locked);
    more_may_follow(m8, l8, inserted, 0, switched("--offline"@, o.offline));
    let m9 = m8 + switched("--offline"@, o.offline);
    let l9 = l8 + switched("--offline"@, o.offline);
    more_may_follow(m9, l9, inserted, 0, switched("--ignore-rust-version"@, o.ignore_rust_version));
    let m10 = m9 + switched("--ignore-rust-version"@, o.ignore_rust_version);
    let l10 = l9 + switched("--ignore-rust-version"@, o.ignore_rust_version);
    more_may_follow(m10, l10, inserted, 0, valued("--target"@, opt_view(o.target)));
    let m11 = m10 + valued("--target"@, opt_view(o.target));
    let l11 = l10 + valued("--target"@, opt_view(o.target));
    more_may_follow(m11, l11, inserted, 0, valued("--jobs"@, jobs_text(o.jobs)));
    let m12 = m11 + valued("--jobs"@, jobs_text(o.jobs));
    let l12 = l11 + valued("--jobs"@, jobs_text(o.jobs));
    assert(cargo_args_of(BuildOptions { toolchain: Some(name), ..o }, package) == m12);
    assert(cargo_args_of(BuildOptions { toolchain: None, ..o }, package) == l12);
    assert(l12.take(0) + inserted + l12.skip(0) =~= inserted + l12);
}

/// A profile takes the place of `--release`.
pub proof fn profiles_are_exchanged(o: BuildOptions, package: Option<Seq<char>>, name: String)
    ensures
        has_exchanged(
            cargo_args_of(BuildOptions { profile: Some(name), ..o }, package),
            seq!["--profile"@, name@],
            cargo_args_of(BuildOptions { profile: None, ..o }, package),
            seq!["--release"@],
        ),
{
    let a = seq!["--profile"@, name@];
    let b = seq!["--release"@];
    let before = toolchain_args(o.toolchain) + seq![
        "build"@,
        "--message-format=json-render-diagnostics"@,
    ];
    let x0 = Seq::<Seq<char>>::empty();
    assert(before + a + x0 =~= before + a);
    assert(before + b + x0 =~= before + b);
    exchange_may_go_on(before, a, b, x0, valued("--package"@, package));
    let x1 = x0 + valued("--package"@, package);
    exchange_may_go_on(before, a, b, x1, target_args(o.build_target));
    let x2 = x1 + target_args(o.build_target);
    exchange_may_go_on(before, a, b, x2, feature_args(views(o.features@)));
    let x3 = x2 + feature_args(views(o.features@));
    exchange_may_go_on(before, a, b, x3, switched("--all-features"@, o.all_features));
    let x4 = x3 + switched("--all-features"@, o.all_features);
    exchange_may_go_on(before, a, b, x4, switched("--no-default-features"@, o.no_default_features));
    let x5 = x4 + switched("--no-default-features"@, o.no_default_features);
    exchange_may_go_on(before, a, b, x5, switched("--locked"@, o.locked));
    let x6 = x5 + switched("--locked"@, o.locked);
    exchange_may_go_on(before, a, b, x6, switched("--offline"@, o.offline));
    let x7 = x6 + switched("--offline"@, o.offline);
    exchange_may_go_on(before, a, b, x7, switched("--ignore-rust-version"@, o.ignore_rust_version));
    let x8 = x7 + switched("--ignore-rust-version"@, o.ignore_rust_version);
    exchange_may_go_on(before, a, b, x8, valued("--target"@, opt_view(o.target)));
    let x9 = x8 + valued("--target"@, opt_view(o.target));
    exchange_may_go_on(before, a, b, x9, valued("--jobs"@, jobs_text(o.jobs)));
    let x10 = x9 + valued("--jobs"@, jobs_text(o.jobs));
    assert(cargo_args_of(BuildOptions { profile: Some(name), ..o }, package) == before + a + x10);
    assert(cargo_args_of(BuildOptions { profile: None, ..o }, package) == before + b + x10);
}

/// Asking for all features puts `--all-features` in, whatever else is asked for, and
/// changes nothing else.
pub proof fn all_features_is_one_switch(o: BuildOptions, package: Option<Seq<char>>)
    ensures
        has_inserted(
            cargo_args_of(BuildOptions { all_features: true, ..o }, package),
            cargo_args_of(BuildOptions { all_features: false, ..o }, package),
            seq!["--all-features"@],
        ),
{
    let inserted = seq!["--all-features"@];
    let l0 = toolchain_args(o.toolchain) + seq![
        "build"@,
        "--message-format=json-render-diagnostics"@,
    ] + profile_args(o.profile) + valued("--package"@, package) + target_args(o.build_target) + feature_args(views(o.features@));
    let m0 = l0 + inserted;
    let i = l0.len() as int;
    inserted_last(l0, inserted);
    more_may_follow(m0, l0, inserted, i, switched("--no-default-features"@, o.no_default_features));
    let m1 = m0 + switched("--no-default-features"@, o.no_default_features);
    let l1 = l0 + switched("--no-default-features"@, o.no_default_features);
    more_may_follow(m1, l1, inserted, i, switched("--locked"@, o.locked));
    let m2 = m1 + switched("--locked"@, o.locked);
    let l2 = l1 + switched("--locked"@, o.locked);
    more_may_follow(m2, l2, inserted, i, switched("--offline"@, o.offline));
    let m3 = m2 + switched("--offline"@, o.offline);
    let l3 = l2 + switched("--offline"@, o.offline);
    more_may_follow(m3, l3, inserted, i, switched("--ignore-rust-version"@, o.ignore_rust_version));
    let m4 = m3 + switched("--ignore-rust-version"@, o.ignore_rust_version);
    let l4 = l3 + switched("--ignore-rust-version"@, o.ignore_rust_version);
    more_may_follow(m4, l4, inserted, i, valued("--target"@, opt_view(o.target)));
    let m5 = m4 + valued("--target"@, opt_view(o.target));
    let l5 = l4 + valued("--target"@, opt_view(o.target));
    more_may_follow(m5, l5, inserted, i, valued("--jobs"@, jobs_text(o.jobs)));
    let m6 = m5 + valued("--jobs"@, jobs_text(o.jobs));
    let l6 = l5 + valued("--jobs"@, jobs_text(o.jobs));
    assert(cargo_args_of(BuildOptions { all_features: true, ..o }, package) == m6);
    assert(cargo_args_of(BuildOptions { all_features: false, ..o }, package) == l6);
}

/// Asking for no default features puts `--no-default-features` in, whatever else is asked for, and
/// changes nothing else.
pub proof fn no_default_features_is_one_switch(o: BuildOptions, package: Option<Seq<char>>)
    ensures
        has_inserted(
            cargo_args_of(BuildOptions { no_default_features: true, ..o }, package),
            cargo_args_of(BuildOptions { no_default_features: false, ..o }, package),
            seq!["--no-default-features"@],
        ),
{
    let inserted = seq!["--no-default-features"@];
    let l0 = toolchain_args(o.toolchain) + seq![
        "build"@,
        "--message-format=json-render-diagnostics"@,
    ] + profile_args(o.profile) + valued("--package"@, package) + target_args(o.build_target) + feature_args(views(o.features@)) + switched("--all-features"@, o.all_features);
    let m0 = l0 + inserted;
    let i = l0.len() as int;
    inserted_last(l0, inserted);
    more_may_follow(m0, l0, inserted, i, switched("--locked"@, o.locked));
    let m1 = m0 + switched("--locked"@, o.locked);
    let l1 = l0 + switched("--locked"@, o.locked);
    more_may_follow(m1, l1, inserted, i, switched("--offline"@, o.offline));
    let m2 = m1 + switched("--offline"@, o.offline);
    let l2 = l1 + switched("--offline"@, o.offline);
    more_may_follow(m2, l2, inserted, i, switched("--ignore-rust-version"@, o.ignore_rust_version));
    let m3 = m2 + switched("--ignore-rust-version"@, o.ignore_rust_version);
    let l3 = l2 + switched("--ignore-rust-version"@, o.ignore_rust_version);
    more_may_follow(m3, l3, inserted, i, valued("--target"@, opt_view(o.target)));
    let m4 = m3 + valued("--target"@, opt_view(o.target));
    let l4 = l3 + valued("--target"@, opt_view(o.target));
    more_may_follow(m4, l4, inserted, i, valued("--jobs"@, jobs_text(o.jobs)));
    let m5 = m4 + valued("--jobs"@, jobs_text(o.jobs));
    let l5 = l4 + valued("--jobs"@, jobs_text(o.jobs));
    assert(cargo_args_of(BuildOptions { no_default_features: true, ..o }, package) == m5);
    assert(cargo_args_of(BuildOptions { no_default_features: false, ..o }, package) == l5);
}

/// Asking for a locked build puts `--locked` in, whatever else is asked for, and
/// changes nothing else.
pub proof fn locked_is_one_switch(o: BuildOptions, package: Option<Seq<char>>)
    ensures
        has_inserted(
            cargo_args_of(BuildOptions { locked: true, ..o }, package),
            cargo_args_of(BuildOptions { locked: false, ..o }, package),
            seq!["--locked"@],
        ),
{
    let inserted = seq!["--locked"@];
    let l0 = toolchain_args(o.toolchain) + seq![
        "build"@,
        "--message-format=json-render-diagnostics"@,
    ] + profile_args(o.profile) + valued("--package"@, package) + target_args(o.build_target) + feature_args(views(o.features@)) + switched("--all-features"@, o.all_features) + switched("--no-default-features"@, o.no_default_features);
    let m0 = l0 + inserted;
    let i = l0.len() as int;
    inserted_last(l0, inserted);
    more_may_follow(m0, l0, inserted, i, switched("--offline"@, o.offline));
    let m1 = m0 + switched("--offline"@, o.offline);
    let l1 = l0 + switched("--offline"@, o.offline);
    more_may_follow(m1, l1, inserted, i, switched("--ignore-rust-version"@, o.ignore_rust_version));
    let m2 = m1 + switched("--ignore-rust-version"@, o.ignore_rust_version);
    let l2 = l1 + switched("--ignore-rust-version"@, o.ignore_rust_version);
    more_may_follow(m2, l2, inserted, i, valued("--target"@, opt_view(o.target)));
    let m3 = m2 + valued("--target"@, opt_view(o.target));
    let l3 = l2 + valued("--target"@, opt_view(o.target));
    more_may_follow(m3, l3, inserted, i, valued("--jobs"@, jobs_text(o.jobs)));
    let m4 = m3 + valued("--jobs"@, jobs_text(o.jobs));
    let l4 = l3 + valued("--jobs"@, jobs_text(o.jobs));
    assert(cargo_args_of(BuildOptions { locked: true, ..o }, package) == m4);
    assert(cargo_args_of(BuildOptions { locked: false, ..o }, package) == l4);
}

/// Asking for an offline build puts `--offline` in, whatever else is asked for, and
/// changes nothing else.
pub proof fn offline_is_one_switch(o: BuildOptions, package: Option<Seq<char>>)
    ensures
        has_inserted(
            cargo_args_of(BuildOptions { offline: true, ..o }, package),
            cargo_args_of(BuildOptions { offline: false, ..o }, package),
            seq!["--offline"@],
        ),
{
    let inserted = seq!["--offline"@];
    let l0 = toolchain_args(o.toolchain) + seq![
        "build"@,
        "--message-format=json-render-diagnostics"@,
    ] + profile_args(o.profile) + valued("--package"@, package) + target_args(o.build_target) + feature_args(views(o.features@)) + switched("--all-features"@, o.all_features) + switched("--no-default-features"@, o.no_default_features) + switched("--locked"@, o.locked);
    let m0 = l0 + inserted;
    let i = l0.len() as int;
    inserted_last(l0, inserted);
    more_may_follow(m0, l0, inserted, i, switched("--ignore-rust-version"@, o.ignore_rust_version));
    let m1 = m0 + switched("--ignore-rust-version"@, o.ignore_rust_version);
    let l1 = l0 + switched("--ignore-rust-version"@, o.ignore_rust_version);
    more_may_follow(m1, l1, inserted, i, valued("--target"@, opt_view(o.target)));
    let m2 = m1 + valued("--target"@, opt_view(o.target));
    let l2 = l1 + valued("--target"@, opt_view(o.target));
    more_may_follow(m2, l2, inserted, i, valued("--jobs"@, jobs_text(o.jobs)));
    let m3 = m2 + valued("--jobs"@, jobs_text(o.jobs));
    let l3 = l2 + valued("--jobs"@, jobs_text(o.jobs));
    assert(cargo_args_of(BuildOptions { offline: true, ..o }, package) == m3);
    assert(cargo_args_of(BuildOptions { offline: false, ..o }, package) == l3);
}

/// Asking for ignoring the Rust version puts `--ignore-rust-version` in, whatever else is asked for, and
/// changes nothing else.
pub proof fn ignore_rust_version_is_one_switch(o: BuildOptions, package: Option<Seq<char>>)
    ensures
        has_inserted(
            cargo_args_of(BuildOptions { ignore_rust_version: true, ..o }, package),
            cargo_args_of(BuildOptions { ignore_rust_version: false, ..o }, package),
            seq!["--ignore-rust-version"@],
        ),
{
    let inserted = seq!["--ignore-rust-version"@];
    let l0 = toolchain_args(o.toolchain) + seq![
        "build"@,
        "--message-format=json-render-diagnostics"@,
    ] + profile_args(o.profile) + valued("--package"@, package) + target_args(o.build_target) + feature_args(views(o.features@)) + switched("--all-features"@, o.all_features) + switched("--no-default-features"@, o.no_default_features) + switched("--locked"@, o.locked) + switched("--offline"@, o.offline);
    let m0 = l0 + inserted;
    let i = l0.len() as int;
    inserted_last(l0, inserted);
    more_may_follow(m0, l0, inserted, i, valued("--target"@, opt_view(o.target)));
    let m1 = m0 + valued("--target"@, opt_view(o.target));
    let l1 = l0 + valued("--target"@, opt_view(o.target));
    more_may_follow(m1, l1, inserted, i, valued("--jobs"@, jobs_text(o.jobs)));
    let m2 = m1 + valued("--jobs"@, jobs_text(o.jobs));
    let l2 = l1 + valued("--jobs"@, jobs_text(o.jobs));
    assert(cargo_args_of(BuildOptions { ignore_rust_version: true, ..o }, package) == m2);
    assert(cargo_args_of(BuildOptions { ignore_rust_version: false, ..o }, package) == l2);
}

/// A package is named with `--package`.
pub proof fn packages_are_named(o: BuildOptions, package: Seq<char>)
    ensures
        has_inserted(cargo_args_of(o, Some(package)), cargo_args_of(o, None), seq!["--package"@, package]),
{
    let inserted = seq!["--package"@, package];
    let l0 = toolchain_args(o.toolchain) + seq![
        "build"@,
        "--message-format=json-render-diagnostics"@,
    ] + profile_args(o.profile);
    let m0 = l0 + inserted;
    let i = l0.len() as int;
    inserted_last(l0, inserted);
    more_may_follow(m0, l0, inserted, i, target_args(o.build_target));
    let m1 = m0 + target_args(o.build_target);
    let l1 = l0 + target_args(o.build_target);
    more_may_follow(m1, l1, inserted, i, feature_args(views(o.features@)));
    let m2 = m1 + feature_args(views(o.features@));
    let l2 = l1 + feature_args(views(o.features@));
    more_may_follow(m2, l2, inserted, i, switched("--all-features"@, o.all_features));
    let m3 = m2 + switched("--all-features"@, o.all_features);
    let l3 = l2 + switched("--all-features"@, o.all_features);
    more_may_follow(m3, l3, inserted, i, switched("--no-default-features"@, o.no_default_features));
    let m4 = m3 + switched("--no-default-features"@, o.no_default_features);
    let l4 = l3 + switched("--no-default-features"@, o.no_default_features);
    more_may_follow(m4, l4, inserted, i, switched("--locked"@, o.locked));
    let m5 = m4 + switched("--locked"@, o.locked);
    let l5 = l4 + switched("--locked"@, o.locked);
    more_may_follow(m5, l5, inserted, i, switched("--offline"@, o.offline));
    let m6 = m5 + switched("--offline"@, o.offline);
    let l6 = l5 + switched("--offline"@, o.offline);
    more_may_follow(m6, l6, inserted, i, switched("--ignore-rust-version"@, o.ignore_rust_version));
    let m7 = m6 + switched("--ignore-rust-version"@, o.ignore_rust_version);
    let l7 = l6 + switched("--ignore-rust-version"@, o.ignore_rust_version);
    more_may_follow(m7, l7, inserted, i, valued("--target"@, opt_view(o.target)));
    let m8 = m7 + valued("--target"@, opt_view(o.target));
    let l8 = l7 + valued("--target"@, opt_view(o.target));
    more_may_follow(m8, l8, inserted, i, valued("--jobs"@, jobs_text(o.jobs)));
    let m9 = m8 + valued("--jobs"@, jobs_text(o.jobs));
    let l9 = l8 + valued("--jobs"@, jobs_text(o.jobs));
    assert(cargo_args_of(o, Some(package)) == m9);
    assert(cargo_args_of(o, None) == l9);
}

/// A binary is named with `--bin`.
pub proof fn binaries_are_named(o: BuildOptions, package: Option<Seq<char>>, name: String)
    ensures
        has_inserted(cargo_args_of(BuildOptions { build_target: BuildTarget::Bin(name), ..o }, package), cargo_args_of(BuildOptions { build_target: BuildTarget::DefaultBin, ..o }, package), seq!["--bin"@, name@]),
{
    let inserted = seq!["--bin"@, name@];
    let l0 = toolchain_args(o.toolchain) + seq![
        "build"@,
        "--message-format=json-render-diagnostics"@,
    ] + profile_args(o.profile) + valued("--package"@, package);
    let m0 = l0 + inserted;
    let i = l0.len() as int;
    inserted_last(l0, inserted);
    more_may_follow(m0, l0, inserted, i, feature_args(views(o.features@)));
    let m1 = m0 + feature_args(views(o.features@));
    let l1 = l0 + feature_args(views(o.features@));
    more_may_follow(m1, l1, inserted, i, switched("--all-features"@, o.all_features));
    let m2 = m1 + switched("--all-features"@, o.all_features);
    let l2 = l1 + switched("--all-features"@, o.all_features);
    more_may_follow(m2, l2, inserted, i, switched("--no-default-features"@, o.no_default_features));
    let m3 = m2 + switched("--no-default-features"@, o.no_default_features);
    let l3 = l2 + switched("--no-default-features"@, o.no_default_features);
    more_may_follow(m3, l3, inserted, i, switched("--locked"@, o.locked));
    let m4 = m3 + switched("--locked"@, o.locked);
    let l4 = l3 + switched("--locked"@, o.locked);
    more_may_follow(m4, l4, inserted, i, switched("--offline"@, o.offline));
    let m5 = m4 + switched("--offline"@, o.offline);
    let l5 = l4 + switched("--offline"@, o.offline);
    more_may_follow(m5, l5, inserted, i, switched("--ignore-rust-version"@, o.ignore_rust_version));
    let m6 = m5 + switched("--ignore-rust-version"@, o.ignore_rust_version);
    let l6 = l5 + switched("--ignore-rust-version"@, o.ignore_rust_version);
    more_may_follow(m6, l6, inserted, i, valued("--target"@, opt_view(o.target)));
    let m7 = m6 + valued("--target"@, opt_view(o.target));
    let l7 = l6 + valued("--target"@, opt_view(o.target));
    more_may_follow(m7, l7, inserted, i, valued("--jobs"@, jobs_text(o.jobs)));
    let m8 = m7 + valued("--jobs"@, jobs_text(o.jobs));
    let l8 = l7 + valued("--jobs"@, jobs_text(o.jobs));
    assert(cargo_args_of(BuildOptions { build_target: BuildTarget::Bin(name), ..o }, package) == m8);
    assert(cargo_args_of(BuildOptions { build_target: BuildTarget::DefaultBin, ..o }, package) == l8);
}

/// An example is named with `--example`.
pub proof fn examples_are_named(o: BuildOptions, package: Option<Seq<char>>, name: String)
    ensures
        has_inserted(cargo_args_of(BuildOptions { build_target: BuildTarget::Example(name), ..o }, package), cargo_args_of(BuildOptions { build_target: BuildTarget::DefaultBin, ..o }, package), seq!["--example"@, name@]),
{
    let inserted = seq!["--example"@, name@];
    let l0 = toolchain_args(o.toolchain) + seq![
        "build"@,
        "--message-format=json-render-diagnostics"@,
    ] + profile_args(o.profile) + valued("--package"@, package);
    let m0 = l0 + inserted;
    let i = l0.len() as int;
    inserted_last(l0, inserted);
    more_may_follow(m0, l0, inserted, i, feature_args(views(o.features@)));
    let m1 = m0 + feature_args(views(o.features@));
    let l1 = l0 + feature_args(views(o.features@));
    more_may_follow(m1, l1, inserted, i, switched("--all-features"@, o.all_features));
    let m2 = m1 + switched("--all-features"@, o.all_features);
    let l2 = l1 + switched("--all-features"@, o.all_features);
    more_may_follow(m2, l2, inserted, i, switched("--no-default-features"@, o.no_default_features));
    let m3 = m2 + switched("--no-default-features"@, o.no_default_features);
    let l3 = l2 + switched("--no-default-features"@, o.no_default_features);
    more_may_follow(m3, l3, inserted, i, switched("--locked"@, o.locked));
    let m4 = m3 + switched("--locked"@, o.locked);
    let l4 = l3 + switched("--locked"@, o.locked);
    more_may_follow(m4, l4, inserted, i, switched("--offline"@, o.offline));
    let m5 = m4 + switched("--offline"@, o.offline);
    let l5 = l4 + switched("--offline"@, o.offline);
    more_may_follow(m5, l5, inserted, i, switched("--ignore-rust-version"@, o.ignore_rust_version));
    let m6 = m5 + switched("--ignore-rust-version"@, o.ignore_rust_version);
    let l6 = l5 + switched("--ignore-rust-version"@, o.ignore_rust_version);
    more_may_follow(m6, l6, inserted, i, valued("--target"@, opt_view(o.target)));
    let m7 = m6 + valued("--target"@, opt_view(o.target));
    let l7 = l6 + valued("--target"@, opt_view(o.target));
    more_may_follow(m7, l7, inserted, i, valued("--jobs"@, jobs_text(o.jobs)));
    let m8 = m7 + valued("--jobs"@, jobs_text(o.jobs));
    let l8 = l7 + valued("--jobs"@, jobs_text(o.jobs));
    assert(cargo_args_of(BuildOptions { build_target: BuildTarget::Example(name), ..o }, package) == m8);
    assert(cargo_args_of(BuildOptions { build_target: BuildTarget::DefaultBin, ..o }, package) == l8);
}

/// A platform is named with `--target`.
pub proof fn triples_are_named(o: BuildOptions, package: Option<Seq<char>>, name: String)
    ensures
        has_inserted(cargo_args_of(BuildOptions { target: Some(name), ..o }, package), cargo_args_of(BuildOptions { target: None, ..o }, package), seq!["--target"@, name@]),
{
    let inserted = seq!["--target"@, name@];
    let l0 = toolchain_args(o.toolchain) + seq![
        "build"@,
        "--message-format=json-render-diagnostics"@,
    ] + profile_args(o.profile) + valued("--package"@, package) + target_args(o.build_target) + feature_args(views(o.features@)) + switched("--all-features"@, o.all_features) + switched("--no-default-features"@, o.no_default_features) + switched("--locked"@, o.locked) + switched("--offline"@, o.offline) + switched("--ignore-rust-version"@, o.ignore_rust_version);
    let m0 = l0 + inserted;
    let i = l0.len() as int;
    inserted_last(l0, inserted);
    more_may_follow(m0, l0, inserted, i, valued("--jobs"@, jobs_text(o.jobs)));
    let m1 = m0 + valued("--jobs"@, jobs_text(o.jobs));
    let l1 = l0 + valued("--jobs"@, jobs_text(o.jobs));
    assert(cargo_args_of(BuildOptions { target: Some(name), ..o }, package) == m1);
    assert(cargo_args_of(BuildOptions { target: None, ..o }, package) == l1);
}

/// A number of jobs is given with `--jobs`.
pub proof fn jobs_are_counted(o: BuildOptions, package: Option<Seq<char>>, n: usize)
    ensures
        has_inserted(cargo_args_of(BuildOptions { jobs: Some(n), ..o }, package), cargo_args_of(BuildOptions { jobs: None, ..o }, package), seq!["--jobs"@, decimal_of(n as nat)]),
{
    let inserted = seq!["--jobs"@, decimal_of(n as nat)];
    let l0 = toolchain_args(o.toolchain) + seq![
        "build"@,
        "--message-format=json-render-diagnostics"@,
    ] + profile_args(o.profile) + valued("--package"@, package) + target_args(o.build_target) + feature_args(views(o.features@)) + switched("--all-features"@, o.all_features) + switched("--no-default-features"@, o.no_default_features) + switched("--locked"@, o.locked) + switched("--offline"@, o.offline) + switched("--ignore-rust-version"@, o.ignore_rust_version) + valued("--target"@, opt_view(o.target));
    let m0 = l0 + inserted;
    let i = l0.len() as int;
    inserted_last(l0, inserted);
    assert(cargo_args_of(BuildOptions { jobs: Some(n), ..o }, package) == m0);
    assert(cargo_args_of(BuildOptions { jobs: None, ..o }, package) == l0);
}

/// Features are given with `--features`, in one text, and none are not given at all.
pub proof fn features_are_listed(
    o: BuildOptions,
    package: Option<Seq<char>>,
    some: Vec<String>,
    none: Vec<String>,
)
    requires
        some@.len() > 0,
        none@.len() == 0,
    ensures
        has_inserted(
            cargo_args_of(BuildOptions { features: some, ..o }, package),
            cargo_args_of(BuildOptions { features: none, ..o }, package),
            seq!["--features"@, joined(views(some@))],
        ),
{
    let inserted = seq!["--features"@, joined(views(some@))];
    let l0 = toolchain_args(o.toolchain) + seq![
        "build"@,
        "--message-format=json-render-diagnostics"@,
    ] + profile_args(o.profile) + valued("--package"@, package) + target_args(o.build_target);
    let m0 = l0 + inserted;
    let i = l0.len() as int;
    inserted_last(l0, inserted);
    assert(views(some@).len() > 0 && views(none@).len() == 0);
    more_may_follow(m0, l0, inserted, i, switched("--all-features"@, o.all_features));
    let m1 = m0 + switched("--all-features"@, o.all_features);
    let l1 = l0 + switched("--all-features"@, o.all_features);
    more_may_follow(m1, l1, inserted, i, switched("--no-default-features"@, o.no_default_features));
    let m2 = m1 + switched("--no-default-features"@, o.no_default_features);
    let l2 = l1 + switched("--no-default-features"@, o.no_default_features);
    more_may_follow(m2, l2, inserted, i, switched("--locked"@, o.locked));
    let m3 = m2 + switched("--locked"@, o.locked);
    let l3 = l2 + switched("--locked"@, o.locked);
    more_may_follow(m3, l3, inserted, i, switched("--offline"@, o.offline));
    let m4 = m3 + switched("--offline"@, o.offline);
    let l4 = l3 + switched("--offline"@, o.offline);
    more_may_follow(m4, l4, inserted, i, switched("--ignore-rust-version"@, o.ignore_rust_version));
    let m5 = m4 + switched("--ignore-rust-version"@, o.ignore_rust_version);
    let l5 = l4 + switched("--ignore-rust-version"@, o.ignore_rust_version);
    more_may_follow(m5, l5, inserted, i, valued("--target"@, opt_view(o.target)));
    let m6 = m5 + valued("--target"@, opt_view(o.target));
    let l6 = l5 + valued("--target"@, opt_view(o.target));
    more_may_follow(m6, l6, inserted, i, valued("--jobs"@, jobs_text(o.jobs)));
    let m7 = m6 + valued("--jobs"@, jobs_text(o.jobs));
    let l7 = l6 + valued("--jobs"@, jobs_text(o.jobs));
    assert(cargo_args_of(BuildOptions { features: some, ..o }, package) == m7);
    assert(cargo_args_of(BuildOptions { features: none, ..o }, package) == l7);
}

/// The target is of that name and kind.
pub open spec fn is_target(target: Target, name: Seq<char>, kind: TargetKind) -> bool {
    target.name@ == name && exists|k: int|
        0 <= k < target.kinds@.len() && #[trigger] target.kinds@[k] == kind
}

/// One of the targets is of that name and kind.
pub open spec fn has_target(targets: Seq<Target>, name: Seq<char>, kind: TargetKind) -> bool {
    exists|i: int| 0 <= i < targets.len() && is_target(#[trigger] targets[i], name, kind)
}

/// The targets of a kind are listed by name, in their order, and no others.
pub proof fn targets_are_listed(targets: Seq<Target>, target: Target, kind: TargetKind)
    ensures
        targets_of_kind(Seq::empty(), kind) == Seq::<Seq<char>>::empty(),
        target.kinds@.contains(kind) ==> targets_of_kind(targets.push(target), kind)
            == targets_of_kind(targets, kind).push(target.name@),
        !target.kinds@.contains(kind) ==> targets_of_kind(targets.push(target), kind)
            == targets_of_kind(targets, kind),
{
    assert(targets.push(target).drop_last() =~= targets);
}

proof fn listed_targets_exist(targets: Seq<Target>, name: Seq<char>, kind: TargetKind)
    ensures
        targets_of_kind(targets, kind).contains(name) <==> has_target(targets, name, kind),
    decreases targets.len(),
{
    if targets.len() > 0 {
        let before = targets.drop_last();
        let listed = targets_of_kind(before, kind);
        let last = targets.last();
        listed_targets_exist(before, name, kind);
        assert(targets[targets.len() - 1] == last);
        if last.kinds@.contains(kind) {
            let k = choose|k: int| 0 <= k < last.kinds@.len() && last.kinds@[k] == kind;
            assert(last.kinds@[k] == kind);
            assert(listed.push(last.name@)[listed.len() as int] == last.name@);
            if listed.contains(name) {
                let i = choose|i: int| 0 <= i < listed.len() && listed[i] == name;
                assert(listed.push(last.name@)[i] == name);
            }
            if listed.push(last.name@).contains(name) && name != last.name@ {
                let i = choose|i: int|
                    0 <= i < listed.push(last.name@).len() && listed.push(last.name@)[i] == name;
                assert(listed[i] == name);
            }
        }
        if has_target(before, name, kind) {
            let i = choose|i: int| 0 <= i < before.len() && is_target(#[trigger] before[i], name, kind);
            assert(is_target(targets[i], name, kind));
        }
        if has_target(targets, name, kind) && !has_target(before, name, kind) {
            let i = choose|i: int|
                0 <= i < targets.len() && is_target(#[trigger] targets[i], name, kind);
            if i < before.len() {
                assert(is_target(before[i], name, kind));
            }
            let k = choose|k: int| 0 <= k < last.kinds@.len() && #[trigger] last.kinds@[k] == kind;
            assert(last.kinds@.contains(kind));
        }
    }
}

/// A binary or an example that is asked for by name is built exactly where the package has one
/// of that name and kind.
pub proof fn named_targets_are_built_where_they_exist(
    r: Result<BuildTarget, Error>,
    krate: Seq<char>,
    metadata: Metadata,
    i: int,
    wanted: BuildTarget,
)
    requires
        target_resolution(r, krate, wanted, metadata),
        package_at(metadata.packages@, krate) == Some(i),
    ensures
        wanted matches BuildTarget::Bin(name) ==> {
            &&& r is Ok <==> has_target(metadata.packages@[i].targets@, name@, TargetKind::Bin)
            &&& r is Ok ==> r == Ok::<BuildTarget, Error>(wanted)
            &&& r matches Err(e) ==> (e matches Error::RunnableTargetNotFound { kind, target, .. }
                && kind == TargetClass::Binary && target@ == name@)
        },
        wanted matches BuildTarget::Example(name) ==> {
            &&& r is Ok <==> has_target(metadata.packages@[i].targets@, name@, TargetKind::Example)
            &&& r is Ok ==> r == Ok::<BuildTarget, Error>(wanted)
            &&& r matches Err(e) ==> (e matches Error::RunnableTargetNotFound { kind, target, .. }
                && kind == TargetClass::Example && target@ == name@)
        },
{
    if let BuildTarget::Bin(name) = wanted {
        listed_targets_exist(metadata.packages@[i].targets@, name@, TargetKind::Bin);
    }
    if let BuildTarget::Example(name) = wanted {
        listed_targets_exist(metadata.packages@[i].targets@, name@, TargetKind::Example);
    }
}

/// Asking for nothing in a package with a default binary is asking for that binary.
pub proof fn default_binaries_are_meant(
    r: Result<BuildTarget, Error>,
    krate: Seq<char>,
    metadata: Metadata,
    i: int,
    default_run: String,
)
    requires
        package_at(metadata.packages@, krate) == Some(i),
        metadata.packages@[i].default_run == Some(default_run),
    ensures
        target_resolution(r, krate, BuildTarget::DefaultBin, metadata) <==> target_resolution(
            r,
            krate,
            BuildTarget::Bin(default_run),
            metadata,
        ),
{
}

/// Without a default binary the only binary is meant. None and several are errors, and the
/// latter names them all.
pub proof fn only_binaries_are_meant(
    r: Result<BuildTarget, Error>,
    krate: Seq<char>,
    metadata: Metadata,
    i: int,
)
    requires
        target_resolution(r, krate, BuildTarget::DefaultBin, metadata),
        package_at(metadata.packages@, krate) == Some(i),
        metadata.packages@[i].default_run is None,
    ensures
        ({
            let bins = targets_of_kind(metadata.packages@[i].targets@, TargetKind::Bin);
            &&& bins.len() == 0 ==> (r matches Err(Error::NoPackageBinaries { krate: k }) && k@
                == krate)
            &&& bins.len() == 1 ==> (r matches Ok(BuildTarget::Bin(name)) && name@ == bins[0])
            &&& bins.len() > 1 ==> (r matches Err(
                Error::AmbiguousBinaryTarget { package, available },
            ) && package@ == metadata.packages@[i].name@ && views(available@) == bins)
        }),
{
}

/// A crate that cargo does not know has no targets; the error names what cargo does know.
pub proof fn unknown_packages_are_errors(
    r: Result<BuildTarget, Error>,
    krate: Seq<char>,
    metadata: Metadata,
    wanted: BuildTarget,
)
    requires
        target_resolution(r, krate, wanted, metadata),
    ensures
        r matches Err(Error::PackageNotFoundInWorkspace { .. }) <==> !is_package_of(
            metadata.packages@,
            krate,
        ),
        r matches Err(Error::PackageNotFoundInWorkspace { name, available }) ==> name@ == krate
            && available@.len() == metadata.packages@.len() && forall|j: int|
            0 <= j < available@.len() ==> (#[trigger] available@[j])@
                == metadata.packages@[j].name@,
{
    first_packages_are_found(metadata.packages@, krate);
    if let Err(Error::PackageNotFoundInWorkspace { name, available }) = r {
        let listed = crate::builder::package_names(metadata.packages@);
        assert(views(available@) == listed);
        assert(views(available@).len() == available@.len());
        assert forall|j: int| 0 <= j < available@.len() implies (#[trigger] available@[j])@
            == metadata.packages@[j].name@ by {
            assert(views(available@)[j] == available@[j]@);
            assert(listed[j] == metadata.packages@[j].name@);
        }
    }
}

/// A build keeps every option, and the target too where one was named. Only local crates are
/// always built.
pub proof fn builds_are_as_asked_for(
    r: Result<BuildPlan, Error>,
    krate: DownloadedCrate,
    options: BuildOptions,
    metadata: Metadata,
)
    requires
        plans_build(r, krate, options, metadata),
    ensures
        r matches Ok(plan) ==> {
            let o = plan.options;
            &&& plan.cached <==> !(krate.resolved.source is LocalDir)
            &&& views(o.features@) == views(options.features@)
            &&& o.all_features == options.all_features
            &&& o.no_default_features == options.no_default_features
            &&& o.profile == options.profile
            &&& o.target == options.target
            &&& o.locked == options.locked
            &&& o.offline == options.offline
            &&& o.jobs == options.jobs
            &&& o.ignore_rust_version == options.ignore_rust_version
            &&& o.toolchain == options.toolchain
            &&& !(options.build_target is DefaultBin) ==> o.build_target == options.build_target
        },
        !(options.build_target is DefaultBin) ==> r is Ok,
        options.build_target is DefaultBin ==> target_resolution(
            match r {
                Ok(plan) => Ok(plan.options.build_target),
                Err(e) => Err(e),
            },
            krate.resolved.name@,
            BuildTarget::DefaultBin,
            metadata,
        ),
{
}

/// A package belongs to the workspace if its identifier is one of the members.
pub open spec fn is_member(package: Package, metadata: Metadata) -> bool {
    exists|k: int|
        0 <= k < metadata.workspace_members@.len() && (#[trigger] metadata.workspace_members@[k])@
            == package.id@
}

/// The members of a workspace are its packages with a member's identifier, by name and in
/// their order.
pub proof fn members_are_listed(packages: Seq<Package>, package: Package, members: Seq<Seq<char>>)
    ensures
        member_names(Seq::empty(), members) == Seq::<Seq<char>>::empty(),
        members.contains(package.id@) ==> member_names(packages.push(package), members)
            == member_names(packages, members).push(package.name@),
        !members.contains(package.id@) ==> member_names(packages.push(package), members)
            == member_names(packages, members),
{
    assert(packages.push(package).drop_last() =~= packages);
}

/// Cargo is told the package exactly where the workspace has more than one member. A crate
/// that is none of them is then an error.
pub proof fn packages_are_named_in_workspaces(
    r: Result<Option<String>, Error>,
    metadata: Metadata,
    krate: Seq<char>,
)
    requires
        package_argument(r, metadata, krate),
    ensures
        ({
            let members = member_names(
                metadata.packages@,
                views(metadata.workspace_members@),
            );
            &&& members.len() < 2 <==> r == Ok::<Option<String>, Error>(None)
            &&& members.len() >= 2 && members.contains(krate) ==> (r matches Ok(Some(name)) && name@
                == krate)
            &&& members.len() >= 2 && !members.contains(krate) ==> (r matches Err(
                Error::PackageNotFoundInWorkspace { name, available },
            ) && name@ == krate && views(available@) == members)
        }),
{
}

/// A local crate is built where it is. Every other is copied to a fresh directory, whose name
/// begins with the crate's, under the directory for builds.
pub proof fn sources_are_left_alone(dir: BuildDir, krate: DownloadedCrate, build_dir: PathView)
    requires
        builds_in(dir, krate, build_dir),
    ensures
        krate.resolved.source is LocalDir <==> dir is InPlace,
        dir matches BuildDir::InPlace { path } ==> path@ == krate.crate_path@,
        dir matches BuildDir::Temporary { parent, prefix, source } ==> parent@ == build_dir
            && source@ == krate.crate_path@ && prefix@ == "cgx-build-"@ + krate.resolved.name@,
{
}

/// Built binaries are kept under the directory for binaries, by name and version first.
pub proof fn builds_are_kept_by_crate(bin_dir: PathView, krate: ResolvedCrate, text: Seq<char>)
    ensures
        ({
            let place = built_dir_of(bin_dir, krate, text);
            let n = bin_dir.segments.len() as int;
            &&& place.base == bin_dir.base
            &&& place.segments.len() == n + 3
            &&& place.segments.take(n) == bin_dir.segments
            &&& place.segments[n] == krate.name@ + "-"@ + krate.version@
            &&& place.segments[n + 1] == source_hash_of(krate.source)
            &&& place.segments[n + 2] == sha256_of(encode_utf8(text))
        }),
{
    let n = bin_dir.segments.len() as int;
    assert(built_dir_of(bin_dir, krate, text).segments.take(n) =~= bin_dir.segments);
}

}
