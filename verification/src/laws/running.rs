//! A run: what was found or built is what is executed, and nothing else happens.
use vstd::prelude::*;
use vstd::string::*;

use crate::bin_resolver::ResolvedBinary;
use crate::builder::{
    package_at, package_names, targets_of_kind, BuildOptions, Metadata, TargetKind,
};
use crate::cli::CliArgs;
use crate::config::Config;
use crate::downloader::DownloadedCrate;
use crate::error::Error;
use crate::load::{loads, tool_args_of, wants_options};
use crate::paths::JoinedPath;
use crate::resolver::ResolvedCrate;
use crate::run::{
    answers, finds_targets, lists_targets, starts, steps, version_line_of, RunAction, RunEvent,
    RunPhase, RunStep, Targets,
};
use crate::text::{opt_view, views};

verus! {

/// The step executes that binary with the tool's arguments, or prints its path where nothing
/// is to be executed; either way the run is over.
pub open spec fn ends_with(args: CliArgs, binary: JoinedPath, step: RunStep) -> bool {
    &&& step.phase is Finished
    &&& args.no_exec ==> step.action == (RunAction::PrintPath { path: binary })
    &&& !args.no_exec ==> (step.action matches RunAction::Execute { path, args: a } && path
        == binary && views(a@) == tool_args_of(args))
}

/// A binary that was found and one that was built are handed over alike: executed with the
/// tool's arguments, or with `--no-exec` only shown.
pub proof fn found_and_built_binaries_are_handed_over_alike(
    args: CliArgs,
    phase: RunPhase,
    binary: ResolvedBinary,
    after_search: RunStep,
    after_build: RunStep,
)
    requires
        phase is Searching,
        steps(args, phase, RunEvent::Searched(Some(binary)), after_search),
        steps(args, RunPhase::Building, RunEvent::Built(binary.path), after_build),
    ensures
        ends_with(args, binary.path, after_search),
        ends_with(args, binary.path, after_build),
{
}

/// A path is printed only with `--no-exec`, and something is executed only without it; and
/// either only once a binary is there.
pub proof fn binaries_are_shown_or_executed(
    args: CliArgs,
    phase: RunPhase,
    event: RunEvent,
    step: RunStep,
)
    requires
        answers(phase, event),
        steps(args, phase, event, step),
    ensures
        step.action is PrintPath ==> args.no_exec,
        step.action is Execute ==> !args.no_exec,
        step.action is PrintPath || step.action is Execute <==> (event matches RunEvent::Searched(
            Some(_),
        )) || event is Built,
{
}

/// What was loaded is resolved, unless it names no crate; what was resolved is downloaded;
/// what was downloaded is looked at or looked for; and what was not found is built.
pub proof fn each_step_follows_from_the_last(
    args: CliArgs,
    phase: RunPhase,
    event: RunEvent,
    step: RunStep,
)
    requires
        answers(phase, event),
        steps(args, phase, event, step),
    ensures
        event matches RunEvent::Failed(e) ==> step.phase is Finished && step.action
            == RunAction::Fail(e),
        event matches RunEvent::Loaded(config) ==> {
            ||| step.action matches RunAction::Resolve { spec } && loads(Ok(spec), config, args) && (
            step.phase matches RunPhase::Resolving { options } && wants_options(
                config,
                args,
                options,
            ))
            ||| step.action matches RunAction::Fail(e) && loads(Err(e), config, args)
                && step.phase is Finished
        },
        event matches RunEvent::Resolved(krate) ==> step.action == (RunAction::Download { krate })
            && step.phase is Downloading && step.phase->Downloading_krate == krate
            && step.phase->Downloading_options == phase->Resolving_options,
        event matches RunEvent::Downloaded { crate_path } ==> {
            &&& args.list_targets ==> step.action == (RunAction::Inspect { crate_path })
                && step.phase == (RunPhase::Inspecting { krate: phase->Downloading_krate.name })
            &&& !args.list_targets ==> (step.action matches RunAction::Search { krate, options }
                && krate.resolved == phase->Downloading_krate && krate.crate_path@ == crate_path@
                && options.same_as(phase->Downloading_options)) && (
            step.phase matches RunPhase::Searching { krate, options } && krate.resolved
                == phase->Downloading_krate && krate.crate_path == crate_path && options
                == phase->Downloading_options)
        },
        event matches RunEvent::Searched(None) ==> step.phase is Building && step.action == (
        RunAction::Build { krate: phase->Searching_krate, options: phase->Searching_options }),
{
}

/// Options that say the same agree in every option.
pub proof fn same_options_agree(a: BuildOptions, b: BuildOptions)
    requires
        a.same_as(b),
    ensures
        views(a.features@) == views(b.features@),
        a.all_features == b.all_features && a.no_default_features == b.no_default_features,
        a.profile == b.profile && a.target == b.target && a.jobs == b.jobs,
        a.locked == b.locked && a.offline == b.offline,
        a.ignore_rust_version == b.ignore_rust_version && a.toolchain == b.toolchain,
        a.build_target == b.build_target,
{
}

/// Crates that are the same are one crate in one place.
pub proof fn same_crates_agree(a: DownloadedCrate, b: DownloadedCrate)
    requires
        a.same_as(b),
    ensures
        a.resolved == b.resolved,
        a.crate_path@ == b.crate_path@,
{
}

/// `--version` without a value only prints the version of the program; everything else loads
/// the configuration.
pub proof fn only_a_bare_version_flag_asks_for_the_version(
    args: CliArgs,
    version: Seq<char>,
    sha: Option<Seq<char>>,
    date: Option<Seq<char>>,
    step: RunStep,
)
    requires
        starts(args, version, sha, date, step),
    ensures
        args.version is Some && args.version->Some_0@.len() == 0 ==> step.phase is Finished && (
        step.action matches RunAction::PrintVersion { line } && line@ == version_line_of(
            version,
            sha,
            date,
        )),
        args.version is None || args.version->Some_0@.len() > 0 ==> step.phase is Loading
            && step.action is Load,
{
    if let Some(v) = args.version {
        assert(v@.len() == 0 ==> v@ =~= Seq::empty());
    }
}

/// The line starts with the name and the version, and names commit and date where both are
/// stamps.
pub proof fn version_lines_name_commit_and_date(
    version: Seq<char>,
    sha: Option<Seq<char>>,
    date: Option<Seq<char>>,
)
    ensures
        sha is None || date is None ==> version_line_of(version, sha, date) == "cgx "@ + version,
        sha == Some("VERGEN_IDEMPOTENT_OUTPUT"@) || date == Some("VERGEN_IDEMPOTENT_OUTPUT"@)
            ==> version_line_of(version, sha, date) == "cgx "@ + version,
        sha is Some && date is Some && sha != Some("VERGEN_IDEMPOTENT_OUTPUT"@) && date != Some(
            "VERGEN_IDEMPOTENT_OUTPUT"@,
        ) ==> version_line_of(version, sha, date) == "cgx "@ + version + " ("@ + sha->Some_0 + " "@
            + date->Some_0 + ")"@,
{
}

/// A crate is listed with its default binary, its binaries and its examples, one on a line and
/// in their order.
pub proof fn listings_name_every_target(
    args: CliArgs,
    krate: String,
    metadata: Metadata,
    i: int,
    step: RunStep,
)
    requires
        steps(args, RunPhase::Inspecting { krate }, RunEvent::Inspected(metadata), step),
        package_at(metadata.packages@, krate@) == Some(i),
    ensures
        ({
            let package = metadata.packages@[i];
            let bins = targets_of_kind(package.targets@, TargetKind::Bin);
            let examples = targets_of_kind(package.targets@, TargetKind::Example);
            &&& step.phase is Finished
            &&& bins.len() == 0 && examples.len() == 0 ==> (step.action matches RunAction::Fail(
                Error::NoPackageBinaries { krate: k },
            ) && k@ == krate@)
            &&& bins.len() > 0 || examples.len() > 0 ==> (
            step.action matches RunAction::PrintLines { lines } && lines@.len() == 1 + bins.len()
                + examples.len() && lines@[0]@ == "default_run: "@ + (match package.default_run {
                Some(name) => name@,
                None => "<not set>"@,
            }) && (forall|k: int|
                0 <= k < bins.len() ==> (#[trigger] lines@[1 + k])@ == "bin: "@ + bins[k]) && (
            forall|k: int|
                0 <= k < examples.len() ==> (#[trigger] lines@[1 + bins.len() + k])@ == "example: "@
                    + examples[k]))
        }),
{
    let package = metadata.packages@[i];
    let bins = targets_of_kind(package.targets@, TargetKind::Bin);
    let examples = targets_of_kind(package.targets@, TargetKind::Example);
    if let RunAction::PrintLines { lines } = step.action {
        let all = views(lines@);
        assert(all.len() == lines@.len());
        assert(all[0] == lines@[0]@);
        assert forall|k: int| 0 <= k < bins.len() implies (#[trigger] lines@[1 + k])@ == "bin: "@
            + bins[k] by {
            assert(all[1 + k] == lines@[1 + k]@);
        }
        assert forall|k: int| 0 <= k < examples.len() implies (#[trigger] lines@[1 + bins.len()
            + k])@ == "example: "@ + examples[k] by {
            assert(all[1 + bins.len() + k] == lines@[1 + bins.len() + k]@);
        }
    }
}

/// A listing of targets is one of what cargo says of the crate.
pub proof fn listed_targets_are_those_of_the_crate(
    krate: Seq<char>,
    metadata: Metadata,
    targets: Result<Targets, Error>,
    lines: Result<Vec<String>, Error>,
    i: int,
)
    requires
        finds_targets(targets, krate, metadata),
        package_at(metadata.packages@, krate) == Some(i),
        targets matches Ok(t) ==> lists_targets(lines, krate, t),
    ensures
        targets matches Ok(t) && {
            &&& t.default_run == metadata.packages@[i].default_run
            &&& views(t.bins@) == targets_of_kind(metadata.packages@[i].targets@, TargetKind::Bin)
            &&& views(t.examples@) == targets_of_kind(
                metadata.packages@[i].targets@,
                TargetKind::Example,
            )
            &&& lines is Ok <==> t.bins@.len() > 0 || t.examples@.len() > 0
            &&& lines matches Ok(l) ==> l@.len() == 1 + t.bins@.len() + t.examples@.len()
        },
{
    let t = targets->Ok_0;
    assert(views(t.bins@).len() == t.bins@.len());
    assert(views(t.examples@).len() == t.examples@.len());
    if let Ok(l) = lines {
        assert(views(l@).len() == l@.len());
    }
}

/// The error says that there is no such crate, names it, and offers the packages that there
/// are, in their order.
pub open spec fn is_unknown(e: Error, krate: Seq<char>, metadata: Metadata) -> bool {
    e matches Error::PackageNotFoundInWorkspace { name, available } && name@ == krate
        && available@.len() == metadata.packages@.len() && forall|k: int|
        0 <= k < available@.len() ==> (#[trigger] available@[k])@ == metadata.packages@[k].name@
}

/// The targets of a crate that cargo does not know are not listed: the error names the crate
/// and offers the others. That a crate has no target to run is an error that names it.
pub proof fn unknown_crates_are_not_listed(
    args: CliArgs,
    krate: String,
    metadata: Metadata,
    step: RunStep,
    found: Result<Targets, Error>,
    targets: Targets,
    lines: Result<Vec<String>, Error>,
)
    requires
        steps(args, RunPhase::Inspecting { krate }, RunEvent::Inspected(metadata), step),
        finds_targets(found, krate@, metadata),
        lists_targets(lines, krate@, targets),
    ensures
        found is Err <==> package_at(metadata.packages@, krate@) is None,
        found matches Err(e) ==> is_unknown(e, krate@, metadata),
        package_at(metadata.packages@, krate@) is None ==> (step.action matches RunAction::Fail(e)
            && is_unknown(e, krate@, metadata)) && step.phase is Finished,
        lines is Err <==> targets.bins@.len() == 0 && targets.examples@.len() == 0,
        lines matches Err(e) ==> (e matches Error::NoPackageBinaries { krate: k } && k@ == krate@),
{
    let names = package_names(metadata.packages@);
    if let Err(Error::PackageNotFoundInWorkspace { available, .. }) = found {
        assert(views(available@).len() == available@.len());
        assert forall|k: int| 0 <= k < available@.len() implies (#[trigger] available@[k])@
            == metadata.packages@[k].name@ by {
            assert(views(available@)[k] == available@[k]@);
        }
    }
    if let RunAction::Fail(Error::PackageNotFoundInWorkspace { available, .. }) = step.action {
        assert(views(available@).len() == available@.len());
        assert forall|k: int| 0 <= k < available@.len() && package_at(
            metadata.packages@,
            krate@,
        ) is None implies (#[trigger] available@[k])@ == metadata.packages@[k].name@ by {
            assert(views(available@)[k] == available@[k]@);
        }
    }
}

}
