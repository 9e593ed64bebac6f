//! One run of the program: from the command line to the tool that is executed.
use vstd::pervasive::unreached;
use vstd::prelude::*;
use vstd::string::*;

use crate::bin_resolver::ResolvedBinary;
use crate::builder::{
    find_package, names_of, package_at, package_names, target_names, targets_of_kind, BuildOptions,
    Metadata, Package, TargetKind,
};
use crate::cli::CliArgs;
use crate::config::Config;
use crate::cratespec::CrateSpec;
use crate::downloader::DownloadedCrate;
use crate::error::Error;
use crate::load::{loads, tool_args_of, wants_options};
use crate::paths::JoinedPath;
use crate::resolver::ResolvedCrate;
use crate::text::{opt_view, same, views};

verus! {

/// A build stamp that says that the build was to be reproducible, and so stands for nothing.
pub open spec fn is_blank(stamp: Seq<char>) -> bool {
    stamp == "VERGEN_IDEMPOTENT_OUTPUT"@
}

/// The program's version, with commit and date where both are known.
pub open spec fn version_line_of(
    version: Seq<char>,
    sha: Option<Seq<char>>,
    date: Option<Seq<char>>,
) -> Seq<char> {
    match (sha, date) {
        (Some(s), Some(d)) => if is_blank(s) || is_blank(d) {
            "cgx "@ + version
        } else {
            "cgx "@ + version + " ("@ + s + " "@ + d + ")"@
        },
        _ => "cgx "@ + version,
    }
}

/// The program's version, with commit and date where both are known.
pub fn version_line(version: &str, sha: &Option<String>, date: &Option<String>) -> (r: String)
    ensures
        r@ == version_line_of(version@, opt_view(*sha), opt_view(*date)),
{
    match (sha, date) {
        (Some(s), Some(d)) => if same(s.as_str(), "VERGEN_IDEMPOTENT_OUTPUT") || same(
            d.as_str(),
            "VERGEN_IDEMPOTENT_OUTPUT",
        ) {
            "cgx ".to_owned().concat(version)
        } else {
            "cgx ".to_owned().concat(version).concat(" (").concat(s.as_str()).concat(" ").concat(
                d.as_str(),
            ).concat(")")
        },
        _ => "cgx ".to_owned().concat(version),
    }
}

/// The program was asked for its own version: `--version` without a value.
pub open spec fn asks_version(args: CliArgs) -> bool {
    opt_view(args.version) == Some(Seq::<char>::empty())
}

/// Whether the program was asked for its own version.
pub fn wants_version(args: &CliArgs) -> (r: bool)
    ensures
        r == asks_version(*args),
{
    match &args.version {
        Some(version) => {
            assert(version@.len() == 0 ==> version@ =~= Seq::empty());
            version.as_str().is_empty()
        },
        None => false,
    }
}

/// The executable targets of a package.
#[derive(Clone, Debug, PartialEq, Eq)]
pub struct Targets {
    pub default_run: Option<String>,
    pub bins: Vec<String>,
    pub examples: Vec<String>,
}

/// The lines that list names, each behind a label.
pub open spec fn labelled(label: Seq<char>, names: Seq<Seq<char>>) -> Seq<Seq<char>> {
    names.map_values(|n: Seq<char>| label + n)
}

/// The lines that list a default binary, binaries and examples.
pub open spec fn listed(
    default_run: Option<Seq<char>>,
    bins: Seq<Seq<char>>,
    examples: Seq<Seq<char>>,
) -> Seq<Seq<char>> {
    seq![
        "default_run: "@ + (match default_run {
            Some(name) => name,
            None => "<not set>"@,
        }),
    ] + labelled("bin: "@, bins) + labelled("example: "@, examples)
}

/// The lines that list the executable targets of a package.
pub open spec fn listing_of(targets: Targets) -> Seq<Seq<char>> {
    listed(opt_view(targets.default_run), views(targets.bins@), views(targets.examples@))
}

/// The executable targets of a package, as cargo describes it.
pub fn targets_of(package: &Package) -> (r: Targets)
    ensures
        r.default_run == package.default_run,
        views(r.bins@) == targets_of_kind(package.targets@, TargetKind::Bin),
        views(r.examples@) == targets_of_kind(package.targets@, TargetKind::Example),
{
    Targets {
        default_run: crate::text::clone_opt(&package.default_run),
        bins: target_names(&package.targets, TargetKind::Bin),
        examples: target_names(&package.targets, TargetKind::Example),
    }
}

/// What cargo says of the executable targets of a crate.
pub open spec fn finds_targets(
    r: Result<Targets, Error>,
    krate: Seq<char>,
    metadata: Metadata,
) -> bool {
    match package_at(metadata.packages@, krate) {
        Some(i) => r matches Ok(targets) && targets.default_run
            == metadata.packages@[i].default_run && views(targets.bins@) == targets_of_kind(
            metadata.packages@[i].targets@,
            TargetKind::Bin,
        ) && views(targets.examples@) == targets_of_kind(
            metadata.packages@[i].targets@,
            TargetKind::Example,
        ),
        None => r matches Err(Error::PackageNotFoundInWorkspace { name, available }) && name@
            == krate && views(available@) == package_names(metadata.packages@),
    }
}

/// The executable targets of a crate, as cargo describes its workspace.
pub fn executable_targets(krate: &str, metadata: &Metadata) -> (r: Result<Targets, Error>)
    ensures
        finds_targets(r, krate@, *metadata),
{
    match find_package(&metadata.packages, krate) {
        Some(i) => Ok(targets_of(&metadata.packages[i])),
        None => Err(
            Error::PackageNotFoundInWorkspace {
                name: krate.to_owned(),
                available: names_of(&metadata.packages),
            },
        ),
    }
}

fn push_labelled(lines: &mut Vec<String>, label: &str, names: &Vec<String>)
    ensures
        views(final(lines)@) == views(old(lines)@) + labelled(label@, views(names@)),
{
    let ghost start = views(lines@);
    let ghost added = labelled(label@, views(names@));
    let mut i: usize = 0;
    assert(start + added.take(0) =~= start);
    while i < names.len()
        invariant
            i <= names.len(),
            added == labelled(label@, views(names@)),
            views(lines@) == start + added.take(i as int),
        decreases names.len() - i,
    {
        let line = label.to_owned().concat(names[i].as_str());
        let ghost before = lines@;
        assert(line@ == added[i as int]);
        lines.push(line);
        proof {
            assert(views(lines@) =~= views(before).push(line@));
            assert(start + added.take(i + 1) =~= (start + added.take(i as int)).push(
                added[i as int],
            ));
        }
        i = i + 1;
    }
    assert(added.take(i as int) =~= added);
}

/// The lines list the executable targets of a crate; having none is an error.
pub open spec fn lists_targets(
    r: Result<Vec<String>, Error>,
    krate: Seq<char>,
    targets: Targets,
) -> bool {
    match r {
        Ok(lines) => {
            &&& targets.bins@.len() > 0 || targets.examples@.len() > 0
            &&& views(lines@) == listing_of(targets)
        },
        Err(e) => {
            &&& targets.bins@.len() == 0 && targets.examples@.len() == 0
            &&& e matches Error::NoPackageBinaries { krate: k } && k@ == krate
        },
    }
}

/// The lines that list the executable targets of a crate, or an error where it has none.
pub fn list_targets(krate: &str, targets: &Targets) -> (r: Result<Vec<String>, Error>)
    ensures
        lists_targets(r, krate@, *targets),
{
    if targets.bins.len() == 0 && targets.examples.len() == 0 {
        return Err(Error::NoPackageBinaries { krate: krate.to_owned() });
    }
    let default = match &targets.default_run {
        Some(name) => name.as_str(),
        None => "<not set>",
    };
    let mut lines: Vec<String> = Vec::new();
    lines.push("default_run: ".to_owned().concat(default));
    assert(views(lines@) =~= seq![lines@[0]@]);
    push_labelled(&mut lines, "bin: ", &targets.bins);
    push_labelled(&mut lines, "example: ", &targets.examples);
    Ok(lines)
}

/// What a run waits for.
#[derive(Clone, Debug, PartialEq, Eq)]
pub enum RunPhase {
    /// The configuration.
    Loading,
    /// The exact crate.
    Resolving { options: BuildOptions },
    /// Its sources.
    Downloading { krate: ResolvedCrate, options: BuildOptions },
    /// What cargo says of the crate of this name.
    Inspecting { krate: String },
    /// A prebuilt binary.
    Searching { krate: DownloadedCrate, options: BuildOptions },
    /// The binary, built from source.
    Building,
    /// Nothing: the run is over.
    Finished,
}

/// How an action went.
#[derive(Clone, Debug, PartialEq, Eq)]
pub enum RunEvent {
    /// The configuration.
    Loaded(Config),
    /// The exact crate.
    Resolved(ResolvedCrate),
    /// Where its sources are.
    Downloaded { crate_path: JoinedPath },
    /// What cargo says of it.
    Inspected(Metadata),
    /// The prebuilt binary, if there is one.
    Searched(Option<ResolvedBinary>),
    /// Where the binary is.
    Built(JoinedPath),
    Failed(Error),
}

/// What is to be done next.
#[derive(Debug, PartialEq, Eq)]
pub enum RunAction {
    /// Print the line on standard error.
    PrintVersion { line: String },
    /// Load the configuration.
    Load,
    /// Resolve the specification.
    Resolve { spec: CrateSpec },
    /// Download the crate.
    Download { krate: ResolvedCrate },
    /// Ask cargo what is in the directory.
    Inspect { crate_path: JoinedPath },
    /// Look for a prebuilt binary of the crate that would serve the build.
    Search { krate: DownloadedCrate, options: BuildOptions },
    /// Build the crate.
    Build { krate: DownloadedCrate, options: BuildOptions },
    /// Print the lines on standard output.
    PrintLines { lines: Vec<String> },
    /// Print the path on standard output.
    PrintPath { path: JoinedPath },
    /// Execute the binary with the arguments.
    Execute { path: JoinedPath, args: Vec<String> },
    /// Report the error.
    Fail(Error),
}

/// What comes of an event: what to do, and what is then waited for.
#[derive(Debug, PartialEq, Eq)]
pub struct RunStep {
    pub phase: RunPhase,
    pub action: RunAction,
}

/// The event answers what the run waits for.
pub open spec fn answers(phase: RunPhase, event: RunEvent) -> bool {
    match phase {
        RunPhase::Loading => event is Loaded || event is Failed,
        RunPhase::Resolving { .. } => event is Resolved || event is Failed,
        RunPhase::Downloading { .. } => event is Downloaded || event is Failed,
        RunPhase::Inspecting { .. } => event is Inspected || event is Failed,
        RunPhase::Searching { .. } => event is Searched || event is Failed,
        RunPhase::Building => event is Built || event is Failed,
        RunPhase::Finished => false,
    }
}

/// The run ends with the binary: it is executed with the tool's arguments, or its path is
/// printed where it is not to be executed.
pub open spec fn hands_over(args: CliArgs, binary: JoinedPath, step: RunStep) -> bool {
    &&& step.phase is Finished
    &&& if args.no_exec {
        step.action == (RunAction::PrintPath { path: binary })
    } else {
        step.action matches RunAction::Execute { path, args: a } && path == binary && views(a@)
            == tool_args_of(args)
    }
}

/// The step resolves the specification that the command line and the configuration name, and
/// keeps the options that they name; or it ends the run where they name no crate.
pub open spec fn loads_step(args: CliArgs, config: Config, step: RunStep) -> bool {
    match step.action {
        RunAction::Resolve { spec } => {
            &&& loads(Ok(spec), config, args)
            &&& step.phase matches RunPhase::Resolving { options } && wants_options(
                config,
                args,
                options,
            )
        },
        RunAction::Fail(e) => step.phase is Finished && loads(Err(e), config, args),
        _ => false,
    }
}

/// The step lists the targets of the crate, or fails where cargo does not know it or it has
/// none.
pub open spec fn lists_step(krate: Seq<char>, metadata: Metadata, step: RunStep) -> bool {
    &&& step.phase is Finished
    &&& match package_at(metadata.packages@, krate) {
        Some(i) => {
            let package = metadata.packages@[i];
            let bins = targets_of_kind(package.targets@, TargetKind::Bin);
            let examples = targets_of_kind(package.targets@, TargetKind::Example);
            if bins.len() == 0 && examples.len() == 0 {
                step.action matches RunAction::Fail(Error::NoPackageBinaries { krate: k }) && k@
                    == krate
            } else {
                step.action matches RunAction::PrintLines { lines } && views(lines@) == listed(
                    opt_view(package.default_run),
                    bins,
                    examples,
                )
            }
        },
        None => step.action matches RunAction::Fail(
            Error::PackageNotFoundInWorkspace { name, available },
        ) && name@ == krate && views(available@) == package_names(metadata.packages@),
    }
}

/// What comes of an event in each phase.
pub open spec fn steps(args: CliArgs, phase: RunPhase, event: RunEvent, step: RunStep) -> bool {
    match (phase, event) {
        (_, RunEvent::Failed(e)) => step.phase is Finished && step.action == RunAction::Fail(e),
        (RunPhase::Loading, RunEvent::Loaded(config)) => loads_step(args, config, step),
        (RunPhase::Resolving { options }, RunEvent::Resolved(krate)) => {
            &&& step.phase == (RunPhase::Downloading { krate, options })
            &&& step.action == (RunAction::Download { krate })
        },
        (RunPhase::Downloading { krate, options }, RunEvent::Downloaded { crate_path }) => {
            if args.list_targets {
                &&& step.phase == (RunPhase::Inspecting { krate: krate.name })
                &&& step.action == (RunAction::Inspect { crate_path })
            } else {
                let downloaded = DownloadedCrate { resolved: krate, crate_path };
                &&& step.phase == (RunPhase::Searching { krate: downloaded, options })
                &&& step.action matches RunAction::Search { krate: k, options: o } && k.same_as(
                    downloaded,
                ) && o.same_as(options)
            }
        },
        (RunPhase::Inspecting { krate }, RunEvent::Inspected(metadata)) => lists_step(
            krate@,
            metadata,
            step,
        ),
        (RunPhase::Searching { .. }, RunEvent::Searched(Some(binary))) => hands_over(
            args,
            binary.path,
            step,
        ),
        (RunPhase::Searching { krate, options }, RunEvent::Searched(None)) => {
            &&& step.phase is Building
            &&& step.action == (RunAction::Build { krate, options })
        },
        (RunPhase::Building, RunEvent::Built(path)) => hands_over(args, path, step),
        _ => false,
    }
}

/// The step starts a run. Where the program is asked for its own version, that is all it does.
pub open spec fn starts(
    args: CliArgs,
    version: Seq<char>,
    sha: Option<Seq<char>>,
    date: Option<Seq<char>>,
    step: RunStep,
) -> bool {
    if asks_version(args) {
        &&& step.phase is Finished
        &&& step.action matches RunAction::PrintVersion { line } && line@ == version_line_of(
            version,
            sha,
            date,
        )
    } else {
        step.phase is Loading && step.action is Load
    }
}

/// Start a run. Where the program is asked for its own version, that is all it does.
pub fn start(args: &CliArgs, version: &str, sha: &Option<String>, date: &Option<String>) -> (r:
    RunStep)
    ensures
        starts(*args, version@, opt_view(*sha), opt_view(*date), r),
{
    if wants_version(args) {
        return RunStep {
            phase: RunPhase::Finished,
            action: RunAction::PrintVersion { line: version_line(version, sha, date) },
        };
    }
    RunStep { phase: RunPhase::Loading, action: RunAction::Load }
}

fn hand_over(args: &CliArgs, path: JoinedPath) -> (r: RunStep)
    ensures
        hands_over(*args, path, r),
{
    let action = if args.no_exec {
        RunAction::PrintPath { path }
    } else {
        RunAction::Execute { path, args: CrateSpec::get_binary_args(args) }
    };
    RunStep { phase: RunPhase::Finished, action }
}

fn load_step(args: &CliArgs, config: &Config) -> (r: RunStep)
    ensures
        loads_step(*args, *config, r),
{
    let spec = match CrateSpec::load(config, args) {
        Ok(spec) => spec,
        Err(e) => {
            return RunStep { phase: RunPhase::Finished, action: RunAction::Fail(e) };
        },
    };
    match BuildOptions::load(config, args) {
        Ok(options) => RunStep {
            phase: RunPhase::Resolving { options },
            action: RunAction::Resolve { spec },
        },
        Err(_) => unreached(),
    }
}

fn list_step(krate: &str, metadata: &Metadata) -> (r: RunStep)
    ensures
        lists_step(krate@, *metadata, r),
{
    let action = match executable_targets(krate, metadata) {
        Ok(targets) => {
            assert(views(targets.bins@).len() == targets.bins@.len());
            assert(views(targets.examples@).len() == targets.examples@.len());
            match list_targets(krate, &targets) {
                Ok(lines) => RunAction::PrintLines { lines },
                Err(e) => RunAction::Fail(e),
            }
        },
        Err(e) => RunAction::Fail(e),
    };
    RunStep { phase: RunPhase::Finished, action }
}

/// Go on with a run once the last action is over.
pub fn next(args: &CliArgs, phase: RunPhase, event: RunEvent) -> (r: RunStep)
    requires
        answers(phase, event),
    ensures
        steps(*args, phase, event, r),
{
    match (phase, event) {
        (_, RunEvent::Failed(e)) => RunStep {
            phase: RunPhase::Finished,
            action: RunAction::Fail(e),
        },
        (RunPhase::Loading, RunEvent::Loaded(config)) => load_step(args, &config),
        (RunPhase::Resolving { options }, RunEvent::Resolved(krate)) => {
            let copy = krate.clone();
            RunStep {
                phase: RunPhase::Downloading { krate, options },
                action: RunAction::Download { krate: copy },
            }
        },
        (RunPhase::Downloading { krate, options }, RunEvent::Downloaded { crate_path }) => {
            if args.list_targets {
                RunStep {
                    phase: RunPhase::Inspecting { krate: krate.name },
                    action: RunAction::Inspect { crate_path },
                }
            } else {
                let downloaded = DownloadedCrate { resolved: krate, crate_path };
                let copy = downloaded.copied();
                let same_options = options.copied();
                RunStep {
                    phase: RunPhase::Searching { krate: downloaded, options },
                    action: RunAction::Search { krate: copy, options: same_options },
                }
            }
        },
        (RunPhase::Inspecting { krate }, RunEvent::Inspected(metadata)) => list_step(
            krate.as_str(),
            &metadata,
        ),
        (RunPhase::Searching { .. }, RunEvent::Searched(Some(binary))) => hand_over(
            args,
            binary.path,
        ),
        (RunPhase::Searching { krate, options }, RunEvent::Searched(None)) => RunStep {
            phase: RunPhase::Building,
            action: RunAction::Build { krate, options },
        },
        (RunPhase::Building, RunEvent::Built(path)) => hand_over(args, path),
        _ => unreached(),
    }
}

/// Whether the event answers what the run waits for.
pub fn awaits(phase: &RunPhase, event: &RunEvent) -> (r: bool)
    ensures
        r == answers(*phase, *event),
{
    match (phase, event) {
        (RunPhase::Finished, _) => false,
        (_, RunEvent::Failed(_)) => true,
        (RunPhase::Loading, RunEvent::Loaded(_)) => true,
        (RunPhase::Resolving { .. }, RunEvent::Resolved(_)) => true,
        (RunPhase::Downloading { .. }, RunEvent::Downloaded { .. }) => true,
        (RunPhase::Inspecting { .. }, RunEvent::Inspected(_)) => true,
        (RunPhase::Searching { .. }, RunEvent::Searched(_)) => true,
        (RunPhase::Building, RunEvent::Built(_)) => true,
        _ => false,
    }
}

/// Only targets are being listed: no binary has been asked for.
pub open spec fn is_looking(phase: RunPhase) -> bool {
    !(phase is Searching) && !(phase is Building)
}

/// With `--no-exec` nothing is ever executed. A run starts without asking for a binary, and
/// with `--list-targets` it never comes to that: nothing is searched for, built or executed.
pub proof fn looking_executes_nothing(
    args: CliArgs,
    phase: RunPhase,
    event: RunEvent,
    step: RunStep,
)
    requires
        steps(args, phase, event, step),
    ensures
        args.no_exec ==> !(step.action is Execute),
        is_looking(RunPhase::Loading),
        args.list_targets && is_looking(phase) ==> {
            &&& is_looking(step.phase)
            &&& !(step.action is Search)
            &&& !(step.action is Build)
            &&& !(step.action is Execute)
            &&& !(step.action is PrintPath)
        },
{
}

/// A binary is executed only once it was found or built, and then it is that binary.
pub proof fn only_the_binary_is_executed(
    args: CliArgs,
    phase: RunPhase,
    event: RunEvent,
    step: RunStep,
)
    requires
        steps(args, phase, event, step),
    ensures
        step.action matches RunAction::Execute { path, .. } ==> !args.no_exec && (match event {
            RunEvent::Searched(Some(binary)) => binary.path == path,
            RunEvent::Built(built) => built == path,
            _ => false,
        }),
{
}

/// A failure ends the run with that failure, whatever was being done.
pub proof fn failures_end_the_run(args: CliArgs, phase: RunPhase, e: Error, step: RunStep)
    requires
        steps(args, phase, RunEvent::Failed(e), step),
    ensures
        step.action == RunAction::Fail(e),
        step.phase is Finished,
{
}

/// How far a run has come.
pub open spec fn progress(phase: RunPhase) -> nat {
    match phase {
        RunPhase::Loading => 0,
        RunPhase::Resolving { .. } => 1,
        RunPhase::Downloading { .. } => 2,
        RunPhase::Inspecting { .. } => 3,
        RunPhase::Searching { .. } => 4,
        RunPhase::Building => 5,
        RunPhase::Finished => 6,
    }
}

/// Every step brings a run further, so it ends after six answers at most.
pub proof fn runs_come_to_an_end(args: CliArgs, phase: RunPhase, event: RunEvent, step: RunStep)
    requires
        answers(phase, event),
        steps(args, phase, event, step),
    ensures
        progress(phase) < progress(step.phase) <= 6,
{
}

/// A run from its start: each event answers the step before it, and each step but the first is
/// what comes of an event.
pub open spec fn is_run(args: CliArgs, taken: Seq<RunStep>, events: Seq<RunEvent>) -> bool {
    &&& taken.len() == events.len() + 1
    &&& taken[0].phase is Loading
    &&& forall|i: int|
        0 <= i < events.len() ==> answers((#[trigger] taken[i]).phase, events[i]) && steps(
            args,
            taken[i].phase,
            events[i],
            taken[i + 1],
        )
}

/// One crate runs through: the specification resolved is the one that the command line and the
/// configuration name, the crate downloaded is the one that it was resolved to, and the crate
/// that a binary is looked for, and that is built, is the one downloaded, with the options that
/// the command line and the configuration name.
pub proof fn one_crate_runs_through(
    args: CliArgs,
    taken: Seq<RunStep>,
    events: Seq<RunEvent>,
    config: Config,
    krate: ResolvedCrate,
    crate_path: JoinedPath,
)
    requires
        is_run(args, taken, events),
        events.len() >= 3,
        events[0] == RunEvent::Loaded(config),
        events[1] == RunEvent::Resolved(krate),
        events[2] == (RunEvent::Downloaded { crate_path }),
    ensures
        taken[1].action matches RunAction::Resolve { spec } && loads(Ok(spec), config, args),
        taken[2].action == (RunAction::Download { krate }),
        args.list_targets ==> taken[3].action == (RunAction::Inspect { crate_path }),
        !args.list_targets ==> (taken[3].action matches RunAction::Search { krate: k, options }
            && k.same_as(DownloadedCrate { resolved: krate, crate_path })),
        events.len() >= 4 && events[3] == RunEvent::Searched(None) ==> (
        taken[4].action matches RunAction::Build { krate: k, options } && k == (DownloadedCrate {
            resolved: krate,
            crate_path,
        }) && wants_options(config, args, options)),
{
    assert(answers(taken[0].phase, events[0]) && steps(args, taken[0].phase, events[0], taken[1]));
    assert(answers(taken[1].phase, events[1]) && steps(args, taken[1].phase, events[1], taken[2]));
    assert(answers(taken[2].phase, events[2]) && steps(args, taken[2].phase, events[2], taken[3]));
    if events.len() >= 4 {
        assert(answers(taken[3].phase, events[3]) && steps(
            args,
            taken[3].phase,
            events[3],
            taken[4],
        ));
    }
}

}
