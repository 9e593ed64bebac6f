//! The command line.
use vstd::prelude::*;
use vstd::string::*;

use crate::config::{BinaryProvider, UsePrebuiltBinaries};
use crate::text::{after_last, chars_of, has_prefix, last_piece, same, starts_with, views};

verus! {

/// The options and arguments of one invocation.
#[derive(Clone, Debug, PartialEq, Eq)]
#[non_exhaustive]
pub struct CliArgs {
    /// Rust toolchain override, from a leading `+toolchain` argument.
    pub toolchain: Option<String>,
    /// URL of a git repository that holds the crate.
    pub git: Option<String>,
    /// Name of a registry configured in `.cargo/config.toml`.
    pub registry: Option<String>,
    /// Path of a local crate.
    pub path: Option<String>,
    /// GitHub repository that holds the crate, as `owner/repo`.
    pub github: Option<String>,
    /// GitLab repository that holds the crate, as `owner/repo`.
    pub gitlab: Option<String>,
    /// URL of a registry index.
    pub index: Option<String>,
    /// Base URL of a GitHub Enterprise instance.
    pub github_url: Option<String>,
    /// Base URL of a self-hosted GitLab instance.
    pub gitlab_url: Option<String>,
    /// Branch of the git repository.
    pub branch: Option<String>,
    /// Tag of the git repository.
    pub tag: Option<String>,
    /// Commit of the git repository.
    pub rev: Option<String>,
    /// Version of the crate; the empty text asks for the version of the program itself.
    pub version: Option<String>,
    /// Features to activate, separated by spaces or commas.
    pub features: Option<String>,
    /// Activate all features.
    pub all_features: bool,
    /// Do not activate the default features.
    pub no_default_features: bool,
    /// Build profile.
    pub profile: Option<String>,
    /// Build with the `dev` profile.
    pub debug: bool,
    /// Target triple to build for.
    pub target: Option<String>,
    /// Require that `Cargo.lock` stays unchanged.
    pub locked: bool,
    /// Both `locked` and `offline`.
    pub frozen: bool,
    /// Stay off the network.
    pub offline: bool,
    /// Number of parallel jobs.
    pub jobs: Option<usize>,
    /// Ignore the `rust-version` of packages.
    pub ignore_rust_version: bool,
    /// Binary to run.
    pub bin: Option<String>,
    /// Example to run.
    pub example: Option<String>,
    /// How often verbose output was asked for.
    pub verbose: u8,
    /// Leave out cargo's messages.
    pub quiet: bool,
    /// When to use colour.
    pub color: Option<String>,
    /// The only configuration file to read.
    pub config_file: Option<String>,
    /// Directory of the system configuration file.
    pub system_config_dir: Option<String>,
    /// Directory under which everything of the program is kept.
    pub app_dir: Option<String>,
    /// Directory of the user configuration file.
    pub user_config_dir: Option<String>,
    /// Print messages as JSON.
    pub json_messages: bool,
    /// Ask the providers of prebuilt binaries again, whatever is cached.
    pub refresh: bool,
    /// Whether prebuilt binaries are used.
    pub prebuilt_binary: Option<UsePrebuiltBinaries>,
    /// The only providers of prebuilt binaries to ask.
    pub prebuilt_binary_sources: Option<Vec<BinaryProvider>>,
    /// Print the path of the binary in place of running it.
    pub no_exec: bool,
    /// List the crate's executable targets in place of running one.
    pub list_targets: bool,
    /// The crate to run, optionally with `@VERSION` behind its name.
    pub crate_spec: Option<String>,
    /// Arguments for the tool.
    pub args: Vec<String>,
}

impl Default for CliArgs {
    /// No option and no argument given.
    fn default() -> (r: Self)
        ensures
            r.toolchain is None,
            r.git is None,
            r.registry is None,
            r.path is None,
            r.github is None,
            r.gitlab is None,
            r.index is None,
            r.github_url is None,
            r.gitlab_url is None,
            r.branch is None,
            r.tag is None,
            r.rev is None,
            r.version is None,
            r.features is None,
            !r.all_features,
            !r.no_default_features,
            r.profile is None,
            !r.debug,
            r.target is None,
            !r.locked,
            !r.frozen,
            !r.offline,
            r.jobs is None,
            !r.ignore_rust_version,
            r.bin is None,
            r.example is None,
            r.verbose == 0,
            !r.quiet,
            r.color is None,
            r.config_file is None,
            r.system_config_dir is None,
            r.app_dir is None,
            r.user_config_dir is None,
            !r.json_messages,
            !r.refresh,
            r.prebuilt_binary is None,
            r.prebuilt_binary_sources is None,
            !r.no_exec,
            !r.list_targets,
            r.crate_spec is None,
            r.args@ == Seq::<String>::empty(),
    {
        CliArgs {
            toolchain: None,
            git: None,
            registry: None,
            path: None,
            github: None,
            gitlab: None,
            index: None,
            github_url: None,
            gitlab_url: None,
            branch: None,
            tag: None,
            rev: None,
            version: None,
            features: None,
            all_features: false,
            no_default_features: false,
            profile: None,
            debug: false,
            target: None,
            locked: false,
            frozen: false,
            offline: false,
            jobs: None,
            ignore_rust_version: false,
            bin: None,
            example: None,
            verbose: 0,
            quiet: false,
            color: None,
            config_file: None,
            system_config_dir: None,
            app_dir: None,
            user_config_dir: None,
            json_messages: false,
            refresh: false,
            prebuilt_binary: None,
            prebuilt_binary_sources: None,
            no_exec: false,
            list_targets: false,
            crate_spec: None,
            args: Vec::new(),
        }
    }
}

/// The second argument names a toolchain: it is a `+` with something behind it.
pub open spec fn names_toolchain(args: Seq<Seq<char>>) -> bool {
    args.len() > 1 && args[1].len() > 1 && args[1][0] == '+'
}

/// The file name in the path of a program.
pub open spec fn program_name(path: Seq<char>) -> Seq<char> {
    after_last(after_last(path, '/'), '\\')
}

/// The program runs as `cargo cgx`: cargo calls it under that name and repeats the name of the
/// subcommand.
pub open spec fn runs_as_subcommand(args: Seq<Seq<char>>) -> bool {
    &&& args.len() > 1
    &&& program_name(args[0]) == "cargo-cgx"@ || program_name(args[0]) == "cargo-cgx.exe"@
    &&& args[1] == "cgx"@
}

/// The words name a version right behind the crate: `CRATE --version VERSION`.
pub open spec fn states_version(words: Seq<Seq<char>>) -> bool {
    words.len() > 2 && words[1] == "--version"@ && !has_prefix(words[2], "-"@)
}

/// The words without a leading `--`.
pub open spec fn behind_separator(words: Seq<Seq<char>>) -> Seq<Seq<char>> {
    if words.len() > 0 && words[0] == "--"@ {
        words.skip(1)
    } else {
        words
    }
}

/// The words behind the options of the program.
#[derive(Clone, Debug, PartialEq, Eq)]
pub struct CommandWords {
    /// The crate to run.
    pub crate_spec: Option<String>,
    /// The version that stands behind it.
    pub version: Option<String>,
    /// Arguments for the tool.
    pub args: Vec<String>,
}

/// The arguments without the name of the subcommand.
pub open spec fn strips(args: Seq<String>, r: Seq<String>) -> bool {
    r == (if runs_as_subcommand(views(args)) {
        args.remove(1)
    } else {
        args
    })
}

/// The words taken apart: the crate, the version behind it, and the arguments for the tool.
pub open spec fn splits(all: Seq<Seq<char>>, r: CommandWords) -> bool {
    if all.len() == 0 {
        r.crate_spec is None && r.version is None && r.args@.len() == 0
    } else {
        &&& r.crate_spec matches Some(krate) && krate@ == all[0]
        &&& if states_version(all) {
            &&& r.version matches Some(version) && version@ == all[2]
            &&& views(r.args@) == behind_separator(all.skip(3))
        } else {
            &&& r.version is None
            &&& views(r.args@) == behind_separator(all.skip(1))
        }
    }
}

/// The toolchain that the arguments name, and the arguments without it.
pub open spec fn extracts(
    args: Seq<String>,
    toolchain: Option<String>,
    rest: Seq<String>,
) -> bool {
    match toolchain {
        Some(toolchain) => {
            &&& names_toolchain(views(args))
            &&& toolchain@ == args[1]@.skip(1)
            &&& rest == args.remove(1)
        },
        None => !names_toolchain(views(args)) && rest == args,
    }
}

impl CliArgs {
    /// Take out the name of the subcommand where cargo calls the program, so that
    /// `cargo cgx tool` is the same as `cgx tool`. The first argument is the path of the
    /// program.
    pub fn strip_subcommand(args: Vec<String>) -> (r: Vec<String>)
        ensures
            strips(args@, r@),
    {
        if args.len() > 1 {
            assert(views(args@)[0] == args@[0]@ && views(args@)[1] == args@[1]@);
            let file = last_piece(args[0].as_str(), '/');
            let program = last_piece(file.as_str(), '\\');
            let cargo = same(program.as_str(), "cargo-cgx") || same(
                program.as_str(),
                "cargo-cgx.exe",
            );
            if cargo && same(args[1].as_str(), "cgx") {
                let mut rest = args;
                rest.remove(1);
                return rest;
            }
        }
        args
    }

    /// Take the words behind the options of the program apart. The first is the crate, and
    /// everything behind it is for the tool, options too: the options of the program come
    /// before the crate. Only a version may stand right behind the crate, as
    /// `--version VERSION`. A `--` in front of the tool's arguments is left out.
    pub fn split_command(words: Vec<String>) -> (r: CommandWords)
        ensures
            splits(views(words@), r),
    {
        let ghost all = views(words@);
        let mut rest = words;
        if rest.len() == 0 {
            return CommandWords { crate_spec: None, version: None, args: rest };
        }
        let krate = rest.remove(0);
        assert(views(rest@) =~= all.skip(1));
        assert(rest@.len() > 1 ==> rest@[0]@ == all[1] && rest@[1]@ == all[2]);
        let mut version: Option<String> = None;
        if rest.len() > 1 && same(rest[0].as_str(), "--version") && !starts_with(
            rest[1].as_str(),
            "-",
        ) {
            rest.remove(0);
            version = Some(rest.remove(0));
            assert(views(rest@) =~= all.skip(3));
        }
        let ghost tail = views(rest@);
        assert(rest@.len() > 0 ==> tail[0] == rest@[0]@);
        if rest.len() > 0 && same(rest[0].as_str(), "--") {
            rest.remove(0);
            assert(views(rest@) =~= tail.skip(1));
        }
        CommandWords { crate_spec: Some(krate), version, args: rest }
    }

    /// Take a `+toolchain` argument out of the arguments, of which the first is the name of
    /// the program. Only the argument right behind it can name a toolchain, and a bare `+`
    /// names none.
    pub fn extract_toolchain(args: Vec<String>) -> (r: (Option<String>, Vec<String>))
        ensures
            extracts(args@, r.0, r.1@),
    {
        assert(args@.len() > 1 ==> views(args@)[1] == args@[1]@);
        if args.len() > 1 {
            let second = chars_of(args[1].as_str());
            if second.len() > 1 && second[0] == '+' {
                let toolchain = args[1].as_str().substring_char(1, second.len()).to_owned();
                assert(toolchain@ =~= args@[1]@.skip(1));
                let mut rest = args;
                rest.remove(1);
                return (Some(toolchain), rest);
            }
        }
        (None, args)
    }
}

/// Under cargo the program sees the arguments that it sees when it is called by itself.
pub proof fn subcommands_see_the_same_arguments(
    program: Seq<char>,
    cargo: Seq<char>,
    rest: Seq<Seq<char>>,
)
    requires
        program_name(cargo) == "cargo-cgx"@,
    ensures
        runs_as_subcommand(seq![cargo, "cgx"@] + rest),
        (seq![cargo, "cgx"@] + rest).remove(1).skip(1) == (seq![program] + rest).skip(1),
{
    assert((seq![cargo, "cgx"@] + rest).remove(1).skip(1) =~= rest);
    assert((seq![program] + rest).skip(1) =~= rest);
}

}
