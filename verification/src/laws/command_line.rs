//! The command line: what is taken out of it, and what is left for the tool.
use vstd::prelude::*;
use vstd::string::*;

use crate::cli::{extracts, splits, strips, CommandWords};
use crate::laws::texts::{separated_texts_come_apart, texts_without_separator};
use crate::text::views;

verus! {

/// A `+NAME` right behind the program is the toolchain, without its `+`, and everything else
/// stays in its order.
pub proof fn toolchains_are_taken_out(
    program: String,
    toolchain: String,
    rest: Seq<String>,
    found: Option<String>,
    left: Seq<String>,
)
    requires
        toolchain@.len() > 1,
        toolchain@[0] == '+',
        extracts(seq![program, toolchain] + rest, found, left),
    ensures
        found matches Some(name) && "+"@ + name@ == toolchain@,
        left == seq![program] + rest,
{
    reveal_strlit("+");
    let args = seq![program, toolchain] + rest;
    assert(views(args)[1] == toolchain@);
    assert(args[1] == toolchain);
    assert(toolchain@ =~= "+"@ + toolchain@.skip(1));
    assert(args.remove(1) =~= seq![program] + rest);
}

/// Without a `+NAME` right behind the program no toolchain is named, and the arguments stay as
/// they are. A bare `+` names none.
pub proof fn other_arguments_are_no_toolchains(
    args: Seq<String>,
    found: Option<String>,
    left: Seq<String>,
)
    requires
        args.len() < 2 || args[1]@.len() == 0 || args[1]@ == "+"@ || args[1]@[0] != '+',
        extracts(args, found, left),
    ensures
        found is None,
        left == args,
{
    reveal_strlit("+");
    if args.len() > 1 {
        assert(views(args)[1] == args[1]@);
    }
}

/// Under cargo the name of the subcommand is left out, whatever directory the program is in,
/// and everything else stays in its order.
pub proof fn subcommands_are_left_out(
    directory: Seq<char>,
    program: String,
    subcommand: String,
    rest: Seq<String>,
    left: Seq<String>,
)
    requires
        program@ == "cargo-cgx"@ || program@ == "cargo-cgx.exe"@ || program@ == directory
            + "/cargo-cgx"@ || program@ == directory + "\\cargo-cgx.exe"@,
        subcommand@ == "cgx"@,
        !directory.contains('/') || program@ != directory + "\\cargo-cgx.exe"@,
        strips(seq![program, subcommand] + rest, left),
    ensures
        left == seq![program] + rest,
{
    reveal_strlit("cargo-cgx");
    reveal_strlit("cargo-cgx.exe");
    reveal_strlit("/cargo-cgx");
    reveal_strlit("\\cargo-cgx.exe");
    let args = seq![program, subcommand] + rest;
    assert(views(args)[0] == program@);
    assert(views(args)[1] == subcommand@);
    assert(args.remove(1) =~= seq![program] + rest);
    texts_without_separator("cargo-cgx"@, '/');
    texts_without_separator("cargo-cgx"@, '\\');
    texts_without_separator("cargo-cgx.exe"@, '/');
    texts_without_separator("cargo-cgx.exe"@, '\\');
    separated_texts_come_apart(directory, '/', "cargo-cgx"@);
    separated_texts_come_apart(directory, '\\', "cargo-cgx.exe"@);
    assert(directory + "/cargo-cgx"@ =~= directory.push('/') + "cargo-cgx"@);
    assert(directory + "\\cargo-cgx.exe"@ =~= directory.push('\\') + "cargo-cgx.exe"@);
    if program@ == directory + "\\cargo-cgx.exe"@ {
        assert(!program@.contains('/'));
        texts_without_separator(program@, '/');
    }
}

/// Where the argument behind the program is not `cgx`, nothing is left out; nor where the
/// program has another name.
pub proof fn other_arguments_are_not_left_out(args: Seq<String>, left: Seq<String>)
    requires
        args.len() < 2 || args[1]@ != "cgx"@ || args[0]@ == "cgx"@,
        strips(args, left),
    ensures
        left == args,
{
    reveal_strlit("cgx");
    reveal_strlit("cargo-cgx");
    reveal_strlit("cargo-cgx.exe");
    if args.len() > 1 {
        assert(views(args)[0] == args[0]@);
        assert(views(args)[1] == args[1]@);
        texts_without_separator("cgx"@, '/');
        texts_without_separator("cgx"@, '\\');
        assert("cgx"@.len() != "cargo-cgx"@.len());
        assert("cgx"@.len() != "cargo-cgx.exe"@.len());
    }
}

/// Without words there is no crate, no version and no argument.
pub proof fn no_words_are_no_crate(r: CommandWords)
    requires
        splits(Seq::empty(), r),
    ensures
        r.crate_spec is None,
        r.version is None,
        r.args@.len() == 0,
{
}

/// The first word is the crate, and everything behind it goes to the tool as it stands, unless
/// it starts with `--` or with `--version`.
pub proof fn words_behind_the_crate_are_for_the_tool(
    krate: Seq<char>,
    rest: Seq<Seq<char>>,
    r: CommandWords,
)
    requires
        rest.len() == 0 || (rest[0] != "--"@ && rest[0] != "--version"@),
        splits(seq![krate] + rest, r),
    ensures
        r.crate_spec matches Some(c) && c@ == krate,
        r.version is None,
        views(r.args@) == rest,
{
    let all = seq![krate] + rest;
    assert(all.skip(1) =~= rest);
    assert(rest.len() > 0 ==> all[1] == rest[0]);
}

/// A `--` behind the crate is left out, once: what follows goes to the tool, another `--` and a
/// `--version` too.
pub proof fn separators_are_left_out(krate: Seq<char>, rest: Seq<Seq<char>>, r: CommandWords)
    requires
        splits(seq![krate, "--"@] + rest, r),
    ensures
        r.crate_spec matches Some(c) && c@ == krate,
        r.version is None,
        views(r.args@) == rest,
{
    reveal_strlit("--");
    reveal_strlit("--version");
    let all = seq![krate, "--"@] + rest;
    assert("--"@.len() != "--version"@.len());
    assert(all[1] == "--"@);
    assert(all.skip(1).skip(1) =~= rest);
    assert(all.skip(1)[0] == "--"@);
}

/// `--version VERSION` right behind the crate is the version of the crate, and the words behind
/// it are split as they would be right behind the crate, but for a second version.
pub proof fn versions_behind_the_crate_are_its_own(
    krate: Seq<char>,
    version: Seq<char>,
    rest: Seq<Seq<char>>,
    r: CommandWords,
    without: CommandWords,
)
    requires
        version.len() == 0 || version[0] != '-',
        rest.len() == 0 || rest[0] != "--version"@,
        splits(seq![krate, "--version"@, version] + rest, r),
        splits(seq![krate] + rest, without),
    ensures
        r.crate_spec matches Some(c) && c@ == krate,
        r.version matches Some(v) && v@ == version,
        views(r.args@) == views(without.args@),
        rest.len() == 0 || rest[0] != "--"@ ==> views(r.args@) == rest,
{
    reveal_strlit("-");
    let all = seq![krate, "--version"@, version] + rest;
    let short = seq![krate] + rest;
    assert(all[1] == "--version"@);
    assert(all[2] == version);
    assert(all.skip(3) =~= rest);
    assert(short.skip(1) =~= rest);
    assert(rest.len() > 0 ==> short[1] == rest[0]);
    assert("-"@[0] == '-');
}

/// `--version` with an option behind it, or with nothing, is an argument of the tool.
pub proof fn version_flags_may_be_for_the_tool(
    krate: Seq<char>,
    rest: Seq<Seq<char>>,
    r: CommandWords,
)
    requires
        rest.len() == 0 || (rest[0].len() > 0 && rest[0][0] == '-'),
        splits(seq![krate, "--version"@] + rest, r),
    ensures
        r.crate_spec matches Some(c) && c@ == krate,
        r.version is None,
        views(r.args@) == seq!["--version"@] + rest,
{
    reveal_strlit("--");
    reveal_strlit("--version");
    reveal_strlit("-");
    let all = seq![krate, "--version"@] + rest;
    assert(all.skip(1) =~= seq!["--version"@] + rest);
    assert(all.skip(1)[0] == "--version"@);
    assert("--"@.len() != "--version"@.len());
    assert(rest.len() > 0 ==> all[2] == rest[0]);
    if rest.len() > 0 {
        assert(rest[0].take(1) =~= "-"@);
        assert(rest[0].subrange(0, 1) =~= "-"@);
    }
}

}
