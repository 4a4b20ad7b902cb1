//! The command line's first decisions: printing the version, defaulting to
//! `auto`, and the banner shown before a command.
use vstd::prelude::*;
use crate::text::{chars_of, copy_str, eq_str, push_char, push_str};

verus! {

/// The subcommands, by name.
pub open spec fn known_commands() -> Seq<Seq<char>> {
    seq!["auto"@, "generate"@, "plan"@, "build"@, "run"@, "deploy"@]
}

/// What to do with the arguments before parsing them.
#[derive(Debug, Clone, Copy, PartialEq, Eq, Structural)]
pub enum ArgumentAction {
    /// Print the version and stop.
    PrintVersion,
    /// Put `auto` before the arguments.
    InsertAuto,
    /// Parse the arguments as they are.
    Parse,
}

/// `--version`/`-v` first prints the version; no argument, an option or a
/// path first means `auto`.
pub open spec fn argument_action_spec(first: Option<Seq<char>>) -> ArgumentAction {
    match first {
        None => ArgumentAction::InsertAuto,
        Some(a) => if a == "--version"@ || a == "-v"@ {
            ArgumentAction::PrintVersion
        } else if (a.len() > 0 && a[0] == '-') || !known_commands().contains(a) {
            ArgumentAction::InsertAuto
        } else {
            ArgumentAction::Parse
        },
    }
}

fn known_command(a: &str) -> (r: bool)
    ensures
        r == known_commands().contains(a@),
{
    let r = eq_str(a, "auto") || eq_str(a, "generate") || eq_str(a, "plan") || eq_str(a, "build") || eq_str(a, "run")
        || eq_str(a, "deploy");
    proof {
        let k = known_commands();
        if r {
            if a@ == "auto"@ {
                assert(k[0] == a@);
            } else if a@ == "generate"@ {
                assert(k[1] == a@);
            } else if a@ == "plan"@ {
                assert(k[2] == a@);
            } else if a@ == "build"@ {
                assert(k[3] == a@);
            } else if a@ == "run"@ {
                assert(k[4] == a@);
            } else {
                assert(k[5] == a@);
            }
        }
        if k.contains(a@) {
            let i = choose|i: int| 0 <= i < k.len() && k[i] == a@;
            assert(r);
        }
    }
    r
}

/// What to do with the command line, from its first argument.
pub fn argument_action(first: Option<&str>) -> (r: ArgumentAction)
    ensures
        r == argument_action_spec(match first {
            Some(a) => Some(a@),
            None => None,
        }),
{
    match first {
        None => ArgumentAction::InsertAuto,
        Some(a) => if eq_str(a, "--version") || eq_str(a, "-v") {
            ArgumentAction::PrintVersion
        } else {
            let chars = chars_of(a);
            if (chars.len() > 0 && chars[0] == '-') || !known_command(a) {
                ArgumentAction::InsertAuto
            } else {
                ArgumentAction::Parse
            }
        },
    }
}

pub open spec fn repeat_char(c: char, n: nat) -> Seq<char>
    decreases n,
{
    if n == 0 {
        seq![]
    } else {
        repeat_char(c, (n - 1) as nat).push(c)
    }
}

/// The banner: `Anybuild <version>` in a rounded box, then a blank line.
pub open spec fn banner_spec(version: Seq<char>) -> Seq<char> {
    let content = "Anybuild "@ + version;
    let rule = repeat_char('─', content.len() + 2);
    seq!['╭'] + rule + seq!['╮', '\n', '│', ' '] + content + seq![' ', '│', '\n', '╰'] + rule + seq!['╯', '\n', '\n']
}

fn push_repeated(out: &mut String, c: char, n: usize)
    ensures
        final(out)@ == old(out)@ + repeat_char(c, n as nat),
{
    let mut i: usize = 0;
    while i < n
        invariant
            0 <= i <= n,
            out@ == old(out)@ + repeat_char(c, i as nat),
        decreases n - i,
    {
        push_char(out, c);
        assert(repeat_char(c, (i + 1) as nat) == repeat_char(c, i as nat).push(c));
        i = i + 1;
    }
}

/// The banner printed before every command but `plan`.
pub fn banner(version: &str) -> (r: String)
    requires
        version@.len() + 11 <= usize::MAX,
    ensures
        r@ == banner_spec(version@),
{
    proof {
        reveal_strlit("Anybuild ");
    }
    let mut content = copy_str("Anybuild ");
    push_str(&mut content, version);
    let width = chars_of(content.as_str()).len() + 2;
    let mut out = String::new();
    push_char(&mut out, '╭');
    push_repeated(&mut out, '─', width);
    push_char(&mut out, '╮');
    push_char(&mut out, '\n');
    push_char(&mut out, '│');
    push_char(&mut out, ' ');
    push_str(&mut out, content.as_str());
    push_char(&mut out, ' ');
    push_char(&mut out, '│');
    push_char(&mut out, '\n');
    push_char(&mut out, '╰');
    push_repeated(&mut out, '─', width);
    push_char(&mut out, '╯');
    push_char(&mut out, '\n');
    push_char(&mut out, '\n');
    assert(out@ =~= banner_spec(version@));
    out
}

} // verus!
