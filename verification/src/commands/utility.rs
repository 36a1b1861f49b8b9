//! The interactive shell: what each line typed at the prompt asks for.
//! Reading lines, keeping history and running commands is left to the caller.

use vstd::prelude::*;
use vstd::string::StringExecFns;

use crate::output::table::strs;
use crate::text::{str_equal, trim, trimmed};

verus! {

/// What a line typed at the prompt asks for.
#[derive(Debug, PartialEq)]
pub enum ShellInput {
    /// An empty line: nothing to do.
    Skip,
    /// `exit`, `quit` or `q`: leave the shell.
    Exit,
    /// `help`, `h` or `?`: show the help.
    Help,
    /// A line that cannot be split into words (an open quote).
    Invalid,
    /// The command line to parse: the program name, then the words.
    Run(Vec<String>),
}

/// The model of a shell input.
pub enum ShellInputM {
    Skip,
    Exit,
    Help,
    Invalid,
    Run(Seq<Seq<char>>),
}

impl ShellInput {
    pub open spec fn view_input(&self) -> ShellInputM {
        match self {
            ShellInput::Skip => ShellInputM::Skip,
            ShellInput::Exit => ShellInputM::Exit,
            ShellInput::Help => ShellInputM::Help,
            ShellInput::Invalid => ShellInputM::Invalid,
            ShellInput::Run(args) => ShellInputM::Run(strs(args@)),
        }
    }
}

/// What `shlex::split` returns for a line: its words, split as a POSIX
/// shell would, or none where the line is malformed.
pub uninterp spec fn shell_words(line: Seq<char>) -> Option<Seq<Seq<char>>>;

/// Calls `shlex::split`; claims only that the result is its split of the line.
#[verifier::external_body]
fn split_words(line: &str) -> (res: Option<Vec<String>>)
    ensures
        match res {
            Some(w) => shell_words(line@) == Some(strs(w@)),
            None => shell_words(line@) is None,
        },
{
    shlex::split(line)
}

/// The command line to run for the words of a line, or `Invalid` where the
/// line could not be split.
pub open spec fn run_of(words: Option<Seq<Seq<char>>>) -> ShellInputM {
    match words {
        Some(w) => ShellInputM::Run(seq!["tokocrypto"@] + w),
        None => ShellInputM::Invalid,
    }
}

/// What a line typed at the prompt asks for.
pub open spec fn shell_input(line: Seq<char>) -> ShellInputM {
    let t = trimmed(line);
    if t.len() == 0 {
        ShellInputM::Skip
    } else if t == "exit"@ || t == "quit"@ || t == "q"@ {
        ShellInputM::Exit
    } else if t == "help"@ || t == "h"@ || t == "?"@ {
        ShellInputM::Help
    } else {
        run_of(shell_words(t))
    }
}

/// The command line to run for the words of a line.
pub fn run_words(words: Option<Vec<String>>) -> (res: ShellInput)
    ensures
        res.view_input() == run_of(
            match words {
                Some(w) => Some(strs(w@)),
                None => None,
            },
        ),
{
    match words {
        Some(w) => {
            let mut args: Vec<String> = Vec::new();
            args.push(String::from_str("tokocrypto"));
            let ghost ws = strs(w@);
            assert(strs(args@) =~= seq!["tokocrypto"@] + ws.take(0));
            for i in 0..w.len()
                invariant
                    ws == strs(w@),
                    strs(args@) == seq!["tokocrypto"@] + ws.take(i as int),
            {
                let ghost before = args@;
                args.push(w[i].clone());
                assert(args@ == before.push(w@[i as int]));
                assert(strs(args@) =~= strs(before).push(ws[i as int]));
                assert(strs(args@) =~= seq!["tokocrypto"@] + ws.take(i + 1));
            }
            assert(ws.take(w@.len() as int) =~= ws);
            ShellInput::Run(args)
        },
        None => ShellInput::Invalid,
    }
}

/// What a line typed at the prompt asks for.
pub fn classify_line(line: &str) -> (res: ShellInput)
    ensures
        res.view_input() == shell_input(line@),
{
    let t = trim(line);
    let s = t.as_str();
    if s.is_empty() {
        ShellInput::Skip
    } else if str_equal(s, "exit") || str_equal(s, "quit") || str_equal(s, "q") {
        ShellInput::Exit
    } else if str_equal(s, "help") || str_equal(s, "h") || str_equal(s, "?") {
        ShellInput::Help
    } else {
        run_words(split_words(s))
    }
}

} // verus!
