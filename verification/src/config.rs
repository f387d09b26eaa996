use vstd::prelude::*;
use crate::strutil::{chars_of, string_from_chars, str_to_string, str_eq_str};
use crate::vendor::{lower_seq, lower_chars};

verus! {

/// What the user asked the tool to do with the given documents.
#[derive(Debug, Clone, Copy, PartialEq, Eq, Structural)]
pub enum Command {
    Average,
    Cat,
    Delta,
}

/// The command a lower-cased word names, if any.
pub open spec fn command_of(l: Seq<char>) -> Option<Command> {
    if l == "average"@ || l == "avg"@ {
        Some(Command::Average)
    } else if l == "concatenate"@ || l == "cat"@ || l == "append"@ {
        Some(Command::Cat)
    } else if l == "delta"@ || l == "deltae"@ || l == "de"@ {
        Some(Command::Delta)
    } else {
        None
    }
}

impl Command {
    /// The command a word names, read case-insensitively.
    pub fn from_string(s: &str) -> (r: Option<Command>)
        ensures
            r == command_of(lower_seq(s@)),
    {
        let v = chars_of(s);
        let lv = lower_chars(&v);
        let l = string_from_chars(&lv);
        let ls = l.as_str();
        if str_eq_str(ls, "average") || str_eq_str(ls, "avg") {
            Some(Command::Average)
        } else if str_eq_str(ls, "concatenate") || str_eq_str(ls, "cat") || str_eq_str(
            ls,
            "append",
        ) {
            Some(Command::Cat)
        } else if str_eq_str(ls, "delta") || str_eq_str(ls, "deltae") || str_eq_str(ls, "de") {
            Some(Command::Delta)
        } else {
            None
        }
    }

    /// The command's name, in lower case.
    pub fn display(&self) -> (r: String)
        ensures
            match self {
                Command::Average => r@ == "average"@,
                Command::Cat => r@ == "cat"@,
                Command::Delta => r@ == "delta"@,
            },
    {
        match self {
            Command::Average => str_to_string("average"),
            Command::Cat => str_to_string("cat"),
            Command::Delta => str_to_string("delta"),
        }
    }
}

/// What was asked on the command line: the command, its options, and the
/// files to read, all as plain values.
#[derive(Debug, Clone)]
pub struct Config {
    pub command: Option<Command>,
    pub cmd_opts: Vec<String>,
    pub files: Vec<String>,
}

impl Config {
    /// An empty configuration: no command, no options, no files.
    pub fn new() -> (r: Config)
        ensures
            r.command is None,
            r.cmd_opts@.len() == 0,
            r.files@.len() == 0,
    {
        Config { command: None, cmd_opts: Vec::new(), files: Vec::new() }
    }
}

} // verus!
