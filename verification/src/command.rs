//! What the command line asks for, and what a run of the linter comes to.

use crate::error::LintsError;
use crate::lints::LINTER;
use vstd::prelude::*;

verus! {

/// The subcommand as the command line gives it.
#[derive(Clone, Debug)]
pub enum Subcommand {
    /// The subcommand that formats the configuration file.
    Fmt,
    /// Any other subcommand: its name, then its arguments.
    External(Vec<String>),
}

/// What is to be done.
#[derive(Clone, Debug)]
pub enum Operation {
    /// The configuration file is formatted.
    Format,
    /// The linter is run with these arguments passed on to it.
    RunLinter(Vec<String>),
}

/// How a run of the linter went.
#[derive(Clone, Copy, Debug, PartialEq, Eq, Structural)]
pub enum Run {
    /// The process could not be started.
    SpawnFailed,
    /// The process was started, and waiting for it failed.
    WaitFailed,
    /// The process ended, with this exit code if it has one.
    Exited(Option<i32>),
}

/// What a subcommand with the words `words` asks for: the linter, where the
/// first word is its name, with the other words as its arguments; else
/// nothing that is known, and the error names the first word, or is empty
/// where there is no word.
pub open spec fn selected(words: Seq<Seq<char>>) -> Result<Seq<Seq<char>>, Seq<char>> {
    if words.len() == 0 {
        Err(Seq::empty())
    } else if words[0] == LINTER@ {
        Ok(words.skip(1))
    } else {
        Err(words[0])
    }
}

/// The operation that a subcommand asks for.
///
/// The host passes the name of an external subcommand on as its first word,
/// so the linter is run only where that word is the linter's name, and with
/// the words behind it.
pub fn select(command: Subcommand) -> (chosen: Result<Operation, LintsError>)
    ensures
        match command {
            Subcommand::Fmt => chosen matches Ok(Operation::Format),
            Subcommand::External(words) => match selected(words.deep_view()) {
                Ok(rest) => chosen matches Ok(Operation::RunLinter(args)) && args.deep_view()
                    == rest,
                Err(name) => chosen matches Err(LintsError::UnknownSubcommand(word)) && word@
                    == name,
            },
        },
{
    match command {
        Subcommand::Fmt => Ok(Operation::Format),
        Subcommand::External(words) => {
            let mut words = words;
            if words.len() == 0 {
                return Err(LintsError::UnknownSubcommand(String::new()));
            }
            let ghost all = words.deep_view();
            let name = words.remove(0);
            proof {
                assert(words.deep_view() =~= all.skip(1));
            }
            if name == LINTER.to_owned() {
                Ok(Operation::RunLinter(words))
            } else {
                Err(LintsError::UnknownSubcommand(name))
            }
        },
    }
}

/// What a run of the linter comes to for this tool: an error where the
/// process could not be started or could not be waited for, and success
/// wherever it ended, whatever its exit code.
pub fn conclude(run: Run) -> (outcome: Result<(), LintsError>)
    ensures
        match run {
            Run::SpawnFailed => outcome matches Err(LintsError::Spawn),
            Run::WaitFailed => outcome matches Err(LintsError::Wait),
            Run::Exited(_) => outcome is Ok,
        },
{
    match run {
        Run::SpawnFailed => Err(LintsError::Spawn),
        Run::WaitFailed => Err(LintsError::Wait),
        Run::Exited(_) => Ok(()),
    }
}

} // verus!
