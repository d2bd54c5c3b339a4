//! External commands: what is to be run, what came of it, and how a failed
//! command becomes an error.

use vstd::prelude::*;
use vstd::string::StringExecFns;
use crate::error::{AppError, Failure};

verus! {

/// A program and its arguments, in order.
#[derive(Debug, PartialEq, Eq)]
pub struct Command {
    pub program: String,
    pub args: Vec<String>,
}

/// A `Command` as contracts see it.
pub struct CommandLine {
    pub program: Seq<char>,
    pub args: Seq<Seq<char>>,
}

/// The characters of each string of a sequence.
pub open spec fn texts(v: Seq<String>) -> Seq<Seq<char>> {
    v.map_values(|s: String| s@)
}

impl View for Command {
    type V = CommandLine;

    open spec fn view(&self) -> CommandLine {
        CommandLine { program: self.program@, args: texts(self.args@) }
    }
}

impl Command {
    /// A command without arguments.
    pub fn new(program: &str) -> (c: Command)
        ensures
            c@ == (CommandLine { program: program@, args: Seq::empty() }),
    {
        let c = Command { program: String::from_str(program), args: Vec::new() };
        assert(texts(c.args@) =~= Seq::<Seq<char>>::empty());
        c
    }

    /// The same command with one more argument at the end.
    pub fn arg(self, value: &str) -> (c: Command)
        ensures
            c@ == (CommandLine { program: self@.program, args: self@.args.push(value@) }),
    {
        let Command { program, mut args } = self;
        let ghost before = args@;
        args.push(String::from_str(value));
        assert(texts(args@) =~= texts(before).push(value@));
        Command { program, args }
    }
}

/// What came of running a command.
#[derive(Debug, PartialEq, Eq)]
pub enum Report {
    /// The program ran to its end. `status` is the runtime's own description
    /// of how it ended; `output` is what it printed, where that was captured.
    Ran { success: bool, status: String, output: String },
    /// The program could not be started.
    NotLaunched { reason: String },
}

/// A `Report` as contracts see it.
pub enum Outcome {
    Ran { success: bool, status: Seq<char>, output: Seq<char> },
    NotLaunched { reason: Seq<char> },
}

impl Outcome {
    /// The program ran and ended well.
    pub open spec fn succeeded(self) -> bool {
        self matches Outcome::Ran { success, .. } && success
    }
}

impl View for Report {
    type V = Outcome;

    open spec fn view(&self) -> Outcome {
        match self {
            Report::Ran { success, status, output } => Outcome::Ran {
                success: *success,
                status: status@,
                output: output@,
            },
            Report::NotLaunched { reason } => Outcome::NotLaunched { reason: reason@ },
        }
    }
}

impl Report {
    /// Whether the program ran and ended well.
    pub fn succeeded(&self) -> (r: bool)
        ensures
            r == self@.succeeded(),
    {
        match self {
            Report::Ran { success, .. } => *success,
            Report::NotLaunched { .. } => false,
        }
    }
}

/// A command together with the words for its two ways of failing.
#[derive(Debug, PartialEq, Eq)]
pub struct Task {
    pub command: Command,
    /// Said where the program could not be started; the reason follows it.
    pub launch_failure: String,
    /// Said where the program ended badly.
    pub failure: String,
    /// Whether the status follows `failure`.
    pub shows_status: bool,
}

/// A `Task` as contracts see it.
pub struct TaskLine {
    pub command: CommandLine,
    pub launch_failure: Seq<char>,
    pub failure: Seq<char>,
    pub shows_status: bool,
}

impl View for Task {
    type V = TaskLine;

    open spec fn view(&self) -> TaskLine {
        TaskLine {
            command: self.command@,
            launch_failure: self.launch_failure@,
            failure: self.failure@,
            shows_status: self.shows_status,
        }
    }
}

impl TaskLine {
    /// What a report means: nothing to say after a success, otherwise a
    /// container failure in the words that the command came with.
    pub open spec fn verdict(self, outcome: Outcome) -> Result<(), Failure> {
        match outcome {
            Outcome::NotLaunched { reason } => Err(Failure::Docker(self.launch_failure + reason)),
            Outcome::Ran { success, status, output } => if success {
                Ok(())
            } else if self.shows_status {
                Err(Failure::Docker(self.failure + status))
            } else {
                Err(Failure::Docker(self.failure))
            },
        }
    }
}

impl Task {
    /// Judges the report of the command. A command that ended badly is a
    /// failure: nothing is tried again.
    pub fn judge(&self, report: &Report) -> (r: Result<(), AppError>)
        ensures
            crate::error::outcome_of(r) == self@.verdict(report@),
    {
        match report {
            Report::NotLaunched { reason } => Err(
                AppError::Docker(self.launch_failure.clone().concat(reason.as_str())),
            ),
            Report::Ran { success, status, .. } => if *success {
                Ok(())
            } else if self.shows_status {
                Err(AppError::Docker(self.failure.clone().concat(status.as_str())))
            } else {
                Err(AppError::Docker(self.failure.clone()))
            },
        }
    }
}

} // verus!
