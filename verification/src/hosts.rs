//! The host alias of a project in the system's alias file.

use vstd::prelude::*;
use vstd::string::StringExecFns;
use crate::command::{Command, CommandLine, Outcome, Report};
use crate::error::{AppError, Failure};
use crate::input::ProjectInput;
use crate::text::{contains_text, occurs_in, text_of};

verus! {

/// The command that appends the alias of `host` to the alias file, with the
/// rights of the administrator.
pub open spec fn append_alias_line(host: Seq<char>) -> CommandLine {
    CommandLine {
        program: "sudo"@,
        args: seq!["sh"@, "-c"@, "echo '127.0.0.1 "@ + host + "' >> /etc/hosts"@],
    }
}

/// What is to be done about a host's alias.
#[derive(Debug, PartialEq, Eq)]
pub enum AliasStep {
    /// The alias file names the host already: nothing is written.
    Present,
    /// Run this command, then judge its report.
    Append(Command),
}

/// Whether the alias file is known to name the host: it was read, and the
/// host's characters stand somewhere in it.
pub open spec fn names_host(content: Option<Seq<char>>, host: Seq<char>) -> bool {
    content matches Some(c) && occurs_in(c, host)
}

/// What the report of the appending command means: every failure of the
/// privileged command is a validation failure. One that could not be
/// started gives the reason, one that ended badly shows the status.
pub open spec fn alias_verdict(outcome: Outcome) -> Result<(), Failure> {
    match outcome {
        Outcome::NotLaunched { reason } => Err(Failure::Validation(reason)),
        Outcome::Ran { success, status, output } => if success {
            Ok(())
        } else {
            Err(
                Failure::Validation(
                    "Falha ao executar 'sudo'. Verifique se você digitou a senha corretamente. Status: "@
                        + status,
                ),
            )
        },
    }
}

/// The command that appends the alias of `host` to the alias file.
pub fn append_alias(host: &str) -> (c: Command)
    ensures
        c@ == append_alias_line(host@),
{
    let script = String::from_str("echo '127.0.0.1 ").concat(host).concat("' >> /etc/hosts");
    let c = Command::new("sudo").arg("sh").arg("-c").arg(script.as_str());
    assert(c@.args =~= append_alias_line(host@).args);
    c
}

/// Decides about the alias of the project's host from what the alias file
/// holds; `None` where it could not be read. The alias is present where the
/// host's characters stand anywhere in the file. Otherwise, and where the
/// file could not be read, the alias is to be appended.
pub fn update_etc_hosts(input: &ProjectInput, content: Option<&str>) -> (step: AliasStep)
    ensures
        names_host(text_of(content), input@.host) ==> step is Present,
        !names_host(text_of(content), input@.host) ==> (step matches AliasStep::Append(
            c,
        ) && c@ == append_alias_line(input@.host)),
{
    let present = match content {
        Some(c) => contains_text(c, input.project_host.as_str()),
        None => false,
    };
    if present {
        AliasStep::Present
    } else {
        AliasStep::Append(append_alias(input.project_host.as_str()))
    }
}

/// Judges the report of the appending command. The command is run once:
/// whatever its failure, it is a validation failure and nothing is tried
/// again.
pub fn alias_appended(report: &Report) -> (r: Result<(), AppError>)
    ensures
        crate::error::outcome_of(r) == alias_verdict(report@),
{
    match report {
        Report::NotLaunched { reason } => Err(AppError::Validation(reason.clone())),
        Report::Ran { success, status, .. } => if *success {
            Ok(())
        } else {
            Err(
                AppError::Validation(
                    String::from_str(
                        "Falha ao executar 'sudo'. Verifique se você digitou a senha corretamente. Status: ",
                    ).concat(status.as_str()),
                ),
            )
        },
    }
}

} // verus!
