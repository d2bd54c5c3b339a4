//! The project that the user asks for: how each typed line is judged, and
//! what is derived from a name and a version once both are accepted.

use vstd::prelude::*;
use vstd::string::StringExecFns;
use crate::choice::{choice_of, read_choice, Choice};
use crate::error::{AppError, Failure};
use crate::kebab::{format_to_kebab_case, is_identifier, kebab_of};
use crate::number::{decimal_of, decimal_text, number_up_to, parse_number};
use crate::text::{is_plain_ascii, lowercase_of, same_text, trim, trimmed};

verus! {

/// The framework version that an empty answer stands for.
pub const DEFAULT_LARAVEL_VERSION: u8 = 12;

/// The oldest framework version that is accepted.
pub const MINIMAL_LARAVEL_VERSION: u8 = 10;

/// The project to provision.
#[derive(Debug, PartialEq, Eq)]
pub struct ProjectInput {
    pub project_name: String,
    pub project_host: String,
    pub project_path: String,
    pub laravel_version: String,
}

/// A `ProjectInput` as contracts see it.
pub struct ProjectRequest {
    pub name: Seq<char>,
    pub host: Seq<char>,
    pub path: Seq<char>,
    pub version: Seq<char>,
}

impl View for ProjectInput {
    type V = ProjectRequest;

    open spec fn view(&self) -> ProjectRequest {
        ProjectRequest {
            name: self.project_name@,
            host: self.project_host@,
            path: self.project_path@,
            version: self.laravel_version@,
        }
    }
}

/// The host under which a project is served.
pub open spec fn host_of(name: Seq<char>) -> Seq<char> {
    name + ".test"@
}

/// The directory of a project's sources.
pub open spec fn path_of(name: Seq<char>) -> Seq<char> {
    "../src/"@ + name
}

/// The project that a name and a version stand for.
pub open spec fn project_for(name: Seq<char>, version: Seq<char>) -> ProjectRequest {
    ProjectRequest { name, host: host_of(name), path: path_of(name), version }
}

/// A version as it is handed on: a number from the oldest accepted one to
/// 255, written in decimal.
pub open spec fn is_accepted_version(version: Seq<char>) -> bool {
    exists|n: nat| MINIMAL_LARAVEL_VERSION <= n <= 255 && version == #[trigger] decimal_of(n)
}

impl ProjectRequest {
    /// The name is a normalized identifier and not empty, host and path are
    /// derived from it, and the version is an accepted one.
    pub open spec fn is_valid(self) -> bool {
        &&& is_identifier(self.name)
        &&& self.name.len() > 0
        &&& self.host == host_of(self.name)
        &&& self.path == path_of(self.name)
        &&& is_accepted_version(self.version)
    }
}

/// The project for an accepted name and an accepted version: the host is
/// the name with `.test` after it, the path is the name below `../src/`.
pub fn derive_project(name: &str, version: &str) -> (project: ProjectInput)
    ensures
        project@ == project_for(name@, version@),
        is_identifier(name@) && name@.len() > 0 && is_accepted_version(version@)
            ==> project@.is_valid(),
{
    ProjectInput {
        project_name: String::from_str(name),
        project_host: String::from_str(name).concat(".test"),
        project_path: String::from_str("../src/").concat(name),
        laravel_version: String::from_str(version),
    }
}

/// How a typed project name is judged.
#[derive(Debug, PartialEq, Eq)]
pub enum NameReply {
    /// Nothing was typed: ask again.
    Empty,
    /// What was typed holds no letter and no digit: ask again.
    EmptyAfterFormat,
    /// The name to go on with, and the directory that must not exist yet.
    /// `reformatted` says that the name differs from `typed`, which is what
    /// was typed, without the white space around it and in lower case.
    Candidate { name: String, path: String, typed: String, reformatted: bool },
}

/// A `NameReply` as contracts see it.
pub enum NameVerdict {
    Empty,
    EmptyAfterFormat,
    Candidate { name: Seq<char>, path: Seq<char>, typed: Seq<char>, reformatted: bool },
}

impl View for NameReply {
    type V = NameVerdict;

    open spec fn view(&self) -> NameVerdict {
        match self {
            NameReply::Empty => NameVerdict::Empty,
            NameReply::EmptyAfterFormat => NameVerdict::EmptyAfterFormat,
            NameReply::Candidate { name, path, typed, reformatted } => NameVerdict::Candidate {
                name: name@,
                path: path@,
                typed: typed@,
                reformatted: *reformatted,
            },
        }
    }
}

/// The judgement on what was typed (`typed`: without the white space around
/// it, in lower case) and the identifier made of it.
pub open spec fn name_verdict(typed: Seq<char>, name: Seq<char>) -> NameVerdict {
    if typed.len() == 0 {
        NameVerdict::Empty
    } else if name.len() == 0 {
        NameVerdict::EmptyAfterFormat
    } else {
        NameVerdict::Candidate { name, path: path_of(name), typed, reformatted: name != typed }
    }
}

/// Judges a typed name from what was typed, without the white space around
/// it and in lower case, and the identifier made of it.
pub fn name_reply_for(typed: &str, name: &str) -> (reply: NameReply)
    ensures
        reply@ == name_verdict(typed@, name@),
{
    if typed.unicode_len() == 0 {
        NameReply::Empty
    } else if name.unicode_len() == 0 {
        NameReply::EmptyAfterFormat
    } else {
        NameReply::Candidate {
            name: String::from_str(name),
            path: String::from_str("../src/").concat(name),
            typed: String::from_str(typed),
            reformatted: !same_text(name, typed),
        }
    }
}

/// Judges the line that the user typed as the project's name. White space
/// around it and the case of its letters do not count; the rest is
/// normalized to an identifier. A candidate's name is a normalized
/// identifier and not empty. Where the line without the white space around
/// it is ASCII without upper-case letters, it is judged as it stands.
pub fn name_entered(line: &str) -> (reply: NameReply)
    ensures
        reply@ == name_verdict(
            lowercase_of(trimmed(line@)),
            kebab_of(lowercase_of(lowercase_of(trimmed(line@)))),
        ),
        reply matches NameReply::Candidate { name, .. } ==> is_identifier(name@) && name@.len() > 0,
        is_plain_ascii(trimmed(line@)) ==> reply@ == name_verdict(
            trimmed(line@),
            kebab_of(trimmed(line@)),
        ),
{
    let typed = trim(line).as_str().to_lowercase();
    let name = format_to_kebab_case(typed.as_str());
    name_reply_for(typed.as_str(), name.as_str())
}

/// What follows the look at a candidate's directory.
#[derive(Debug, Clone, Copy, PartialEq, Eq, Structural)]
pub enum AfterCheck {
    /// The directory exists already: ask whether to try another name.
    AskRetry,
    /// The name is free: ask for the version.
    AskVersion,
}

/// A name whose directory exists already is not accepted.
pub fn path_checked(path_exists: bool) -> (next: AfterCheck)
    ensures
        next == (if path_exists {
            AfterCheck::AskRetry
        } else {
            AfterCheck::AskVersion
        }),
{
    if path_exists {
        AfterCheck::AskRetry
    } else {
        AfterCheck::AskVersion
    }
}

/// What follows the answer to "try another name?".
#[derive(Debug, PartialEq, Eq)]
pub enum Retry {
    /// Ask for a name again.
    AskName,
    /// The user gives up.
    Stop(AppError),
    /// The answer was unclear: ask again.
    AskAgain,
}

/// The error where the user does not want to try another name.
pub open spec fn gives_up() -> Failure {
    Failure::Interrupted("O usuário optou por encerrar a aplicação."@)
}

/// What follows a choice about trying another name.
pub fn retry_after(choice: Choice) -> (r: Retry)
    ensures
        match choice {
            Choice::Yes => r is AskName,
            Choice::No => r matches Retry::Stop(e) && e@ == gives_up(),
            Choice::Unclear => r is AskAgain,
        },
{
    match choice {
        Choice::Yes => Retry::AskName,
        Choice::No => Retry::Stop(
            AppError::Interrupted(String::from_str("O usuário optou por encerrar a aplicação.")),
        ),
        Choice::Unclear => Retry::AskAgain,
    }
}

/// What follows the line that the user typed when asked whether to try
/// another name. Where the line without the white space around it is ASCII
/// without upper-case letters, it is judged as it stands.
pub fn retry_answered(line: &str) -> (r: Retry)
    ensures
        match choice_of(lowercase_of(trimmed(line@))) {
            Choice::Yes => r is AskName,
            Choice::No => r matches Retry::Stop(e) && e@ == gives_up(),
            Choice::Unclear => r is AskAgain,
        },
        is_plain_ascii(trimmed(line@)) ==> match choice_of(trimmed(line@)) {
            Choice::Yes => r is AskName,
            Choice::No => r matches Retry::Stop(e) && e@ == gives_up(),
            Choice::Unclear => r is AskAgain,
        },
{
    retry_after(read_choice(line))
}

/// How a typed version is judged.
#[derive(Debug, PartialEq, Eq)]
pub enum VersionReply {
    /// The version to go on with, written in decimal. `defaulted` says that
    /// nothing was typed and the default stands in.
    Accepted { version: String, defaulted: bool },
    /// A number below the oldest accepted version: ask again.
    TooOld { number: u8 },
    /// No number of at most 255: ask again.
    Invalid,
}

/// A `VersionReply` as contracts see it.
pub enum VersionVerdict {
    Accepted { version: Seq<char>, defaulted: bool },
    TooOld { number: nat },
    Invalid,
}

impl View for VersionReply {
    type V = VersionVerdict;

    open spec fn view(&self) -> VersionVerdict {
        match self {
            VersionReply::Accepted { version, defaulted } => VersionVerdict::Accepted {
                version: version@,
                defaulted: *defaulted,
            },
            VersionReply::TooOld { number } => VersionVerdict::TooOld { number: *number as nat },
            VersionReply::Invalid => VersionVerdict::Invalid,
        }
    }
}

/// The judgement on a typed version without the white space around it:
/// nothing stands for the default; a number of at most 255 is accepted from
/// the oldest accepted version on and is handed on as it is written in
/// decimal; anything else is invalid.
pub open spec fn version_verdict(typed: Seq<char>) -> VersionVerdict {
    if typed.len() == 0 {
        VersionVerdict::Accepted {
            version: decimal_of(DEFAULT_LARAVEL_VERSION as nat),
            defaulted: true,
        }
    } else {
        match number_up_to(typed, 255) {
            Some(n) => if n >= MINIMAL_LARAVEL_VERSION {
                VersionVerdict::Accepted { version: decimal_of(n), defaulted: false }
            } else {
                VersionVerdict::TooOld { number: n }
            },
            None => VersionVerdict::Invalid,
        }
    }
}

/// Every version that is accepted is one from the oldest accepted version
/// to 255, in decimal.
pub proof fn lemma_accepted_is_valid(typed: Seq<char>)
    ensures
        version_verdict(typed) matches VersionVerdict::Accepted { version, .. }
            ==> is_accepted_version(version),
{
    if typed.len() == 0 {
        assert(decimal_of(12) == decimal_of(DEFAULT_LARAVEL_VERSION as nat));
    } else {
        match number_up_to(typed, 255) {
            Some(n) => {
                if n >= MINIMAL_LARAVEL_VERSION {
                    assert(decimal_of(n) == decimal_of(n));
                }
            },
            None => {},
        }
    }
}

/// Judges a typed version that has no white space around it any more.
pub fn version_for(typed: &str) -> (reply: VersionReply)
    ensures
        reply@ == version_verdict(typed@),
        reply matches VersionReply::Accepted { version, .. } ==> is_accepted_version(version@),
{
    proof {
        lemma_accepted_is_valid(typed@);
    }
    if typed.unicode_len() == 0 {
        VersionReply::Accepted { version: decimal_text(12), defaulted: true }
    } else {
        match parse_number(typed, 255) {
            Some(n) => if n >= 10 {
                VersionReply::Accepted { version: decimal_text(n), defaulted: false }
            } else {
                VersionReply::TooOld { number: n as u8 }
            },
            None => VersionReply::Invalid,
        }
    }
}

/// Judges the line that the user typed as the framework's version. White
/// space around it does not count.
pub fn version_entered(line: &str) -> (reply: VersionReply)
    ensures
        reply@ == version_verdict(trimmed(line@)),
        reply matches VersionReply::Accepted { version, .. } ==> is_accepted_version(version@),
{
    version_for(trim(line).as_str())
}

} // verus!
