//! The failures that end a provisioning run.

use vstd::prelude::*;
use vstd::string::StringExecFns;

verus! {

/// Why a run ended early.
#[derive(Debug, PartialEq, Eq)]
pub enum AppError {
    /// A file or a stream could not be used.
    Io(String),
    /// The user chose to stop; not a fault.
    Interrupted(String),
    /// An input was malformed, or a privileged command was refused.
    Validation(String),
    /// The container runtime, or a command inside a container, failed.
    Docker(String),
}

/// An `AppError` as contracts see it: the kind and the characters of its
/// message.
pub enum Failure {
    Io(Seq<char>),
    Interrupted(Seq<char>),
    Validation(Seq<char>),
    Docker(Seq<char>),
}

impl Failure {
    /// The line shown to the user.
    pub open spec fn text(self) -> Seq<char> {
        match self {
            Failure::Io(m) => "Erro de I/O: "@ + m,
            Failure::Interrupted(m) => "Execução Interrompida: "@ + m,
            Failure::Validation(m) => "Erro de validação: "@ + m,
            Failure::Docker(m) => "Erro no Docker: "@ + m,
        }
    }
}

impl View for AppError {
    type V = Failure;

    open spec fn view(&self) -> Failure {
        match self {
            AppError::Io(m) => Failure::Io(m@),
            AppError::Interrupted(m) => Failure::Interrupted(m@),
            AppError::Validation(m) => Failure::Validation(m@),
            AppError::Docker(m) => Failure::Docker(m@),
        }
    }
}

/// A result without a value, as contracts see it.
pub open spec fn outcome_of(r: Result<(), AppError>) -> Result<(), Failure> {
    match r {
        Ok(_) => Ok(()),
        Err(e) => Err(e@),
    }
}

impl AppError {
    /// The line shown to the user: the kind of failure, then its message.
    pub fn message(&self) -> (s: String)
        ensures
            s@ == self@.text(),
    {
        match self {
            AppError::Io(m) => String::from_str("Erro de I/O: ").concat(m.as_str()),
            AppError::Interrupted(m) => String::from_str("Execução Interrompida: ").concat(
                m.as_str(),
            ),
            AppError::Validation(m) => String::from_str("Erro de validação: ").concat(m.as_str()),
            AppError::Docker(m) => String::from_str("Erro no Docker: ").concat(m.as_str()),
        }
    }
}

/// The status with which the program ends: 0 after a full run, 1 after any
/// failure.
pub fn exit_code(result: &Result<(), AppError>) -> (code: i32)
    ensures
        code == (if result is Ok { 0i32 } else { 1i32 }),
{
    match result {
        Ok(_) => 0,
        Err(_) => 1,
    }
}

} // verus!
