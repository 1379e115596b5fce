//! How an invocation ends: with which line for the user, and with which
//! status for the process.

use crate::archive::ArchiveError;
use crate::cli::CliError;
use crate::report::{failure_line, failure_text};
use vstd::prelude::*;

verus! {

/// What stopped an invocation.
#[derive(Debug, PartialEq, Eq)]
pub enum Failure {
    /// The command line selects no operation.
    Usage(CliError),
    /// The data was refused.
    Archive(ArchiveError),
    /// Reading or writing failed: what was being done, and the cause as the
    /// system gave it.
    Io { what: String, cause: String },
}

impl Failure {
    /// The line that tells the user what is wrong.
    pub open spec fn text(self) -> Seq<char> {
        match self {
            Failure::Usage(error) => error.text(),
            Failure::Archive(error) => error.text(),
            Failure::Io { what, cause } => failure_text(what@, cause@),
        }
    }

    /// The line that tells the user what is wrong.
    pub fn message(&self) -> (line: String)
        ensures
            line@ == self.text(),
    {
        match self {
            Failure::Usage(error) => error.message(),
            Failure::Archive(error) => error.message(),
            Failure::Io { what, cause } => failure_line(what.as_str(), cause.as_str()),
        }
    }

    /// The status that the process ends with: 2 for a command line that
    /// selects nothing, 1 for an operation that failed.
    pub open spec fn status(self) -> u8 {
        match self {
            Failure::Usage(error) => error.status(),
            Failure::Archive(error) => error.status(),
            Failure::Io { .. } => 1,
        }
    }

    /// The status that the process ends with after this failure.
    pub fn exit_status(&self) -> (code: u8)
        ensures
            code == self.status(),
            code != 0,
    {
        match self {
            Failure::Usage(error) => error.exit_status(),
            Failure::Archive(error) => error.exit_status(),
            Failure::Io { .. } => 1,
        }
    }
}

/// The status that the process ends with: zero after success, and the
/// failure's status otherwise.
pub open spec fn final_status(outcome: Result<(), Failure>) -> u8 {
    match outcome {
        Ok(()) => 0,
        Err(failure) => failure.status(),
    }
}

/// The status that the process ends with.
pub fn exit_status(outcome: &Result<(), Failure>) -> (code: u8)
    ensures
        code == final_status(*outcome),
{
    match outcome {
        Ok(()) => 0,
        Err(failure) => failure.exit_status(),
    }
}

/// The process ends with status zero after success, and only then.
pub proof fn law_zero_means_success(outcome: Result<(), Failure>)
    ensures
        final_status(outcome) == 0 <==> outcome is Ok,
{
}

} // verus!
