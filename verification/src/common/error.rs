//! The two ways in which a reconciliation step fails.

use crate::text::{decimal, decimal_of_i32};
use vstd::prelude::*;
use vstd::string::StringExecFns;

verus! {

/// Why a step of the run failed.
#[derive(Debug, Clone, PartialEq, Eq)]
pub enum SetupError {
    /// An external command ran and did not succeed.
    CommandFailed { command: String, exit_code: Option<i32> },
    /// A command could not be started, or a file could not be read or written.
    IoError(String),
}

/// What a failure says.
pub enum SetupErrorView {
    CommandFailed { command: Seq<char>, exit_code: Option<i32> },
    IoError(Seq<char>),
}

impl View for SetupError {
    type V = SetupErrorView;

    open spec fn view(&self) -> SetupErrorView {
        match self {
            SetupError::CommandFailed { command, exit_code } => SetupErrorView::CommandFailed {
                command: command@,
                exit_code: *exit_code,
            },
            SetupError::IoError(msg) => SetupErrorView::IoError(msg@),
        }
    }
}

/// The outcome of a step of the run.
pub type SetupResult<T> = Result<T, SetupError>;

/// What the outcome of a step says.
pub open spec fn outcome_view(r: SetupResult<()>) -> Result<(), SetupErrorView> {
    match r {
        Ok(_) => Ok(()),
        Err(e) => Err(e@),
    }
}

/// An exit code as it is shown: `None`, or the number inside `Some(..)`.
pub open spec fn exit_code_text(code: Option<i32>) -> Seq<char> {
    match code {
        Some(c) => "Some("@ + decimal(c as int) + ")"@,
        None => "None"@,
    }
}

/// The sentence that tells the user of a failure.
pub open spec fn failure_text(e: SetupErrorView) -> Seq<char> {
    match e {
        SetupErrorView::CommandFailed { command, exit_code } => "Command failed: '"@ + command
            + "' (exit code: "@ + exit_code_text(exit_code) + ")"@,
        SetupErrorView::IoError(msg) => "IO error: "@ + msg,
    }
}

impl SetupError {
    /// The sentence that tells the user of this failure.
    pub fn message(&self) -> (text: String)
        ensures
            text@ == failure_text(self@),
    {
        match self {
            SetupError::CommandFailed { command, exit_code } => {
                let code = match exit_code {
                    Some(c) => "Some(".to_owned().concat(decimal_of_i32(*c).as_str()).concat(")"),
                    None => "None".to_owned(),
                };
                "Command failed: '".to_owned().concat(command.as_str()).concat(
                    "' (exit code: ",
                ).concat(code.as_str()).concat(")")
            },
            SetupError::IoError(msg) => "IO error: ".to_owned().concat(msg.as_str()),
        }
    }
}

} // verus!
