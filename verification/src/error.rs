//! The ways one execution attempt can fail before the interpreter produced
//! any output. Every failure is terminal to its own invocation and carries
//! the underlying system error description.

use vstd::prelude::*;

verus! {

/// Why an execution attempt yielded no report. Diagnostics the interpreter
/// itself printed are not an error: they travel inside the report.
#[derive(Debug)]
pub enum ExecutionError {
    /// The source text could not be staged as a temporary file: the file
    /// could not be created, or could not be written. Carries the system
    /// error description.
    StagingFailed(String),
    /// The external interpreter process could not be spawned. Carries the
    /// system error description.
    LaunchFailed(String),
}

/// The human-readable message for an error: a fixed prefix naming the step
/// that failed, followed by the underlying system error description.
pub open spec fn message_of(e: ExecutionError) -> Seq<char> {
    match e {
        ExecutionError::StagingFailed(detail) => "Failed to stage code: "@ + detail@,
        ExecutionError::LaunchFailed(detail) => "Failed to execute Python: "@ + detail@,
    }
}

impl ExecutionError {
    /// Render the error as the message string surfaced to the caller.
    pub fn message(&self) -> (r: String)
        ensures
            r@ == message_of(*self),
    {
        match self {
            ExecutionError::StagingFailed(detail) => {
                let mut m = String::from_str("Failed to stage code: ");
                m.append(detail.as_str());
                m
            },
            ExecutionError::LaunchFailed(detail) => {
                let mut m = String::from_str("Failed to execute Python: ");
                m.append(detail.as_str());
                m
            },
        }
    }
}

} // verus!
