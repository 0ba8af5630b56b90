//! Concluding one interpreter invocation: turn the outcome of the launch
//! step into the value handed back to the caller. A spawn failure becomes
//! an error; a run that finished becomes a report, whatever its exit
//! status — interpreter diagnostics are not an error of this component.

use vstd::prelude::*;

use crate::error::ExecutionError;
use crate::report::build_report;
use crate::report::report_of;

verus! {

/// What a finished interpreter run produced: its exit status, if the
/// process exited with one, and the entirety of its two output streams.
pub struct RunOutput {
    /// The exit status code, or `None` if the process was terminated
    /// without one. No part of the report depends on this field.
    pub status: Option<i32>,
    /// The raw standard-output bytes.
    pub stdout: Vec<u8>,
    /// The raw standard-error bytes.
    pub stderr: Vec<u8>,
}

/// Conclude one invocation from the outcome of the launch step. A failure
/// to spawn the interpreter, carried as the system error description,
/// yields `LaunchFailed`; a run that finished yields its report, for every
/// exit status alike.
pub fn conclude_run(outcome: Result<RunOutput, String>) -> (r: Result<
    String,
    ExecutionError,
>)
    ensures
        r is Ok <==> outcome is Ok,
        outcome is Ok ==> r->Ok_0@ == report_of(outcome->Ok_0.stdout@, outcome->Ok_0.stderr@),
        outcome is Err ==> r->Err_0 == ExecutionError::LaunchFailed(outcome->Err_0),
{
    match outcome {
        Ok(run) => Ok(build_report(&run.stdout, &run.stderr)),
        Err(detail) => Err(ExecutionError::LaunchFailed(detail)),
    }
}

/// The report of a finished run depends on its output streams alone: two
/// runs with the same streams have the same report, whatever their exit
/// statuses.
pub proof fn lemma_report_ignores_exit_status(a: RunOutput, b: RunOutput)
    requires
        a.stdout@ == b.stdout@,
        a.stderr@ == b.stderr@,
    ensures
        report_of(a.stdout@, a.stderr@) == report_of(b.stdout@, b.stderr@),
{
}

} // verus!
