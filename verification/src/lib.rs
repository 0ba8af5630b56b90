//! Execute-and-capture core: merge the two output streams of an external
//! interpreter run into one report string, and describe the ways a run can
//! fail before any output exists.
//!
//! The surrounding application stages the submitted source text in a
//! temporary file, spawns the interpreter, and hands the captured byte
//! streams to [`report::build_report`]; failures on the way are carried as
//! [`error::ExecutionError`] values.

mod error;
mod report;
mod run;

pub use error::ExecutionError;
pub use report::build_report;
pub use run::RunOutput;
pub use run::conclude_run;
