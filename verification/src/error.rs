//! Failures that a run reports to its caller.

use vstd::prelude::*;

verus! {

/// Every failure is a value that the caller can inspect; none is a panic.
#[derive(Debug, PartialEq, Eq)]
pub enum CalliperError {
    /// A worker was handed a position outside the submitted scenarios: the
    /// controller and the worker disagree on what was submitted.
    RunIdOutOfBounds { value: usize, limit: usize },
    /// The role signal was present but could not be read as a position.
    EnvironmentSignalMalformed { details: String },
    /// The spawning service could not launch a worker, or the worker ended
    /// before it left a readable output.
    WorkerFailure { run_idx: usize, details: String },
}

impl Clone for CalliperError {
    /// The same failure once more.
    fn clone(&self) -> (failure: Self)
        ensures
            failure == *self,
    {
        match self {
            CalliperError::RunIdOutOfBounds { value, limit } => CalliperError::RunIdOutOfBounds {
                value: *value,
                limit: *limit,
            },
            CalliperError::EnvironmentSignalMalformed { details } => {
                CalliperError::EnvironmentSignalMalformed { details: details.clone() }
            },
            CalliperError::WorkerFailure { run_idx, details } => CalliperError::WorkerFailure {
                run_idx: *run_idx,
                details: details.clone(),
            },
        }
    }
}

} // verus!
