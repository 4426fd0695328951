//! The two kinds of failure a pool reports to its caller.

use vstd::prelude::*;

verus! {

/// Why a pool could not be built, or why a job was not accepted.
#[derive(Debug, PartialEq, Eq)]
pub enum ThreadPoolError {
    /// The requested pool cannot be built; the text says why.
    CreationError(String),
    /// The job was not accepted; the text says why.
    ExecutionError(String),
}

/// Reason given when a pool of no workers is requested.
pub const ZERO_SIZE: &'static str = "pool size is zero";

/// Reason given when more workers are requested than a pool may hold.
pub const OVERSIZED: &'static str = "pool size exceeds maximum";

/// Reason given when a job is submitted to a pool that no longer accepts jobs.
pub const SUBMISSION_FAILED: &'static str = "submission failed";

impl ThreadPoolError {
    /// The text carried by the error, whichever kind it is.
    pub open spec fn reason(self) -> Seq<char> {
        match self {
            ThreadPoolError::CreationError(text) => text@,
            ThreadPoolError::ExecutionError(text) => text@,
        }
    }

    /// The text carried by the error.
    pub fn message(&self) -> (text: &str)
        ensures
            text@ == self.reason(),
    {
        match self {
            ThreadPoolError::CreationError(text) => text.as_str(),
            ThreadPoolError::ExecutionError(text) => text.as_str(),
        }
    }

    /// The error for a request of zero workers.
    pub fn zero_size() -> (e: ThreadPoolError)
        ensures
            e is CreationError,
            e.reason() == ZERO_SIZE@,
    {
        ThreadPoolError::CreationError(ZERO_SIZE.to_owned())
    }

    /// The error for a request of more workers than a pool may hold.
    pub fn oversized() -> (e: ThreadPoolError)
        ensures
            e is CreationError,
            e.reason() == OVERSIZED@,
    {
        ThreadPoolError::CreationError(OVERSIZED.to_owned())
    }

    /// The error for a job submitted to a pool that no longer accepts jobs.
    pub fn submission_failed() -> (e: ThreadPoolError)
        ensures
            e is ExecutionError,
            e.reason() == SUBMISSION_FAILED@,
    {
        ThreadPoolError::ExecutionError(SUBMISSION_FAILED.to_owned())
    }
}

} // verus!
