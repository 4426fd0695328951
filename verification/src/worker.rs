//! Workers: their identity, their lifecycle, and what a worker is told when
//! it asks the pool for work.

use vstd::prelude::*;

verus! {

/// Where a worker stands in its lifecycle.
///
/// A worker starts `Idle`, alternates between `Idle` and `Running`, and ends
/// `Terminated`. It never leaves `Terminated`, and it never goes from
/// `Running` to `Terminated` directly: a job that was started is always run
/// to its end.
#[derive(Clone, Copy, Debug, PartialEq, Eq, Structural)]
pub enum WorkerState {
    /// Waiting for its next job.
    Idle,
    /// Executing a job it took from the queue.
    Running,
    /// Has left its loop for good.
    Terminated,
}

/// One worker of a pool.
#[derive(Clone, Copy, Debug, PartialEq, Eq, Structural)]
pub struct Worker {
    /// The worker's index in construction order.
    pub id: usize,
    /// Where the worker stands in its lifecycle.
    pub state: WorkerState,
}

/// What the pool tells a worker that asks for its next job.
#[derive(Debug)]
pub enum Dispatch<J> {
    /// Execute this job, then report back and ask again.
    Run(J),
    /// Nothing is pending, but more may come: block until woken, then ask again.
    Wait,
    /// Nothing is pending and nothing more will come: leave the loop.
    Exit,
}

} // verus!
