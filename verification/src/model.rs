//! The mathematical model of a pool.
//!
//! A pool is described by the state of each worker, the pending jobs in the
//! order in which they were accepted, and whether jobs are still accepted.
//! Everything that can happen to a pool is one of four events, and each
//! event is a function from a state to the next state. The contracts of the
//! executable pool say which of these functions each call computes.

use crate::worker::{Dispatch, WorkerState};
use vstd::prelude::*;

verus! {

/// The largest number of workers a pool may have.
pub const MAX_POOL_SIZE: usize = 10000;

/// The state of a pool.
pub struct PoolView<J> {
    /// The state of each worker, in construction order.
    pub states: Seq<WorkerState>,
    /// The jobs accepted and not yet handed to a worker, oldest first.
    pub pending: Seq<J>,
    /// Whether the pool still accepts jobs.
    pub open: bool,
    /// The stack size, in bytes, that each worker's thread is given.
    pub stack_size: usize,
}

/// Something that happens to a pool.
pub enum Event<J> {
    /// A caller submits a job.
    Submit(J),
    /// The owner closes the pool: from now on no job is accepted.
    Close,
    /// The worker with this index asks for its next job.
    Take(int),
    /// The worker with this index reports that its job has returned.
    Finish(int),
}

impl<J> PoolView<J> {
    /// The state of a pool of `size` workers right after construction: every
    /// worker idle, nothing pending, jobs accepted.
    pub open spec fn fresh(size: usize, stack_size: usize) -> PoolView<J> {
        PoolView {
            states: Seq::new(size as nat, |w: int| WorkerState::Idle),
            pending: Seq::empty(),
            open: true,
            stack_size,
        }
    }

    /// What holds of every state a pool can be in: it has between one and
    /// `MAX_POOL_SIZE` workers, and a worker has terminated only if the pool
    /// is closed and nothing is pending.
    pub open spec fn inv(self) -> bool {
        &&& 1 <= self.states.len() <= MAX_POOL_SIZE
        &&& forall|w: int|
            0 <= w < self.states.len() && #[trigger] self.states[w] is Terminated ==> !self.open
                && self.pending.len() == 0
    }

    /// Worker `w` exists and is idle.
    pub open spec fn is_idle(self, w: int) -> bool {
        0 <= w < self.states.len() && self.states[w] is Idle
    }

    /// Worker `w` exists and is running a job.
    pub open spec fn is_running(self, w: int) -> bool {
        0 <= w < self.states.len() && self.states[w] is Running
    }

    /// Worker `w` exists and has terminated.
    pub open spec fn is_terminated(self, w: int) -> bool {
        0 <= w < self.states.len() && self.states[w] is Terminated
    }

    /// Disposal is complete: the pool is closed and every worker has
    /// terminated.
    pub open spec fn is_disposed(self) -> bool {
        &&& !self.open
        &&& forall|w: int| 0 <= w < self.states.len() ==> #[trigger] self.states[w] is Terminated
    }

    /// `next` is the worker a disposing owner waits for: the first one in
    /// construction order that has not terminated, or none if all have.
    pub open spec fn awaits(self, next: Option<usize>) -> bool {
        match next {
            Some(w) => {
                &&& w < self.states.len()
                &&& !(self.states[w as int] is Terminated)
                &&& forall|v: int| 0 <= v < w ==> #[trigger] self.states[v] is Terminated
            },
            None => forall|v: int|
                0 <= v < self.states.len() ==> #[trigger] self.states[v] is Terminated,
        }
    }

    /// A job is submitted: an open pool appends it to the pending jobs, a
    /// closed pool stays as it is.
    pub open spec fn submit(self, job: J) -> PoolView<J> {
        if self.open {
            PoolView { pending: self.pending.push(job), ..self }
        } else {
            self
        }
    }

    /// The pool stops accepting jobs. Nothing else changes.
    pub open spec fn close(self) -> PoolView<J> {
        PoolView { open: false, ..self }
    }

    /// What the idle worker `w` is told when it asks for a job: to run the
    /// oldest pending job if there is one, else to exit if the pool is
    /// closed, else to wait.
    pub open spec fn handed(self, w: int) -> Dispatch<J> {
        if self.pending.len() > 0 {
            Dispatch::Run(self.pending[0])
        } else if self.open {
            Dispatch::Wait
        } else {
            Dispatch::Exit
        }
    }

    /// The state after the idle worker `w` has asked for a job: the job it
    /// was handed is no longer pending and `w` is running; or `w` has
    /// terminated; or, if it was told to wait, nothing has changed.
    pub open spec fn take(self, w: int) -> PoolView<J> {
        if self.pending.len() > 0 {
            PoolView {
                states: self.states.update(w, WorkerState::Running),
                pending: self.pending.drop_first(),
                ..self
            }
        } else if self.open {
            self
        } else {
            PoolView { states: self.states.update(w, WorkerState::Terminated), ..self }
        }
    }

    /// The state after the running worker `w` has finished its job: `w` is
    /// idle again.
    pub open spec fn finish(self, w: int) -> PoolView<J> {
        PoolView { states: self.states.update(w, WorkerState::Idle), ..self }
    }

    /// Whether `event` can happen in this state. Submission and closing
    /// always can; a worker asks for a job only while idle and reports the
    /// end of a job only while running.
    pub open spec fn enabled(self, event: Event<J>) -> bool {
        match event {
            Event::Submit(_) => true,
            Event::Close => true,
            Event::Take(w) => self.is_idle(w),
            Event::Finish(w) => self.is_running(w),
        }
    }

    /// The state after `event`. An event that cannot happen changes nothing.
    pub open spec fn step(self, event: Event<J>) -> PoolView<J> {
        if !self.enabled(event) {
            self
        } else {
            match event {
                Event::Submit(job) => self.submit(job),
                Event::Close => self.close(),
                Event::Take(w) => self.take(w),
                Event::Finish(w) => self.finish(w),
            }
        }
    }

    /// The state after all of `events`, in order.
    pub open spec fn run(self, events: Seq<Event<J>>) -> PoolView<J>
        decreases events.len(),
    {
        if events.len() == 0 {
            self
        } else {
            self.run(events.drop_last()).step(events.last())
        }
    }
}

} // verus!
