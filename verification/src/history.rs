//! The history of a pool: what its jobs and workers have been through
//! after a sequence of events, and how much is still to be done.

use crate::model::{Event, PoolView};
use crate::worker::WorkerState;
use vstd::prelude::*;

verus! {

/// One job handed to one worker.
pub struct Handout<J> {
    /// The worker that received the job.
    pub worker: int,
    /// The job.
    pub job: J,
}

/// What has happened in a pool so far.
pub struct History<J> {
    /// Every job that was accepted, in the order of acceptance.
    pub accepted: Seq<J>,
    /// Every job that was handed to a worker, in the order of handing out.
    pub handed: Seq<Handout<J>>,
    /// How many jobs have returned.
    pub finished: nat,
    /// For each worker that is running a job, the position in `handed` of
    /// the hand-out that gave it that job.
    pub running: Map<int, int>,
}

impl<J> History<J> {
    /// The history in which nothing has happened.
    pub open spec fn empty() -> History<J> {
        History {
            accepted: Seq::empty(),
            handed: Seq::empty(),
            finished: 0,
            running: Map::empty(),
        }
    }

    /// The jobs that were handed out, in order, without their workers.
    pub open spec fn handed_jobs(self) -> Seq<J> {
        self.handed.map_values(|h: Handout<J>| h.job)
    }

    /// The history extended by `event`, which happens in state `before`.
    pub open spec fn record(self, before: PoolView<J>, event: Event<J>) -> History<J> {
        if !before.enabled(event) {
            self
        } else {
            match event {
                Event::Submit(job) => if before.open {
                    History { accepted: self.accepted.push(job), ..self }
                } else {
                    self
                },
                Event::Close => self,
                Event::Take(w) => if before.pending.len() > 0 {
                    History {
                        handed: self.handed.push(Handout { worker: w, job: before.pending[0] }),
                        running: self.running.insert(w, self.handed.len() as int),
                        ..self
                    }
                } else {
                    self
                },
                Event::Finish(w) => History {
                    finished: self.finished + 1,
                    running: self.running.remove(w),
                    ..self
                },
            }
        }
    }
}

impl<J> PoolView<J> {
    /// The history of `events`, happening in order from this state.
    pub open spec fn history(self, events: Seq<Event<J>>) -> History<J>
        decreases events.len(),
    {
        if events.len() == 0 {
            History::empty()
        } else {
            self.history(events.drop_last()).record(self.run(events.drop_last()), events.last())
        }
    }

    /// All of `events` are steps of workers, and each can happen when its
    /// turn comes.
    pub open spec fn worker_steps(self, events: Seq<Event<J>>) -> bool
        decreases events.len(),
    {
        events.len() > 0 ==> {
            &&& self.worker_steps(events.drop_last())
            &&& events.last() is Take || events.last() is Finish
            &&& self.run(events.drop_last()).enabled(events.last())
        }
    }

    /// All of `events` are steps of workers that can happen when their turn
    /// comes, and each does some work.
    pub open spec fn working_steps(self, events: Seq<Event<J>>) -> bool
        decreases events.len(),
    {
        events.len() > 0 ==> {
            &&& self.working_steps(events.drop_last())
            &&& events.last() is Take || events.last() is Finish
            &&& self.run(events.drop_last()).enabled(events.last())
            &&& self.run(events.drop_last()).does_work(events.last())
        }
    }

    /// The number of worker steps it takes to get every accepted job done:
    /// two for each pending job (it is taken, it returns) and one for each
    /// running worker (its job returns).
    pub open spec fn work(self) -> nat {
        2 * self.pending.len() + count(self.states, WorkerState::Running)
    }

    /// Whether the worker step `event` does some of that work. A step does
    /// unless the worker asks for a job and none is pending.
    pub open spec fn does_work(self, event: Event<J>) -> bool {
        event is Finish || (event is Take && self.pending.len() > 0)
    }

    /// The number of worker steps that separate this state from the end of
    /// disposal: two for each pending job (it is taken, it returns), two for
    /// each running worker (its job returns, it exits) and one for each idle
    /// worker (it exits).
    pub open spec fn backlog(self) -> nat {
        self.work() + count(self.states, WorkerState::Idle) + count(
            self.states,
            WorkerState::Running,
        )
    }
}

/// The number of workers in state `which`.
pub open spec fn count(states: Seq<WorkerState>, which: WorkerState) -> nat
    decreases states.len(),
{
    if states.len() == 0 {
        0
    } else {
        count(states.drop_last(), which) + if states.last() == which {
            1nat
        } else {
            0nat
        }
    }
}

} // verus!
