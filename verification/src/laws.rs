//! What holds of every pool, whatever is done with it.
//!
//! Each law is stated over the model: over one state and one event, or over
//! a state and any sequence of events. The executable pool computes the
//! model's functions, so each law holds of any sequence of calls.

use crate::history::{count, History};
use crate::model::{Event, PoolView, MAX_POOL_SIZE};
use crate::worker::WorkerState;
use vstd::prelude::*;

verus! {

/// Changing the state of one worker changes each count by that worker alone.
proof fn lemma_count_update(
    states: Seq<WorkerState>,
    w: int,
    to: WorkerState,
    which: WorkerState,
)
    requires
        0 <= w < states.len(),
    ensures
        count(states.update(w, to), which) + (if states[w] == which {
            1nat
        } else {
            0nat
        }) == count(states, which) + (if to == which {
            1nat
        } else {
            0nat
        }),
    decreases states.len(),
{
    let after = states.update(w, to);
    if w == states.len() - 1 {
        assert(after.drop_last() =~= states.drop_last());
    } else {
        assert(after.drop_last() =~= states.drop_last().update(w, to));
        lemma_count_update(states.drop_last(), w, to, which);
    }
}

/// No worker is in state `which` exactly when the count of such workers is
/// zero.
proof fn lemma_count_zero(states: Seq<WorkerState>, which: WorkerState)
    ensures
        count(states, which) == 0 <==> forall|w: int|
            0 <= w < states.len() ==> #[trigger] states[w] != which,
    decreases states.len(),
{
    if states.len() > 0 {
        let front = states.drop_last();
        lemma_count_zero(front, which);
        if count(states, which) == 0 {
            assert forall|w: int| 0 <= w < states.len() implies #[trigger] states[w] != which by {
                if w < states.len() - 1 {
                    assert(front[w] == states[w]);
                }
            }
        } else if states.last() != which {
            let w = choose|w: int| 0 <= w < front.len() && #[trigger] front[w] == which;
            assert(states[w] == which);
        }
    }
}

/// If every worker is in state `which`, the count of such workers is the
/// number of workers.
proof fn lemma_count_all(states: Seq<WorkerState>, which: WorkerState)
    requires
        forall|w: int| 0 <= w < states.len() ==> #[trigger] states[w] == which,
    ensures
        count(states, which) == states.len(),
    decreases states.len(),
{
    if states.len() > 0 {
        let front = states.drop_last();
        assert forall|w: int| 0 <= w < front.len() implies #[trigger] front[w] == which by {
            assert(front[w] == states[w]);
        }
        lemma_count_all(front, which);
    }
}

/// The record of who runs what is exact: it lists the running workers, and
/// what it says of each is a hand-out to that worker.
spec fn running_recorded<J>(s: PoolView<J>, h: History<J>) -> bool {
    &&& forall|w: int|
        #![trigger s.is_running(w)]
        #![trigger h.running.contains_key(w)]
        s.is_running(w) <==> h.running.contains_key(w)
    &&& forall|w: int| #[trigger]
        h.running.contains_key(w) ==> 0 <= h.running[w] < h.handed.len()
            && h.handed[h.running[w]].worker == w
}

/// From a state in which nobody is running, the record of who runs what is
/// exact after any sequence of events.
proof fn lemma_running_jobs_are_recorded<J>(s: PoolView<J>, events: Seq<Event<J>>)
    requires
        forall|w: int| !s.is_running(w),
    ensures
        running_recorded(s.run(events), s.history(events)),
    decreases events.len(),
{
    if events.len() > 0 {
        lemma_running_jobs_are_recorded(s, events.drop_last());
    }
}

/// A pool that was just built satisfies the invariant, and what separates
/// it from the end of disposal is one step of each worker.
pub proof fn law_fresh_pool_is_valid<J>(size: usize, stack_size: usize)
    requires
        1 <= size <= MAX_POOL_SIZE,
    ensures
        PoolView::<J>::fresh(size, stack_size).inv(),
        PoolView::<J>::fresh(size, stack_size).states.len() == size,
        PoolView::<J>::fresh(size, stack_size).work() == 0,
        PoolView::<J>::fresh(size, stack_size).backlog() == size,
{
    let s = PoolView::<J>::fresh(size, stack_size);
    lemma_count_all(s.states, WorkerState::Idle);
    lemma_count_zero(s.states, WorkerState::Running);
}

/// No event breaks the invariant, and no event changes the number of
/// workers or their stack size.
pub proof fn law_step_keeps_invariant<J>(s: PoolView<J>, event: Event<J>)
    requires
        s.inv(),
    ensures
        s.step(event).inv(),
        s.step(event).states.len() == s.states.len(),
        s.step(event).stack_size == s.stack_size,
{
}

/// The invariant holds after any sequence of events, and the number of
/// workers is the one the pool was built with.
pub proof fn law_invariant_always_holds<J>(s: PoolView<J>, events: Seq<Event<J>>)
    requires
        s.inv(),
    ensures
        s.run(events).inv(),
        s.run(events).states.len() == s.states.len(),
        s.run(events).stack_size == s.stack_size,
    decreases events.len(),
{
    if events.len() > 0 {
        law_invariant_always_holds(s, events.drop_last());
        law_step_keeps_invariant(s.run(events.drop_last()), events.last());
    }
}

/// A worker moves only by its own steps and only along its lifecycle. An
/// idle worker starts running only by taking a pending job, and terminates
/// only by asking for a job when none is pending and the pool is closed. A
/// running worker stays running until it reports the end of its job, which
/// makes it idle: it never terminates in the middle of a job. A terminated
/// worker stays terminated.
pub proof fn law_worker_lifecycle<J>(s: PoolView<J>, event: Event<J>, w: int)
    requires
        0 <= w < s.states.len(),
    ensures
        s.step(event).states[w] != s.states[w] ==> s.enabled(event) && (event == Event::<J>::Take(w)
            || event == Event::<J>::Finish(w)),
        s.is_idle(w) && s.step(event).is_running(w) ==> event == Event::<J>::Take(w)
            && s.pending.len() > 0,
        s.is_idle(w) && s.step(event).is_terminated(w) ==> event == Event::<J>::Take(w)
            && s.pending.len() == 0 && !s.open,
        s.is_running(w) ==> s.step(event).is_running(w) || (s.step(event).is_idle(w) && event
            == Event::<J>::Finish(w)),
        s.is_terminated(w) ==> s.step(event).is_terminated(w),
{
}

/// Every accepted job is handed out exactly once, in the order of
/// acceptance: at any moment the jobs handed out so far, followed by the
/// jobs still pending, are the jobs that were pending at the start followed
/// by the jobs accepted since. Nothing is lost, nothing is handed out twice,
/// and nothing overtakes.
pub proof fn law_each_job_handed_out_once<J>(s: PoolView<J>, events: Seq<Event<J>>)
    ensures
        s.history(events).handed_jobs() + s.run(events).pending == s.pending + s.history(
            events,
        ).accepted,
    decreases events.len(),
{
    let now = s.history(events).handed_jobs() + s.run(events).pending;
    let all = s.pending + s.history(events).accepted;
    if events.len() == 0 {
        assert(now =~= all);
    } else {
        let front = events.drop_last();
        let before = s.run(front);
        law_each_job_handed_out_once(s, front);
        let all_before = s.pending + s.history(front).accepted;
        match events.last() {
            Event::Submit(job) => {
                if before.open {
                    assert(now =~= all_before.push(job));
                    assert(all =~= all_before.push(job));
                }
            },
            Event::Take(w) => {
                if before.is_idle(w) && before.pending.len() > 0 {
                    assert(now =~= all_before);
                }
            },
            _ => {},
        }
    }
}

/// No job goes to two workers: the k-th job handed out is the k-th job of
/// the queue's whole content over time (what was pending at the start, then
/// what was accepted since), so two hand-outs never concern the same entry
/// of the queue, whichever workers received them.
pub proof fn law_no_job_goes_to_two_workers<J>(s: PoolView<J>, events: Seq<Event<J>>, k: int)
    requires
        0 <= k < s.history(events).handed.len(),
    ensures
        k < (s.pending + s.history(events).accepted).len(),
        s.history(events).handed[k].job == (s.pending + s.history(events).accepted)[k],
{
    let h = s.history(events);
    law_each_job_handed_out_once(s, events);
    assert((h.handed_jobs() + s.run(events).pending)[k] == h.handed_jobs()[k]);
}

/// No two workers run the same job: in a pool that started fresh, each
/// running worker runs the job of one hand-out, that hand-out went to this
/// worker, and two running workers run the jobs of different hand-outs.
pub proof fn law_workers_run_different_jobs<J>(
    size: usize,
    stack_size: usize,
    events: Seq<Event<J>>,
    v: int,
    w: int,
)
    requires
        1 <= size <= MAX_POOL_SIZE,
        PoolView::<J>::fresh(size, stack_size).run(events).is_running(v),
        PoolView::<J>::fresh(size, stack_size).run(events).is_running(w),
        v != w,
    ensures
        ({
            let h = PoolView::<J>::fresh(size, stack_size).history(events);
            &&& h.running.contains_key(v) && h.running.contains_key(w)
            &&& 0 <= h.running[v] < h.handed.len() && h.handed[h.running[v]].worker == v
            &&& 0 <= h.running[w] < h.handed.len() && h.handed[h.running[w]].worker == w
            &&& h.running[v] != h.running[w]
        }),
{
    lemma_running_jobs_are_recorded(PoolView::<J>::fresh(size, stack_size), events);
}

/// Each job that was handed out went to a worker of the pool.
pub proof fn law_jobs_go_to_workers<J>(s: PoolView<J>, events: Seq<Event<J>>, k: int)
    requires
        s.inv(),
        0 <= k < s.history(events).handed.len(),
    ensures
        0 <= s.history(events).handed[k].worker < s.states.len(),
    decreases events.len(),
{
    if events.len() > 0 {
        let front = events.drop_last();
        law_invariant_always_holds(s, front);
        if k < s.history(front).handed.len() {
            law_jobs_go_to_workers(s, front, k);
        }
    }
}

/// Every job that was handed out has returned or is being run right now:
/// the number of hand-outs is the number of returns plus the number of
/// running workers, in a pool in which nobody was running at the start.
pub proof fn law_handed_jobs_return<J>(s: PoolView<J>, events: Seq<Event<J>>)
    requires
        s.inv(),
        count(s.states, WorkerState::Running) == 0,
    ensures
        s.history(events).handed.len() == s.history(events).finished + count(
            s.run(events).states,
            WorkerState::Running,
        ),
    decreases events.len(),
{
    if events.len() > 0 {
        let front = events.drop_last();
        let before = s.run(front);
        law_handed_jobs_return(s, front);
        if before.enabled(events.last()) {
            match events.last() {
                Event::Take(w) => {
                    let to = if before.pending.len() > 0 {
                        WorkerState::Running
                    } else {
                        WorkerState::Terminated
                    };
                    lemma_count_update(before.states, w, to, WorkerState::Running);
                },
                Event::Finish(w) => {
                    lemma_count_update(before.states, w, WorkerState::Idle, WorkerState::Running);
                },
                _ => {},
            }
        }
    }
}

/// Once a pool is closed it stays closed, and no submission is accepted any
/// more.
pub proof fn law_closed_pool_accepts_nothing<J>(s: PoolView<J>, events: Seq<Event<J>>)
    requires
        !s.open,
    ensures
        !s.run(events).open,
        s.history(events).accepted == Seq::<J>::empty(),
    decreases events.len(),
{
    if events.len() > 0 {
        law_closed_pool_accepts_nothing(s, events.drop_last());
    }
}

/// After disposal is complete nothing changes any more: no event has any
/// effect, no job is accepted or handed out, no worker is running or idle,
/// nothing is pending.
pub proof fn law_disposed_pool_is_final<J>(s: PoolView<J>, events: Seq<Event<J>>)
    requires
        s.inv(),
        s.is_disposed(),
    ensures
        s.run(events) == s,
        s.history(events) == History::<J>::empty(),
        s.pending.len() == 0,
        forall|w: int| !s.is_running(w) && !s.is_idle(w),
    decreases events.len(),
{
    assert(s.states[0] is Terminated);
    if events.len() > 0 {
        law_disposed_pool_is_final(s, events.drop_last());
    }
}

/// Workers only ever reduce the work to be done: a step of a worker reduces
/// it by one, unless the worker asked for a job and none was pending.
pub proof fn law_worker_step_does_work<J>(s: PoolView<J>, event: Event<J>)
    requires
        s.inv(),
        event is Take || event is Finish,
        s.enabled(event),
    ensures
        s.does_work(event) ==> s.step(event).work() + 1 == s.work(),
        !s.does_work(event) ==> s.step(event).work() == s.work(),
{
    match event {
        Event::Take(w) => {
            let to = if s.pending.len() > 0 {
                WorkerState::Running
            } else {
                WorkerState::Terminated
            };
            lemma_count_update(s.states, w, to, WorkerState::Running);
        },
        Event::Finish(w) => {
            lemma_count_update(s.states, w, WorkerState::Idle, WorkerState::Running);
        },
        _ => {},
    }
}

/// While work is left, some worker can do some of it: a running worker can
/// finish its job, or an idle worker can take a pending one. (That a job
/// does return is the one thing the pool cannot promise.) No work is left
/// exactly when nothing is pending and nobody is running.
pub proof fn law_work_can_proceed<J>(s: PoolView<J>)
    requires
        s.inv(),
    ensures
        s.work() > 0 ==> exists|w: int| s.is_running(w) || (s.is_idle(w) && s.pending.len() > 0),
        s.work() == 0 <==> s.pending.len() == 0 && forall|w: int| !s.is_running(w),
{
    lemma_count_zero(s.states, WorkerState::Running);
    if count(s.states, WorkerState::Running) > 0 {
        let w = choose|w: int|
            0 <= w < s.states.len() && #[trigger] s.states[w] == WorkerState::Running;
        assert(s.is_running(w));
    } else if s.pending.len() > 0 {
        assert(!(s.states[0] is Terminated));
        assert(s.is_idle(0));
    }
}

/// The work that is there gets done: as long as nothing new is submitted,
/// the workers can take no more working steps than `work` says, in whatever
/// order they take them, and when they have taken that many, nothing is
/// pending and every job that was handed out has returned.
pub proof fn law_work_gets_done<J>(s: PoolView<J>, events: Seq<Event<J>>)
    requires
        s.inv(),
        s.working_steps(events),
    ensures
        s.run(events).work() + events.len() == s.work(),
        events.len() == s.work() ==> s.run(events).pending.len() == 0 && forall|w: int|
            !s.run(events).is_running(w),
    decreases events.len(),
{
    if events.len() > 0 {
        let front = events.drop_last();
        law_work_gets_done(s, front);
        law_invariant_always_holds(s, front);
        law_worker_step_does_work(s.run(front), events.last());
    }
    law_invariant_always_holds(s, events);
    law_work_can_proceed(s.run(events));
}

/// In a closed pool each step of a worker brings the end of disposal one
/// step closer.
pub proof fn law_worker_step_reduces_backlog<J>(s: PoolView<J>, event: Event<J>)
    requires
        s.inv(),
        !s.open,
        event is Take || event is Finish,
        s.enabled(event),
    ensures
        s.step(event).backlog() + 1 == s.backlog(),
{
    match event {
        Event::Take(w) => {
            let to = if s.pending.len() > 0 {
                WorkerState::Running
            } else {
                WorkerState::Terminated
            };
            lemma_count_update(s.states, w, to, WorkerState::Idle);
            lemma_count_update(s.states, w, to, WorkerState::Running);
        },
        Event::Finish(w) => {
            lemma_count_update(s.states, w, WorkerState::Idle, WorkerState::Idle);
            lemma_count_update(s.states, w, WorkerState::Idle, WorkerState::Running);
        },
        _ => {},
    }
}

/// A closed pool has no steps left exactly when disposal is complete; until
/// then some worker can take a step.
pub proof fn law_closed_pool_can_proceed<J>(s: PoolView<J>)
    requires
        s.inv(),
        !s.open,
    ensures
        s.backlog() == 0 <==> s.is_disposed(),
        !s.is_disposed() ==> exists|w: int| s.is_idle(w) || s.is_running(w),
{
    lemma_count_zero(s.states, WorkerState::Idle);
    lemma_count_zero(s.states, WorkerState::Running);
    if s.is_disposed() {
        assert(s.states[0] is Terminated);
    } else {
        let w = choose|w: int| 0 <= w < s.states.len() && !(#[trigger] s.states[w] is Terminated);
        assert(s.is_idle(w) || s.is_running(w));
    }
    if s.backlog() == 0 {
        assert forall|w: int| 0 <= w < s.states.len() implies #[trigger] s.states[w]
            is Terminated by {
            assert(s.states[w] != WorkerState::Idle);
            assert(s.states[w] != WorkerState::Running);
        }
    }
}

/// A closed pool comes to its end: whatever steps the workers take, and in
/// whatever order, they can take no more than `backlog` of them, and when
/// they have taken that many, disposal is complete.
pub proof fn law_closed_pool_drains<J>(s: PoolView<J>, events: Seq<Event<J>>)
    requires
        s.inv(),
        !s.open,
        s.worker_steps(events),
    ensures
        s.run(events).backlog() + events.len() == s.backlog(),
        events.len() == s.backlog() ==> s.run(events).is_disposed(),
    decreases events.len(),
{
    if events.len() > 0 {
        let front = events.drop_last();
        law_closed_pool_drains(s, front);
        law_invariant_always_holds(s, front);
        law_closed_pool_accepts_nothing(s, front);
        law_worker_step_reduces_backlog(s.run(front), events.last());
    }
    law_invariant_always_holds(s, events);
    law_closed_pool_accepts_nothing(s, events);
    law_closed_pool_can_proceed(s.run(events));
}

/// When the disposal of a pool is complete, every job the pool ever
/// accepted has been executed exactly once: the jobs handed out are the jobs
/// accepted, each of them has returned, and none is left pending.
pub proof fn law_disposed_pool_ran_every_job<J>(
    size: usize,
    stack_size: usize,
    events: Seq<Event<J>>,
)
    requires
        1 <= size <= MAX_POOL_SIZE,
        PoolView::<J>::fresh(size, stack_size).run(events).is_disposed(),
    ensures
        ({
            let h = PoolView::<J>::fresh(size, stack_size).history(events);
            &&& h.handed_jobs() == h.accepted
            &&& h.finished == h.accepted.len()
            &&& PoolView::<J>::fresh(size, stack_size).run(events).pending.len() == 0
        }),
{
    let s = PoolView::<J>::fresh(size, stack_size);
    let end = s.run(events);
    let h = s.history(events);
    law_fresh_pool_is_valid::<J>(size, stack_size);
    law_invariant_always_holds(s, events);
    law_each_job_handed_out_once(s, events);
    lemma_count_zero(s.states, WorkerState::Running);
    law_handed_jobs_return(s, events);
    lemma_count_zero(end.states, WorkerState::Running);
    assert(end.states[0] is Terminated);
    assert(h.handed_jobs() + end.pending =~= h.handed_jobs());
    assert(s.pending + h.accepted =~= h.accepted);
}

} // verus!
