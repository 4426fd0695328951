//! The worker pool: construction, submission, the worker's side of the
//! queue, and disposal.

use crate::error::{ThreadPoolError, OVERSIZED, SUBMISSION_FAILED, ZERO_SIZE};
use crate::model::{Event, PoolView, MAX_POOL_SIZE};
use crate::queue::{JobQueue, Received};
use crate::worker::{Dispatch, Worker, WorkerState};
use vstd::prelude::*;

verus! {

/// A pool of a fixed number of workers that share one queue of jobs.
///
/// The pool keeps the books; it runs nothing itself. A caller submits jobs
/// with [`execute`](ThreadPool::execute). Each worker, on its own thread,
/// calls [`next_job`](ThreadPool::next_job) whenever it is idle and
/// [`finish_job`](ThreadPool::finish_job) when the job it was handed has
/// returned. The owner ends the pool with [`dispose`](ThreadPool::dispose).
#[derive(Debug)]
pub struct ThreadPool<J> {
    workers: Vec<Worker>,
    queue: JobQueue<J>,
    stack_size: usize,
}

impl<J> View for ThreadPool<J> {
    type V = PoolView<J>;

    closed spec fn view(&self) -> PoolView<J> {
        PoolView {
            states: Seq::new(self.workers@.len(), |w: int| self.workers@[w].state),
            pending: self.queue@,
            open: self.queue.accepting(),
            stack_size: self.stack_size,
        }
    }
}

impl<J> ThreadPool<J> {
    /// The pool's books are consistent: its state satisfies the model's
    /// invariant and every worker carries its own index.
    pub closed spec fn wf(&self) -> bool {
        &&& self@.inv()
        &&& forall|w: int| 0 <= w < self.workers@.len() ==> (#[trigger] self.workers@[w]).id == w
    }

    /// A consistent pool is in a state that satisfies the model's invariant.
    pub proof fn lemma_wf_inv(&self)
        requires
            self.wf(),
        ensures
            self@.inv(),
    {
    }

    /// Builds a pool of `size` workers, each to run on a stack of
    /// `stack_size_bytes` bytes.
    ///
    /// Fails if `size` is zero or greater than [`MAX_POOL_SIZE`]; the stack
    /// size is not examined. On success every worker is idle, nothing is
    /// pending and the pool accepts jobs.
    pub fn build(size: usize, stack_size_bytes: usize) -> (r: Result<ThreadPool<J>, ThreadPoolError>)
        ensures
            match r {
                Ok(pool) => {
                    &&& 1 <= size <= MAX_POOL_SIZE
                    &&& pool.wf()
                    &&& pool@ == PoolView::<J>::fresh(size, stack_size_bytes)
                },
                Err(e) => {
                    &&& e is CreationError
                    &&& size == 0 || size > MAX_POOL_SIZE
                    &&& size == 0 ==> e.reason() == ZERO_SIZE@
                    &&& size > MAX_POOL_SIZE ==> e.reason() == OVERSIZED@
                },
            },
    {
        if size > 0 && size <= MAX_POOL_SIZE {
            let pool = ThreadPool {
                workers: Self::spawn_workers(size),
                queue: JobQueue::new(),
                stack_size: stack_size_bytes,
            };
            assert(pool@.states =~= PoolView::<J>::fresh(size, stack_size_bytes).states);
            Ok(pool)
        } else if size > MAX_POOL_SIZE {
            Err(ThreadPoolError::oversized())
        } else {
            Err(ThreadPoolError::zero_size())
        }
    }

    /// Creates the records of `size` workers, in order, all idle.
    fn spawn_workers(size: usize) -> (workers: Vec<Worker>)
        ensures
            workers@.len() == size,
            forall|w: int|
                0 <= w < size ==> (#[trigger] workers@[w]) == (Worker {
                    id: w as usize,
                    state: WorkerState::Idle,
                }),
    {
        let mut workers: Vec<Worker> = Vec::with_capacity(size);
        for id in 0..size
            invariant
                workers@.len() == id,
                forall|w: int|
                    0 <= w < id ==> (#[trigger] workers@[w]) == (Worker {
                        id: w as usize,
                        state: WorkerState::Idle,
                    }),
        {
            workers.push(Worker { id, state: WorkerState::Idle });
        }
        workers
    }

    /// Submits `job`. The call returns as soon as the job is pending; it does
    /// not wait for the job to run.
    ///
    /// Fails, leaving the pool as it was, exactly when the pool is closed,
    /// that is, once its disposal has begun. There is no limit on the number
    /// of pending jobs. In the model this is the event `Submit(job)`.
    pub fn execute(&mut self, job: J) -> (r: Result<(), ThreadPoolError>)
        requires
            old(self).wf(),
        ensures
            final(self).wf(),
            final(self)@ == old(self)@.submit(job),
            final(self)@ == old(self)@.step(Event::Submit(job)),
            match r {
                Ok(_) => old(self)@.open,
                Err(e) => {
                    &&& !old(self)@.open
                    &&& e is ExecutionError
                    &&& e.reason() == SUBMISSION_FAILED@
                },
            },
    {
        match self.queue.send(job) {
            Ok(_) => Ok(()),
            Err(_) => Err(ThreadPoolError::submission_failed()),
        }
    }

    /// Hands the idle worker `worker` its next instruction.
    ///
    /// If a job is pending, the oldest one is removed from the queue and
    /// returned, and the worker is running from now on: no other call will
    /// ever return that job. This holds after disposal too, so what was
    /// accepted is still handed out. If nothing is pending, the worker is
    /// told to wait while the pool is open, and to exit, as a terminated
    /// worker, once it is closed. In the model this is the event
    /// `Take(worker)`.
    pub fn next_job(&mut self, worker: usize) -> (r: Dispatch<J>)
        requires
            old(self).wf(),
            old(self)@.is_idle(worker as int),
        ensures
            final(self).wf(),
            final(self)@ == old(self)@.take(worker as int),
            final(self)@ == old(self)@.step(Event::Take(worker as int)),
            r == old(self)@.handed(worker as int),
    {
        match self.queue.receive() {
            Received::Job(job) => {
                self.workers.set(worker, Worker { id: worker, state: WorkerState::Running });
                assert(self@.states =~= old(self)@.take(worker as int).states);
                Dispatch::Run(job)
            },
            Received::Empty => Dispatch::Wait,
            Received::Closed => {
                self.workers.set(worker, Worker { id: worker, state: WorkerState::Terminated });
                assert(self@.states =~= old(self)@.take(worker as int).states);
                Dispatch::Exit
            },
        }
    }

    /// Records that the job which `worker` was running has returned: the
    /// worker is idle again. In the model this is the event
    /// `Finish(worker)`.
    ///
    /// A worker whose job never returns, or whose thread dies of it, never
    /// makes this call. It stays `Running` for good, and the pool goes on
    /// with one worker less.
    pub fn finish_job(&mut self, worker: usize)
        requires
            old(self).wf(),
            old(self)@.is_running(worker as int),
        ensures
            final(self).wf(),
            final(self)@ == old(self)@.finish(worker as int),
            final(self)@ == old(self)@.step(Event::Finish(worker as int)),
    {
        self.workers.set(worker, Worker { id: worker, state: WorkerState::Idle });
        assert(self@.states =~= old(self)@.finish(worker as int).states);
    }

    /// Disposes of the pool, one step at a time.
    ///
    /// The pool stops accepting jobs; pending jobs stay pending and workers
    /// stay as they are. The result is the worker whose exit the owner has
    /// to wait for next: the first in construction order that has not
    /// terminated. `None` means that every worker has terminated and
    /// disposal is complete. Calling it again is harmless. In the model
    /// this is the event `Close`.
    pub fn dispose(&mut self) -> (next: Option<usize>)
        requires
            old(self).wf(),
        ensures
            final(self).wf(),
            final(self)@ == old(self)@.close(),
            final(self)@ == old(self)@.step(Event::Close),
            final(self)@.awaits(next),
            next is None <==> final(self)@.is_disposed(),
    {
        self.queue.close();
        assert(self@.states =~= old(self)@.states);
        let n = self.workers.len();
        let mut w: usize = 0;
        while w < n
            invariant
                self.wf(),
                self@ == old(self)@.close(),
                n == self.workers@.len(),
                w <= n,
                forall|v: int| 0 <= v < w ==> (#[trigger] self.workers@[v]).state is Terminated,
            decreases n - w,
        {
            if !matches!(self.workers[w].state, WorkerState::Terminated) {
                assert(!(self@.states[w as int] is Terminated));
                return Some(w);
            }
            w += 1;
        }
        None
    }

    /// The number of workers. It never changes.
    pub fn size(&self) -> (n: usize)
        ensures
            n == self@.states.len(),
    {
        self.workers.len()
    }

    /// The stack size, in bytes, that each worker's thread is to be given.
    pub fn stack_size(&self) -> (bytes: usize)
        ensures
            bytes == self@.stack_size,
    {
        self.stack_size
    }

    /// Whether the pool still accepts jobs.
    pub fn is_open(&self) -> (open: bool)
        ensures
            open == self@.open,
    {
        self.queue.is_open()
    }

    /// The number of jobs accepted and not yet handed to a worker.
    pub fn pending(&self) -> (n: usize)
        ensures
            n == self@.pending.len(),
    {
        self.queue.len()
    }

    /// The record of worker `worker`, or `None` if the pool has no such
    /// worker. A worker's identity is its index in construction order.
    pub fn worker(&self, worker: usize) -> (record: Option<Worker>)
        requires
            self.wf(),
        ensures
            record == (if worker < self@.states.len() {
                Some(Worker { id: worker, state: self@.states[worker as int] })
            } else {
                None
            }),
    {
        if worker < self.workers.len() {
            Some(self.workers[worker])
        } else {
            None
        }
    }

    /// The state of worker `worker`, or `None` if the pool has no such
    /// worker.
    pub fn worker_state(&self, worker: usize) -> (state: Option<WorkerState>)
        ensures
            state == (if worker < self@.states.len() {
                Some(self@.states[worker as int])
            } else {
                None
            }),
    {
        if worker < self.workers.len() {
            Some(self.workers[worker].state)
        } else {
            None
        }
    }
}

} // verus!
