//! The job queue: an unbounded, ordered channel of pending jobs with a
//! submission side that can be closed.

use std::collections::VecDeque;
use vstd::prelude::*;

verus! {

/// What a receiver finds when it looks into the queue.
#[derive(Debug)]
pub enum Received<J> {
    /// The oldest pending job, now removed from the queue.
    Job(J),
    /// Nothing is pending, but the queue still accepts jobs.
    Empty,
    /// Nothing is pending and the queue accepts no more jobs.
    Closed,
}

/// An ordered queue of pending jobs.
///
/// Jobs leave in the order in which they were accepted, and each accepted job
/// leaves exactly once. The queue has no capacity limit. Once closed it
/// accepts nothing more, but what is pending can still be received.
#[derive(Debug)]
pub struct JobQueue<J> {
    jobs: VecDeque<J>,
    open: bool,
}

impl<J> View for JobQueue<J> {
    type V = Seq<J>;

    /// The pending jobs, oldest first.
    closed spec fn view(&self) -> Seq<J> {
        self.jobs@
    }
}

impl<J> JobQueue<J> {
    /// Whether the queue still accepts jobs.
    pub closed spec fn accepting(&self) -> bool {
        self.open
    }

    /// An open queue with nothing pending.
    pub fn new() -> (q: JobQueue<J>)
        ensures
            q@ == Seq::<J>::empty(),
            q.accepting(),
    {
        JobQueue { jobs: VecDeque::new(), open: true }
    }

    /// Whether the queue still accepts jobs.
    pub fn is_open(&self) -> (open: bool)
        ensures
            open == self.accepting(),
    {
        self.open
    }

    /// The number of pending jobs.
    pub fn len(&self) -> (n: usize)
        ensures
            n == self@.len(),
    {
        self.jobs.len()
    }

    /// Appends `job` to an open queue; a closed queue hands it back.
    pub fn send(&mut self, job: J) -> (r: Result<(), J>)
        ensures
            final(self).accepting() == old(self).accepting(),
            old(self).accepting() ==> r is Ok && final(self)@ == old(self)@.push(job),
            !old(self).accepting() ==> r == Err::<(), J>(job) && final(self)@ == old(self)@,
    {
        if self.open {
            self.jobs.push_back(job);
            Ok(())
        } else {
            Err(job)
        }
    }

    /// Removes and returns the oldest pending job, or says why there is none.
    pub fn receive(&mut self) -> (r: Received<J>)
        ensures
            final(self).accepting() == old(self).accepting(),
            old(self)@.len() > 0 ==> r == Received::Job(old(self)@[0]) && final(self)@
                == old(self)@.drop_first(),
            old(self)@.len() == 0 ==> final(self)@ == old(self)@ && r == (if old(
                self,
            ).accepting() {
                Received::<J>::Empty
            } else {
                Received::<J>::Closed
            }),
    {
        match self.jobs.pop_front() {
            Some(job) => Received::Job(job),
            None => if self.open {
                Received::Empty
            } else {
                Received::Closed
            },
        }
    }

    /// Closes the submission side. What is pending stays pending.
    pub fn close(&mut self)
        ensures
            !final(self).accepting(),
            final(self)@ == old(self)@,
    {
        self.open = false;
    }
}

} // verus!
