//! The job queue: an unbounded FIFO handoff from submitters to workers.
//!
//! One logical producing end, held by the pool and relinquished exactly once
//! at teardown; one consuming end, shared by all workers under mutual
//! exclusion, so that each pending job is delivered to exactly one worker.

use vstd::prelude::*;

verus! {

/// A token standing for the queue's producing end. The pool holds it in an
/// optional slot so that teardown can relinquish it exactly once.
pub struct ProducerEnd;

/// What one dequeue attempt yields once it returns: either the next pending
/// job, removed from the queue, or the signal that the producing end is gone
/// and no job will ever arrive again.
pub enum DequeueOutcome {
    Job(usize),
    Closed,
}

/// The FIFO sequence of pending jobs, each named by an identifier, together
/// with whether the producing end is still open.
pub struct JobQueue {
    pub jobs: Vec<usize>,
    pub open: bool,
}

impl JobQueue {
    /// The pending jobs, oldest first.
    pub open spec fn pending(self) -> Seq<usize> {
        self.jobs@
    }

    /// Whether the producing end has not yet been relinquished.
    pub open spec fn is_open(self) -> bool {
        self.open
    }

    /// A fresh queue: empty, with its producing end open.
    pub fn new() -> (q: JobQueue)
        ensures
            q.pending() =~= Seq::<usize>::empty(),
            q.is_open(),
    {
        JobQueue { jobs: Vec::new(), open: true }
    }

    /// Accepts a job while the producing end is open; never blocks. Once the
    /// queue is closed the job is handed back to the caller, so a submission
    /// racing the close resolves to a clean, visible failure rather than a
    /// silent drop.
    pub fn enqueue(&mut self, job: usize) -> (r: Result<(), usize>)
        ensures
            old(self).is_open() ==> r == Ok::<(), usize>(())
                && final(self).pending() =~= old(self).pending().push(job)
                && final(self).is_open(),
            !old(self).is_open() ==> r == Err::<(), usize>(job)
                && *final(self) == *old(self),
    {
        if self.open {
            self.jobs.push(job);
            Ok(())
        } else {
            Err(job)
        }
    }

    /// Removes and returns the oldest pending job, or reports the close once
    /// the queue is closed and drained. The real consuming end blocks instead
    /// of returning while the queue is empty but still open, so a call models
    /// a receive that has woken up: that one state is excluded here.
    pub fn dequeue(&mut self) -> (r: DequeueOutcome)
        requires
            old(self).pending().len() > 0 || !old(self).is_open(),
        ensures
            old(self).pending().len() > 0 ==> r == DequeueOutcome::Job(old(self).pending()[0])
                && final(self).pending() =~= old(self).pending().skip(1)
                && final(self).is_open() == old(self).is_open(),
            old(self).pending().len() == 0 ==> r == DequeueOutcome::Closed
                && *final(self) == *old(self),
    {
        if self.jobs.len() > 0 {
            let j = self.jobs.remove(0);
            DequeueOutcome::Job(j)
        } else {
            DequeueOutcome::Closed
        }
    }

    /// Relinquishes the producing end; called exactly once, by the pool's
    /// teardown. Pending jobs are kept: closing only stops new arrivals.
    pub fn close_producer(&mut self)
        requires
            old(self).is_open(),
        ensures
            !final(self).is_open(),
            final(self).pending() =~= old(self).pending(),
    {
        self.open = false;
    }
}

} // verus!
