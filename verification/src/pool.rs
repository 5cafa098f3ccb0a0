//! The thread pool: owns the queue's producing end and the workers.
//!
//! Construction makes one queue and a fixed number of workers; submission
//! pushes one job; teardown relinquishes the producing end exactly once,
//! drains every job accepted before the close, and joins every worker.

use crate::queue::DequeueOutcome;
use crate::queue::JobQueue;
use crate::queue::ProducerEnd;
use crate::worker::ContextState;
use crate::worker::Worker;
use vstd::prelude::*;

verus! {

/// The errors the pool can report to a caller that validates its input.
pub enum PoolError {
    CreationError(&'static str),
}

/// The pool's mathematical model: the state of each worker's context by
/// index (`None` once joined), whether submissions are still accepted, the
/// pending queue and the completion log.
#[verifier::ext_equal]
pub struct PoolModel {
    pub workers: Seq<Option<ContextState>>,
    pub open: bool,
    pub pending: Seq<usize>,
    pub completed: Seq<usize>,
}

/// A pool as construction leaves it: `n` idle workers, open to submissions,
/// nothing pending and nothing run yet.
pub open spec fn spec_fresh(n: nat) -> PoolModel {
    PoolModel {
        workers: Seq::new(n, |k: int| Some(ContextState::Idle)),
        open: true,
        pending: Seq::empty(),
        completed: Seq::empty(),
    }
}

/// One submission: the job joins the back of the pending queue.
pub open spec fn spec_submit(m: PoolModel, job: usize) -> PoolModel {
    PoolModel { pending: m.pending.push(job), ..m }
}

/// A sequence of submissions, in order.
pub open spec fn spec_submit_all(m: PoolModel, jobs: Seq<usize>) -> PoolModel
    decreases jobs.len(),
{
    if jobs.len() == 0 {
        m
    } else {
        spec_submit_all(spec_submit(m, jobs[0]), jobs.skip(1))
    }
}

/// One worker turn with work available: the oldest pending job is run and
/// recorded, exactly once.
pub open spec fn spec_run_front(m: PoolModel) -> PoolModel {
    PoolModel { pending: m.pending.skip(1), completed: m.completed.push(m.pending[0]), ..m }
}

/// One worker turn on a closed, drained queue: the worker observes the
/// close and its context stops. This is the normal end of its loop, not an
/// error.
pub open spec fn spec_observe_close(m: PoolModel, i: int) -> PoolModel {
    PoolModel { workers: m.workers.update(i, Some(ContextState::Stopped)), ..m }
}

/// Teardown: the producing end is gone, every job pending at the close has
/// been run and recorded, and every worker context has been joined.
pub open spec fn spec_teardown(m: PoolModel) -> PoolModel {
    PoolModel {
        workers: Seq::new(m.workers.len(), |k: int| None),
        open: false,
        pending: Seq::empty(),
        completed: m.completed + m.pending,
    }
}

/// The pool: a fixed collection of workers, the job queue they share, the
/// producing end held until teardown, and the log of jobs already run.
///
/// The `completed` log stands for the externally observable effects of job
/// bodies: a job is recorded there exactly when some worker has run it.
pub struct ThreadPool {
    pub workers: Vec<Worker>,
    pub sender: Option<ProducerEnd>,
    pub queue: JobQueue,
    pub completed: Vec<usize>,
}

impl View for ThreadPool {
    type V = PoolModel;

    open spec fn view(&self) -> PoolModel {
        PoolModel {
            workers: self.workers@.map_values(|w: Worker| w.thread),
            open: self.queue.is_open(),
            pending: self.queue.pending(),
            completed: self.completed@,
        }
    }
}

impl ThreadPool {
    /// Each worker carries its own index, and the producing end is held
    /// exactly as long as the queue is open to submissions.
    pub open spec fn wf(self) -> bool {
        &&& forall|k: int|
            0 <= k < self.workers@.len() ==> (#[trigger] self.workers@[k]).id as int == k
        &&& self.sender is Some <==> self.queue.is_open()
    }

    /// Whether the pool still accepts submissions.
    pub open spec fn is_open(self) -> bool {
        self.sender is Some
    }

    /// The jobs accepted but not yet run, oldest first.
    pub open spec fn pending(self) -> Seq<usize> {
        self.queue.pending()
    }

    /// The jobs already run, in the order they were run.
    pub open spec fn completed_log(self) -> Seq<usize> {
        self.completed@
    }

    /// All workers whose context is live and idle.
    pub open spec fn all_idle(self) -> bool {
        forall|k: int|
            0 <= k < self.workers@.len() ==> (#[trigger] self.workers@[k]).thread == Some(
                ContextState::Idle,
            )
    }

    /// Constructs a pool of `size` workers. This is the fail-fast entry
    /// point for trusted call sites: a zero size is a caller fault, excluded
    /// here and aborted on at run time if an unverified caller passes it.
    pub fn new(size: usize) -> (p: ThreadPool)
        requires
            1 <= size,
        ensures
            p.wf(),
            p.workers@.len() == size,
            p.all_idle(),
            p.is_open(),
            p.pending() =~= Seq::<usize>::empty(),
            p.completed_log() =~= Seq::<usize>::empty(),
            p@ =~= spec_fresh(size as nat),
    {
        if size == 0 {
            vstd::pervasive::unreached()
        } else {
            Self::init(size)
        }
    }

    /// Builds a pool of `size` workers, reporting a zero size as a typed
    /// error with its reason instead of aborting, so that an unsure caller
    /// can validate the input without crashing.
    pub fn build(size: usize) -> (r: Result<ThreadPool, PoolError>)
        ensures
            size == 0 ==> (r matches Err(e) && e matches PoolError::CreationError(m)
                && m@ =~= "Number of threads equals zero"@ && m@.len() > 0),
            size >= 1 ==> (r matches Ok(p) && p.wf() && p.workers@.len() == size && p.all_idle()
                && p.is_open() && p.pending() =~= Seq::<usize>::empty() && p.completed_log()
                =~= Seq::<usize>::empty() && p@ =~= spec_fresh(size as nat)),
    {
        if size == 0 {
            proof {
                reveal_strlit("Number of threads equals zero");
            }
            return Err(PoolError::CreationError("Number of threads equals zero"));
        }
        Ok(Self::init(size))
    }

    /// The shared construction path: one fresh queue, `size` workers indexed
    /// in order and all idle, the producing end retained.
    pub fn init(size: usize) -> (p: ThreadPool)
        ensures
            p.wf(),
            p.workers@.len() == size,
            p.all_idle(),
            p.is_open(),
            p.pending() =~= Seq::<usize>::empty(),
            p.completed_log() =~= Seq::<usize>::empty(),
            p@ =~= spec_fresh(size as nat),
    {
        let mut workers: Vec<Worker> = Vec::with_capacity(size);
        let mut i: usize = 0;
        while i < size
            invariant
                i <= size,
                workers@.len() == i,
                forall|k: int|
                    0 <= k < i ==> (#[trigger] workers@[k]).id as int == k && workers@[k].thread
                        == Some(ContextState::Idle),
            decreases size - i,
        {
            workers.push(Worker::new(i));
            i += 1;
        }
        let p = ThreadPool {
            workers,
            sender: Some(ProducerEnd),
            queue: JobQueue::new(),
            completed: Vec::new(),
        };
        proof {
            assert(p@.workers =~= spec_fresh(size as nat).workers);
            assert(p@ =~= spec_fresh(size as nat));
        }
        p
    }

    /// Submits one job: it joins the back of the pending queue and nothing
    /// else moves. Callable only while the pool is open; a submission after
    /// teardown is a caller fault that aborts at run time rather than
    /// letting the job be silently dropped.
    pub fn execute(&mut self, job: usize)
        requires
            old(self).wf(),
            old(self).is_open(),
        ensures
            final(self).wf(),
            final(self).is_open(),
            final(self).pending() =~= old(self).pending().push(job),
            final(self).completed_log() =~= old(self).completed_log(),
            final(self).workers@ =~= old(self).workers@,
            final(self)@ =~= spec_submit(old(self)@, job),
    {
        match self.queue.enqueue(job) {
            Ok(()) => {},
            Err(_) => vstd::pervasive::unreached(),
        }
        proof {
            assert(self@ =~= spec_submit(old(self)@, job));
        }
    }

    /// One turn of worker `i`'s loop, as the pool's shared queue stands: an
    /// idle worker runs the oldest pending job, exactly once; with nothing
    /// pending it stays blocked while the queue is open, and stops once the
    /// queue is closed; a worker whose context is not live does nothing.
    pub fn step_worker(&mut self, i: usize)
        requires
            old(self).wf(),
            i < old(self).workers@.len(),
        ensures
            final(self).wf(),
            final(self).workers@.len() == old(self).workers@.len(),
            final(self).sender == old(self).sender,
            (old(self)@.workers[i as int] == Some(ContextState::Idle) && old(self)@.pending.len()
                > 0) ==> (final(self)@ =~= spec_run_front(old(self)@) && final(self).workers@
                =~= old(self).workers@),
            (old(self)@.workers[i as int] == Some(ContextState::Idle) && old(self)@.pending.len()
                == 0 && old(self)@.open) ==> *final(self) == *old(self),
            (old(self)@.workers[i as int] == Some(ContextState::Idle) && old(self)@.pending.len()
                == 0 && !old(self)@.open) ==> final(self)@ =~= spec_observe_close(
                old(self)@,
                i as int,
            ),
            old(self)@.workers[i as int] != Some(ContextState::Idle) ==> *final(self) == *old(self),
    {
        let idle = matches!(self.workers[i].thread, Some(ContextState::Idle));
        if idle {
            if self.queue.jobs.len() > 0 || !self.queue.open {
                match self.queue.dequeue() {
                    DequeueOutcome::Job(j) => {
                        self.completed.push(j);
                        proof {
                            assert(self@ =~= spec_run_front(old(self)@));
                        }
                    },
                    DequeueOutcome::Closed => {
                        let id_i = self.workers[i].id;
                        self.workers[i] = Worker { thread: Some(ContextState::Stopped), id: id_i };
                        proof {
                            assert(self@.workers =~= spec_observe_close(
                                old(self)@,
                                i as int,
                            ).workers);
                            assert(self@ =~= spec_observe_close(old(self)@, i as int));
                        }
                    },
                }
            }
        }
    }

    /// Teardown: relinquishes the producing end exactly once — closing the
    /// queue to further submissions — then waits until every job accepted
    /// before the close has been run and recorded, and joins every worker's
    /// context, in index order. Repeating it changes nothing further.
    pub fn teardown(&mut self)
        requires
            old(self).wf(),
        ensures
            final(self).wf(),
            !final(self).is_open(),
            final(self).pending() =~= Seq::<usize>::empty(),
            final(self).completed_log() =~= old(self).completed_log() + old(self).pending(),
            final(self).workers@.len() == old(self).workers@.len(),
            forall|k: int|
                0 <= k < final(self).workers@.len() ==> (#[trigger] final(self).workers@[k]).thread
                    is None && final(self).workers@[k].id == old(self).workers@[k].id,
            final(self)@ =~= spec_teardown(old(self)@),
    {
        if self.sender.is_some() {
            self.sender = None;
            self.queue.close_producer();
        }
        while self.queue.jobs.len() > 0
            invariant
                !self.queue.is_open(),
                self.sender is None,
                self.workers@ =~= old(self).workers@,
                self.completed@ + self.queue.pending() =~= old(self).completed@ + old(
                    self,
                ).queue.pending(),
            decreases self.queue.jobs@.len(),
        {
            match self.queue.dequeue() {
                DequeueOutcome::Job(j) => {
                    self.completed.push(j);
                },
                DequeueOutcome::Closed => vstd::pervasive::unreached(),
            }
        }
        proof {
            assert(self.completed@ =~= old(self).completed@ + old(self).queue.pending());
        }
        let n = self.workers.len();
        let mut k: usize = 0;
        while k < n
            invariant
                n == self.workers@.len(),
                k <= n,
                self.sender is None,
                !self.queue.is_open(),
                self.queue.pending().len() == 0,
                self.completed@ =~= old(self).completed@ + old(self).queue.pending(),
                forall|t: int| 0 <= t < k ==> (#[trigger] self.workers@[t]).thread is None,
                forall|t: int|
                    0 <= t < n ==> (#[trigger] self.workers@[t]).id == old(self).workers@[t].id,
            decreases n - k,
        {
            let id_k = self.workers[k].id;
            self.workers[k] = Worker { thread: None, id: id_k };
            k += 1;
        }
        proof {
            assert(self@.workers =~= spec_teardown(old(self)@).workers);
            assert(self@ =~= spec_teardown(old(self)@));
        }
    }
}

} // verus!
