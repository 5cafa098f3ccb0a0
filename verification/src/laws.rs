//! The pool's guarantees across whole runs, stated over its model and
//! proved once and for all.

use crate::pool::spec_fresh;
use crate::pool::spec_run_front;
use crate::pool::spec_submit;
use crate::pool::spec_submit_all;
use crate::pool::spec_teardown;
use crate::pool::PoolModel;
use vstd::prelude::*;
use vstd::seq_lib::lemma_multiset_commutative;

verus! {

/// What the pool does between construction and teardown, one event at a
/// time: a caller submits a job, or some worker takes a turn on the queue.
/// A turn runs the oldest pending job; a turn that finds nothing pending
/// moves no job, whichever worker took it and whether it blocked or
/// observed the close.
pub enum PoolEvent {
    Submit(usize),
    WorkerTurn,
}

/// One event's effect on the pool's model.
pub open spec fn apply_event(m: PoolModel, e: PoolEvent) -> PoolModel {
    match e {
        PoolEvent::Submit(j) => spec_submit(m, j),
        PoolEvent::WorkerTurn => if m.pending.len() > 0 {
            spec_run_front(m)
        } else {
            m
        },
    }
}

/// A whole run's effect, event by event.
pub open spec fn apply_all(m: PoolModel, trace: Seq<PoolEvent>) -> PoolModel
    decreases trace.len(),
{
    if trace.len() == 0 {
        m
    } else {
        apply_all(apply_event(m, trace[0]), trace.skip(1))
    }
}

/// The jobs a run submits, in submission order.
pub open spec fn submitted_jobs(trace: Seq<PoolEvent>) -> Seq<usize>
    decreases trace.len(),
{
    if trace.len() == 0 {
        Seq::empty()
    } else {
        (match trace[0] {
            PoolEvent::Submit(j) => seq![j],
            PoolEvent::WorkerTurn => Seq::<usize>::empty(),
        }) + submitted_jobs(trace.skip(1))
    }
}

/// A run neither makes up nor loses work: after any interleaving of
/// submissions and worker turns, the log of jobs run followed by the jobs
/// still pending is exactly what was there at the start followed by the
/// jobs submitted since, in order.
pub proof fn lemma_run_conserves_jobs(m: PoolModel, trace: Seq<PoolEvent>)
    ensures
        apply_all(m, trace).completed + apply_all(m, trace).pending =~= (m.completed + m.pending)
            + submitted_jobs(trace),
    decreases trace.len(),
{
    if trace.len() == 0 {
        assert((m.completed + m.pending) + submitted_jobs(trace) =~= m.completed + m.pending);
    } else {
        let m1 = apply_event(m, trace[0]);
        lemma_run_conserves_jobs(m1, trace.skip(1));
        match trace[0] {
            PoolEvent::Submit(j) => {
                assert(m1.completed + m1.pending =~= (m.completed + m.pending) + seq![j]);
                assert(((m.completed + m.pending) + seq![j]) + submitted_jobs(trace.skip(1)) =~= (
                m.completed + m.pending) + submitted_jobs(trace));
            },
            PoolEvent::WorkerTurn => {
                assert(m1.completed + m1.pending =~= m.completed + m.pending);
                assert(submitted_jobs(trace) =~= submitted_jobs(trace.skip(1)));
            },
        }
    }
}

/// Every submission of any run completes exactly once: however submissions
/// and worker turns interleave, tearing the pool down afterwards leaves the
/// completion log equal to the submitted jobs — each run exactly as often
/// as it was submitted, in submission order — with nothing left pending.
pub proof fn lemma_any_run_completes_all(n: nat, trace: Seq<PoolEvent>)
    requires
        n >= 1,
    ensures
        spec_teardown(apply_all(spec_fresh(n), trace)).completed =~= submitted_jobs(trace),
        spec_teardown(apply_all(spec_fresh(n), trace)).completed.to_multiset()
            =~= submitted_jobs(trace).to_multiset(),
        spec_teardown(apply_all(spec_fresh(n), trace)).pending =~= Seq::<usize>::empty(),
{
    lemma_run_conserves_jobs(spec_fresh(n), trace);
    assert(spec_teardown(apply_all(spec_fresh(n), trace)).completed =~= submitted_jobs(trace));
}

/// Submissions only queue work: a sequence of submissions appends exactly
/// those jobs, in order, to the pending queue, and moves nothing else.
pub proof fn lemma_submit_all_queues(m: PoolModel, jobs: Seq<usize>)
    ensures
        spec_submit_all(m, jobs).pending =~= m.pending + jobs,
        spec_submit_all(m, jobs).completed =~= m.completed,
        spec_submit_all(m, jobs).workers =~= m.workers,
        spec_submit_all(m, jobs).open == m.open,
    decreases jobs.len(),
{
    if jobs.len() == 0 {
        assert(m.pending + jobs =~= m.pending);
    } else {
        lemma_submit_all_queues(spec_submit(m, jobs[0]), jobs.skip(1));
        assert(m.pending.push(jobs[0]) + jobs.skip(1) =~= m.pending + jobs);
    }
}

/// Every submitted job runs, exactly once: for any pool of at least one
/// worker, submitting any jobs and then tearing the pool down leaves the
/// completion log equal to the submitted sequence — each submission is run
/// exactly as many times as it was made, and in submission order.
pub proof fn lemma_every_submission_completes(n: nat, jobs: Seq<usize>)
    requires
        n >= 1,
    ensures
        spec_teardown(spec_submit_all(spec_fresh(n), jobs)).completed =~= jobs,
        spec_teardown(spec_submit_all(spec_fresh(n), jobs)).completed.to_multiset()
            =~= jobs.to_multiset(),
        spec_teardown(spec_submit_all(spec_fresh(n), jobs)).pending =~= Seq::<usize>::empty(),
{
    lemma_submit_all_queues(spec_fresh(n), jobs);
    assert(spec_teardown(spec_submit_all(spec_fresh(n), jobs)).completed =~= jobs);
}

/// Teardown is a synchronization barrier: nothing accepted before the close
/// is dropped. Every job pending when teardown begins is appended to the
/// completion log — no more and no fewer — and nothing is left pending.
pub proof fn lemma_teardown_drops_nothing(m: PoolModel)
    ensures
        spec_teardown(m).pending =~= Seq::<usize>::empty(),
        spec_teardown(m).completed =~= m.completed + m.pending,
        spec_teardown(m).completed.to_multiset() =~= m.completed.to_multiset().add(
            m.pending.to_multiset(),
        ),
{
    lemma_multiset_commutative(m.completed, m.pending);
}

/// After teardown every worker's execution context has terminated: no
/// context is left live, and none is left unjoined.
pub proof fn lemma_teardown_terminates_workers(m: PoolModel)
    ensures
        spec_teardown(m).workers.len() == m.workers.len(),
        forall|k: int|
            0 <= k < spec_teardown(m).workers.len() ==> spec_teardown(m).workers[k] is None,
{
}

/// Teardown is idempotent: once the producing end is relinquished, the
/// queue drained and the workers joined, tearing down again changes
/// nothing.
pub proof fn lemma_teardown_idempotent(m: PoolModel)
    ensures
        spec_teardown(spec_teardown(m)) =~= spec_teardown(m),
{
    assert(spec_teardown(m).completed + spec_teardown(m).pending =~= spec_teardown(m).completed);
}

} // verus!
