//! Workers: the long-lived execution contexts that pull jobs from the queue.
//!
//! A worker loops through `Idle -> Running -> Idle`, blocking for the next
//! job and running it to completion, until a dequeue reports the queue
//! closed; then it stops. The loop's one decision — run the job just
//! dequeued, or stop — is `decide`.

use crate::queue::DequeueOutcome;
use vstd::prelude::*;

verus! {

/// The state of a worker's execution context while a handle to it is still
/// held: blocked waiting for work, or exited after observing the close.
/// (Running is transient: a worker holds no lock and reaches no decision
/// point while a job's body runs.)
pub enum ContextState {
    Idle,
    Stopped,
}

/// What a worker does with the outcome of one dequeue: run the job it was
/// handed, or leave its loop.
pub enum WorkerAction {
    RunJob(usize),
    Stop,
}

/// One execution context of the pool: an identifying index, and the handle
/// to its context, present until the pool joins it at teardown.
pub struct Worker {
    pub thread: Option<ContextState>,
    pub id: usize,
}

impl Worker {
    /// Creates a worker: its context starts idle, blocked on the queue.
    pub fn new(id: usize) -> (w: Worker)
        ensures
            w.id == id,
            w.thread == Some(ContextState::Idle),
    {
        Worker { thread: Some(ContextState::Idle), id }
    }
}

/// The worker loop's decision, one turn at a time: a dequeued job is run —
/// this very job, exactly once — and the closed signal ends the loop. The
/// closed signal is not an error: it is the normal transition to Stopped.
pub fn decide(outcome: DequeueOutcome) -> (a: WorkerAction)
    ensures
        outcome matches DequeueOutcome::Job(j) ==> a == WorkerAction::RunJob(j),
        outcome is Closed ==> a == WorkerAction::Stop,
{
    match outcome {
        DequeueOutcome::Job(j) => WorkerAction::RunJob(j),
        DequeueOutcome::Closed => WorkerAction::Stop,
    }
}

} // verus!
