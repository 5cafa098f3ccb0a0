//! A fixed-size worker pool.
//!
//! Jobs are submitted through an unbounded FIFO queue and run, each exactly
//! once, by one of a fixed set of worker contexts. The pool owns the queue's
//! producing end and relinquishes it exactly once at teardown; teardown then
//! drains every job that was accepted before the close and joins every worker,
//! so nothing accepted is ever silently dropped.
//!
//! The library models each job by an identifier and records the jobs a worker
//! has run in a completion log; the host program maps identifiers to the real
//! units of work, spawns the execution contexts, and drives each worker's loop
//! by the decision functions exported here.

pub mod laws;
pub mod pool;
pub mod queue;
pub mod response;
pub mod routing;
pub mod worker;

pub use pool::PoolError;
pub use pool::ThreadPool;
pub use worker::Worker;
