use multithreaded_web_server::queue::DequeueOutcome;
use multithreaded_web_server::queue::JobQueue;
use multithreaded_web_server::worker::decide;
use multithreaded_web_server::worker::Worker;
use multithreaded_web_server::worker::WorkerAction;

#[test]
fn new() {
    let worker = Worker::new(10);

    assert_eq!(worker.id, 10);
    assert!(matches!(worker.thread, Some(_)));
}

#[test]
fn queue_hands_jobs_out_in_fifo_order() {
    let mut q = JobQueue::new();
    assert!(q.open);

    assert_eq!(q.enqueue(1), Ok(()));
    assert_eq!(q.enqueue(2), Ok(()));
    assert_eq!(q.enqueue(3), Ok(()));

    assert!(matches!(q.dequeue(), DequeueOutcome::Job(1)));
    assert!(matches!(q.dequeue(), DequeueOutcome::Job(2)));

    q.close_producer();
    assert!(matches!(q.dequeue(), DequeueOutcome::Job(3)));
    assert!(matches!(q.dequeue(), DequeueOutcome::Closed));
}

#[test]
fn enqueue_after_close_fails_and_returns_the_job() {
    let mut q = JobQueue::new();
    q.close_producer();

    assert_eq!(q.enqueue(5), Err(5));
    assert_eq!(q.jobs.len(), 0);
}

#[test]
fn worker_runs_the_dequeued_job_and_stops_on_close() {
    assert!(matches!(
        decide(DequeueOutcome::Job(3)),
        WorkerAction::RunJob(3)
    ));
    assert!(matches!(decide(DequeueOutcome::Closed), WorkerAction::Stop));
}
