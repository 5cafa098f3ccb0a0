use multithreaded_web_server::pool::PoolError;
use multithreaded_web_server::pool::ThreadPool;
use multithreaded_web_server::queue::JobQueue;
use multithreaded_web_server::worker::ContextState;
use multithreaded_web_server::worker::Worker;

#[test]
#[should_panic]
fn wrong_size_new_function() {
    ThreadPool::new(0);
}

#[test]
fn wrong_size_build_function() {
    assert!(matches!(
        ThreadPool::build(0),
        Err(PoolError::CreationError("Number of threads equals zero"))
    ));
}

#[test]
fn init() {
    let thread_pool = ThreadPool::init(3);

    assert_eq!(thread_pool.workers.capacity(), 3);

    assert!(matches!(thread_pool.sender, Some(_)));
}

#[test]
fn execute() {
    let mut thread_pool = ThreadPool::new(1);

    thread_pool.execute(0);
    thread_pool.step_worker(0);

    assert_eq!(thread_pool.completed, vec![0]);
}

#[test]
fn construction_makes_n_idle_workers() {
    let pool = match ThreadPool::build(3) {
        Ok(p) => p,
        Err(_) => panic!("a positive size must build"),
    };
    assert_eq!(pool.workers.len(), 3);
    for (k, w) in pool.workers.iter().enumerate() {
        assert_eq!(w.id, k);
        assert!(matches!(w.thread, Some(ContextState::Idle)));
    }

    let big = ThreadPool::new(5);
    assert_eq!(big.workers.len(), 5);
}

#[test]
fn build_error_reason_is_nonempty() {
    match ThreadPool::build(0) {
        Err(PoolError::CreationError(reason)) => assert!(!reason.is_empty()),
        Ok(_) => panic!("a zero size must not build"),
    }
}

#[test]
fn single_worker_runs_flag_job() {
    let mut pool = ThreadPool::new(1);

    pool.execute(1);
    pool.teardown();

    assert_eq!(pool.completed, vec![1]);
    assert_eq!(pool.queue.jobs.len(), 0);
}

#[test]
fn hundred_jobs_all_complete_once() {
    let mut pool = ThreadPool::new(3);

    for i in 0..100 {
        pool.execute(i);
    }
    pool.teardown();

    assert_eq!(pool.completed.len(), 100);
    assert_eq!(pool.completed, (0..100).collect::<Vec<usize>>());
    assert_eq!(pool.queue.jobs.len(), 0);
}

#[test]
fn teardown_joins_every_worker() {
    let mut pool = ThreadPool::new(3);
    pool.execute(7);
    pool.teardown();

    assert!(pool.sender.is_none());
    assert!(!pool.queue.open);
    for w in pool.workers.iter() {
        assert!(w.thread.is_none());
    }

    pool.teardown();
    assert_eq!(pool.completed, vec![7]);
    assert_eq!(pool.workers.len(), 3);

    pool.step_worker(0);
    assert_eq!(pool.completed, vec![7]);
    assert!(pool.workers[0].thread.is_none());
}

#[test]
fn interleaved_turns_lose_no_job_and_keep_order() {
    let mut pool = ThreadPool::new(2);

    pool.execute(1);
    pool.step_worker(0);
    pool.execute(2);
    pool.execute(3);
    pool.step_worker(1);
    pool.teardown();

    assert_eq!(pool.completed, vec![1, 2, 3]);
}

#[test]
fn idle_worker_without_work_stays_blocked() {
    let mut pool = ThreadPool::new(2);
    pool.step_worker(0);

    assert_eq!(pool.completed.len(), 0);
    assert!(matches!(pool.workers[0].thread, Some(ContextState::Idle)));
    assert!(pool.queue.open);
}

#[test]
fn worker_stops_on_closed_drained_queue() {
    let mut pool = ThreadPool {
        workers: vec![Worker::new(0)],
        sender: None,
        queue: JobQueue { jobs: vec![], open: false },
        completed: vec![],
    };
    pool.step_worker(0);

    assert!(matches!(pool.workers[0].thread, Some(ContextState::Stopped)));
    assert_eq!(pool.completed.len(), 0);
}
