use std::cell::RefCell;
use std::rc::Rc;

use web_server_rs::{JobQueue, Next, PoolCreationError, ThreadPool, Worker, WorkerState};

type Job = Box<dyn FnOnce()>;

/// Drives every worker of `pool` round-robin, running each job it is
/// handed, until every worker has left its loop; then waits for them in
/// the order the pool names. Returns how many jobs were run.
fn drain_and_join(pool: &mut ThreadPool<Job>) -> usize {
    let mut ran = 0;
    let mut stopped = vec![false; pool.size()];
    while stopped.iter().any(|s| !s) {
        for id in 0..pool.size() {
            if stopped[id] {
                continue;
            }
            match pool.next_job(id) {
                Next::Job(job) => {
                    job();
                    ran += 1;
                }
                Next::Empty => panic!("a closed pool never asks a worker to wait"),
                Next::Closed => stopped[id] = true,
            }
        }
    }
    while let Some(id) = pool.next_to_join() {
        assert_eq!(pool.worker(id).state(), WorkerState::Stopped);
        pool.finish_join(id);
    }
    ran
}

#[test]
fn test_thread_pool_new() {
    let pool = ThreadPool::<Job>::new(1);
    assert_eq!(pool.size(), 1);
}

#[test]
fn test_thread_pool_build() -> Result<(), PoolCreationError> {
    let pool = ThreadPool::<Job>::build(1);
    assert_eq!(pool?.size(), 1);
    Ok(())
}

#[test]
#[should_panic]
fn test_thread_pool_build_error() {
    ThreadPool::<Job>::build(0).unwrap();
}

#[test]
fn test_thread_pool_execute() {
    let mut pool = ThreadPool::<Job>::new(1);
    assert!(pool.execute(Box::new(|| assert!(true))).is_ok());
}

#[test]
fn test_worker() {
    let mut queue = JobQueue::<Job>::new();

    let worker = Worker::new(0);
    assert_eq!(worker.id(), 0);

    let message: Job = Box::new(|| assert!(true));
    assert!(queue.submit(message).is_ok());
}

#[test]
fn constructors_make_exactly_size_workers() {
    for size in [1usize, 2, 4, 16] {
        let a = ThreadPool::<Job>::new(size);
        let b = ThreadPool::<Job>::build(size).unwrap();
        assert_eq!(a.size(), size);
        assert_eq!(b.size(), size);
        for i in 0..size {
            assert_eq!(a.worker(i).id(), i);
            assert_eq!(a.worker(i).state(), WorkerState::Idle);
            assert_eq!(b.worker(i).id(), i);
        }
        assert!(a.is_accepting());
        assert_eq!(a.pending_len(), 0);
    }
}

#[test]
fn build_zero_is_an_error() {
    let r = ThreadPool::<Job>::build(0);
    assert!(r.is_err());
    let e = r.err().unwrap();
    assert_eq!(e, PoolCreationError);
    assert_eq!(e.message(), "a thread pool needs at least one worker");
}

#[test]
fn single_worker_runs_jobs_in_submission_order() {
    let sink = Rc::new(RefCell::new(Vec::new()));
    let mut pool = ThreadPool::<Job>::new(1);
    for marker in ["a", "b", "c"] {
        let sink = Rc::clone(&sink);
        assert!(pool.execute(Box::new(move || sink.borrow_mut().push(marker))).is_ok());
    }
    pool.begin_shutdown();
    assert_eq!(drain_and_join(&mut pool), 3);
    assert_eq!(*sink.borrow(), vec!["a", "b", "c"]);
    assert_eq!(pool.worker(0).state(), WorkerState::Joined);
    assert_eq!(pool.next_to_join(), None);
}

#[test]
fn hundred_jobs_on_four_workers_run_exactly_once() {
    let count = Rc::new(RefCell::new(0usize));
    let mut pool = ThreadPool::<Job>::new(4);
    for _ in 0..100 {
        let count = Rc::clone(&count);
        assert!(pool.execute(Box::new(move || *count.borrow_mut() += 1)).is_ok());
    }
    assert_eq!(pool.pending_len(), 100);
    pool.begin_shutdown();
    assert_eq!(drain_and_join(&mut pool), 100);
    assert_eq!(*count.borrow(), 100);
    for i in 0..4 {
        assert_eq!(pool.worker(i).state(), WorkerState::Joined);
    }
}

#[test]
fn execute_after_shutdown_is_refused_and_never_runs() {
    let ran = Rc::new(RefCell::new(false));
    let mut pool = ThreadPool::<Job>::new(2);
    pool.begin_shutdown();
    assert!(!pool.is_accepting());
    let flag = Rc::clone(&ran);
    let r = pool.execute(Box::new(move || *flag.borrow_mut() = true));
    assert!(r.is_err());
    assert_eq!(pool.pending_len(), 0);
    assert_eq!(drain_and_join(&mut pool), 0);
    assert!(!*ran.borrow());
    // The refused job comes back to the caller, who may still run it.
    let job = r.err().unwrap().into_inner();
    job();
    assert!(*ran.borrow());
}

#[test]
fn shutdown_is_idempotent() {
    let mut pool = ThreadPool::<Job>::new(1);
    assert!(pool.execute(Box::new(|| {})).is_ok());
    pool.begin_shutdown();
    pool.begin_shutdown();
    assert!(!pool.is_accepting());
    assert_eq!(pool.pending_len(), 1);
    assert_eq!(drain_and_join(&mut pool), 1);
}

#[test]
fn worker_waits_while_open_and_stops_only_after_drain() {
    let mut pool = ThreadPool::<Job>::new(2);
    assert!(matches!(pool.next_job(0), Next::Empty));
    assert_eq!(pool.worker(0).state(), WorkerState::Idle);
    assert_eq!(pool.next_to_join(), None);

    assert!(pool.execute(Box::new(|| {})).is_ok());
    pool.begin_shutdown();
    match pool.next_job(1) {
        Next::Job(job) => job(),
        _ => panic!("the buffered job goes to the first worker that asks"),
    }
    assert_eq!(pool.worker(1).state(), WorkerState::Busy);
    assert!(matches!(pool.next_job(0), Next::Closed));
    assert_eq!(pool.worker(0).state(), WorkerState::Stopped);

    // Worker 0 is waited on first; worker 1 is still busy and comes next.
    assert_eq!(pool.next_to_join(), Some(0));
    pool.finish_join(0);
    assert_eq!(pool.next_to_join(), Some(1));
    assert_eq!(pool.worker(1).state(), WorkerState::Busy);
    assert!(matches!(pool.next_job(1), Next::Closed));
    pool.finish_join(1);
    assert_eq!(pool.next_to_join(), None);
}

#[test]
fn queue_is_fifo_and_closes_after_drain() {
    let mut q = JobQueue::<u32>::new();
    assert!(matches!(q.next(), Next::Empty));
    assert!(q.submit(1).is_ok());
    assert!(q.submit(2).is_ok());
    assert!(q.submit(3).is_ok());
    assert_eq!(q.len(), 3);
    q.close();
    q.close();
    assert!(q.is_closed());
    assert_eq!(q.submit(4).err().unwrap().into_inner(), 4);
    assert!(matches!(q.next(), Next::Job(1)));
    assert!(matches!(q.next(), Next::Job(2)));
    assert!(matches!(q.next(), Next::Job(3)));
    assert!(matches!(q.next(), Next::Closed));
    assert!(matches!(q.next(), Next::Closed));
    assert_eq!(q.len(), 0);
}
