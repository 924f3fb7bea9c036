use web_server::errors::{ErrorKind, WebServerError};
use web_server::pool::ThreadPool;

#[test]
fn zero_workers_is_invalid_config() {
    let r = ThreadPool::new(0);
    assert!(matches!(r, Err(WebServerError(ErrorKind::InvalidConfig))));
}

#[test]
fn positive_worker_counts_construct() {
    for n in 1..6usize {
        let p = ThreadPool::new(n).unwrap();
        assert_eq!(p.worker_count, n);
        assert!(p.accepted.is_empty());
        assert!(p.pending.is_empty());
        assert!(p.done.is_empty());
        assert!(!p.closed);
    }
}

#[test]
fn jobs_run_exactly_once_in_submission_order() {
    let mut p = ThreadPool::new(2).unwrap();
    p.execute(10);
    p.execute(11);
    p.execute(12);
    assert_eq!(p.run_next(), Some(10));
    assert_eq!(p.run_next(), Some(11));
    assert_eq!(p.run_next(), Some(12));
    assert_eq!(p.run_next(), None);
    assert_eq!(p.done, vec![10, 11, 12]);
    assert_eq!(p.accepted, vec![10, 11, 12]);
    assert!(p.pending.is_empty());
}

#[test]
fn shutdown_drains_and_closes() {
    let mut p = ThreadPool::new(3).unwrap();
    for job in 0..7u64 {
        p.execute(job);
    }
    p.shutdown();
    assert!(p.closed);
    assert!(p.pending.is_empty());
    assert_eq!(p.done, p.accepted);
    assert_eq!(p.done, vec![0, 1, 2, 3, 4, 5, 6]);
}

#[test]
fn shutdown_with_no_jobs() {
    let mut p = ThreadPool::new(1).unwrap();
    p.shutdown();
    assert!(p.closed);
    assert!(p.done.is_empty());
    assert!(p.accepted.is_empty());
}

#[test]
fn close_is_idempotent() {
    let mut p = ThreadPool::new(1).unwrap();
    p.execute(1);
    p.close();
    p.close();
    assert!(p.closed);
    assert_eq!(p.pending, vec![1]);
    p.shutdown();
    assert_eq!(p.done, vec![1]);
}

#[test]
fn workers_exit_only_when_closed_and_drained() {
    let mut p = ThreadPool::new(2).unwrap();
    assert!(!p.worker_should_exit());
    p.execute(7);
    p.close();
    assert!(!p.worker_should_exit());
    assert_eq!(p.run_next(), Some(7));
    assert!(p.worker_should_exit());
}

#[test]
fn more_connections_than_workers_all_serve() {
    let mut p = ThreadPool::new(2).unwrap();
    for job in 0..5u64 {
        p.execute(job);
    }
    let mut served = Vec::new();
    while let Some(job) = p.run_next() {
        served.push(job);
    }
    assert_eq!(served, vec![0, 1, 2, 3, 4]);
    assert_eq!(p.done, p.accepted);
}
