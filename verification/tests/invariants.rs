use threadpool::error::{OVERSIZED, SUBMISSION_FAILED, ZERO_SIZE};
use threadpool::worker::{Dispatch, Worker, WorkerState};
use threadpool::{ThreadPool, ThreadPoolError};

/// Lets the workers of `pool` take turns until none of them can do anything
/// but wait, and returns the jobs in the order in which they were handed out,
/// each with the worker that received it.
fn let_workers_run(pool: &mut ThreadPool<u32>, turns: &[usize]) -> Vec<(usize, u32)> {
    let mut handed = Vec::new();
    for &w in turns {
        match pool.worker_state(w) {
            Some(WorkerState::Idle) => {
                if let Dispatch::Run(job) = pool.next_job(w) {
                    handed.push((w, job));
                }
            }
            Some(WorkerState::Running) => pool.finish_job(w),
            _ => {}
        }
    }
    handed
}

#[test]
fn every_job_is_handed_out_exactly_once_and_in_order() {
    let mut pool: ThreadPool<u32> = ThreadPool::build(3, 4096).unwrap();
    let mut handed = Vec::new();
    let mut submitted = Vec::new();
    let mut next_job = 0u32;
    // submissions and worker turns interleave in an irregular pattern
    for round in 0..40usize {
        for _ in 0..(round % 4) {
            assert_eq!(pool.execute(next_job), Ok(()));
            submitted.push(next_job);
            next_job += 1;
        }
        let turns = [round % 3, (round * 7 + 1) % 3, round % 2];
        handed.extend(let_workers_run(&mut pool, &turns));
        // what was handed out, then what is pending, is what was submitted
        assert_eq!(handed.len() + pool.pending(), submitted.len());
    }
    assert_eq!(pool.dispose(), Some(0));
    while pool.dispose().is_some() {
        handed.extend(let_workers_run(&mut pool, &[0, 1, 2]));
    }
    let jobs: Vec<u32> = handed.iter().map(|(_, job)| *job).collect();
    assert_eq!(jobs, submitted);
    assert_eq!(jobs.len(), 60);
    assert!(handed.iter().all(|(w, _)| *w < 3));
    assert_eq!(pool.pending(), 0);
}

#[test]
fn two_workers_never_hold_the_same_job() {
    let mut pool: ThreadPool<u32> = ThreadPool::build(4, 4096).unwrap();
    for job in 0..4u32 {
        assert_eq!(pool.execute(job), Ok(()));
    }
    let mut held = Vec::new();
    for w in [3usize, 1, 0, 2] {
        match pool.next_job(w) {
            Dispatch::Run(job) => held.push(job),
            _ => panic!("a job is pending"),
        }
    }
    assert_eq!(held, vec![0, 1, 2, 3]);
    for w in 0..4 {
        assert_eq!(pool.worker_state(w), Some(WorkerState::Running));
    }
    assert_eq!(pool.pending(), 0);
}

#[test]
fn the_number_of_workers_never_changes() {
    let mut pool: ThreadPool<u32> = ThreadPool::build(5, 4096).unwrap();
    assert_eq!(pool.size(), 5);
    assert_eq!(pool.execute(1), Ok(()));
    assert_eq!(pool.size(), 5);
    let _ = pool.next_job(4);
    assert_eq!(pool.size(), 5);
    pool.finish_job(4);
    assert_eq!(pool.size(), 5);
    while let Some(w) = pool.dispose() {
        assert!(matches!(pool.next_job(w), Dispatch::Exit));
        assert_eq!(pool.size(), 5);
    }
    assert!(pool.execute(2).is_err());
    assert_eq!(pool.size(), 5);
    assert_eq!(pool.stack_size(), 4096);
}

#[test]
fn a_disposed_pool_stays_as_it_is() {
    let mut pool: ThreadPool<u32> = ThreadPool::build(2, 4096).unwrap();
    assert_eq!(pool.execute(1), Ok(()));
    assert_eq!(pool.dispose(), Some(0));
    assert!(matches!(pool.next_job(0), Dispatch::Run(1)));
    pool.finish_job(0);
    assert!(matches!(pool.next_job(0), Dispatch::Exit));
    assert!(matches!(pool.next_job(1), Dispatch::Exit));
    assert_eq!(pool.dispose(), None);
    for job in 0..10u32 {
        assert_eq!(
            pool.execute(job),
            Err(ThreadPoolError::ExecutionError(String::from("submission failed")))
        );
        assert_eq!(pool.dispose(), None);
        assert!(!pool.is_open());
        assert_eq!(pool.pending(), 0);
        assert_eq!(pool.worker_state(0), Some(WorkerState::Terminated));
        assert_eq!(pool.worker_state(1), Some(WorkerState::Terminated));
    }
}

#[test]
fn a_closed_pool_ends_after_as_many_steps_as_its_backlog() {
    // three pending jobs, one running worker, one idle worker:
    // 2 * 3 + 2 + 1 = 9 worker steps are left
    let mut pool: ThreadPool<u32> = ThreadPool::build(2, 4096).unwrap();
    for job in 0..4u32 {
        assert_eq!(pool.execute(job), Ok(()));
    }
    assert!(matches!(pool.next_job(0), Dispatch::Run(0)));
    let mut steps = 0;
    while let Some(w) = pool.dispose() {
        match pool.worker_state(w) {
            Some(WorkerState::Idle) => {
                let _ = pool.next_job(w);
            }
            Some(WorkerState::Running) => pool.finish_job(w),
            _ => panic!("disposal waits for a live worker"),
        }
        steps += 1;
        assert!(steps <= 9);
        // the other worker is the one disposal does not wait for yet
        if steps == 4 {
            assert_eq!(pool.worker_state(1), Some(WorkerState::Idle));
        }
    }
    assert_eq!(steps, 9);
}

#[test]
fn workers_carry_their_index() {
    let mut pool: ThreadPool<u32> = ThreadPool::build(3, 4096).unwrap();
    for w in 0..3 {
        assert_eq!(pool.worker(w), Some(Worker { id: w, state: WorkerState::Idle }));
    }
    assert_eq!(pool.worker(3), None);
    assert_eq!(pool.execute(1), Ok(()));
    let _ = pool.next_job(1);
    assert_eq!(pool.worker(1), Some(Worker { id: 1, state: WorkerState::Running }));
    assert_eq!(pool.worker(0), Some(Worker { id: 0, state: WorkerState::Idle }));
}

#[test]
fn each_error_carries_its_reason() {
    assert_eq!(
        ThreadPoolError::zero_size(),
        ThreadPoolError::CreationError(String::from("pool size is zero"))
    );
    assert_eq!(
        ThreadPoolError::oversized(),
        ThreadPoolError::CreationError(String::from("pool size exceeds maximum"))
    );
    assert_eq!(
        ThreadPoolError::submission_failed(),
        ThreadPoolError::ExecutionError(String::from("submission failed"))
    );
    assert_eq!(ThreadPoolError::zero_size().message(), ZERO_SIZE);
    assert_eq!(ThreadPoolError::oversized().message(), OVERSIZED);
    assert_eq!(ThreadPoolError::submission_failed().message(), SUBMISSION_FAILED);
    assert_eq!(SUBMISSION_FAILED, "submission failed");
    assert_ne!(ThreadPoolError::zero_size(), ThreadPoolError::oversized());
    assert_ne!(
        ThreadPoolError::CreationError(String::from("submission failed")),
        ThreadPoolError::submission_failed()
    );
}
