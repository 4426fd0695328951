use threadpool::error::{OVERSIZED, ZERO_SIZE};
use threadpool::model::MAX_POOL_SIZE;
use threadpool::worker::WorkerState;
use threadpool::{ThreadPool, ThreadPoolError};

#[test]
fn test_thread_pool_creation_error_zero_size() {
    // Trying to create a thread pool with zero worker threads should return an error.
    let result = ThreadPool::<u32>::build(0, 1024 * 1024);
    assert!(result.is_err());
    assert_eq!(
        result.unwrap_err(),
        ThreadPoolError::CreationError(String::from("pool size is zero"))
    );
}

#[test]
fn test_thread_pool_creation_error_large_size() {
    // Trying to create a thread pool with more than 10,000 worker threads should return an error.
    let result = ThreadPool::<u32>::build(20000, 1024 * 1024);
    assert!(result.is_err());
    assert_eq!(
        result.unwrap_err(),
        ThreadPoolError::CreationError(String::from("pool size exceeds maximum"))
    );
}

#[test]
fn creation_errors_do_not_depend_on_the_stack_size() {
    for stack_size in [0usize, 1, 4096, 1024 * 1024, usize::MAX] {
        assert_eq!(
            ThreadPool::<u32>::build(0, stack_size).unwrap_err(),
            ThreadPoolError::CreationError(String::from("pool size is zero"))
        );
        assert_eq!(
            ThreadPool::<u32>::build(10001, stack_size).unwrap_err(),
            ThreadPoolError::CreationError(String::from("pool size exceeds maximum"))
        );
        assert_eq!(
            ThreadPool::<u32>::build(usize::MAX, stack_size).unwrap_err(),
            ThreadPoolError::CreationError(String::from("pool size exceeds maximum"))
        );
    }
}

#[test]
fn scenario_rejected_sizes_with_small_stack() {
    assert_eq!(
        ThreadPool::<u32>::build(0, 4096).unwrap_err(),
        ThreadPoolError::CreationError(String::from("pool size is zero"))
    );
    assert_eq!(
        ThreadPool::<u32>::build(20000, 4096).unwrap_err(),
        ThreadPoolError::CreationError(String::from("pool size exceeds maximum"))
    );
}

#[test]
fn reasons_are_the_published_constants() {
    assert_eq!(ZERO_SIZE, "pool size is zero");
    assert_eq!(OVERSIZED, "pool size exceeds maximum");
    assert_eq!(MAX_POOL_SIZE, 10000);
    let e = ThreadPool::<u32>::build(0, 1).unwrap_err();
    assert_eq!(e.message(), ZERO_SIZE);
    let e = ThreadPool::<u32>::build(MAX_POOL_SIZE + 1, 1).unwrap_err();
    assert_eq!(e.message(), OVERSIZED);
}

#[test]
fn every_size_in_range_builds_a_pool_of_that_size() {
    for size in [1usize, 2, 4, 17, 9999, 10000] {
        let pool = ThreadPool::<u32>::build(size, 4096 * 10).unwrap();
        assert_eq!(pool.size(), size);
        assert_eq!(pool.stack_size(), 4096 * 10);
        assert!(pool.is_open());
        assert_eq!(pool.pending(), 0);
        for w in 0..size {
            assert_eq!(pool.worker_state(w), Some(WorkerState::Idle));
        }
        assert_eq!(pool.worker_state(size), None);
    }
}

#[test]
fn any_stack_size_is_accepted() {
    for stack_size in [0usize, 1, 4096, usize::MAX] {
        let pool = ThreadPool::<u32>::build(3, stack_size).unwrap();
        assert_eq!(pool.size(), 3);
        assert_eq!(pool.stack_size(), stack_size);
    }
}
