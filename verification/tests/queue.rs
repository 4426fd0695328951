use threadpool::queue::{JobQueue, Received};

#[test]
fn new_queue_is_open_and_empty() {
    let mut q: JobQueue<u32> = JobQueue::new();
    assert!(q.is_open());
    assert_eq!(q.len(), 0);
    assert!(matches!(q.receive(), Received::Empty));
    assert!(q.is_open());
}

#[test]
fn jobs_leave_in_the_order_they_were_sent() {
    let mut q: JobQueue<u32> = JobQueue::new();
    for job in [7u32, 3, 9, 3] {
        assert_eq!(q.send(job), Ok(()));
    }
    assert_eq!(q.len(), 4);
    assert!(matches!(q.receive(), Received::Job(7)));
    assert!(matches!(q.receive(), Received::Job(3)));
    assert_eq!(q.len(), 2);
    assert!(matches!(q.receive(), Received::Job(9)));
    assert!(matches!(q.receive(), Received::Job(3)));
    assert!(matches!(q.receive(), Received::Empty));
    assert_eq!(q.len(), 0);
}

#[test]
fn closed_queue_hands_the_job_back() {
    let mut q: JobQueue<u32> = JobQueue::new();
    assert_eq!(q.send(1), Ok(()));
    q.close();
    assert!(!q.is_open());
    assert_eq!(q.send(2), Err(2));
    assert_eq!(q.len(), 1);
}

#[test]
fn closed_queue_still_delivers_what_is_pending() {
    let mut q: JobQueue<u32> = JobQueue::new();
    assert_eq!(q.send(1), Ok(()));
    assert_eq!(q.send(2), Ok(()));
    q.close();
    assert!(matches!(q.receive(), Received::Job(1)));
    assert!(matches!(q.receive(), Received::Job(2)));
    assert!(matches!(q.receive(), Received::Closed));
    assert!(matches!(q.receive(), Received::Closed));
}

#[test]
fn closing_twice_changes_nothing() {
    let mut q: JobQueue<u32> = JobQueue::new();
    assert_eq!(q.send(5), Ok(()));
    q.close();
    q.close();
    assert!(!q.is_open());
    assert_eq!(q.len(), 1);
    assert!(matches!(q.receive(), Received::Job(5)));
}

#[test]
fn queue_has_no_capacity_limit() {
    let mut q: JobQueue<usize> = JobQueue::new();
    for job in 0..100_000usize {
        assert_eq!(q.send(job), Ok(()));
    }
    assert_eq!(q.len(), 100_000);
    for job in 0..100_000usize {
        match q.receive() {
            Received::Job(j) => assert_eq!(j, job),
            _ => panic!("job {} is missing", job),
        }
    }
}
