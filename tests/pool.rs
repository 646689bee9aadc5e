use tonio::pool::{slot_granted, wants_worker, BlockingRunnerPool, QueueClosed};

#[test]
fn growth_decision() {
    assert!(wants_worker(0, 0, 2));
    assert!(wants_worker(5, 1, 2));
    assert!(!wants_worker(-1, 0, 2));
    assert!(!wants_worker(3, 2, 2));
}

#[test]
fn slot_decision() {
    assert!(slot_granted(0, 1));
    assert!(slot_granted(1, 2));
    assert!(!slot_granted(2, 2));
    assert!(!slot_granted(7, 2));
}

#[test]
fn new_pool_settings() {
    let pool: BlockingRunnerPool<u32> = BlockingRunnerPool::new(4, 30);
    assert_eq!(pool.max_threads_of(), 4);
    assert_eq!(pool.idle_timeout_of(), 30);
    assert!(!pool.closed());
}

#[test]
fn two_submissions_start_at_most_two_workers() {
    let pool: BlockingRunnerPool<u32> = BlockingRunnerPool::new(2, 0);
    let mut workers = Vec::new();
    for item in [42u32, 42, 42] {
        match pool.run(item) {
            Ok(Some(w)) => workers.push(w),
            Ok(None) => {}
            Err(_) => panic!("queue is open"),
        }
    }
    assert!(workers.len() >= 1 && workers.len() <= 2);
    let mut seen = Vec::new();
    for w in workers.iter_mut() {
        while let Some(v) = w.next_task() {
            seen.push(v);
        }
        assert!(w.retired());
    }
    assert_eq!(seen, vec![42, 42, 42]);
}

#[test]
fn items_come_out_in_order() {
    let pool: BlockingRunnerPool<u32> = BlockingRunnerPool::new(1, 0);
    let mut w = pool.run(1).ok().flatten().expect("first submission starts a worker");
    assert!(pool.run(2).ok().expect("open").is_none());
    assert!(pool.run(3).ok().expect("open").is_none());
    assert_eq!(w.next_task(), Some(1));
    assert_eq!(w.next_task(), Some(2));
    assert_eq!(w.next_task(), Some(3));
    assert_eq!(w.next_task(), None);
    assert!(w.retired());
}

#[test]
fn retired_worker_frees_its_slot() {
    let pool: BlockingRunnerPool<u32> = BlockingRunnerPool::new(1, 0);
    let mut w = pool.run(1).ok().flatten().expect("a worker");
    assert!(pool.run(2).ok().expect("open").is_none());
    assert_eq!(w.next_task(), Some(1));
    assert_eq!(w.next_task(), Some(2));
    assert_eq!(w.next_task(), None);
    let mut again = pool.run(3).ok().flatten().expect("the pool grows again");
    assert_eq!(again.next_task(), Some(3));
}

#[test]
fn submit_after_close_fails() {
    let mut pool: BlockingRunnerPool<u32> = BlockingRunnerPool::new(2, 0);
    pool.close();
    assert!(pool.closed());
    match pool.run(5) {
        Err(QueueClosed(v)) => assert_eq!(v, 5),
        Ok(_) => panic!("closed queue accepted an item"),
    }
}

#[test]
fn queued_items_drain_after_close() {
    let mut pool: BlockingRunnerPool<u32> = BlockingRunnerPool::new(2, 3600);
    let mut w = pool.run(8).ok().flatten().expect("a worker");
    assert!(pool.run(9).is_ok());
    pool.close();
    assert_eq!(w.next_task(), Some(8));
    assert_eq!(w.next_task(), Some(9));
    assert_eq!(w.next_task(), None);
    assert!(w.retired());
}

#[test]
fn open_pool_accepts_every_submission() {
    let pool: BlockingRunnerPool<u32> = BlockingRunnerPool::new(2, 0);
    let mut workers = Vec::new();
    for item in 0u32..10 {
        match pool.run(item) {
            Ok(Some(w)) => workers.push(w),
            Ok(None) => {}
            Err(_) => panic!("open pool refused an item"),
        }
    }
    assert!(workers.len() >= 1 && workers.len() <= 2);
    let mut seen = Vec::new();
    for w in workers.iter_mut() {
        while let Some(v) = w.next_task() {
            seen.push(v);
        }
    }
    assert_eq!(seen, (0u32..10).collect::<Vec<u32>>());
    for item in 10u32..13 {
        assert!(pool.run(item).is_ok());
    }
}
