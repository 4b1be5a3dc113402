use std::cell::RefCell;
use std::rc::Rc;

use threadpool::ThreadPool;
use threadpool::drain::take_next;

#[test]
fn create_with_zero_threads_fails() {
    let result = ThreadPool::<Box<dyn FnOnce()>>::create(0);
    assert!(result.is_err());
}

#[test]
fn create_error_message() {
    let result = ThreadPool::<Box<dyn FnOnce()>>::create(0);
    match result {
        Err(e) => assert_eq!(e.message(), "ThreadPool contains 0 thread"),
        Ok(_) => panic!("creation with zero threads must fail"),
    }
}

#[test]
fn create_with_positive_threads_succeeds() {
    assert!(ThreadPool::<Box<dyn FnOnce()>>::create(1).is_ok());
    assert!(ThreadPool::<Box<dyn FnOnce()>>::create(4).is_ok());
    assert!(ThreadPool::<Box<dyn FnOnce()>>::create(64).is_ok());
}

#[test]
fn into_parts_returns_thread_count_and_tasks() {
    let mut pool = ThreadPool::create(4).unwrap();
    for _ in 0..3 {
        pool.new_task(|| {});
    }
    let (threads, tasks) = pool.into_parts();
    assert_eq!(threads, 4);
    assert_eq!(tasks.len(), 3);
}

#[test]
fn take_next_returns_oldest_first() {
    let mut queue: Vec<u32> = vec![10, 20, 30];
    assert_eq!(take_next(&mut queue), Some(10));
    assert_eq!(take_next(&mut queue), Some(20));
    assert_eq!(queue, vec![30]);
    assert_eq!(take_next(&mut queue), Some(30));
    assert_eq!(take_next(&mut queue), None);
    assert!(queue.is_empty());
}

#[test]
fn take_next_on_empty_queue_is_none() {
    let mut queue: Vec<u32> = Vec::new();
    assert_eq!(take_next(&mut queue), None);
    assert!(queue.is_empty());
}

#[test]
fn every_task_runs_exactly_once() {
    let counter = Rc::new(RefCell::new(0u32));
    let mut pool = ThreadPool::create(4).unwrap();
    for _ in 0..100 {
        let counter = Rc::clone(&counter);
        pool.new_task(move || {
            *counter.borrow_mut() += 1;
        });
    }
    pool.run_to_completion();
    assert_eq!(*counter.borrow(), 100);
}

#[test]
fn tasks_run_in_submission_order() {
    let log = Rc::new(RefCell::new(Vec::new()));
    let mut pool = ThreadPool::create(2).unwrap();
    for i in 0..10u32 {
        let log = Rc::clone(&log);
        pool.new_task(move || {
            log.borrow_mut().push(i);
        });
    }
    pool.run_to_completion();
    assert_eq!(*log.borrow(), (0..10).collect::<Vec<u32>>());
}

#[test]
fn three_submitters_hundred_tasks() {
    let counter = Rc::new(RefCell::new(0u32));
    let mut pool = ThreadPool::create(4).unwrap();
    let portions = [40usize, 35, 25];
    for portion in portions {
        for _ in 0..portion {
            let counter = Rc::clone(&counter);
            pool.new_task(move || {
                *counter.borrow_mut() += 1;
            });
        }
    }
    pool.run_to_completion();
    assert_eq!(*counter.borrow(), 100);
}

#[test]
fn empty_batch_runs_nothing() {
    let pool: ThreadPool<Box<dyn FnOnce()>> = ThreadPool::create(3).unwrap();
    pool.run_to_completion();
}

#[test]
fn drained_by_hand_in_fifo_order() {
    let log = Rc::new(RefCell::new(Vec::new()));
    let mut pool = ThreadPool::create(2).unwrap();
    for i in 0..6u32 {
        let log = Rc::clone(&log);
        pool.new_task(move || {
            log.borrow_mut().push(i);
        });
    }
    let (threads, mut queue) = pool.into_parts();
    assert_eq!(threads, 2);
    // Drive the consume loop the way a worker does: dequeue one task,
    // then run it outside the dequeue step.
    while let Some(task) = take_next(&mut queue) {
        task();
    }
    assert!(queue.is_empty());
    assert_eq!(*log.borrow(), (0..6).collect::<Vec<u32>>());
}
