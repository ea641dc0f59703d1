use rust_tour::thread_pool::{Claim, PoolError, TaskOutcome, ThreadPool, WorkerState};

fn run(claim: Claim<u32>) -> u32 {
    match claim {
        Claim::Run(t) => t,
        Claim::Wait => panic!("expected a task, got Wait"),
        Claim::Exit => panic!("expected a task, got Exit"),
    }
}

#[test]
fn thread_pool_it_works() {
    let mut pool = ThreadPool::<u32>::new(4).unwrap();
    assert_eq!(pool.execute(1), Ok(()));
}

#[test]
fn new_pool_has_all_workers_live() {
    for size in [1usize, 2, 4, 16] {
        let pool = ThreadPool::<u32>::new(size).unwrap();
        assert_eq!(pool.size(), size);
        assert_eq!(pool.live_workers(), size);
        assert_eq!(pool.pending(), 0);
        assert!(!pool.is_closed());
        assert!(!pool.is_finished());
        for id in 0..size {
            assert_eq!(pool.worker_state(id), WorkerState::Idle);
        }
    }
}

#[test]
fn zero_size_pool_is_refused() {
    assert!(matches!(
        ThreadPool::<u32>::new(0),
        Err(PoolError::InvalidPoolSize)
    ));
}

#[test]
fn all_submitted_tasks_complete_before_teardown() {
    let mut pool = ThreadPool::<u32>::new(3).unwrap();
    for t in 0..10u32 {
        assert_eq!(pool.execute(t), Ok(()));
    }
    pool.shutdown();
    let mut done: Vec<u32> = Vec::new();
    // workers take turns until each is told to exit
    let mut exited = [false; 3];
    while !pool.is_finished() {
        for w in 0..3usize {
            if exited[w] {
                continue;
            }
            match pool.claim(w) {
                Claim::Run(t) => {
                    done.push(t);
                    pool.finish(w, TaskOutcome::Completed);
                }
                Claim::Exit => exited[w] = true,
                Claim::Wait => panic!("a closed pool never waits"),
            }
        }
    }
    assert_eq!(done, (0..10u32).collect::<Vec<u32>>());
    assert_eq!(pool.live_workers(), 0);
    assert_eq!(pool.pending(), 0);
}

#[test]
fn execute_after_shutdown_is_refused_without_effect() {
    let mut pool = ThreadPool::<u32>::new(2).unwrap();
    assert_eq!(pool.execute(1), Ok(()));
    pool.shutdown();
    assert_eq!(pool.execute(2), Err(PoolError::PoolClosed));
    assert_eq!(pool.pending(), 1);
    assert_eq!(run(pool.claim(0)), 1);
    pool.finish(0, TaskOutcome::Completed);
    // the refused task never runs
    assert!(matches!(pool.claim(0), Claim::Exit));
    assert!(matches!(pool.claim(1), Claim::Exit));
    assert!(pool.is_finished());
    assert!(pool.is_closed());
}

#[test]
fn back_to_back_tasks_run_on_two_workers_at_once() {
    let mut pool = ThreadPool::<u32>::new(2).unwrap();
    assert_eq!(pool.execute(1), Ok(()));
    assert_eq!(pool.execute(2), Ok(()));
    assert_eq!(run(pool.claim(0)), 1);
    assert_eq!(run(pool.claim(1)), 2);
    assert_eq!(pool.worker_state(0), WorkerState::Busy);
    assert_eq!(pool.worker_state(1), WorkerState::Busy);
}

#[test]
fn panicked_task_does_not_stop_later_tasks() {
    let mut pool = ThreadPool::<u32>::new(1).unwrap();
    assert_eq!(pool.execute(1), Ok(()));
    assert_eq!(run(pool.claim(0)), 1);
    pool.finish(0, TaskOutcome::Panicked);
    assert_eq!(pool.worker_state(0), WorkerState::Idle);
    assert_eq!(pool.live_workers(), 1);
    assert_eq!(pool.execute(2), Ok(()));
    assert_eq!(run(pool.claim(0)), 2);
    pool.finish(0, TaskOutcome::Completed);
    assert_eq!(pool.worker_state(0), WorkerState::Idle);
}

#[test]
fn idle_worker_waits_on_open_empty_pool() {
    let mut pool = ThreadPool::<u32>::new(1).unwrap();
    assert!(matches!(pool.claim(0), Claim::Wait));
    assert_eq!(pool.worker_state(0), WorkerState::Idle);
    pool.shutdown();
    assert!(matches!(pool.claim(0), Claim::Exit));
    assert_eq!(pool.worker_state(0), WorkerState::Exited);
    assert_eq!(pool.live_workers(), 0);
}
