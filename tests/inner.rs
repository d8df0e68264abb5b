use poolite::{Builder, Inner, Step};

fn pool_state(min: usize, max: usize, load_limit: usize) -> Inner<u32> {
    Builder::new().min(min).max(max).load_limit(load_limit).timeout_ms(Some(10)).run()
}

/// Starts every requested worker.
fn start_all(inner: &mut Inner<u32>) {
    while inner.threads_future() > inner.threads_alive() {
        inner.worker_started();
    }
}

fn ran(step: Step<u32>) -> Option<u32> {
    match step {
        Step::Run(t) => Some(t),
        _ => None,
    }
}

#[test]
fn zero_minimum_first_push_grows() {
    let mut inner = pool_state(0, 4, 0);
    assert_eq!(inner.threads_future(), 0);
    assert!(inner.push(1));
    assert_eq!(inner.threads_future(), 1);
    assert_eq!(inner.tasks_len(), 1);
}

#[test]
fn push_wakes_a_parked_worker_instead_of_growing() {
    let mut inner = pool_state(1, 4, 0);
    start_all(&mut inner);
    assert!(matches!(inner.next_step(false), Step::Park));
    assert_eq!(inner.threads_waiting(), 1);
    assert!(!inner.push(5));
    assert_eq!(inner.threads_future(), 1);
}

#[test]
fn push_grows_over_the_load_limit() {
    let mut inner = pool_state(1, 3, 1);
    start_all(&mut inner);
    // One busy worker: one queued task per worker is not above the limit.
    assert!(!inner.push(1));
    // Two queued tasks for one worker are.
    assert!(inner.push(2));
    assert_eq!(inner.threads_future(), 2);
    start_all(&mut inner);
    // Three tasks for two workers: 3 / 2 == 1, not above the limit.
    assert!(!inner.push(3));
    // Four for two: above it.
    assert!(inner.push(4));
    assert_eq!(inner.threads_future(), 3);
    // At the ceiling the pool no longer grows.
    for t in 5..50 {
        assert!(!inner.push(t));
    }
    assert_eq!(inner.threads_future(), 3);
}

#[test]
fn single_worker_runs_in_submission_order() {
    let mut inner = pool_state(1, 1, 0);
    start_all(&mut inner);
    for t in 1..=20 {
        inner.push(t);
    }
    for t in 1..=20 {
        assert_eq!(ran(inner.next_step(false)), Some(t));
    }
    assert!(matches!(inner.next_step(false), Step::Park));
}

#[test]
fn every_pushed_task_is_handed_out_once() {
    let mut inner = pool_state(2, 8, 0);
    start_all(&mut inner);
    let mut seen = Vec::new();
    for t in 0..100u32 {
        inner.push(t);
        if t % 3 == 0 {
            seen.push(ran(inner.next_step(false)).unwrap());
        }
    }
    while inner.tasks_len() > 0 {
        seen.push(ran(inner.next_step(false)).unwrap());
    }
    assert_eq!(seen, (0..100u32).collect::<Vec<_>>());
}

#[test]
fn idle_workers_shrink_to_the_floor() {
    let mut inner = pool_state(1, 8, 0);
    inner.add_threads(7);
    start_all(&mut inner);
    assert_eq!(inner.threads_alive(), 8);
    for _ in 0..7 {
        assert!(matches!(inner.next_step(true), Step::Exit));
    }
    assert_eq!(inner.threads_alive(), 1);
    // At the floor a timed-out worker parks instead.
    assert!(matches!(inner.next_step(true), Step::Park));
    assert_eq!(inner.threads_alive(), 1);
    inner.unpark();
    assert_eq!(inner.threads_waiting(), 0);
}

#[test]
fn no_timeout_keeps_idle_workers() {
    let mut inner: Inner<u32> = Builder::new().min(1).max(4).timeout(None).run();
    inner.add_threads(1);
    start_all(&mut inner);
    assert!(matches!(inner.next_step(true), Step::Park));
    assert_eq!(inner.threads_alive(), 2);
}

#[test]
fn shutdown_preempts_queued_tasks() {
    let mut inner = pool_state(2, 4, 0);
    start_all(&mut inner);
    inner.push(1);
    inner.shutdown();
    assert!(inner.dropped());
    assert!(matches!(inner.next_step(false), Step::Exit));
    assert!(matches!(inner.next_step(false), Step::Exit));
    assert_eq!(inner.threads_alive(), 0);
    assert_eq!(inner.tasks_len(), 1);
    assert_eq!(inner.daemon_tick(), None);
}

#[test]
fn daemon_restores_the_floor() {
    let mut inner = pool_state(3, 6, 0);
    start_all(&mut inner);
    inner.set_daemon_alive(true);
    assert!(inner.daemon_alive());
    assert_eq!(inner.daemon_tick(), Some(0));
    inner.worker_lost();
    inner.worker_lost();
    assert_eq!(inner.threads_alive(), 1);
    assert_eq!(inner.daemon_tick(), Some(2));
    assert_eq!(inner.threads_future(), 3);
}

#[test]
fn daemon_revives_an_empty_pool_with_work() {
    let mut inner = pool_state(0, 2, 5);
    assert_eq!(inner.daemon_tick(), Some(0));
    inner.push(9);
    inner.threads_failed(1);
    assert_eq!(inner.threads_future(), 0);
    assert_eq!(inner.daemon_tick(), Some(1));
    assert_eq!(inner.threads_future(), 1);
}

#[test]
fn is_empty_needs_an_empty_queue_and_all_parked() {
    let mut inner = pool_state(1, 2, 0);
    assert!(inner.is_empty());
    start_all(&mut inner);
    assert!(!inner.is_empty());
    assert!(matches!(inner.next_step(false), Step::Park));
    assert!(inner.is_empty());
    inner.push(3);
    assert!(!inner.is_empty());
}

#[test]
fn fresh_state_has_nothing() {
    let inner: Inner<u32> = Inner::with_builder(Builder::new().min(2).max(2));
    assert_eq!(inner.threads_future(), 0);
    assert!(inner.is_empty());
}
