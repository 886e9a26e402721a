use std::cell::Cell;
use std::sync::Mutex;

use starscope::{
    launch, on_close_requested, settle_spawn, settle_termination, start, CloseOutcome,
    HandleStore, LaunchFailure, SupervisionState, WORKER_NAME,
};

#[test]
fn take_returns_handle_then_nothing() {
    let mut store = HandleStore::install(SupervisionState::Running(42u32));
    assert!(store.is_running());
    assert_eq!(store.take(), Some(42));
    assert!(!store.is_running());
    assert_eq!(store.take(), None);
}

#[test]
fn take_on_absent_store_is_a_no_op() {
    let mut store: HandleStore<u32> = HandleStore::install(SupervisionState::Absent);
    assert_eq!(store.take(), None);
    assert_eq!(store.take(), None);
    assert!(!store.is_running());
}

#[test]
fn many_takes_behind_a_mutex_hand_out_one_handle() {
    let store = Mutex::new(HandleStore::install(SupervisionState::Running(String::from("worker"))));
    let mut received = Vec::new();
    for _ in 0..8 {
        received.push(store.lock().unwrap().take());
    }
    assert_eq!(received.iter().filter(|r| r.is_some()).count(), 1);
    assert_eq!(received[0].as_deref(), Some("worker"));
    assert!(received[1..].iter().all(|r| r.is_none()));
}

#[test]
fn resolution_failure_degrades_without_spawning() {
    let spawned = Cell::new(false);
    let (state, failure) = launch(Err::<(), &str>("not bundled"), |_: ()| {
        spawned.set(true);
        Ok::<u32, &str>(1)
    });
    assert!(!spawned.get());
    assert!(matches!(state, SupervisionState::Absent));
    assert!(matches!(failure, Some(LaunchFailure::WorkerResolutionFailed("not bundled"))));
}

#[test]
fn spawn_failure_degrades() {
    let (state, failure) =
        launch(Ok::<&str, ()>("cmd"), |_: &str| Err::<u32, &str>("permission denied"));
    assert!(matches!(state, SupervisionState::Absent));
    assert!(matches!(failure, Some(LaunchFailure::WorkerSpawnFailed("permission denied"))));
}

#[test]
fn spawn_success_runs_the_worker() {
    let (state, failure) = launch(Ok::<u32, ()>(5), |c: u32| Ok::<u32, ()>(c * 10));
    assert!(matches!(state, SupervisionState::Running(50)));
    assert!(failure.is_none());
}

#[test]
fn start_installs_each_launch_outcome() {
    let (store, failure) = start(Ok::<u8, ()>(1), |_: u8| Ok::<u8, ()>(9));
    assert!(store.is_running());
    assert!(failure.is_none());

    let (store, failure) = start(Ok::<u8, ()>(1), |_: u8| Err::<u8, u8>(2));
    assert!(!store.is_running());
    assert!(matches!(failure, Some(LaunchFailure::WorkerSpawnFailed(2))));

    let (store, failure) = start(Err::<u8, u8>(3), |_: u8| Ok::<u8, u8>(9));
    assert!(!store.is_running());
    assert!(matches!(failure, Some(LaunchFailure::WorkerResolutionFailed(3))));
}

#[test]
fn settle_spawn_maps_each_result() {
    let (state, failure) = settle_spawn::<u8, (), &str>(Ok(4));
    assert!(matches!(state, SupervisionState::Running(4)));
    assert!(failure.is_none());
    let (state, failure) = settle_spawn::<u8, (), &str>(Err("busy"));
    assert!(matches!(state, SupervisionState::Absent));
    assert!(matches!(failure, Some(LaunchFailure::WorkerSpawnFailed("busy"))));
}

#[test]
fn failure_texts() {
    let not_found: LaunchFailure<(), ()> = LaunchFailure::WorkerResolutionFailed(());
    let not_started: LaunchFailure<(), ()> = LaunchFailure::WorkerSpawnFailed(());
    assert_eq!(not_found.summary(), "worker executable not found");
    assert_eq!(not_started.summary(), "worker failed to start");
    assert_eq!(not_found.remediation(), "in a development tree, run './start-dev.sh'");
    assert_eq!(WORKER_NAME, "starscope-sidecar");
}

#[test]
fn close_request_kills_running_worker_once() {
    let mut store = HandleStore::install(SupervisionState::Running(7u32));
    let mut killed = Vec::new();
    let outcome = on_close_requested(&mut store, |h: u32| {
        killed.push(h);
        Ok::<(), &str>(())
    });
    assert!(matches!(outcome, CloseOutcome::Stopped));
    assert_eq!(killed, vec![7]);
    assert!(!store.is_running());
}

#[test]
fn double_close_request_signals_once() {
    let mut store = HandleStore::install(SupervisionState::Running(7u32));
    let kills = Cell::new(0u32);
    let first = on_close_requested(&mut store, |_: u32| {
        kills.set(kills.get() + 1);
        Ok::<(), ()>(())
    });
    let second = on_close_requested(&mut store, |_: u32| {
        kills.set(kills.get() + 1);
        Ok::<(), ()>(())
    });
    assert!(matches!(first, CloseOutcome::Stopped));
    assert!(matches!(second, CloseOutcome::NothingToStop));
    assert_eq!(kills.get(), 1);
}

#[test]
fn close_request_without_worker_does_nothing() {
    let mut store: HandleStore<u32> = HandleStore::install(SupervisionState::Absent);
    let outcome = on_close_requested(&mut store, |_: u32| -> Result<(), ()> {
        panic!("no worker to kill")
    });
    assert!(matches!(outcome, CloseOutcome::NothingToStop));
}

#[test]
fn failed_kill_is_reported_and_store_still_empties() {
    let mut store = HandleStore::install(SupervisionState::Running(1u32));
    let outcome = on_close_requested(&mut store, |_: u32| Err::<(), &str>("already exited"));
    assert!(matches!(outcome, CloseOutcome::StopFailed("already exited")));
    assert!(!store.is_running());
    assert_eq!(store.take(), None);
}

#[test]
fn settle_termination_maps_each_result() {
    assert!(matches!(settle_termination::<u8>(Ok(())), CloseOutcome::Stopped));
    assert!(matches!(settle_termination::<u8>(Err(3)), CloseOutcome::StopFailed(3)));
}
