use rust_iss::lock::{LockHandle, LockTable};
use rust_iss::retry::{RetryDecision, RetryState};
use rust_iss::sync_task::{
    CycleOutcome, PersistTarget, SourceDescriptor, SourceKind, SyncAction, SyncEvent, SyncState,
    SyncTask, UnexpectedEvent,
};

fn alpha(interval_secs: u64, lock_id: i64) -> SourceDescriptor {
    SourceDescriptor {
        kind: SourceKind::Iss,
        name: "alpha".to_string(),
        lock_id,
        interval_secs,
        cache: None,
        target: PersistTarget::IssFetchLog,
    }
}

/// A source of numbers that looks random and is the same on every run.
fn next_random(seed: &mut u64) -> u64 {
    *seed = seed.wrapping_mul(6364136223846793005).wrapping_add(1442695040888963407);
    *seed >> 33
}

const ALL_EVENTS: [SyncEvent; 12] = [
    SyncEvent::Wake,
    SyncEvent::LockGranted,
    SyncEvent::LockDenied,
    SyncEvent::LockError,
    SyncEvent::FetchOk,
    SyncEvent::FetchFailed,
    SyncEvent::PersistOk,
    SyncEvent::PersistFailed,
    SyncEvent::PayloadMalformed,
    SyncEvent::Released,
    SyncEvent::ReleaseFailed,
    SyncEvent::SleepDone,
];

#[test]
fn new_task_is_idle() {
    let task = SyncTask::new(alpha(120, 1));
    assert_eq!(task.state(), SyncState::Idle);
    assert_eq!(task.outcome(), CycleOutcome::Pending);
    assert_eq!(task.pending_action(), SyncAction::AwaitWake);
    assert_eq!(task.lock_handle(), LockHandle { lock_id: 1, held: false });
    assert_eq!(task.descriptor().name, "alpha");
    assert_eq!(task.descriptor().interval_secs, 120);
    assert_eq!(task.cycle(), 0);
}

#[test]
fn cycles_are_counted_from_one() {
    let mut task = SyncTask::new(alpha(120, 1));
    for cycle in 1..=5u64 {
        assert_eq!(task.step(SyncEvent::Wake), Ok(SyncAction::TryAcquire { lock_id: 1 }));
        assert_eq!(task.cycle(), cycle);
        assert!(task.step(SyncEvent::Wake).is_err());
        assert_eq!(task.cycle(), cycle);
        let _ = task.step(SyncEvent::LockDenied);
        let _ = task.step(SyncEvent::SleepDone);
        assert_eq!(task.cycle(), cycle);
    }
}

#[test]
fn full_cycle_runs_through_every_state() {
    let mut task = SyncTask::new(alpha(120, 1));
    assert_eq!(task.step(SyncEvent::Wake), Ok(SyncAction::TryAcquire { lock_id: 1 }));
    assert_eq!(task.state(), SyncState::AcquiringLock);
    assert_eq!(task.step(SyncEvent::LockGranted), Ok(SyncAction::Fetch));
    assert_eq!(task.state(), SyncState::Fetching);
    assert!(task.lock_handle().held);
    assert_eq!(task.step(SyncEvent::FetchOk), Ok(SyncAction::Persist));
    assert_eq!(task.state(), SyncState::Persisting);
    assert_eq!(task.outcome(), CycleOutcome::Pending);
    assert_eq!(task.step(SyncEvent::PersistOk), Ok(SyncAction::Release { lock_id: 1 }));
    assert_eq!(task.state(), SyncState::ReleasingLock);
    assert_eq!(task.outcome(), CycleOutcome::Completed);
    assert!(task.lock_handle().held);
    assert_eq!(task.step(SyncEvent::Released), Ok(SyncAction::Sleep { secs: 120 }));
    assert_eq!(task.state(), SyncState::Sleeping);
    assert!(!task.lock_handle().held);
    assert_eq!(task.step(SyncEvent::SleepDone), Ok(SyncAction::AwaitWake));
    assert_eq!(task.state(), SyncState::Idle);
    assert_eq!(task.outcome(), CycleOutcome::Completed);
    assert_eq!(task.step(SyncEvent::Wake), Ok(SyncAction::TryAcquire { lock_id: 1 }));
    assert_eq!(task.outcome(), CycleOutcome::Pending);
}

#[test]
fn denied_lock_goes_straight_to_sleep() {
    let mut task = SyncTask::new(alpha(600, 12346));
    assert_eq!(task.step(SyncEvent::Wake), Ok(SyncAction::TryAcquire { lock_id: 12346 }));
    assert_eq!(task.step(SyncEvent::LockDenied), Ok(SyncAction::Sleep { secs: 600 }));
    assert_eq!(task.state(), SyncState::Sleeping);
    assert_eq!(task.outcome(), CycleOutcome::LockDenied);
    assert!(!task.lock_handle().held);
    assert_eq!(task.step(SyncEvent::SleepDone), Ok(SyncAction::AwaitWake));
}

#[test]
fn lock_error_goes_straight_to_sleep() {
    let mut task = SyncTask::new(alpha(600, 12346));
    let _ = task.step(SyncEvent::Wake);
    assert_eq!(task.step(SyncEvent::LockError), Ok(SyncAction::Sleep { secs: 600 }));
    assert_eq!(task.outcome(), CycleOutcome::LockError);
    assert!(!task.lock_handle().held);
}

#[test]
fn failed_fetch_still_releases_the_lock() {
    let mut task = SyncTask::new(alpha(120, 9));
    let _ = task.step(SyncEvent::Wake);
    let _ = task.step(SyncEvent::LockGranted);
    assert_eq!(task.step(SyncEvent::FetchFailed), Ok(SyncAction::Release { lock_id: 9 }));
    assert_eq!(task.state(), SyncState::ReleasingLock);
    assert_eq!(task.outcome(), CycleOutcome::FetchFailed);
    assert!(task.lock_handle().held);
    assert_eq!(task.step(SyncEvent::Released), Ok(SyncAction::Sleep { secs: 120 }));
    assert_eq!(task.outcome(), CycleOutcome::FetchFailed);
}

#[test]
fn failed_write_still_releases_the_lock_and_does_not_fetch_again() {
    let mut task = SyncTask::new(alpha(120, 9));
    let _ = task.step(SyncEvent::Wake);
    let _ = task.step(SyncEvent::LockGranted);
    let _ = task.step(SyncEvent::FetchOk);
    assert_eq!(task.step(SyncEvent::PersistFailed), Ok(SyncAction::Release { lock_id: 9 }));
    assert_eq!(task.outcome(), CycleOutcome::PersistFailed);
    assert_eq!(task.step(SyncEvent::Released), Ok(SyncAction::Sleep { secs: 120 }));
}

#[test]
fn malformed_payload_is_handled_like_a_failed_write() {
    let mut task = SyncTask::new(alpha(120, 9));
    let _ = task.step(SyncEvent::Wake);
    let _ = task.step(SyncEvent::LockGranted);
    let _ = task.step(SyncEvent::FetchOk);
    assert_eq!(task.step(SyncEvent::PayloadMalformed), Ok(SyncAction::Release { lock_id: 9 }));
    assert_eq!(task.outcome(), CycleOutcome::PayloadMalformed);
    assert_eq!(task.step(SyncEvent::Released), Ok(SyncAction::Sleep { secs: 120 }));
}

#[test]
fn failed_release_still_sleeps_the_interval() {
    let mut task = SyncTask::new(alpha(43200, 9));
    let _ = task.step(SyncEvent::Wake);
    let _ = task.step(SyncEvent::LockGranted);
    let _ = task.step(SyncEvent::FetchOk);
    let _ = task.step(SyncEvent::PersistOk);
    assert_eq!(task.step(SyncEvent::ReleaseFailed), Ok(SyncAction::Sleep { secs: 43200 }));
    assert_eq!(task.outcome(), CycleOutcome::Completed);
    assert!(!task.lock_handle().held);
}

#[test]
fn events_follow_from_what_the_driver_saw() {
    assert_eq!(SyncEvent::of_wake(false), Some(SyncEvent::Wake));
    assert_eq!(SyncEvent::of_wake(true), None);
    assert_eq!(SyncEvent::of_lock(Some(true)), SyncEvent::LockGranted);
    assert_eq!(SyncEvent::of_lock(Some(false)), SyncEvent::LockDenied);
    assert_eq!(SyncEvent::of_lock(None), SyncEvent::LockError);
    assert_eq!(SyncEvent::of_fetch(true), SyncEvent::FetchOk);
    assert_eq!(SyncEvent::of_fetch(false), SyncEvent::FetchFailed);
    assert_eq!(SyncEvent::of_persist(None), SyncEvent::PersistOk);
    let malformed = rust_iss::ApiError::external_api("OSDR item missing dataset_id");
    assert_eq!(SyncEvent::of_persist(Some(&malformed)), SyncEvent::PayloadMalformed);
    let database = rust_iss::ApiError::database("connection reset");
    assert_eq!(SyncEvent::of_persist(Some(&database)), SyncEvent::PersistFailed);
    let internal = rust_iss::ApiError::internal("Failed to serialize ISS data: x");
    assert_eq!(SyncEvent::of_persist(Some(&internal)), SyncEvent::PersistFailed);
    assert_eq!(SyncEvent::of_release(true), SyncEvent::Released);
    assert_eq!(SyncEvent::of_release(false), SyncEvent::ReleaseFailed);
}

#[test]
fn unexpected_event_is_refused_and_changes_nothing() {
    let mut task = SyncTask::new(alpha(120, 1));
    assert_eq!(
        task.step(SyncEvent::FetchOk),
        Err(UnexpectedEvent { state: SyncState::Idle, event: SyncEvent::FetchOk })
    );
    assert_eq!(task.state(), SyncState::Idle);
    let _ = task.step(SyncEvent::Wake);
    let _ = task.step(SyncEvent::LockGranted);
    assert_eq!(
        task.step(SyncEvent::SleepDone),
        Err(UnexpectedEvent { state: SyncState::Fetching, event: SyncEvent::SleepDone })
    );
    assert_eq!(task.state(), SyncState::Fetching);
    assert!(task.lock_handle().held);
    assert_eq!(task.pending_action(), SyncAction::Fetch);
}

#[test]
fn every_state_accepts_some_event_and_refuses_the_others() {
    let paths: [(Vec<SyncEvent>, SyncState, usize); 6] = [
        (vec![], SyncState::Idle, 1),
        (vec![SyncEvent::Wake], SyncState::AcquiringLock, 3),
        (vec![SyncEvent::Wake, SyncEvent::LockGranted], SyncState::Fetching, 2),
        (
            vec![SyncEvent::Wake, SyncEvent::LockGranted, SyncEvent::FetchOk],
            SyncState::Persisting,
            3,
        ),
        (
            vec![SyncEvent::Wake, SyncEvent::LockGranted, SyncEvent::FetchFailed],
            SyncState::ReleasingLock,
            2,
        ),
        (vec![SyncEvent::Wake, SyncEvent::LockDenied], SyncState::Sleeping, 1),
    ];
    for (path, state, accepted) in paths.iter() {
        let mut count = 0;
        for event in ALL_EVENTS.iter() {
            let mut task = SyncTask::new(alpha(120, 1));
            for e in path.iter() {
                assert!(task.step(*e).is_ok());
            }
            assert_eq!(task.state(), *state);
            match task.step(*event) {
                Ok(action) => {
                    count += 1;
                    assert_ne!(task.state(), *state);
                    assert_eq!(action, task.pending_action());
                }
                Err(refused) => {
                    assert_eq!(refused, UnexpectedEvent { state: *state, event: *event });
                    assert_eq!(task.state(), *state);
                }
            }
        }
        assert_eq!(count, *accepted);
    }
}

#[test]
fn thousand_cycles_with_failures_never_stop_the_task() {
    let mut seed = 20240301u64;
    let mut task = SyncTask::new(alpha(120, 12345));
    let mut slept = 0u64;
    let mut granted = 0u32;
    let mut released = 0u32;
    let mut completed = 0u32;
    let mut outcomes = [0u32; 6];
    for _ in 0..1000 {
        assert_eq!(task.state(), SyncState::Idle);
        let mut action = task.step(SyncEvent::Wake).unwrap();
        let mut steps = 1;
        loop {
            let event = match action {
                SyncAction::AwaitWake => break,
                SyncAction::TryAcquire { lock_id } => {
                    assert_eq!(lock_id, 12345);
                    match next_random(&mut seed) % 4 {
                        0 => SyncEvent::LockDenied,
                        1 => SyncEvent::LockError,
                        _ => {
                            granted += 1;
                            SyncEvent::LockGranted
                        }
                    }
                }
                SyncAction::Fetch => {
                    assert!(task.lock_handle().held);
                    if next_random(&mut seed) % 3 == 0 {
                        SyncEvent::FetchFailed
                    } else {
                        SyncEvent::FetchOk
                    }
                }
                SyncAction::Persist => {
                    assert!(task.lock_handle().held);
                    match next_random(&mut seed) % 5 {
                        0 => SyncEvent::PersistFailed,
                        1 => SyncEvent::PayloadMalformed,
                        _ => SyncEvent::PersistOk,
                    }
                }
                SyncAction::Release { lock_id } => {
                    assert_eq!(lock_id, 12345);
                    released += 1;
                    if next_random(&mut seed) % 7 == 0 {
                        SyncEvent::ReleaseFailed
                    } else {
                        SyncEvent::Released
                    }
                }
                SyncAction::Sleep { secs } => {
                    assert_eq!(secs, 120);
                    assert!(!task.lock_handle().held);
                    slept += secs;
                    SyncEvent::SleepDone
                }
            };
            action = task.step(event).unwrap();
            steps += 1;
            assert!(steps <= 6);
        }
        match task.outcome() {
            CycleOutcome::Completed => {
                completed += 1;
                outcomes[0] += 1;
            }
            CycleOutcome::LockDenied => outcomes[1] += 1,
            CycleOutcome::LockError => outcomes[2] += 1,
            CycleOutcome::FetchFailed => outcomes[3] += 1,
            CycleOutcome::PersistFailed => outcomes[4] += 1,
            CycleOutcome::PayloadMalformed => outcomes[5] += 1,
            CycleOutcome::Pending => panic!("a finished cycle has an outcome"),
        }
    }
    assert_eq!(task.state(), SyncState::Idle);
    assert_eq!(task.cycle(), 1000);
    assert_eq!(slept, 120 * 1000);
    assert_eq!(granted, released);
    assert_eq!(outcomes.iter().sum::<u32>(), 1000);
    for count in outcomes.iter() {
        assert!(*count > 0);
    }
    assert!(completed > 0 && completed < 1000);
}

/// One cycle of two replicas that contend for one lock. Both ask for the lock
/// before either gives it back. Returns the number of writes that went through.
fn contended_cycle(
    table: &mut LockTable,
    first: (u64, &mut SyncTask),
    second: (u64, &mut SyncTask),
) -> u32 {
    let mut stored = 0;
    let mut holders = Vec::new();
    for (owner, task) in [first, second] {
        let lock_id = match task.step(SyncEvent::Wake).unwrap() {
            SyncAction::TryAcquire { lock_id } => lock_id,
            other => panic!("unexpected action {:?}", other),
        };
        if table.try_acquire(owner, lock_id) {
            assert_eq!(task.step(SyncEvent::LockGranted), Ok(SyncAction::Fetch));
            holders.push((owner, task));
        } else {
            assert_eq!(task.step(SyncEvent::LockDenied), Ok(SyncAction::Sleep { secs: 120 }));
            assert_eq!(task.step(SyncEvent::SleepDone), Ok(SyncAction::AwaitWake));
        }
    }
    for (owner, task) in holders {
        assert_eq!(task.step(SyncEvent::FetchOk), Ok(SyncAction::Persist));
        stored += 1;
        let lock_id = match task.step(SyncEvent::PersistOk).unwrap() {
            SyncAction::Release { lock_id } => lock_id,
            other => panic!("unexpected action {:?}", other),
        };
        assert!(table.release(owner, lock_id));
        assert_eq!(task.step(SyncEvent::Released), Ok(SyncAction::Sleep { secs: 120 }));
        assert_eq!(task.step(SyncEvent::SleepDone), Ok(SyncAction::AwaitWake));
    }
    stored
}

#[test]
fn two_replicas_store_once_per_cycle() {
    let mut table = LockTable::new();
    let mut one = SyncTask::new(alpha(120, 1));
    let mut two = SyncTask::new(alpha(120, 1));
    let mut stored = 0;
    let mut wins = [0u32; 2];
    let mut seed = 7u64;
    let mut at = 0u64;
    for cycle in 0..10u64 {
        assert_eq!(at, cycle * 120);
        let one_first = next_random(&mut seed) % 2 == 0;
        let before = stored;
        if one_first {
            stored += contended_cycle(&mut table, (1, &mut one), (2, &mut two));
        } else {
            stored += contended_cycle(&mut table, (2, &mut two), (1, &mut one));
        }
        assert_eq!(stored, before + 1);
        if one.outcome() == CycleOutcome::Completed {
            assert_eq!(two.outcome(), CycleOutcome::LockDenied);
            wins[0] += 1;
        } else {
            assert_eq!(one.outcome(), CycleOutcome::LockDenied);
            assert_eq!(two.outcome(), CycleOutcome::Completed);
            wins[1] += 1;
        }
        assert_eq!(table.holder(1), None);
        at += 120;
    }
    assert_eq!(at, 1200);
    assert_eq!(stored, 10);
    assert_eq!(wins[0] + wins[1], 10);
}

#[test]
fn fetch_that_succeeds_on_the_third_attempt_goes_on_to_the_write() {
    let mut task = SyncTask::new(alpha(120, 1));
    assert_eq!(task.step(SyncEvent::Wake), Ok(SyncAction::TryAcquire { lock_id: 1 }));
    assert_eq!(task.step(SyncEvent::LockGranted), Ok(SyncAction::Fetch));

    let answers: [Result<&str, &str>; 3] = [Err("timeout"), Err("503"), Ok("{\"latitude\":1.5}")];
    let mut retry = RetryState::new(3);
    let mut waited = Vec::new();
    let mut fetched = None;
    for answer in answers {
        match retry.record(answer) {
            RetryDecision::Done { value, attempts } => {
                assert_eq!(attempts, 3);
                fetched = Some(value);
                break;
            }
            RetryDecision::RetryAfter { delay_secs, .. } => waited.push(delay_secs),
            RetryDecision::Exhausted { .. } => panic!("the third attempt succeeded"),
        }
    }
    assert_eq!(waited, vec![1, 2]);
    assert_eq!(fetched, Some("{\"latitude\":1.5}"));

    assert_eq!(task.step(SyncEvent::FetchOk), Ok(SyncAction::Persist));
    assert_eq!(task.state(), SyncState::Persisting);
}
