use rust_iss::cache::{DurableRead, Stored};
use rust_iss::dates::Timestamp;
use rust_iss::lock::LockTable;
use rust_iss::memory::{CacheEntry, FastStore, FetchResult, MemoryStore, PayloadLog, StoreDown};
use rust_iss::retry::{RetryDecision, RetryState};
use rust_iss::sync_task::{
    CycleOutcome, PersistTarget, SourceDescriptor, SourceKind, SyncAction, SyncEvent, SyncTask,
};

fn entry(source: &str, payload: &str, secs: i64) -> CacheEntry {
    CacheEntry::from_fetch(
        source,
        FetchResult { payload: payload.to_string(), fetched_at: Timestamp { secs, nanos: 0 } },
    )
}

fn payload_of(read: Result<Option<CacheEntry>, rust_iss::ApiError>) -> Option<String> {
    read.unwrap().map(|e| e.payload)
}

fn next_random(seed: &mut u64) -> u64 {
    *seed = seed.wrapping_mul(6364136223846793005).wrapping_add(1442695040888963407);
    *seed >> 33
}

#[test]
fn entry_keeps_what_was_fetched() {
    let e = entry("alpha", "{\"v\":1}", 77);
    assert_eq!(e.source, "alpha");
    assert_eq!(e.payload, "{\"v\":1}");
    assert_eq!(e.fetched_at, Timestamp { secs: 77, nanos: 0 });
}

#[test]
fn fast_store_forgets_after_the_time_to_live() {
    let mut fast = FastStore::new();
    assert!(fast.set_ex(entry("alpha", "one", 1), 60, 1000).is_ok());
    let key = "alpha".to_string();
    assert_eq!(fast.get(&key, 1000).unwrap().unwrap().payload, "one");
    assert_eq!(fast.get(&key, 1059).unwrap().unwrap().payload, "one");
    assert!(fast.get(&key, 1060).unwrap().is_none());
    assert!(fast.get(&key, 5000).unwrap().is_none());
    assert!(fast.get(&"beta".to_string(), 1000).unwrap().is_none());
}

#[test]
fn fast_store_write_supersedes_the_entry_of_its_source() {
    let mut fast = FastStore::new();
    let _ = fast.set_ex(entry("alpha", "one", 1), 60, 0);
    let _ = fast.set_ex(entry("beta", "b", 1), 600, 0);
    let _ = fast.set_ex(entry("alpha", "two", 2), 10, 30);
    let alpha = "alpha".to_string();
    assert_eq!(fast.get(&alpha, 39).unwrap().unwrap().payload, "two");
    assert!(fast.get(&alpha, 40).unwrap().is_none());
    assert_eq!(fast.get(&"beta".to_string(), 599).unwrap().unwrap().payload, "b");
}

#[test]
fn fast_store_with_zero_time_to_live_keeps_nothing_readable() {
    let mut fast = FastStore::new();
    let _ = fast.set_ex(entry("alpha", "one", 1), 0, 10);
    assert!(fast.get(&"alpha".to_string(), 10).unwrap().is_none());
}

#[test]
fn fast_store_expiry_stops_at_the_end_of_the_clock() {
    let mut fast = FastStore::new();
    let _ = fast.set_ex(entry("alpha", "one", 1), u64::MAX, 10);
    assert!(fast.get(&"alpha".to_string(), u64::MAX - 1).unwrap().is_some());
    assert!(fast.get(&"alpha".to_string(), u64::MAX).unwrap().is_none());
}

#[test]
fn fast_store_that_is_down_neither_reads_nor_writes() {
    let mut fast = FastStore::new();
    let _ = fast.set_ex(entry("alpha", "one", 1), 60, 0);
    fast.set_available(false);
    assert_eq!(fast.get(&"alpha".to_string(), 1).err(), Some(StoreDown));
    assert_eq!(fast.set_ex(entry("alpha", "two", 2), 60, 1), Err(StoreDown));
    fast.set_available(true);
    assert_eq!(fast.get(&"alpha".to_string(), 1).unwrap().unwrap().payload, "one");
}

#[test]
fn log_appends_rows_with_rising_identifiers() {
    let mut log = PayloadLog::new();
    assert_eq!(log.append(entry("alpha", "a1", 1)), Ok(1));
    assert_eq!(log.append(entry("beta", "b1", 2)), Ok(2));
    assert_eq!(log.append(entry("alpha", "a2", 3)), Ok(3));
    assert_eq!(log.len(), 3);
    let mut last = 3;
    for i in 0..50 {
        let id = log.append(entry("gamma", "g", i)).unwrap();
        assert!(id > last);
        last = id;
    }
    assert_eq!(log.len(), 53);
    match log.latest(&"alpha".to_string()) {
        DurableRead::Found(e) => {
            assert_eq!(e.payload, "a2");
            assert_eq!(e.fetched_at, Timestamp { secs: 3, nanos: 0 });
        }
        _ => panic!("alpha has rows"),
    }
    match log.latest(&"beta".to_string()) {
        DurableRead::Found(e) => assert_eq!(e.payload, "b1"),
        _ => panic!("beta has a row"),
    }
    assert!(matches!(log.latest(&"delta".to_string()), DurableRead::Empty));
}

#[test]
fn log_that_is_down_refuses_and_keeps_its_rows() {
    let mut log = PayloadLog::new();
    assert_eq!(log.append(entry("alpha", "a1", 1)), Ok(1));
    log.set_available(false);
    assert_eq!(
        log.append(entry("alpha", "a2", 2)),
        Err("durable store is not available".to_string())
    );
    match log.latest(&"alpha".to_string()) {
        DurableRead::Failed(why) => assert_eq!(why, "durable store is not available"),
        _ => panic!("the log is down"),
    }
    assert_eq!(log.len(), 1);
    log.set_available(true);
    assert_eq!(log.append(entry("alpha", "a3", 3)), Ok(2));
    assert_eq!(log.len(), 2);
}

#[test]
fn read_hits_the_fast_store_even_when_the_durable_store_is_down() {
    let mut store = MemoryStore::new();
    assert_eq!(
        store.set(entry("alpha", "fresh", 1), 60, 0).unwrap(),
        Stored { id: 1, cached: true }
    );
    store.durable.set_available(false);
    assert_eq!(payload_of(store.get(&"alpha".to_string(), 30)), Some("fresh".to_string()));
}

#[test]
fn read_prefers_the_fast_store_over_the_durable_store() {
    let mut store = MemoryStore::new();
    let _ = store.set(entry("alpha", "both", 1), 60, 0);
    let _ = store.durable.append(entry("alpha", "durable only", 2));
    assert_eq!(payload_of(store.get(&"alpha".to_string(), 30)), Some("both".to_string()));
    assert_eq!(payload_of(store.get(&"alpha".to_string(), 60)), Some("durable only".to_string()));
}

#[test]
fn read_falls_back_on_a_miss_and_on_a_fast_store_error() {
    let mut store = MemoryStore::new();
    let _ = store.durable.append(entry("alpha", "stored", 1));
    assert_eq!(payload_of(store.get(&"alpha".to_string(), 0)), Some("stored".to_string()));
    let _ = store.fast.set_ex(entry("alpha", "cached", 2), 60, 0);
    assert_eq!(payload_of(store.get(&"alpha".to_string(), 0)), Some("cached".to_string()));
    store.fast.set_available(false);
    assert_eq!(payload_of(store.get(&"alpha".to_string(), 0)), Some("stored".to_string()));
    assert_eq!(payload_of(store.get(&"beta".to_string(), 0)), None);
}

#[test]
fn read_fails_only_when_the_durable_store_is_needed_and_down() {
    let mut store = MemoryStore::new();
    let _ = store.set(entry("alpha", "a", 1), 60, 0);
    store.durable.set_available(false);
    assert!(store.get(&"alpha".to_string(), 59).is_ok());
    match store.get(&"alpha".to_string(), 60) {
        Err(e) => {
            assert_eq!(e.code, "DATABASE_ERROR");
            assert_eq!(e.message, "durable store is not available");
        }
        Ok(_) => panic!("the entry has expired and the durable store is down"),
    }
    assert!(store.get(&"beta".to_string(), 0).is_err());
}

#[test]
fn write_survives_a_fast_store_that_is_down() {
    let mut store = MemoryStore::new();
    store.fast.set_available(false);
    assert_eq!(
        store.set(entry("alpha", "a", 1), 60, 0).unwrap(),
        Stored { id: 1, cached: false }
    );
    assert_eq!(store.durable.len(), 1);
    store.fast.set_available(true);
    assert!(store.fast.get(&"alpha".to_string(), 0).unwrap().is_none());
    assert_eq!(payload_of(store.get(&"alpha".to_string(), 0)), Some("a".to_string()));
}

#[test]
fn write_fails_when_the_durable_store_is_down() {
    let mut store = MemoryStore::new();
    store.durable.set_available(false);
    match store.set(entry("alpha", "a", 1), 60, 0) {
        Err(e) => {
            assert_eq!(e.code, "DATABASE_ERROR");
            assert_eq!(e.message, "durable store is not available");
        }
        Ok(_) => panic!("the durable store is down"),
    }
    assert_eq!(store.durable.len(), 0);
    assert_eq!(store.fast.get(&"alpha".to_string(), 0).unwrap().unwrap().payload, "a");
}

#[test]
fn writes_never_change_earlier_rows() {
    let mut store = MemoryStore::new();
    for i in 0..20i64 {
        let source = if i % 2 == 0 { "alpha" } else { "beta" };
        let stored = store.set(entry(source, &format!("p{}", i), i), 60, i as u64).unwrap();
        assert_eq!(stored.id, i + 1);
        assert_eq!(store.durable.len(), (i + 1) as usize);
    }
    assert_eq!(payload_of(store.get(&"alpha".to_string(), 1000)), Some("p18".to_string()));
    assert_eq!(payload_of(store.get(&"beta".to_string(), 1000)), Some("p19".to_string()));
}

/// One fetch through the retry state: each attempt fails with the given
/// chance in a hundred.
fn fetch(seed: &mut u64, failure_chance: u64, cycle: i64) -> Option<FetchResult> {
    let mut retry = RetryState::new(3);
    loop {
        let failed = next_random(seed) % 100 < failure_chance;
        let answer = if failed {
            Err("upstream failed")
        } else {
            Ok(FetchResult {
                payload: format!("payload {}", cycle),
                fetched_at: Timestamp { secs: cycle, nanos: 0 },
            })
        };
        match retry.record(answer) {
            RetryDecision::Done { value, .. } => return Some(value),
            RetryDecision::RetryAfter { .. } => {}
            RetryDecision::Exhausted { .. } => return None,
        }
    }
}

#[test]
fn thousand_cycles_against_failing_stores_keep_running() {
    let descriptor = SourceDescriptor {
        kind: SourceKind::Apod,
        name: "alpha".to_string(),
        lock_id: 1,
        interval_secs: 120,
        cache: None,
        target: PersistTarget::SpaceCache,
    };
    let mut task = SyncTask::new(descriptor);
    let mut table = LockTable::new();
    let mut store = MemoryStore::new();
    let mut seed = 99u64;
    let mut clock = 0u64;
    let mut completed = 0usize;
    let mut fetch_failures = 0;
    let mut write_failures = 0;
    let mut uncached = 0;
    for cycle in 0..1000i64 {
        store.fast.set_available(next_random(&mut seed) % 4 != 0);
        store.durable.set_available(next_random(&mut seed) % 5 != 0);
        let mut fetched = None;
        let mut action = task.step(SyncEvent::Wake).unwrap();
        loop {
            let event = match action {
                SyncAction::AwaitWake => break,
                SyncAction::TryAcquire { lock_id } => {
                    assert!(table.try_acquire(1, lock_id));
                    SyncEvent::LockGranted
                }
                SyncAction::Fetch => match fetch(&mut seed, 40, cycle) {
                    Some(result) => {
                        fetched = Some(result);
                        SyncEvent::FetchOk
                    }
                    None => SyncEvent::FetchFailed,
                },
                SyncAction::Persist => {
                    let entry = CacheEntry::from_fetch("alpha", fetched.take().unwrap());
                    match store.set(entry, 60, clock) {
                        Ok(stored) => {
                            if !stored.cached {
                                uncached += 1;
                            }
                            SyncEvent::PersistOk
                        }
                        Err(_) => SyncEvent::PersistFailed,
                    }
                }
                SyncAction::Release { lock_id } => {
                    assert!(table.release(1, lock_id));
                    SyncEvent::Released
                }
                SyncAction::Sleep { secs } => {
                    assert_eq!(secs, 120);
                    clock += secs;
                    SyncEvent::SleepDone
                }
            };
            action = task.step(event).unwrap();
        }
        assert_eq!(table.holder(1), None);
        match task.outcome() {
            CycleOutcome::Completed => completed += 1,
            CycleOutcome::FetchFailed => fetch_failures += 1,
            CycleOutcome::PersistFailed => write_failures += 1,
            other => panic!("unexpected outcome {:?}", other),
        }
    }
    assert_eq!(clock, 120_000);
    assert_eq!(completed + fetch_failures + write_failures, 1000);
    assert!(completed > 0 && fetch_failures > 0 && write_failures > 0 && uncached > 0);
    assert_eq!(store.durable.len(), completed);
}
