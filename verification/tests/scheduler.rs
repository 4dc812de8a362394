use rust_iss::config::{Config, EnvVar};
use rust_iss::scheduler::{
    descriptor_for, descriptors, find_collision, source_name, start_background_tasks, start_tasks,
    Collision,
};
use rust_iss::sync_task::{
    CycleOutcome, PersistTarget, SourceDescriptor, SourceKind, SyncAction, SyncEvent, SyncState,
};

fn config(extra: &[(&str, &str)]) -> Config {
    let mut vars = vec![EnvVar { name: "DATABASE_URL".to_string(), value: "postgres://db/x".to_string() }];
    for (name, value) in extra {
        vars.push(EnvVar { name: name.to_string(), value: value.to_string() });
    }
    Config::from_env(&vars).unwrap()
}

fn descriptor(name: &str, lock_id: i64) -> SourceDescriptor {
    SourceDescriptor {
        kind: SourceKind::Apod,
        name: name.to_string(),
        lock_id,
        interval_secs: 60,
        cache: None,
        target: PersistTarget::SpaceCache,
    }
}

#[test]
fn every_upstream_has_a_descriptor() {
    let all = descriptors(&config(&[]));
    let expected: [(SourceKind, &str, i64, u64, PersistTarget); 7] = [
        (SourceKind::Iss, "ISS", 12345, 120, PersistTarget::IssFetchLog),
        (SourceKind::Osdr, "OSDR", 12346, 600, PersistTarget::OsdrCatalog),
        (SourceKind::Apod, "APOD", 12347, 43200, PersistTarget::SpaceCache),
        (SourceKind::Neo, "NEO", 12348, 7200, PersistTarget::SpaceCache),
        (SourceKind::DonkiFlr, "DONKI FLR", 12349, 3600, PersistTarget::SpaceCache),
        (SourceKind::DonkiCme, "DONKI CME", 12350, 3600, PersistTarget::SpaceCache),
        (SourceKind::SpaceX, "SpaceX", 12351, 3600, PersistTarget::SpaceCache),
    ];
    assert_eq!(all.len(), 7);
    for (d, (kind, name, lock_id, interval, target)) in all.iter().zip(expected.iter()) {
        assert_eq!(d.kind, *kind);
        assert_eq!(d.name, *name);
        assert_eq!(d.lock_id, *lock_id);
        assert_eq!(d.interval_secs, *interval);
        assert_eq!(d.target, *target);
    }
    let iss = all[0].cache.as_ref().unwrap();
    assert_eq!((iss.key.as_str(), iss.ttl_secs), ("iss:last", 60));
    let osdr = all[1].cache.as_ref().unwrap();
    assert_eq!((osdr.key.as_str(), osdr.ttl_secs), ("nasa:osdr", 600));
    for d in &all[2..] {
        assert!(d.cache.is_none());
    }
    assert_eq!(find_collision(&all), None);
}

#[test]
fn intervals_come_from_the_settings() {
    let settings = config(&[
        ("ISS_SYNC_INTERVAL", "1"),
        ("OSDR_SYNC_INTERVAL", "2"),
        ("APOD_SYNC_INTERVAL", "3"),
        ("NEO_SYNC_INTERVAL", "4"),
        ("DONKI_SYNC_INTERVAL", "5"),
        ("SPACEX_SYNC_INTERVAL", "6"),
    ]);
    let intervals: Vec<u64> = descriptors(&settings).iter().map(|d| d.interval_secs).collect();
    assert_eq!(intervals, vec![1, 2, 3, 4, 5, 5, 6]);
    assert_eq!(descriptor_for(&settings, SourceKind::DonkiCme).interval_secs, 5);
    assert_eq!(descriptor_for(&settings, SourceKind::DonkiCme).lock_id, 12350);
    assert_eq!(descriptor_for(&settings, SourceKind::DonkiCme).name, "DONKI CME");
    assert_eq!(source_name(SourceKind::SpaceX), "SpaceX");
}

#[test]
fn background_tasks_are_one_per_upstream_and_idle() {
    let tasks = start_background_tasks(&config(&[]));
    assert_eq!(tasks.len(), 7);
    let mut ids: Vec<i64> = tasks.iter().map(|t| t.descriptor().lock_id).collect();
    assert_eq!(ids, vec![12345, 12346, 12347, 12348, 12349, 12350, 12351]);
    ids.dedup();
    assert_eq!(ids.len(), 7);
    for task in &tasks {
        assert_eq!(task.state(), SyncState::Idle);
        assert_eq!(task.outcome(), CycleOutcome::Pending);
        assert!(!task.lock_handle().held);
    }
    assert_eq!(tasks[6].descriptor().name, "SpaceX");
}

#[test]
fn tasks_keep_the_order_of_their_descriptors() {
    let tasks = start_tasks(vec![descriptor("a", 1), descriptor("b", 2), descriptor("c", 3)]).unwrap();
    let names: Vec<&str> = tasks.iter().map(|t| t.descriptor().name.as_str()).collect();
    assert_eq!(names, vec!["a", "b", "c"]);
    assert!(start_tasks(Vec::new()).unwrap().is_empty());
}

#[test]
fn colliding_lock_identifiers_are_refused() {
    let result = start_tasks(vec![descriptor("a", 1), descriptor("b", 2), descriptor("c", 1)]);
    assert_eq!(result.err(), Some(Collision { first: 0, second: 2 }));
}

#[test]
fn colliding_names_are_refused() {
    let all = vec![descriptor("a", 1), descriptor("b", 2), descriptor("b", 3), descriptor("a", 4)];
    assert_eq!(find_collision(&all), Some(Collision { first: 1, second: 2 }));
    assert!(start_tasks(all).is_err());
}

#[test]
fn tasks_run_independently_of_each_other() {
    let mut tasks = start_background_tasks(&config(&[]));
    assert_eq!(tasks[0].step(SyncEvent::Wake), Ok(SyncAction::TryAcquire { lock_id: 12345 }));
    assert_eq!(tasks[0].step(SyncEvent::LockGranted), Ok(SyncAction::Fetch));
    assert_eq!(tasks[3].step(SyncEvent::Wake), Ok(SyncAction::TryAcquire { lock_id: 12348 }));
    assert_eq!(tasks[3].step(SyncEvent::LockDenied), Ok(SyncAction::Sleep { secs: 7200 }));
    assert_eq!(tasks[0].state(), SyncState::Fetching);
    assert_eq!(tasks[1].state(), SyncState::Idle);
    assert_eq!(tasks[3].state(), SyncState::Sleeping);
}
