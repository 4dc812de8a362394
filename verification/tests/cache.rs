use rust_iss::cache::{CacheAside, CacheLookup, DurableRead, GetStep, SetAction, Stored};
use rust_iss::sync_task::CachePolicy;

#[test]
fn hit_is_served_without_the_durable_store() {
    match CacheAside::after_fast_read(CacheLookup::Hit("cached".to_string())) {
        GetStep::Serve(value) => assert_eq!(value, "cached"),
        GetStep::AskDurable { .. } => panic!("a hit must not reach the durable store"),
    }
}

#[test]
fn miss_falls_back_to_the_durable_store() {
    match CacheAside::after_fast_read::<String>(CacheLookup::Miss) {
        GetStep::AskDurable { report } => assert!(!report),
        GetStep::Serve(_) => panic!("a miss has nothing to serve"),
    }
    match CacheAside::after_durable_read(DurableRead::Found("stored".to_string())) {
        Ok(Some(value)) => assert_eq!(value, "stored"),
        _ => panic!("the durable store's value is returned"),
    }
}

#[test]
fn fast_store_error_falls_back_and_is_reported() {
    match CacheAside::after_fast_read::<String>(CacheLookup::Failed) {
        GetStep::AskDurable { report } => assert!(report),
        GetStep::Serve(_) => panic!("a failed read has nothing to serve"),
    }
    match CacheAside::after_fast_read::<String>(CacheLookup::Unreadable) {
        GetStep::AskDurable { report } => assert!(report),
        GetStep::Serve(_) => panic!("an unreadable entry is not served"),
    }
}

#[test]
fn empty_durable_store_gives_none() {
    match CacheAside::after_durable_read::<String>(DurableRead::Empty) {
        Ok(None) => {}
        _ => panic!("an empty store gives no value"),
    }
}

#[test]
fn durable_read_failure_is_a_database_error() {
    match CacheAside::after_durable_read::<String>(DurableRead::Failed("connection reset".to_string())) {
        Err(e) => {
            assert_eq!(e.code, "DATABASE_ERROR");
            assert_eq!(e.message, "connection reset");
            assert_eq!(e.trace_id.len(), 36);
        }
        Ok(_) => panic!("a failed read is an error"),
    }
}

#[test]
fn set_writes_fast_store_then_durable_store() {
    let policy = Some(CachePolicy { key: "iss:last".to_string(), ttl_secs: 60 });
    let steps = CacheAside::set_steps(&policy);
    assert_eq!(steps.len(), 2);
    match &steps[0] {
        SetAction::WriteFast { key, ttl_secs } => {
            assert_eq!(key, "iss:last");
            assert_eq!(*ttl_secs, 60);
        }
        SetAction::WriteDurable => panic!("the fast store comes first"),
    }
    assert!(matches!(steps[1], SetAction::WriteDurable));
}

#[test]
fn set_without_policy_writes_durable_store_only() {
    let steps = CacheAside::set_steps(&None);
    assert_eq!(steps.len(), 1);
    assert!(matches!(steps[0], SetAction::WriteDurable));
}

#[test]
fn set_succeeds_when_both_writes_do() {
    match CacheAside::set_outcome(Some(true), Ok(17)) {
        Ok(stored) => assert_eq!(stored, Stored { id: 17, cached: true }),
        Err(_) => panic!("both writes went through"),
    }
}

#[test]
fn set_survives_a_failed_fast_write() {
    match CacheAside::set_outcome(Some(false), Ok(18)) {
        Ok(stored) => assert_eq!(stored, Stored { id: 18, cached: false }),
        Err(_) => panic!("the durable write went through"),
    }
    match CacheAside::set_outcome(None, Ok(19)) {
        Ok(stored) => assert_eq!(stored, Stored { id: 19, cached: false }),
        Err(_) => panic!("the durable write went through"),
    }
}

#[test]
fn set_fails_when_the_durable_write_fails() {
    for fast in [Some(true), Some(false), None] {
        match CacheAside::set_outcome(fast, Err("disk full".to_string())) {
            Err(e) => {
                assert_eq!(e.code, "DATABASE_ERROR");
                assert_eq!(e.message, "disk full");
            }
            Ok(_) => panic!("the durable write failed"),
        }
    }
}
