use rust_iss::catalog::Catalog;
use rust_iss::dates::Timestamp;
use rust_iss::osdr::{osdr_items, parse_osdr_item, OsdrStep, OsdrSync};

fn json(text: &str) -> serde_json::Value {
    serde_json::from_str(text).unwrap()
}

#[test]
fn entry_with_every_member_is_read() {
    let item = json(
        "{\"dataset_id\":\"OSD-379\",\"title\":\"Rodent Research\",\"status\":\"released\",\
         \"updated_at\":\"2024-03-01T12:30:45Z\",\"extra\":[1,2]}",
    );
    let insert = parse_osdr_item(&item).unwrap();
    assert_eq!(insert.dataset_id, "OSD-379");
    assert_eq!(insert.title.as_deref(), Some("Rodent Research"));
    assert_eq!(insert.status.as_deref(), Some("released"));
    assert_eq!(insert.updated_at, Some(Timestamp { secs: 1709296245, nanos: 0 }));
    assert_eq!(insert.raw, item);
}

#[test]
fn accession_stands_in_for_a_missing_dataset_id() {
    let insert = parse_osdr_item(&json("{\"accession\":\"GLDS-4\"}")).unwrap();
    assert_eq!(insert.dataset_id, "GLDS-4");
    assert_eq!(insert.title, None);
    assert_eq!(insert.status, None);
    assert_eq!(insert.updated_at, None);
}

#[test]
fn dataset_id_wins_over_accession() {
    let insert =
        parse_osdr_item(&json("{\"accession\":\"GLDS-4\",\"dataset_id\":\"OSD-4\"}")).unwrap();
    assert_eq!(insert.dataset_id, "OSD-4");
}

#[test]
fn entry_without_identifier_is_refused() {
    for text in [
        "{}",
        "{\"title\":\"x\"}",
        "{\"dataset_id\":17,\"accession\":\"GLDS-4\"}",
        "{\"dataset_id\":null,\"accession\":\"GLDS-4\"}",
        "{\"accession\":[\"GLDS-4\"]}",
        "[\"dataset_id\"]",
        "\"dataset_id\"",
        "null",
    ] {
        match parse_osdr_item(&json(text)) {
            Err(e) => {
                assert_eq!(e.code, "EXTERNAL_API_ERROR", "for {}", text);
                assert_eq!(e.message, "OSDR item missing dataset_id");
            }
            Ok(_) => panic!("{} has no dataset identifier", text),
        }
    }
}

#[test]
fn members_of_another_kind_are_passed_over() {
    let insert = parse_osdr_item(&json(
        "{\"dataset_id\":\"OSD-1\",\"title\":5,\"status\":{\"a\":1},\"updated_at\":20240301}",
    ))
    .unwrap();
    assert_eq!(insert.title, None);
    assert_eq!(insert.status, None);
    assert_eq!(insert.updated_at, None);
}

#[test]
fn release_date_stands_in_for_a_missing_updated_at() {
    let insert = parse_osdr_item(&json(
        "{\"dataset_id\":\"OSD-1\",\"release_date\":\"2024-03-01T14:30:45.25+02:00\"}",
    ))
    .unwrap();
    assert_eq!(insert.updated_at, Some(Timestamp { secs: 1709296245, nanos: 250_000_000 }));
    let both = parse_osdr_item(&json(
        "{\"dataset_id\":\"OSD-1\",\"updated_at\":\"1970-01-01T00:00:01Z\",\
         \"release_date\":\"2024-03-01T12:30:45Z\"}",
    ))
    .unwrap();
    assert_eq!(both.updated_at, Some(Timestamp { secs: 1, nanos: 0 }));
}

#[test]
fn unreadable_date_gives_no_update_time() {
    for date in ["2024-03-01", "yesterday", "", "2024-13-01T00:00:00Z", "2024-03-01 12:30:45"] {
        let text = format!("{{\"dataset_id\":\"OSD-1\",\"updated_at\":\"{}\"}}", date);
        let insert = parse_osdr_item(&json(&text)).unwrap();
        assert_eq!(insert.updated_at, None, "for {:?}", date);
    }
    let shadowed = parse_osdr_item(&json(
        "{\"dataset_id\":\"OSD-1\",\"updated_at\":\"soon\",\"release_date\":\"2024-03-01T12:30:45Z\"}",
    ))
    .unwrap();
    assert_eq!(shadowed.updated_at, None);
}

#[test]
fn instant_before_1970_is_negative() {
    let insert = parse_osdr_item(&json(
        "{\"dataset_id\":\"OSD-1\",\"updated_at\":\"1969-12-31T23:59:59.5Z\"}",
    ))
    .unwrap();
    assert_eq!(insert.updated_at, Some(Timestamp { secs: -1, nanos: 500_000_000 }));
}

#[test]
fn items_are_the_elements_of_the_items_array() {
    let items = osdr_items(&json("{\"items\":[{\"dataset_id\":\"a\"},7,null],\"count\":3}")).unwrap();
    assert_eq!(items.len(), 3);
    assert_eq!(items[0], json("{\"dataset_id\":\"a\"}"));
    assert_eq!(items[1], json("7"));
    assert_eq!(items[2], json("null"));
    let ordered = osdr_items(&json("{\"items\":[3,1,2]}")).unwrap();
    assert_eq!(ordered, vec![json("3"), json("1"), json("2")]);
    assert_eq!(osdr_items(&json("{\"items\":[]}")).unwrap().len(), 0);
}

#[test]
fn answer_without_items_array_is_refused() {
    for text in ["{}", "{\"items\":{}}", "{\"items\":\"none\"}", "{\"item\":[]}", "[1,2]", "null"] {
        match osdr_items(&json(text)) {
            Err(e) => {
                assert_eq!(e.code, "EXTERNAL_API_ERROR");
                assert_eq!(e.message, "OSDR response missing 'items' array");
            }
            Ok(_) => panic!("{} has no items array", text),
        }
    }
}

#[test]
fn sync_counts_the_entries_that_were_written() {
    let answer = json(
        "{\"items\":[{\"dataset_id\":\"OSD-1\"},{\"dataset_id\":\"OSD-2\"},{\"accession\":\"OSD-3\"}]}",
    );
    let mut sync = OsdrSync::new(osdr_items(&answer).unwrap());
    let mut seen = Vec::new();
    loop {
        match sync.next() {
            OsdrStep::Upsert(insert) => {
                seen.push(insert.dataset_id);
                assert!(sync.record(Ok(())));
            }
            OsdrStep::Abort(_) => panic!("every entry is well formed and written"),
            OsdrStep::Finished { count } => {
                assert_eq!(count, 3);
                break;
            }
        }
    }
    assert_eq!(seen, vec!["OSD-1", "OSD-2", "OSD-3"]);
    assert_eq!(sync.count(), 3);
    assert!(!sync.has_failed());
    assert!(matches!(sync.next(), OsdrStep::Finished { count: 3 }));
}

#[test]
fn failed_write_fails_the_sync() {
    let answer = json(
        "{\"items\":[{\"dataset_id\":\"OSD-1\"},{\"dataset_id\":\"OSD-2\"},{\"dataset_id\":\"OSD-3\"}]}",
    );
    let mut sync = OsdrSync::new(osdr_items(&answer).unwrap());
    assert!(matches!(sync.next(), OsdrStep::Upsert(_)));
    assert!(sync.record(Ok(())));
    match sync.next() {
        OsdrStep::Upsert(insert) => assert_eq!(insert.dataset_id, "OSD-2"),
        _ => panic!("the second entry is well formed"),
    }
    assert!(!sync.record(Err("deadlock detected".to_string())));
    assert!(sync.has_failed());
    for _ in 0..3 {
        match sync.next() {
            OsdrStep::Abort(e) => {
                assert_eq!(e.code, "DATABASE_ERROR");
                assert_eq!(e.message, "deadlock detected");
            }
            OsdrStep::Upsert(insert) => panic!("{} comes after a failed write", insert.dataset_id),
            OsdrStep::Finished { .. } => panic!("a sync with a failed write does not finish"),
        }
        assert!(!sync.record(Ok(())));
    }
    assert_eq!(sync.count(), 1);
}

#[test]
fn malformed_entry_ends_the_sync() {
    let answer = json("{\"items\":[{\"dataset_id\":\"OSD-1\"},{\"title\":\"nameless\"},{\"dataset_id\":\"OSD-3\"}]}");
    let mut sync = OsdrSync::new(osdr_items(&answer).unwrap());
    assert!(matches!(sync.next(), OsdrStep::Upsert(_)));
    assert!(sync.record(Ok(())));
    for _ in 0..3 {
        match sync.next() {
            OsdrStep::Abort(e) => {
                assert_eq!(e.code, "EXTERNAL_API_ERROR");
                assert_eq!(e.message, "OSDR item missing dataset_id");
            }
            _ => panic!("the second entry has no identifier"),
        }
    }
    assert!(sync.has_failed());
    assert_eq!(sync.count(), 1);
}

#[test]
fn only_the_first_five_writes_are_logged() {
    let items: Vec<serde_json::Value> =
        (0..8).map(|i| json(&format!("{{\"dataset_id\":\"OSD-{}\"}}", i))).collect();
    let mut sync = OsdrSync::new(items);
    let mut logged = Vec::new();
    while let OsdrStep::Upsert(_) = sync.next() {
        logged.push(sync.record(Ok(())));
    }
    assert_eq!(logged, vec![true, true, true, true, true, false, false, false]);
    assert_eq!(sync.count(), 8);
}

#[test]
fn outcome_without_an_entry_in_turn_is_ignored() {
    let mut sync = OsdrSync::new(vec![json("{\"dataset_id\":\"OSD-1\"}")]);
    assert!(!sync.record(Ok(())));
    assert!(!sync.record(Err("too early".to_string())));
    assert!(!sync.has_failed());
    assert_eq!(sync.count(), 0);
    assert!(matches!(sync.next(), OsdrStep::Upsert(_)));
    assert!(sync.record(Ok(())));
    assert!(!sync.record(Ok(())));
    assert!(!sync.record(Err("too late".to_string())));
    assert!(!sync.has_failed());
    assert_eq!(sync.count(), 1);
    assert!(matches!(sync.next(), OsdrStep::Finished { count: 1 }));
}

#[test]
fn empty_answer_finishes_at_once() {
    let mut sync = OsdrSync::new(Vec::new());
    assert!(matches!(sync.next(), OsdrStep::Finished { count: 0 }));
}

#[test]
fn sync_into_a_catalog_upserts_by_dataset_id() {
    let answer = json(
        "{\"items\":[{\"dataset_id\":\"OSD-1\",\"title\":\"first\"},\
         {\"dataset_id\":\"OSD-2\",\"title\":\"second\"},\
         {\"dataset_id\":\"OSD-1\",\"title\":\"first again\"}]}",
    );
    let mut catalog = Catalog::new();
    let mut sync = OsdrSync::new(osdr_items(&answer).unwrap());
    let mut clock = 0;
    while let OsdrStep::Upsert(insert) = sync.next() {
        clock += 1;
        let written = catalog.upsert_item(insert, Timestamp { secs: clock, nanos: 0 });
        let outcome = match written {
            Some(_) => Ok(()),
            None => Err("no row identifier left".to_string()),
        };
        let _ = sync.record(outcome);
    }
    assert_eq!(sync.count(), 3);
    assert_eq!(catalog.count_items(), 2);
    let row = catalog.get(&"OSD-1".to_string()).unwrap();
    assert_eq!(row.title.as_deref(), Some("first again"));
    assert_eq!(row.inserted_at, Timestamp { secs: 3, nanos: 0 });
}
