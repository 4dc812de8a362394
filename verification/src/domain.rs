//! The rows that the durable store keeps, and what is made of a payload before
//! it is written.

use vstd::prelude::*;
use crate::dates::Timestamp;

verus! {

/// A row of the dataset catalog.
#[derive(Clone, Debug)]
pub struct OsdrItem {
    pub id: i64,
    pub dataset_id: Option<String>,
    pub title: Option<String>,
    pub status: Option<String>,
    pub updated_at: Option<Timestamp>,
    pub inserted_at: Timestamp,
    pub raw: serde_json::Value,
}

/// A catalog entry as a caller may give it.
#[derive(Clone, Debug)]
pub struct OsdrItemInput {
    pub dataset_id: Option<String>,
    pub title: Option<String>,
    pub status: Option<String>,
    pub updated_at: Option<Timestamp>,
    pub raw: serde_json::Value,
}

/// A catalog entry ready to be written: the dataset identifier is there.
#[derive(Clone, Debug)]
pub struct OsdrInsert {
    pub dataset_id: String,
    pub title: Option<String>,
    pub status: Option<String>,
    pub updated_at: Option<Timestamp>,
    pub raw: serde_json::Value,
}

/// A row of the payload log.
#[derive(Clone, Debug)]
pub struct SpaceCache {
    pub id: i64,
    pub source: String,
    pub fetched_at: Timestamp,
    pub payload: serde_json::Value,
}

/// What a caller is told of the latest payload of one upstream.
#[derive(Clone, Debug)]
pub struct SpaceCacheResponse {
    pub source: String,
    pub fetched_at: Option<Timestamp>,
    pub payload: Option<serde_json::Value>,
}

/// A row of the position log.
#[derive(Clone, Debug)]
pub struct IssFetchLog {
    pub id: i64,
    pub fetched_at: Timestamp,
    pub source_url: String,
    pub payload: serde_json::Value,
}

/// The text that an optional string holds.
pub open spec fn text_of(s: Option<String>) -> Option<Seq<char>> {
    match s {
        Some(text) => Some(text@),
        None => None,
    }
}

/// The instant that an optional timestamp holds, as a pair of numbers.
pub open spec fn instant_of(t: Option<Timestamp>) -> Option<(int, int)> {
    match t {
        Some(t) => Some(t.spec_pair()),
        None => None,
    }
}

} // verus!
