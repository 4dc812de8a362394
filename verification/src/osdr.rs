//! The dataset catalog: reading its entries out of the upstream's answer, and
//! writing them by upsert.

use vstd::prelude::*;
use crate::dates::{parse_rfc3339, rfc3339_instant};
use crate::domain::{OsdrInsert, instant_of, text_of};
use crate::errors::{ApiError, DATABASE_ERROR, EXTERNAL_API_ERROR};
use crate::json::{JsonField, array_field, array_items, field_of, text_field};

verus! {

pub const MISSING_ITEMS: &'static str = "OSDR response missing 'items' array";

pub const MISSING_DATASET_ID: &'static str = "OSDR item missing dataset_id";

/// Number of upserts at the start of a sync whose row identifiers are worth a
/// line in the log.
pub const LOGGED_UPSERTS: usize = 5;

/// The member under `first` where the document has one, else the member under
/// `second`.
pub open spec fn either_field(item: serde_json::Value, first: Seq<char>, second: Seq<char>) -> Option<
    Option<Seq<char>>,
> {
    if field_of(item, first) is Some {
        field_of(item, first)
    } else {
        field_of(item, second)
    }
}

/// The text of a member, where the member is there and is a string.
pub open spec fn text_in(field: Option<Option<Seq<char>>>) -> Option<Seq<char>> {
    match field {
        Some(Some(text)) => Some(text),
        _ => None,
    }
}

/// The dataset identifier of an entry: the member `dataset_id`, or `accession`
/// where there is no `dataset_id`. A member that is no string gives none.
pub open spec fn dataset_id_of(item: serde_json::Value) -> Option<Seq<char>> {
    text_in(either_field(item, "dataset_id"@, "accession"@))
}

/// The instant of the last update of an entry: the member `updated_at`, or
/// `release_date` where there is no `updated_at`, read as RFC 3339.
pub open spec fn updated_at_of(item: serde_json::Value) -> Option<(int, int)> {
    match text_in(either_field(item, "updated_at"@, "release_date"@)) {
        Some(text) => rfc3339_instant(text),
        None => None,
    }
}

/// Whether `insert` is what the entry `item` says.
pub open spec fn parses_to(item: serde_json::Value, insert: OsdrInsert) -> bool {
    &&& Some(insert.dataset_id@) == dataset_id_of(item)
    &&& text_of(insert.title) == text_in(field_of(item, "title"@))
    &&& text_of(insert.status) == text_in(field_of(item, "status"@))
    &&& instant_of(insert.updated_at) == updated_at_of(item)
    &&& insert.raw == item
}

fn either_text(item: &serde_json::Value, first: &str, second: &str) -> (r: Option<String>)
    ensures
        text_of(r) == text_in(either_field(*item, first@, second@)),
{
    let field = match text_field(item, first) {
        JsonField::Absent => text_field(item, second),
        other => other,
    };
    match field {
        JsonField::Text(text) => Some(text),
        _ => None,
    }
}

fn plain_text(item: &serde_json::Value, key: &str) -> (r: Option<String>)
    ensures
        text_of(r) == text_in(field_of(*item, key@)),
{
    match text_field(item, key) {
        JsonField::Text(text) => Some(text),
        _ => None,
    }
}

/// Reads one entry of the upstream's answer. An entry without a dataset
/// identifier is refused.
pub fn parse_osdr_item(item: &serde_json::Value) -> (r: Result<OsdrInsert, ApiError>)
    ensures
        match r {
            Ok(insert) => parses_to(*item, insert),
            Err(e) => dataset_id_of(*item) is None && e.says(
                EXTERNAL_API_ERROR@,
                MISSING_DATASET_ID@,
            ),
        },
{
    let dataset_id = match either_text(item, "dataset_id", "accession") {
        Some(text) => text,
        None => {
            return Err(ApiError::external_api(MISSING_DATASET_ID));
        },
    };
    let title = plain_text(item, "title");
    let status = plain_text(item, "status");
    let updated_at = match either_text(item, "updated_at", "release_date") {
        Some(text) => parse_rfc3339(text.as_str()),
        None => None,
    };
    Ok(OsdrInsert { dataset_id, title, status, updated_at, raw: item.clone() })
}

/// The entries of the upstream's answer: the elements of its member `items`,
/// in their order. An answer without such an array is refused.
pub fn osdr_items(response: &serde_json::Value) -> (r: Result<Vec<serde_json::Value>, ApiError>)
    ensures
        match r {
            Ok(items) => array_items(*response, "items"@) == Some(items@),
            Err(e) => array_items(*response, "items"@) is None && e.says(
                EXTERNAL_API_ERROR@,
                MISSING_ITEMS@,
            ),
        },
{
    match array_field(response, "items") {
        Some(items) => Ok(items),
        None => Err(ApiError::external_api(MISSING_ITEMS)),
    }
}

/// Why a sync of the catalog ended before its last entry.
#[derive(Debug)]
pub enum OsdrFailure {
    /// An entry has no dataset identifier.
    MalformedEntry,
    /// An entry could not be written; the text says why.
    WriteFailed(String),
}

/// Whether `e` is the error that tells of `failure`: an error of the
/// upstream's answer for a malformed entry, a database error for a write that
/// failed.
pub open spec fn tells_failure(e: ApiError, failure: OsdrFailure) -> bool {
    match failure {
        OsdrFailure::MalformedEntry => e.says(EXTERNAL_API_ERROR@, MISSING_DATASET_ID@),
        OsdrFailure::WriteFailed(detail) => e.says(DATABASE_ERROR@, detail@),
    }
}

/// What a sync of the catalog does next.
#[derive(Debug)]
pub enum OsdrStep {
    /// Write this entry by upsert, then report with [`OsdrSync::record`].
    Upsert(OsdrInsert),
    /// The sync has failed, on a malformed entry or on a write: it ends with
    /// this error. What was written before stays written.
    Abort(ApiError),
    /// Every entry was gone through and none failed; `count` were recorded as
    /// written.
    Finished { count: usize },
}

/// A sync of the catalog against one answer of the upstream, entry by entry.
pub struct OsdrSync {
    items: Vec<serde_json::Value>,
    next: usize,
    count: usize,
    awaiting: bool,
    failure: Option<OsdrFailure>,
}

/// What an [`OsdrSync`] is made of.
pub struct OsdrSyncView {
    /// The entries of the answer.
    pub items: Seq<serde_json::Value>,
    /// How many of them were taken up.
    pub next: nat,
    /// How many were written.
    pub count: nat,
    /// Whether the outcome of an upsert is still to be recorded.
    pub awaiting: bool,
    /// Why the sync has failed, once it has.
    pub failure: Option<OsdrFailure>,
}

impl View for OsdrSync {
    type V = OsdrSyncView;

    closed spec fn view(&self) -> OsdrSyncView {
        OsdrSyncView {
            items: self.items@,
            next: self.next as nat,
            count: self.count as nat,
            awaiting: self.awaiting,
            failure: self.failure,
        }
    }
}

impl OsdrSync {
    #[verifier::type_invariant]
    spec fn inv(self) -> bool {
        Self::wf(self@)
    }

    /// What holds of every sync: no more entries are written than were taken
    /// up, and an outcome is awaited only for an entry that was not counted,
    /// and only while the sync has not failed.
    pub open spec fn wf(v: OsdrSyncView) -> bool {
        &&& v.next <= v.items.len()
        &&& v.count <= v.next
        &&& v.awaiting ==> v.count < v.next && v.failure is None
    }

    /// A sync of the entries `items`.
    pub fn new(items: Vec<serde_json::Value>) -> (s: OsdrSync)
        ensures
            s@ == (OsdrSyncView {
                items: items@,
                next: 0,
                count: 0,
                awaiting: false,
                failure: None,
            }),
    {
        OsdrSync { items, next: 0, count: 0, awaiting: false, failure: None }
    }

    /// Number of entries written so far.
    pub fn count(&self) -> (n: usize)
        ensures
            n == self@.count,
            Self::wf(self@),
    {
        proof {
            use_type_invariant(self);
        }
        self.count
    }

    /// Whether the sync has failed.
    pub fn has_failed(&self) -> (failed: bool)
        ensures
            failed == self@.failure is Some,
    {
        self.failure.is_some()
    }

    /// Takes up the entry in turn. A sync that has failed stays failed: it
    /// answers with the error of its failure from then on and never finishes.
    /// A malformed entry fails the sync.
    pub fn next(&mut self) -> (step: OsdrStep)
        ensures
            final(self)@.items == old(self)@.items,
            final(self)@.count == old(self)@.count,
            old(self)@.failure matches Some(failure) ==> {
                &&& step matches OsdrStep::Abort(e) && tells_failure(e, failure)
                &&& final(self)@ == old(self)@
            },
            old(self)@.failure is None && old(self)@.next >= old(self)@.items.len() ==> {
                &&& step == (OsdrStep::Finished { count: old(self)@.count as usize })
                &&& final(self)@ == (OsdrSyncView { awaiting: false, ..old(self)@ })
            },
            old(self)@.failure is None && old(self)@.next < old(self)@.items.len() ==> {
                let item = old(self)@.items[old(self)@.next as int];
                &&& final(self)@.next == old(self)@.next + 1
                &&& match step {
                    OsdrStep::Upsert(insert) => {
                        &&& parses_to(item, insert)
                        &&& final(self)@.awaiting
                        &&& final(self)@.failure is None
                    },
                    OsdrStep::Abort(e) => {
                        &&& dataset_id_of(item) is None
                        &&& tells_failure(e, OsdrFailure::MalformedEntry)
                        &&& !final(self)@.awaiting
                        &&& final(self)@.failure == Some(OsdrFailure::MalformedEntry)
                    },
                    OsdrStep::Finished { .. } => false,
                }
            },
    {
        proof {
            use_type_invariant(&*self);
        }
        match &self.failure {
            Some(OsdrFailure::MalformedEntry) => {
                return OsdrStep::Abort(ApiError::external_api(MISSING_DATASET_ID));
            },
            Some(OsdrFailure::WriteFailed(detail)) => {
                return OsdrStep::Abort(ApiError::database(detail.as_str()));
            },
            None => {},
        }
        if self.next >= self.items.len() {
            self.awaiting = false;
            return OsdrStep::Finished { count: self.count };
        }
        match parse_osdr_item(&self.items[self.next]) {
            Ok(insert) => {
                self.next = self.next + 1;
                self.awaiting = true;
                OsdrStep::Upsert(insert)
            },
            Err(e) => {
                self.awaiting = false;
                self.next = self.next + 1;
                self.failure = Some(OsdrFailure::MalformedEntry);
                OsdrStep::Abort(e)
            },
        }
    }

    /// Records how the upsert of the entry last taken up went. One that went
    /// through is counted. One that failed fails the sync, with the reason
    /// given: the entries behind it are not taken up. Returns whether the row
    /// identifier is worth a line in the log. Without an entry whose outcome
    /// is awaited, nothing changes.
    pub fn record(&mut self, outcome: Result<(), String>) -> (log: bool)
        ensures
            !old(self)@.awaiting ==> final(self)@ == old(self)@ && !log,
            old(self)@.awaiting ==> match outcome {
                Ok(_) => {
                    &&& final(self)@ == (OsdrSyncView {
                        count: old(self)@.count + 1,
                        awaiting: false,
                        ..old(self)@
                    })
                    &&& log == (old(self)@.count < LOGGED_UPSERTS)
                },
                Err(detail) => {
                    &&& final(self)@ == (OsdrSyncView {
                        awaiting: false,
                        failure: Some(OsdrFailure::WriteFailed(detail)),
                        ..old(self)@
                    })
                    &&& !log
                },
            },
    {
        proof {
            use_type_invariant(&*self);
        }
        if !self.awaiting {
            return false;
        }
        assert(self.count < self.next);
        self.awaiting = false;
        match outcome {
            Ok(_) => {
                self.count = self.count + 1;
                self.count <= LOGGED_UPSERTS
            },
            Err(detail) => {
                self.failure = Some(OsdrFailure::WriteFailed(detail));
                false
            },
        }
    }
}

} // verus!
