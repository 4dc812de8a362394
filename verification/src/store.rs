//! One store of a payload, write by write: the fast store first, where the
//! plan names one, then the durable store, whose write alone decides how the
//! store ends.
//!
//! The run asks for one write at a time. Whoever drives it makes the write and
//! reports how it went; the run answers with the next write or with the end.

use vstd::prelude::*;
use crate::cache::{CacheAside, Stored};
use crate::errors::{ApiError, DATABASE_ERROR, INTERNAL_ERROR, is_trace_id};
use crate::json::json_text;
use crate::scheduler::{name_of, source_name};
use crate::services::{FetchStorePlan, cache_text, policy_view, serialize_failure_text};
use crate::sync_task::{CachePolicy, PersistTarget, SourceKind};

verus! {

/// What a store has done.
#[derive(Debug)]
pub enum StoreReport {
    /// One row was written.
    Row(Stored),
    /// `count` entries of the catalog were written.
    Catalog { count: usize },
}

/// Where a store stands.
#[derive(Clone, Copy, Debug, PartialEq, Eq, Structural)]
pub enum StoreStage {
    /// Nothing was asked for yet.
    Start,
    /// The write to the fast store was asked for.
    FastPending,
    /// The write to the durable store was asked for.
    DurablePending,
    /// The store has ended.
    Finished,
}

/// What the run asks the driver to do next.
#[derive(Debug)]
pub enum StoreAction {
    /// Put `text` into the fast store under `key`, to expire after `ttl_secs`
    /// seconds.
    WriteFast { key: String, text: String, ttl_secs: u64 },
    /// Add one row for the payload to the log that the plan names.
    WriteRow,
    /// Write the entries of the payload to the catalog by upsert.
    SyncCatalog,
    /// The store has ended, with this result.
    Finish(Result<StoreReport, ApiError>),
}

/// A report came that the run was not waiting for. The run is unchanged.
#[derive(Clone, Copy, Debug, PartialEq, Eq, Structural)]
pub struct OutOfOrder {
    pub stage: StoreStage,
}

/// One store of a payload.
pub struct StoreRun {
    kind: SourceKind,
    cache: Option<CachePolicy>,
    target: PersistTarget,
    stage: StoreStage,
    cached: Option<bool>,
}

/// What a [`StoreRun`] is made of.
pub struct StoreRunView {
    pub kind: SourceKind,
    /// Key and expiry for the fast store; `None` for a payload that goes to
    /// the durable store only.
    pub cache: Option<(Seq<char>, u64)>,
    pub target: PersistTarget,
    pub stage: StoreStage,
    /// How the write to the fast store went, once it was made.
    pub cached: Option<bool>,
}

impl View for StoreRun {
    type V = StoreRunView;

    closed spec fn view(&self) -> StoreRunView {
        StoreRunView {
            kind: self.kind,
            cache: policy_view(self.cache),
            target: self.target,
            stage: self.stage,
            cached: self.cached,
        }
    }
}

/// The write to the durable store of a payload with the target `target`.
pub open spec fn durable_action(target: PersistTarget) -> StoreAction {
    match target {
        PersistTarget::OsdrCatalog => StoreAction::SyncCatalog,
        _ => StoreAction::WriteRow,
    }
}

/// Whether `action` is the write of `text` to the fast store under `key`, to
/// expire after `ttl_secs` seconds.
pub open spec fn is_fast_write(action: StoreAction, key: Seq<char>, text: Seq<char>, ttl_secs: u64) -> bool {
    action matches StoreAction::WriteFast { key: k, text: t, ttl_secs: s } && k@ == key && t@
        == text && s == ttl_secs
}

/// Whether `action` ends the store because the payload of `kind` cannot be
/// written out as text.
pub open spec fn ends_unwritable(action: StoreAction, kind: SourceKind) -> bool {
    action matches StoreAction::Finish(Err(e)) && e.code@ == INTERNAL_ERROR@ && is_trace_id(
        e.trace_id@,
    ) && exists|detail: Seq<char>|
        e.message@ == #[trigger] serialize_failure_text(name_of(kind), detail)
}

/// Whether `action` ends the store as the write of one row ended: with the
/// row's identifier, or with a database error that tells why the write
/// failed. `cached` says how the write to the fast store went, if there was
/// one; it does not decide.
pub open spec fn ends_row(action: StoreAction, cached: Option<bool>, written: Result<i64, String>) -> bool {
    match written {
        Ok(id) => action == StoreAction::Finish(
            Ok(StoreReport::Row(Stored { id, cached: cached == Some(true) })),
        ),
        Err(detail) => action matches StoreAction::Finish(Err(e)) && e.says(
            DATABASE_ERROR@,
            detail@,
        ),
    }
}

impl StoreRun {
    /// The store that `plan` asks for, before its first write.
    pub fn new(plan: &FetchStorePlan) -> (run: StoreRun)
        ensures
            run@ == (StoreRunView {
                kind: plan.kind,
                cache: policy_view(plan.cache),
                target: plan.target,
                stage: StoreStage::Start,
                cached: None,
            }),
    {
        let cache = match &plan.cache {
            Some(policy) => Some(CachePolicy { key: policy.key.clone(), ttl_secs: policy.ttl_secs }),
            None => None,
        };
        StoreRun {
            kind: plan.kind,
            cache,
            target: plan.target,
            stage: StoreStage::Start,
            cached: None,
        }
    }

    /// Where the store stands.
    pub fn stage(&self) -> (stage: StoreStage)
        ensures
            stage == self@.stage,
    {
        self.stage
    }

    /// Starts the store of `payload`. With a cache policy the first write is
    /// to the fast store, of the payload written out as compact JSON; a
    /// payload that cannot be written out ends the store at once, before any
    /// write. Without a cache policy the first write is to the durable store.
    pub fn begin(&mut self, payload: &serde_json::Value) -> (r: Result<StoreAction, OutOfOrder>)
        ensures
            old(self)@.stage != StoreStage::Start ==> {
                &&& r == Err::<StoreAction, OutOfOrder>(OutOfOrder { stage: old(self)@.stage })
                &&& final(self)@ == old(self)@
            },
            old(self)@.stage == StoreStage::Start ==> (r matches Ok(action) && match old(
                self,
            )@.cache {
                Some((key, ttl_secs)) => match json_text(*payload) {
                    Some(text) => {
                        &&& is_fast_write(action, key, text, ttl_secs)
                        &&& final(self)@ == (StoreRunView {
                            stage: StoreStage::FastPending,
                            ..old(self)@
                        })
                    },
                    None => {
                        &&& ends_unwritable(action, old(self)@.kind)
                        &&& final(self)@ == (StoreRunView {
                            stage: StoreStage::Finished,
                            ..old(self)@
                        })
                    },
                },
                None => {
                    &&& action == durable_action(old(self)@.target)
                    &&& final(self)@ == (StoreRunView {
                        stage: StoreStage::DurablePending,
                        ..old(self)@
                    })
                },
            }),
    {
        match self.stage {
            StoreStage::Start => {},
            stage => {
                return Err(OutOfOrder { stage });
            },
        }
        let first = match &self.cache {
            Some(policy) => Some((policy.key.clone(), policy.ttl_secs)),
            None => None,
        };
        match first {
            Some((key, ttl_secs)) => match cache_text(payload, source_name(self.kind)) {
                Ok(text) => {
                    self.stage = StoreStage::FastPending;
                    Ok(StoreAction::WriteFast { key, text, ttl_secs })
                },
                Err(e) => {
                    self.stage = StoreStage::Finished;
                    Ok(StoreAction::Finish(Err(e)))
                },
            },
            None => {
                self.stage = StoreStage::DurablePending;
                Ok(self.durable())
            },
        }
    }

    fn durable(&self) -> (action: StoreAction)
        ensures
            action == durable_action(self@.target),
    {
        match self.target {
            PersistTarget::OsdrCatalog => StoreAction::SyncCatalog,
            _ => StoreAction::WriteRow,
        }
    }

    /// Takes how the write to the fast store went. Whether it went through
    /// or not, the write to the durable store follows: a fast store that
    /// fails only leaves the payload uncached.
    pub fn fast_written(&mut self, ok: bool) -> (r: Result<StoreAction, OutOfOrder>)
        ensures
            old(self)@.stage != StoreStage::FastPending ==> {
                &&& r == Err::<StoreAction, OutOfOrder>(OutOfOrder { stage: old(self)@.stage })
                &&& final(self)@ == old(self)@
            },
            old(self)@.stage == StoreStage::FastPending ==> {
                &&& r == Ok::<StoreAction, OutOfOrder>(durable_action(old(self)@.target))
                &&& final(self)@ == (StoreRunView {
                    stage: StoreStage::DurablePending,
                    cached: Some(ok),
                    ..old(self)@
                })
            },
    {
        match self.stage {
            StoreStage::FastPending => {
                self.cached = Some(ok);
                self.stage = StoreStage::DurablePending;
                Ok(self.durable())
            },
            stage => Err(OutOfOrder { stage }),
        }
    }

    /// Whether the run waits for the write of one row.
    pub open spec fn awaits_row(v: StoreRunView) -> bool {
        v.stage == StoreStage::DurablePending && v.target != PersistTarget::OsdrCatalog
    }

    /// Whether the run waits for the sync of the catalog.
    pub open spec fn awaits_catalog(v: StoreRunView) -> bool {
        v.stage == StoreStage::DurablePending && v.target == PersistTarget::OsdrCatalog
    }

    /// Takes how the write of the row went and ends the store: it succeeds
    /// when this write went through, and fails with a database error when it
    /// did not.
    pub fn row_written(&mut self, written: Result<i64, String>) -> (r: Result<
        StoreAction,
        OutOfOrder,
    >)
        ensures
            !Self::awaits_row(old(self)@) ==> {
                &&& r == Err::<StoreAction, OutOfOrder>(OutOfOrder { stage: old(self)@.stage })
                &&& final(self)@ == old(self)@
            },
            Self::awaits_row(old(self)@) ==> {
                &&& (r matches Ok(action) && ends_row(action, old(self)@.cached, written))
                &&& final(self)@ == (StoreRunView {
                    stage: StoreStage::Finished,
                    ..old(self)@
                })
            },
    {
        let waiting = match (self.stage, self.target) {
            (StoreStage::DurablePending, PersistTarget::OsdrCatalog) => false,
            (StoreStage::DurablePending, _) => true,
            _ => false,
        };
        if !waiting {
            return Err(OutOfOrder { stage: self.stage });
        }
        self.stage = StoreStage::Finished;
        match CacheAside::set_outcome(self.cached, written) {
            Ok(stored) => Ok(StoreAction::Finish(Ok(StoreReport::Row(stored)))),
            Err(e) => Ok(StoreAction::Finish(Err(e))),
        }
    }

    /// Takes how the sync of the catalog went and ends the store with it: with
    /// the number of entries written, or with the error that ended the sync.
    pub fn catalog_synced(&mut self, synced: Result<usize, ApiError>) -> (r: Result<
        StoreAction,
        OutOfOrder,
    >)
        ensures
            !Self::awaits_catalog(old(self)@) ==> {
                &&& r == Err::<StoreAction, OutOfOrder>(OutOfOrder { stage: old(self)@.stage })
                &&& final(self)@ == old(self)@
            },
            Self::awaits_catalog(old(self)@) ==> {
                &&& r == Ok::<StoreAction, OutOfOrder>(
                    StoreAction::Finish(
                        match synced {
                            Ok(count) => Ok(StoreReport::Catalog { count }),
                            Err(e) => Err(e),
                        },
                    ),
                )
                &&& final(self)@ == (StoreRunView {
                    stage: StoreStage::Finished,
                    ..old(self)@
                })
            },
    {
        let waiting = match (self.stage, self.target) {
            (StoreStage::DurablePending, PersistTarget::OsdrCatalog) => true,
            _ => false,
        };
        if !waiting {
            return Err(OutOfOrder { stage: self.stage });
        }
        self.stage = StoreStage::Finished;
        match synced {
            Ok(count) => Ok(StoreAction::Finish(Ok(StoreReport::Catalog { count }))),
            Err(e) => Ok(StoreAction::Finish(Err(e))),
        }
    }
}

} // verus!
