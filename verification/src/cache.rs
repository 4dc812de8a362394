//! Cache-aside store: a fast store that may forget, in front of a durable
//! store that is the truth.
//!
//! A read asks the fast store first and the durable store only after a miss. A
//! write goes to the fast store, then to the durable store; only the durable
//! write decides whether the write as a whole succeeded.

use vstd::prelude::*;
use crate::errors::{ApiError, FailureKind, failure_code};
use crate::sync_task::CachePolicy;

verus! {

/// What the fast store gave for a key.
#[derive(Clone, Debug)]
pub enum CacheLookup<P> {
    /// The value kept under the key.
    Hit(P),
    /// Nothing is kept under the key, or what was kept has expired.
    Miss,
    /// Something is kept under the key that cannot be read as a value.
    Unreadable,
    /// The fast store could not be asked.
    Failed,
}

/// What the durable store gave.
#[derive(Clone, Debug)]
pub enum DurableRead<R> {
    Found(R),
    Empty,
    /// The durable store could not be asked; the text says why.
    Failed(String),
}

/// What a read does once the fast store has answered.
#[derive(Clone, Debug)]
pub enum GetStep<P> {
    /// Hand the value back. The durable store is not asked.
    Serve(P),
    /// Ask the durable store. `report` says whether the fast store's answer
    /// is worth a line in the log.
    AskDurable { report: bool },
}

/// One write of a `set`.
#[derive(Clone, Debug)]
pub enum SetAction {
    /// Put the value into the fast store, to expire after `ttl_secs` seconds.
    WriteFast { key: String, ttl_secs: u64 },
    /// Put the value into the durable store.
    WriteDurable,
}

/// What a `set` that succeeded has done.
#[derive(Clone, Copy, Debug, PartialEq, Eq, Structural)]
pub struct Stored {
    /// Row identifier that the durable store gave.
    pub id: i64,
    /// Whether the fast store holds the value too.
    pub cached: bool,
}

/// The writes of a `set` as plain values: the key and expiry of a write to
/// the fast store, `None` for the write to the durable store.
pub open spec fn set_action_view(action: SetAction) -> Option<(Seq<char>, u64)> {
    match action {
        SetAction::WriteFast { key, ttl_secs } => Some((key@, ttl_secs)),
        SetAction::WriteDurable => None,
    }
}

/// The writes of a `set` under a cache policy, in order: the fast store
/// first, where the policy names one, then the durable store.
pub open spec fn set_plan(cache: Option<CachePolicy>) -> Seq<Option<(Seq<char>, u64)>> {
    match cache {
        Some(policy) => seq![Some((policy.key@, policy.ttl_secs)), None],
        None => seq![None],
    }
}

pub struct CacheAside;

impl CacheAside {
    /// What a read does with the fast store's answer: a hit is served as it is,
    /// anything else sends the read on to the durable store.
    pub fn after_fast_read<P>(lookup: CacheLookup<P>) -> (step: GetStep<P>)
        ensures
            match lookup {
                CacheLookup::Hit(value) => step == GetStep::Serve(value),
                CacheLookup::Miss => step == (GetStep::<P>::AskDurable { report: false }),
                CacheLookup::Unreadable => step == (GetStep::<P>::AskDurable { report: true }),
                CacheLookup::Failed => step == (GetStep::<P>::AskDurable { report: true }),
            },
    {
        match lookup {
            CacheLookup::Hit(value) => GetStep::Serve(value),
            CacheLookup::Miss => GetStep::AskDurable { report: false },
            CacheLookup::Unreadable => GetStep::AskDurable { report: true },
            CacheLookup::Failed => GetStep::AskDurable { report: true },
        }
    }

    /// What a read that went on to the durable store returns: what the durable
    /// store holds, or a database error where it could not be asked.
    pub fn after_durable_read<R>(read: DurableRead<R>) -> (r: Result<Option<R>, ApiError>)
        ensures
            match read {
                DurableRead::Found(row) => r == Ok::<Option<R>, ApiError>(Some(row)),
                DurableRead::Empty => r == Ok::<Option<R>, ApiError>(None),
                DurableRead::Failed(detail) => r matches Err(e) && e.says(
                    failure_code(FailureKind::Database),
                    detail@,
                ),
            },
    {
        match read {
            DurableRead::Found(row) => Ok(Some(row)),
            DurableRead::Empty => Ok(None),
            DurableRead::Failed(detail) => Err(
                ApiError::from_failure(FailureKind::Database, detail.as_str()),
            ),
        }
    }

    /// The writes of a `set`, in order: the fast store first, where a cache
    /// policy is given, then the durable store.
    pub fn set_steps(cache: &Option<CachePolicy>) -> (steps: Vec<SetAction>)
        ensures
            steps@.len() == set_plan(*cache).len(),
            forall|i: int|
                0 <= i < steps@.len() ==> set_action_view(#[trigger] steps@[i]) == set_plan(
                    *cache,
                )[i],
    {
        let mut steps: Vec<SetAction> = Vec::new();
        match cache {
            Some(policy) => {
                steps.push(SetAction::WriteFast { key: policy.key.clone(), ttl_secs: policy.ttl_secs });
            },
            None => {},
        }
        steps.push(SetAction::WriteDurable);
        steps
    }

    /// How a `set` ends. `fast` says whether the write to the fast store went
    /// through, `None` where there was none to make; `durable` is the row
    /// identifier or why the durable write failed. The durable write alone
    /// decides: a failed write to the fast store only leaves the value
    /// uncached.
    pub fn set_outcome(fast: Option<bool>, durable: Result<i64, String>) -> (r: Result<
        Stored,
        ApiError,
    >)
        ensures
            match durable {
                Ok(id) => r == Ok::<Stored, ApiError>(Stored { id, cached: fast == Some(true) }),
                Err(detail) => r matches Err(e) && e.says(
                    failure_code(FailureKind::Database),
                    detail@,
                ),
            },
    {
        match durable {
            Ok(id) => {
                let cached = match fast {
                    Some(ok) => ok,
                    None => false,
                };
                Ok(Stored { id, cached })
            },
            Err(detail) => Err(ApiError::from_failure(FailureKind::Database, detail.as_str())),
        }
    }
}

} // verus!
