//! The two stores as values in memory, and the cache-aside store over them.
//!
//! Either store can be switched off, to see what the cache-aside store does
//! when one of them fails.

use vstd::prelude::*;
use crate::cache::{CacheAside, CacheLookup, DurableRead, GetStep, Stored};
use crate::dates::Timestamp;
use crate::errors::{ApiError, DATABASE_ERROR};

verus! {

pub const FAST_STORE_DOWN: &'static str = "fast store is not available";

pub const DURABLE_STORE_DOWN: &'static str = "durable store is not available";

pub const DURABLE_STORE_FULL: &'static str = "durable store has no row identifier left";

/// A payload as the stores keep it: whose it is, the payload as text, and when
/// it was fetched.
#[derive(Debug)]
pub struct CacheEntry {
    pub source: String,
    pub payload: String,
    pub fetched_at: Timestamp,
}

/// What a fetch that succeeded hands on: the payload, as text, and when it
/// was retrieved.
#[derive(Debug)]
pub struct FetchResult {
    pub payload: String,
    pub fetched_at: Timestamp,
}

impl CacheEntry {
    /// The entry that keeps what was fetched for `source`.
    pub fn from_fetch(source: &str, result: FetchResult) -> (entry: CacheEntry)
        ensures
            entry.source@ == source@,
            entry.payload == result.payload,
            entry.fetched_at == result.fetched_at,
    {
        CacheEntry {
            source: source.to_owned(),
            payload: result.payload,
            fetched_at: result.fetched_at,
        }
    }
}

/// An entry of the fast store, with the second at which it expires.
#[derive(Debug)]
pub struct FastSlot {
    pub entry: CacheEntry,
    pub expires_at: u64,
}

/// A row of the durable store.
#[derive(Debug)]
pub struct LogRow {
    pub id: i64,
    pub entry: CacheEntry,
}

/// A store did not answer.
#[derive(Clone, Copy, Debug, PartialEq, Eq, Structural)]
pub struct StoreDown;

/// Whether slot `i` is the one of `source`.
pub open spec fn slot_at(slots: Seq<FastSlot>, source: Seq<char>, i: int) -> bool {
    0 <= i < slots.len() && slots[i].entry.source@ == source
}

/// Whether `source` has a slot.
pub open spec fn has_slot(slots: Seq<FastSlot>, source: Seq<char>) -> bool {
    exists|i: int| slot_at(slots, source, i)
}

/// No source has two slots.
pub open spec fn distinct_slots(slots: Seq<FastSlot>) -> bool {
    forall|i: int, j: int|
        0 <= i < slots.len() && 0 <= j < slots.len() && i != j ==> slots[i].entry.source@
            != slots[j].entry.source@
}

/// What the fast store holds for `source` at second `now`: the entry of its
/// slot, unless the slot has expired.
pub open spec fn live_entry(slots: Seq<FastSlot>, source: Seq<char>, now: u64) -> Option<CacheEntry> {
    if has_slot(slots, source) {
        let slot = slots[choose|i: int| slot_at(slots, source, i)];
        if now < slot.expires_at {
            Some(slot.entry)
        } else {
            None
        }
    } else {
        None
    }
}

/// The second at which an entry written at `now` for `ttl_secs` seconds
/// expires: the sum, as far as the clock goes.
pub open spec fn expiry(now: u64, ttl_secs: u64) -> u64 {
    if now + ttl_secs <= u64::MAX {
        (now + ttl_secs) as u64
    } else {
        u64::MAX
    }
}

/// The slots after `slot` was written: in the place of the slot of its source
/// where there is one, else behind the others.
pub open spec fn put_slot(slots: Seq<FastSlot>, slot: FastSlot) -> Seq<FastSlot> {
    if has_slot(slots, slot.entry.source@) {
        slots.update(choose|i: int| slot_at(slots, slot.entry.source@, i), slot)
    } else {
        slots.push(slot)
    }
}

/// The last row of `source`, if it has one.
pub open spec fn latest_of(rows: Seq<LogRow>, source: Seq<char>) -> Option<LogRow>
    decreases rows.len(),
{
    if rows.len() == 0 {
        None
    } else if rows.last().entry.source@ == source {
        Some(rows.last())
    } else {
        latest_of(rows.drop_last(), source)
    }
}

/// The entry of a row, if there is a row.
pub open spec fn entry_of(row: Option<LogRow>) -> Option<CacheEntry> {
    match row {
        Some(row) => Some(row.entry),
        None => None,
    }
}

fn copy_entry(entry: &CacheEntry) -> (r: CacheEntry)
    ensures
        r == *entry,
{
    CacheEntry {
        source: entry.source.clone(),
        payload: entry.payload.clone(),
        fetched_at: entry.fetched_at,
    }
}

/// The fast store: one entry per source, each with a time to live.
pub struct FastStore {
    slots: Vec<FastSlot>,
    available: bool,
}

/// What a [`FastStore`] is made of.
pub struct FastStoreView {
    pub slots: Seq<FastSlot>,
    pub available: bool,
}

impl View for FastStore {
    type V = FastStoreView;

    closed spec fn view(&self) -> FastStoreView {
        FastStoreView { slots: self.slots@, available: self.available }
    }
}

proof fn lemma_slot_position(slots: Seq<FastSlot>, source: Seq<char>, i: int)
    requires
        distinct_slots(slots),
        slot_at(slots, source, i),
    ensures
        has_slot(slots, source),
        (choose|j: int| slot_at(slots, source, j)) == i,
{
    let j = choose|j: int| slot_at(slots, source, j);
    assert(slot_at(slots, source, j));
}

proof fn lemma_put_keeps_slots_distinct(slots: Seq<FastSlot>, slot: FastSlot)
    requires
        distinct_slots(slots),
    ensures
        distinct_slots(put_slot(slots, slot)),
{
    let source = slot.entry.source@;
    let after = put_slot(slots, slot);
    if has_slot(slots, source) {
        let i = choose|i: int| slot_at(slots, source, i);
        assert forall|a: int, b: int|
            0 <= a < after.len() && 0 <= b < after.len() && a != b implies after[a].entry.source@
            != after[b].entry.source@ by {
            assert(after[a].entry.source@ == slots[a].entry.source@);
            assert(after[b].entry.source@ == slots[b].entry.source@);
        }
    } else {
        assert forall|a: int, b: int|
            0 <= a < after.len() && 0 <= b < after.len() && a != b implies after[a].entry.source@
            != after[b].entry.source@ by {
            if a < slots.len() {
                assert(!slot_at(slots, source, a));
            }
            if b < slots.len() {
                assert(!slot_at(slots, source, b));
            }
        }
    }
}

impl FastStore {
    #[verifier::type_invariant]
    spec fn inv(self) -> bool {
        distinct_slots(self.slots@)
    }

    /// An empty store that answers.
    pub fn new() -> (s: FastStore)
        ensures
            s@ == (FastStoreView { slots: Seq::empty(), available: true }),
    {
        FastStore { slots: Vec::new(), available: true }
    }

    /// Switches the store on or off. What it holds stays.
    pub fn set_available(&mut self, available: bool)
        ensures
            final(self)@ == (FastStoreView { available, ..old(self)@ }),
    {
        proof {
            use_type_invariant(&*self);
        }
        self.available = available;
    }

    fn find(&self, source: &String) -> (r: Option<usize>)
        ensures
            match r {
                Some(i) => slot_at(self.slots@, source@, i as int),
                None => !has_slot(self.slots@, source@),
            },
    {
        let n: usize = self.slots.len();
        let mut i: usize = 0;
        while i < n
            invariant
                n == self.slots@.len(),
                i <= n,
                forall|k: int| 0 <= k < i ==> !slot_at(self.slots@, source@, k),
            decreases n - i,
        {
            if self.slots[i].entry.source == *source {
                return Some(i);
            }
            i += 1;
        }
        None
    }

    /// The entry of `source` that has not expired at second `now`.
    pub fn get(&self, source: &String, now: u64) -> (r: Result<Option<CacheEntry>, StoreDown>)
        ensures
            distinct_slots(self@.slots),
            r == (if self@.available {
                Ok::<Option<CacheEntry>, StoreDown>(live_entry(self@.slots, source@, now))
            } else {
                Err::<Option<CacheEntry>, StoreDown>(StoreDown)
            }),
    {
        proof {
            use_type_invariant(self);
        }
        if !self.available {
            return Err(StoreDown);
        }
        match self.find(source) {
            Some(i) => {
                proof {
                    lemma_slot_position(self.slots@, source@, i as int);
                }
                if now < self.slots[i].expires_at {
                    Ok(Some(copy_entry(&self.slots[i].entry)))
                } else {
                    Ok(None)
                }
            },
            None => Ok(None),
        }
    }

    /// Keeps `entry` for `ttl_secs` seconds from second `now` on, in the place
    /// of what was kept for its source. A store that is switched off keeps
    /// nothing.
    pub fn set_ex(&mut self, entry: CacheEntry, ttl_secs: u64, now: u64) -> (r: Result<
        (),
        StoreDown,
    >)
        ensures
            old(self)@.available ==> r is Ok && final(self)@ == (FastStoreView {
                slots: put_slot(
                    old(self)@.slots,
                    FastSlot { entry, expires_at: expiry(now, ttl_secs) },
                ),
                available: true,
            }),
            !old(self)@.available ==> r is Err && final(self)@ == old(self)@,
    {
        proof {
            use_type_invariant(&*self);
        }
        if !self.available {
            return Err(StoreDown);
        }
        let expires_at: u64 = if ttl_secs <= u64::MAX - now {
            now + ttl_secs
        } else {
            u64::MAX
        };
        let ghost before = self.slots@;
        let found = self.find(&entry.source);
        let slot = FastSlot { entry, expires_at };
        let mut slots: Vec<FastSlot> = Vec::new();
        core::mem::swap(&mut slots, &mut self.slots);
        proof {
            lemma_put_keeps_slots_distinct(before, slot);
        }
        match found {
            Some(i) => {
                proof {
                    lemma_slot_position(before, slot.entry.source@, i as int);
                }
                slots.set(i, slot);
            },
            None => {
                slots.push(slot);
            },
        }
        self.slots = slots;
        Ok(())
    }
}

/// The durable store: every payload that was written, in the order of
/// writing. Rows are added and never changed.
pub struct PayloadLog {
    rows: Vec<LogRow>,
    next_id: i64,
    available: bool,
}

/// What a [`PayloadLog`] is made of.
pub struct PayloadLogView {
    pub rows: Seq<LogRow>,
    /// Row identifier that the next row gets.
    pub next_id: i64,
    pub available: bool,
}

impl View for PayloadLog {
    type V = PayloadLogView;

    closed spec fn view(&self) -> PayloadLogView {
        PayloadLogView { rows: self.rows@, next_id: self.next_id, available: self.available }
    }
}

/// Row identifiers rise from row to row, start at 1 or above, and stay below
/// `next_id`: the identifier of a new row is above every identifier in use.
pub open spec fn ids_rise_below(rows: Seq<LogRow>, next_id: i64) -> bool {
    &&& forall|i: int| 0 <= i < rows.len() ==> 1 <= (#[trigger] rows[i]).id < next_id
    &&& forall|i: int, j: int| 0 <= i < j < rows.len() ==> rows[i].id < rows[j].id
}

/// Why a write to the durable store did not go through; `None` where it does.
pub open spec fn append_refusal(log: PayloadLogView) -> Option<Seq<char>> {
    if !log.available {
        Some(DURABLE_STORE_DOWN@)
    } else if log.next_id == i64::MAX {
        Some(DURABLE_STORE_FULL@)
    } else {
        None
    }
}

impl PayloadLog {
    #[verifier::type_invariant]
    spec fn inv(self) -> bool {
        Self::wf(self@)
    }

    /// What holds of every log: its row identifiers rise and are below the
    /// one that the next row gets.
    pub open spec fn wf(v: PayloadLogView) -> bool {
        1 <= v.next_id && ids_rise_below(v.rows, v.next_id)
    }

    /// An empty log that answers.
    pub fn new() -> (s: PayloadLog)
        ensures
            s@ == (PayloadLogView { rows: Seq::empty(), next_id: 1, available: true }),
    {
        PayloadLog { rows: Vec::new(), next_id: 1, available: true }
    }

    /// Switches the log on or off. What it holds stays.
    pub fn set_available(&mut self, available: bool)
        ensures
            final(self)@ == (PayloadLogView { available, ..old(self)@ }),
    {
        proof {
            use_type_invariant(&*self);
        }
        self.available = available;
    }

    /// Number of rows.
    pub fn len(&self) -> (n: usize)
        ensures
            n == self@.rows.len(),
            Self::wf(self@),
    {
        proof {
            use_type_invariant(self);
        }
        self.rows.len()
    }

    /// Adds a row for `entry` behind the others and returns its identifier,
    /// which is above the identifier of every row that was there. A log that
    /// is switched off, or has no identifier left, refuses and stays as it
    /// is.
    pub fn append(&mut self, entry: CacheEntry) -> (r: Result<i64, String>)
        ensures
            Self::wf(old(self)@),
            Self::wf(final(self)@),
            r matches Ok(id) ==> forall|i: int|
                0 <= i < old(self)@.rows.len() ==> (#[trigger] old(self)@.rows[i]).id < id,
            match append_refusal(old(self)@) {
                Some(why) => r matches Err(text) && text@ == why && final(self)@ == old(self)@,
                None => r == Ok::<i64, String>(old(self)@.next_id) && final(self)@ == (PayloadLogView {
                    rows: old(self)@.rows.push(LogRow { id: old(self)@.next_id, entry }),
                    next_id: (old(self)@.next_id + 1) as i64,
                    available: true,
                }),
            },
    {
        proof {
            use_type_invariant(&*self);
        }
        if !self.available {
            return Err(DURABLE_STORE_DOWN.to_owned());
        }
        if self.next_id == i64::MAX {
            return Err(DURABLE_STORE_FULL.to_owned());
        }
        let id: i64 = self.next_id;
        let mut rows: Vec<LogRow> = Vec::new();
        core::mem::swap(&mut rows, &mut self.rows);
        rows.push(LogRow { id, entry });
        self.next_id = id + 1;
        self.rows = rows;
        Ok(id)
    }

    /// The last row that was written for `source`.
    pub fn latest(&self, source: &String) -> (r: DurableRead<CacheEntry>)
        ensures
            match r {
                DurableRead::Found(entry) => self@.available && entry_of(
                    latest_of(self@.rows, source@),
                ) == Some(entry),
                DurableRead::Empty => self@.available && latest_of(self@.rows, source@) is None,
                DurableRead::Failed(why) => !self@.available && why@ == DURABLE_STORE_DOWN@,
            },
    {
        if !self.available {
            return DurableRead::Failed(DURABLE_STORE_DOWN.to_owned());
        }
        let mut i: usize = self.rows.len();
        assert(self.rows@.take(i as int) =~= self.rows@);
        while i > 0
            invariant
                self.available,
                i <= self.rows@.len(),
                latest_of(self.rows@, source@) == latest_of(self.rows@.take(i as int), source@),
            decreases i,
        {
            proof {
                assert(self.rows@.take(i as int).drop_last() =~= self.rows@.take(i - 1));
            }
            i -= 1;
            assert(self.rows@.take(i + 1).last() == self.rows@[i as int]);
            if self.rows[i].entry.source == *source {
                return DurableRead::Found(copy_entry(&self.rows[i].entry));
            }
        }
        DurableRead::Empty
    }
}

/// The cache-aside store over a fast store and a durable store in memory.
pub struct MemoryStore {
    pub fast: FastStore,
    pub durable: PayloadLog,
}

impl MemoryStore {
    /// Two empty stores that answer.
    pub fn new() -> (s: MemoryStore)
        ensures
            s.fast@ == (FastStoreView { slots: Seq::empty(), available: true }),
            s.durable@ == (PayloadLogView { rows: Seq::empty(), next_id: 1, available: true }),
    {
        MemoryStore { fast: FastStore::new(), durable: PayloadLog::new() }
    }

    /// What `get` gives, from what the two stores hold: the entry of the fast
    /// store where it has one that has not expired, whatever the durable store
    /// holds or does; else what the durable store holds.
    pub open spec fn get_spec(self, source: Seq<char>, now: u64) -> Option<Option<CacheEntry>> {
        if self.fast@.available && live_entry(self.fast@.slots, source, now) is Some {
            Some(live_entry(self.fast@.slots, source, now))
        } else if self.durable@.available {
            Some(entry_of(latest_of(self.durable@.rows, source)))
        } else {
            None
        }
    }

    /// Reads the latest entry of `source` at second `now`: from the fast store
    /// where it is there, without a look at the durable store, and from the
    /// durable store after a miss or a failure of the fast store. Only a
    /// failure of the durable store, after the fast store gave nothing, fails
    /// the read.
    pub fn get(&self, source: &String, now: u64) -> (r: Result<Option<CacheEntry>, ApiError>)
        ensures
            match self.get_spec(source@, now) {
                Some(found) => r == Ok::<Option<CacheEntry>, ApiError>(found),
                None => r matches Err(e) && e.says(DATABASE_ERROR@, DURABLE_STORE_DOWN@),
            },
    {
        let lookup = match self.fast.get(source, now) {
            Ok(Some(entry)) => CacheLookup::Hit(entry),
            Ok(None) => CacheLookup::Miss,
            Err(_) => CacheLookup::Failed,
        };
        match CacheAside::after_fast_read(lookup) {
            GetStep::Serve(entry) => Ok(Some(entry)),
            GetStep::AskDurable { .. } => CacheAside::after_durable_read(
                self.durable.latest(source),
            ),
        }
    }

    /// Writes `entry`: to the fast store first, to expire after `ttl_secs`
    /// seconds from second `now` on, then to the durable store. The write
    /// succeeds when the durable write does. A fast store that fails leaves
    /// the entry uncached; a durable store that fails fails the write, though
    /// the fast store may hold the entry by then.
    pub fn set(&mut self, entry: CacheEntry, ttl_secs: u64, now: u64) -> (r: Result<
        Stored,
        ApiError,
    >)
        ensures
            final(self).fast@ == (if old(self).fast@.available {
                FastStoreView {
                    slots: put_slot(
                        old(self).fast@.slots,
                        FastSlot { entry, expires_at: expiry(now, ttl_secs) },
                    ),
                    available: true,
                }
            } else {
                old(self).fast@
            }),
            r matches Ok(stored) ==> forall|i: int|
                0 <= i < old(self).durable@.rows.len() ==> (
                #[trigger] old(self).durable@.rows[i]).id < stored.id,
            match append_refusal(old(self).durable@) {
                Some(why) => {
                    &&& r matches Err(e) && e.says(DATABASE_ERROR@, why)
                    &&& final(self).durable@ == old(self).durable@
                },
                None => {
                    &&& r == Ok::<Stored, ApiError>(
                        Stored { id: old(self).durable@.next_id, cached: old(self).fast@.available },
                    )
                    &&& final(self).durable@ == (PayloadLogView {
                        rows: old(self).durable@.rows.push(
                            LogRow { id: old(self).durable@.next_id, entry },
                        ),
                        next_id: (old(self).durable@.next_id + 1) as i64,
                        available: true,
                    })
                },
            },
    {
        let cached = self.fast.set_ex(copy_entry(&entry), ttl_secs, now).is_ok();
        let written = self.durable.append(entry);
        CacheAside::set_outcome(Some(cached), written)
    }
}

/// A write to the fast store is read back until its time to live is over, and
/// not from then on: a read at that second or later falls through to the
/// durable store.
pub proof fn law_entry_lives_for_its_ttl(slots: Seq<FastSlot>, entry: CacheEntry, ttl_secs: u64, now: u64, at: u64)
    requires
        distinct_slots(slots),
    ensures
        ({
            let after = put_slot(slots, FastSlot { entry, expires_at: expiry(now, ttl_secs) });
            &&& distinct_slots(after)
            &&& at < expiry(now, ttl_secs) ==> live_entry(after, entry.source@, at) == Some(entry)
            &&& at >= expiry(now, ttl_secs) ==> live_entry(after, entry.source@, at) is None
        }),
{
    let slot = FastSlot { entry, expires_at: expiry(now, ttl_secs) };
    let after = put_slot(slots, slot);
    lemma_put_keeps_slots_distinct(slots, slot);
    if has_slot(slots, entry.source@) {
        let i = choose|i: int| slot_at(slots, entry.source@, i);
        assert(slot_at(after, entry.source@, i));
        lemma_slot_position(after, entry.source@, i);
    } else {
        assert(slot_at(after, entry.source@, slots.len() as int));
        lemma_slot_position(after, entry.source@, slots.len() as int);
    }
}

/// A write to the fast store leaves the entries of the other sources as they
/// are.
pub proof fn law_put_leaves_others(slots: Seq<FastSlot>, slot: FastSlot, other: Seq<char>, at: u64)
    requires
        distinct_slots(slots),
        other != slot.entry.source@,
    ensures
        live_entry(put_slot(slots, slot), other, at) == live_entry(slots, other, at),
{
    let after = put_slot(slots, slot);
    lemma_put_keeps_slots_distinct(slots, slot);
    if has_slot(slots, other) {
        let k = choose|k: int| slot_at(slots, other, k);
        assert(slot_at(after, other, k));
        lemma_slot_position(after, other, k);
    } else {
        if has_slot(after, other) {
            let k = choose|k: int| slot_at(after, other, k);
            if k < slots.len() {
                assert(slot_at(slots, other, k));
            }
        }
    }
}

/// The durable store is append-only: a write adds its row behind the others,
/// which stay as they are, and the row is then the latest of its source. The
/// latest rows of the other sources stay the same.
pub proof fn law_append_only(rows: Seq<LogRow>, row: LogRow, other: Seq<char>)
    requires
        other != row.entry.source@,
    ensures
        rows.push(row).len() == rows.len() + 1,
        forall|i: int| 0 <= i < rows.len() ==> rows.push(row)[i] == rows[i],
        latest_of(rows.push(row), row.entry.source@) == Some(row),
        latest_of(rows.push(row), other) == latest_of(rows, other),
{
    assert(rows.push(row).drop_last() =~= rows);
}

/// A hit in the fast store is what a read returns, whatever the durable store
/// holds and whether or not it answers; and when the fast store has nothing
/// for the source, or does not answer, a read returns what the durable store
/// holds.
pub proof fn law_read_through(store: MemoryStore, source: Seq<char>, now: u64)
    ensures
        store.fast@.available && live_entry(store.fast@.slots, source, now) is Some
            ==> store.get_spec(source, now) == Some(live_entry(store.fast@.slots, source, now)),
        (!store.fast@.available || live_entry(store.fast@.slots, source, now) is None)
            && store.durable@.available ==> store.get_spec(source, now) == Some(
            entry_of(latest_of(store.durable@.rows, source)),
        ),
{
}

} // verus!
