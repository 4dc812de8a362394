//! Lock coordinator: advisory, non-blocking mutual exclusion keyed by an
//! integer.
//!
//! [`LockTable`] is the shared facility seen as a value: which owner holds
//! which identifier. Replicas that go through one table exclude each other.

use vstd::prelude::*;

verus! {

/// A lock identifier together with whether the caller holds it, for the span of
/// one acquire/release bracket.
#[derive(Clone, Copy, Debug, PartialEq, Eq, Structural)]
pub struct LockHandle {
    pub lock_id: i64,
    pub held: bool,
}

/// One held lock: the identifier and who holds it.
#[derive(Clone, Copy, Debug, PartialEq, Eq, Structural)]
pub struct LockEntry {
    pub lock_id: i64,
    pub owner: u64,
}

/// The table after `owner` has tried to take `lock_id`, and whether it holds the
/// lock then. A lock held by another owner is refused and nothing changes.
pub open spec fn acquire_spec(table: Map<i64, u64>, owner: u64, lock_id: i64) -> (Map<i64, u64>, bool) {
    if table.contains_key(lock_id) && table[lock_id] != owner {
        (table, false)
    } else {
        (table.insert(lock_id, owner), true)
    }
}

/// The table after `owner` has given `lock_id` back, and whether it held the
/// lock before. Releasing what one does not hold changes nothing.
pub open spec fn release_spec(table: Map<i64, u64>, owner: u64, lock_id: i64) -> (Map<i64, u64>, bool) {
    if table.contains_key(lock_id) && table[lock_id] == owner {
        (table.remove(lock_id), true)
    } else {
        (table, false)
    }
}

/// Index of the entry for `lock_id` among `entries`, if there is one.
pub open spec fn entry_index(entries: Seq<LockEntry>, lock_id: i64, i: int) -> bool {
    0 <= i < entries.len() && entries[i].lock_id == lock_id
}

/// No identifier occurs in two entries.
pub open spec fn distinct_ids(entries: Seq<LockEntry>) -> bool {
    forall|i: int, j: int|
        0 <= i < entries.len() && 0 <= j < entries.len() && i != j ==> entries[i].lock_id
            != entries[j].lock_id
}

/// The entries read as a map from identifier to owner.
pub open spec fn table_of(entries: Seq<LockEntry>) -> Map<i64, u64> {
    Map::new(
        |id: i64| exists|i: int| entry_index(entries, id, i),
        |id: i64| entries[choose|i: int| entry_index(entries, id, i)].owner,
    )
}

/// The locks that are held at one instant, each by one owner.
pub struct LockTable {
    entries: Vec<LockEntry>,
}

impl View for LockTable {
    type V = Map<i64, u64>;

    closed spec fn view(&self) -> Map<i64, u64> {
        table_of(self.entries@)
    }
}

impl LockTable {
    #[verifier::type_invariant]
    spec fn inv(self) -> bool {
        distinct_ids(self.entries@)
    }

    /// A table in which nothing is held.
    pub fn new() -> (t: LockTable)
        ensures
            t@ == Map::<i64, u64>::empty(),
    {
        let t = LockTable { entries: Vec::new() };
        assert(t@ =~= Map::<i64, u64>::empty());
        t
    }

    fn find(&self, lock_id: i64) -> (r: Option<usize>)
        ensures
            match r {
                Some(i) => entry_index(self.entries@, lock_id, i as int),
                None => forall|i: int| !entry_index(self.entries@, lock_id, i),
            },
    {
        let n: usize = self.entries.len();
        let mut i: usize = 0;
        while i < n
            invariant
                n == self.entries@.len(),
                i <= n,
                forall|k: int| 0 <= k < i ==> self.entries@[k].lock_id != lock_id,
            decreases n - i,
        {
            if self.entries[i].lock_id == lock_id {
                return Some(i);
            }
            i += 1;
        }
        None
    }

    /// Who holds `lock_id`, if anyone.
    pub fn holder(&self, lock_id: i64) -> (r: Option<u64>)
        ensures
            r == (if self@.contains_key(lock_id) {
                Some(self@[lock_id])
            } else {
                None
            }),
    {
        proof {
            use_type_invariant(self);
        }
        match self.find(lock_id) {
            Some(i) => {
                proof {
                    lemma_entry_lookup(self.entries@, i as int);
                }
                Some(self.entries[i].owner)
            },
            None => None,
        }
    }

    /// Takes `lock_id` for `owner` unless another owner holds it. Never waits.
    /// Returns whether `owner` holds the lock after the call.
    pub fn try_acquire(&mut self, owner: u64, lock_id: i64) -> (granted: bool)
        ensures
            (final(self)@, granted) == acquire_spec(old(self)@, owner, lock_id),
    {
        proof {
            use_type_invariant(&*self);
        }
        match self.find(lock_id) {
            Some(i) => {
                proof {
                    lemma_entry_lookup(self.entries@, i as int);
                }
                let granted = self.entries[i].owner == owner;
                proof {
                    if granted {
                        assert(self@.insert(lock_id, owner) =~= self@);
                    }
                }
                granted
            },
            None => {
                let ghost before = self.entries@;
                let mut entries: Vec<LockEntry> = Vec::new();
                core::mem::swap(&mut entries, &mut self.entries);
                entries.push(LockEntry { lock_id, owner });
                proof {
                    lemma_push_entry(before, LockEntry { lock_id, owner });
                }
                *self = LockTable { entries };
                true
            },
        }
    }

    /// Gives `lock_id` back if `owner` holds it. Never waits. Returns whether
    /// `owner` held the lock before the call.
    pub fn release(&mut self, owner: u64, lock_id: i64) -> (released: bool)
        ensures
            (final(self)@, released) == release_spec(old(self)@, owner, lock_id),
    {
        proof {
            use_type_invariant(&*self);
        }
        match self.find(lock_id) {
            Some(i) => {
                proof {
                    lemma_entry_lookup(self.entries@, i as int);
                }
                if self.entries[i].owner == owner {
                    let ghost before = self.entries@;
                    let mut entries: Vec<LockEntry> = Vec::new();
                    core::mem::swap(&mut entries, &mut self.entries);
                    entries.remove(i);
                    proof {
                        lemma_remove_entry(before, i as int);
                    }
                    *self = LockTable { entries };
                    true
                } else {
                    false
                }
            },
            None => false,
        }
    }
}

/// One replica's side of the lock facility: it asks and gives back in its own
/// name.
#[derive(Clone, Copy, Debug, PartialEq, Eq, Structural)]
pub struct LockCoordinator {
    pub owner: u64,
}

impl LockCoordinator {
    /// The coordinator of the replica `owner`.
    pub fn new(owner: u64) -> (c: LockCoordinator)
        ensures
            c.owner == owner,
    {
        LockCoordinator { owner }
    }

    /// Tries to take `lock_id` and never waits. The handle says whether the
    /// replica holds the lock now: it does not while another replica holds it.
    pub fn try_acquire(&self, table: &mut LockTable, lock_id: i64) -> (handle: LockHandle)
        ensures
            handle.lock_id == lock_id,
            (final(table)@, handle.held) == acquire_spec(old(table)@, self.owner, lock_id),
    {
        let held = table.try_acquire(self.owner, lock_id);
        LockHandle { lock_id, held }
    }

    /// Ends the bracket that `handle` stands for: gives the lock back where
    /// the handle holds it, and does nothing where it does not. Returns
    /// whether a lock was given back.
    pub fn release(&self, table: &mut LockTable, handle: &mut LockHandle) -> (released: bool)
        ensures
            *final(handle) == (LockHandle { lock_id: old(handle).lock_id, held: false }),
            old(handle).held ==> (final(table)@, released) == release_spec(
                old(table)@,
                self.owner,
                old(handle).lock_id,
            ),
            !old(handle).held ==> !released && final(table)@ == old(table)@,
    {
        if handle.held {
            handle.held = false;
            table.release(self.owner, handle.lock_id)
        } else {
            false
        }
    }
}

/// With distinct identifiers, the entry at `i` is the one the map shows.
proof fn lemma_entry_lookup(entries: Seq<LockEntry>, i: int)
    requires
        distinct_ids(entries),
        0 <= i < entries.len(),
    ensures
        table_of(entries).contains_key(entries[i].lock_id),
        table_of(entries)[entries[i].lock_id] == entries[i].owner,
{
    let id = entries[i].lock_id;
    assert(entry_index(entries, id, i));
    let j = choose|j: int| entry_index(entries, id, j);
    assert(j == i);
}

proof fn lemma_push_entry(entries: Seq<LockEntry>, e: LockEntry)
    requires
        distinct_ids(entries),
        forall|i: int| !entry_index(entries, e.lock_id, i),
    ensures
        distinct_ids(entries.push(e)),
        table_of(entries.push(e)) == table_of(entries).insert(e.lock_id, e.owner),
{
    let after = entries.push(e);
    assert forall|i: int, j: int|
        0 <= i < after.len() && 0 <= j < after.len() && i != j implies after[i].lock_id
        != after[j].lock_id by {
        if i < entries.len() {
            assert(!entry_index(entries, e.lock_id, i));
        }
        if j < entries.len() {
            assert(!entry_index(entries, e.lock_id, j));
        }
    }
    let m = table_of(entries).insert(e.lock_id, e.owner);
    assert forall|id: i64| table_of(after).contains_key(id) <==> m.contains_key(id) by {
        if table_of(after).contains_key(id) {
            let i = choose|i: int| entry_index(after, id, i);
            if i < entries.len() {
                assert(entry_index(entries, id, i));
            }
        }
        if m.contains_key(id) {
            if id == e.lock_id {
                assert(entry_index(after, id, entries.len() as int));
            } else {
                let i = choose|i: int| entry_index(entries, id, i);
                assert(entry_index(after, id, i));
            }
        }
    }
    assert forall|id: i64| table_of(after).contains_key(id) implies table_of(after)[id]
        == m[id] by {
        let i = choose|i: int| entry_index(after, id, i);
        lemma_entry_lookup(after, i);
        if i < entries.len() {
            lemma_entry_lookup(entries, i);
        }
    }
    assert(table_of(after) =~= m);
}

proof fn lemma_remove_entry(entries: Seq<LockEntry>, i: int)
    requires
        distinct_ids(entries),
        0 <= i < entries.len(),
    ensures
        distinct_ids(entries.remove(i)),
        table_of(entries.remove(i)) == table_of(entries).remove(entries[i].lock_id),
{
    let after = entries.remove(i);
    let gone = entries[i].lock_id;
    assert forall|a: int, b: int|
        0 <= a < after.len() && 0 <= b < after.len() && a != b implies after[a].lock_id
        != after[b].lock_id by {
        let a0 = if a < i { a } else { a + 1 };
        let b0 = if b < i { b } else { b + 1 };
        assert(after[a] == entries[a0]);
        assert(after[b] == entries[b0]);
    }
    let m = table_of(entries).remove(gone);
    assert forall|id: i64| table_of(after).contains_key(id) <==> m.contains_key(id) by {
        if table_of(after).contains_key(id) {
            let a = choose|a: int| entry_index(after, id, a);
            let a0 = if a < i { a } else { a + 1 };
            assert(after[a] == entries[a0]);
            assert(entry_index(entries, id, a0));
        }
        if m.contains_key(id) {
            let a0 = choose|a0: int| entry_index(entries, id, a0);
            assert(a0 != i);
            let a = if a0 < i { a0 } else { a0 - 1 };
            assert(after[a] == entries[a0]);
            assert(entry_index(after, id, a));
        }
    }
    assert forall|id: i64| table_of(after).contains_key(id) implies table_of(after)[id]
        == m[id] by {
        let a = choose|a: int| entry_index(after, id, a);
        let a0 = if a < i { a } else { a + 1 };
        assert(after[a] == entries[a0]);
        lemma_entry_lookup(after, a);
        lemma_entry_lookup(entries, a0);
    }
    assert(table_of(after) =~= m);
}

/// One call on the table.
pub enum LockOp {
    Acquire { owner: u64, lock_id: i64 },
    Release { owner: u64, lock_id: i64 },
}

/// Who makes the call.
pub open spec fn op_owner(op: LockOp) -> u64 {
    match op {
        LockOp::Acquire { owner, .. } => owner,
        LockOp::Release { owner, .. } => owner,
    }
}

/// The table after one call.
pub open spec fn apply_op(table: Map<i64, u64>, op: LockOp) -> Map<i64, u64> {
    match op {
        LockOp::Acquire { owner, lock_id } => acquire_spec(table, owner, lock_id).0,
        LockOp::Release { owner, lock_id } => release_spec(table, owner, lock_id).0,
    }
}

/// The table after a run of calls, each taken in turn.
pub open spec fn apply_ops(table: Map<i64, u64>, ops: Seq<LockOp>) -> Map<i64, u64>
    decreases ops.len(),
{
    if ops.len() == 0 {
        table
    } else {
        apply_op(apply_ops(table, ops.drop_last()), ops.last())
    }
}

/// When two owners race for a free lock, the one whose call comes first wins and
/// the other is refused: exactly one of the two calls grants the lock.
pub proof fn law_race_has_one_winner(table: Map<i64, u64>, a: u64, b: u64, lock_id: i64)
    requires
        a != b,
        !table.contains_key(lock_id),
    ensures
        acquire_spec(table, a, lock_id).1,
        !acquire_spec(acquire_spec(table, a, lock_id).0, b, lock_id).1,
        acquire_spec(acquire_spec(table, a, lock_id).0, b, lock_id).0 == acquire_spec(
            table,
            a,
            lock_id,
        ).0,
{
}

/// While one owner holds a lock, every other owner is refused it, whatever the
/// table holds besides.
pub proof fn law_held_lock_is_refused(table: Map<i64, u64>, holder: u64, other: u64, lock_id: i64)
    requires
        table.contains_key(lock_id),
        table[lock_id] == holder,
        other != holder,
    ensures
        acquire_spec(table, other, lock_id) == (table, false),
        release_spec(table, other, lock_id) == (table, false),
{
}

/// A lock stays with its holder through any run of calls by other owners: none
/// of them can take it or give it back.
pub proof fn law_held_until_released(
    table: Map<i64, u64>,
    holder: u64,
    lock_id: i64,
    ops: Seq<LockOp>,
)
    requires
        table.contains_key(lock_id),
        table[lock_id] == holder,
        forall|k: int| 0 <= k < ops.len() ==> op_owner(#[trigger] ops[k]) != holder,
    ensures
        apply_ops(table, ops).contains_key(lock_id),
        apply_ops(table, ops)[lock_id] == holder,
    decreases ops.len(),
{
    if ops.len() > 0 {
        law_held_until_released(table, holder, lock_id, ops.drop_last());
        assert(op_owner(ops[ops.len() - 1]) != holder);
    }
}

/// A lock that was given back is free for the next owner who asks.
pub proof fn law_released_lock_is_free(table: Map<i64, u64>, a: u64, b: u64, lock_id: i64)
    requires
        table.contains_key(lock_id),
        table[lock_id] == a,
    ensures
        release_spec(table, a, lock_id).1,
        acquire_spec(release_spec(table, a, lock_id).0, b, lock_id).1,
{
}

/// The table after a cycle in which two replicas contend for one lock: both
/// ask, `first` before `second`, and then both end their brackets.
pub open spec fn after_contended_cycle(
    table: Map<i64, u64>,
    first: u64,
    second: u64,
    lock_id: i64,
) -> Map<i64, u64> {
    let asked_once = acquire_spec(table, first, lock_id).0;
    let asked_twice = acquire_spec(asked_once, second, lock_id).0;
    let first_done = release_spec(asked_twice, first, lock_id).0;
    release_spec(first_done, second, lock_id).0
}

/// How many of the two replicas get the lock in such a cycle.
pub open spec fn grants_in_contended_cycle(
    table: Map<i64, u64>,
    first: u64,
    second: u64,
    lock_id: i64,
) -> nat {
    let (asked_once, first_granted) = acquire_spec(table, first, lock_id);
    let second_granted = acquire_spec(asked_once, second, lock_id).1;
    let one: nat = if first_granted {
        1
    } else {
        0
    };
    let other: nat = if second_granted {
        1
    } else {
        0
    };
    one + other
}

/// The table after a run of such cycles between replicas `a` and `b`, one
/// cycle per entry of `a_first`, which says whether `a` asks first.
pub open spec fn after_contended_cycles(
    table: Map<i64, u64>,
    a: u64,
    b: u64,
    lock_id: i64,
    a_first: Seq<bool>,
) -> Map<i64, u64>
    decreases a_first.len(),
{
    if a_first.len() == 0 {
        table
    } else {
        let before = after_contended_cycles(table, a, b, lock_id, a_first.drop_last());
        if a_first.last() {
            after_contended_cycle(before, a, b, lock_id)
        } else {
            after_contended_cycle(before, b, a, lock_id)
        }
    }
}

/// How often the lock is granted over such a run.
pub open spec fn grants_over_contended_cycles(
    table: Map<i64, u64>,
    a: u64,
    b: u64,
    lock_id: i64,
    a_first: Seq<bool>,
) -> nat
    decreases a_first.len(),
{
    if a_first.len() == 0 {
        0
    } else {
        let before = after_contended_cycles(table, a, b, lock_id, a_first.drop_last());
        let now = if a_first.last() {
            grants_in_contended_cycle(before, a, b, lock_id)
        } else {
            grants_in_contended_cycle(before, b, a, lock_id)
        };
        grants_over_contended_cycles(table, a, b, lock_id, a_first.drop_last()) + now
    }
}

/// When two replicas contend for a lock in every cycle, the lock is granted
/// once per cycle, whoever asks first, and it is free again after each cycle.
/// As a replica fetches and stores only under the lock, there is one
/// fetch-and-store per cycle, not two.
pub proof fn law_one_grant_per_contended_cycle(
    table: Map<i64, u64>,
    a: u64,
    b: u64,
    lock_id: i64,
    a_first: Seq<bool>,
)
    requires
        a != b,
        !table.contains_key(lock_id),
    ensures
        grants_over_contended_cycles(table, a, b, lock_id, a_first) == a_first.len(),
        !after_contended_cycles(table, a, b, lock_id, a_first).contains_key(lock_id),
    decreases a_first.len(),
{
    if a_first.len() > 0 {
        law_one_grant_per_contended_cycle(table, a, b, lock_id, a_first.drop_last());
    }
}

} // verus!
