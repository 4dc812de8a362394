//! The dataset catalog as a table in memory: one row per dataset identifier,
//! written by upsert.

use vstd::prelude::*;
use crate::dates::Timestamp;
use crate::domain::{OsdrInsert, OsdrItem, text_of};

verus! {

/// Whether row `i` has the dataset identifier `key`.
pub open spec fn has_key_at(rows: Seq<OsdrItem>, key: Seq<char>, i: int) -> bool {
    0 <= i < rows.len() && text_of(rows[i].dataset_id) == Some(key)
}

/// Whether some row has the dataset identifier `key`.
pub open spec fn has_key(rows: Seq<OsdrItem>, key: Seq<char>) -> bool {
    exists|i: int| has_key_at(rows, key, i)
}

/// No dataset identifier occurs in two rows.
pub open spec fn distinct_keys(rows: Seq<OsdrItem>) -> bool {
    forall|i: int, j: int|
        0 <= i < rows.len() && 0 <= j < rows.len() && i != j && rows[i].dataset_id is Some
            ==> text_of(rows[i].dataset_id) != text_of(rows[j].dataset_id)
}

/// Number of rows with the dataset identifier `key`.
pub open spec fn rows_with_key(rows: Seq<OsdrItem>, key: Seq<char>) -> nat
    decreases rows.len(),
{
    if rows.len() == 0 {
        0
    } else {
        let last: nat = if text_of(rows.last().dataset_id) == Some(key) {
            1
        } else {
            0
        };
        rows_with_key(rows.drop_last(), key) + last
    }
}

/// The row that takes the place of `row` when `item` is written over it at
/// `now`: the row identifier stays, everything else is `item`'s. The time of
/// the write is kept in `inserted_at`, which every write sets anew;
/// `updated_at` is the time that the upstream gives for the dataset.
pub open spec fn refreshed(row: OsdrItem, item: OsdrInsert, now: Timestamp) -> OsdrItem {
    OsdrItem {
        id: row.id,
        dataset_id: Some(item.dataset_id),
        title: item.title,
        status: item.status,
        updated_at: item.updated_at,
        inserted_at: now,
        raw: item.raw,
    }
}

/// The row that `item` becomes when it is written at `now` under a row
/// identifier of its own.
pub open spec fn inserted(id: i64, item: OsdrInsert, now: Timestamp) -> OsdrItem {
    OsdrItem {
        id,
        dataset_id: Some(item.dataset_id),
        title: item.title,
        status: item.status,
        updated_at: item.updated_at,
        inserted_at: now,
        raw: item.raw,
    }
}

/// The rows after `item` was written at `now`: over the row with its dataset
/// identifier where there is one, else as a new row with identifier `next_id`.
pub open spec fn upsert_rows(rows: Seq<OsdrItem>, next_id: i64, item: OsdrInsert, now: Timestamp) -> Seq<
    OsdrItem,
> {
    if has_key(rows, item.dataset_id@) {
        let i = choose|i: int| has_key_at(rows, item.dataset_id@, i);
        rows.update(i, refreshed(rows[i], item, now))
    } else {
        rows.push(inserted(next_id, item, now))
    }
}

/// Every row identifier is 1 or above and below `next_id`.
pub open spec fn row_ids_below(rows: Seq<OsdrItem>, next_id: i64) -> bool {
    forall|i: int| 0 <= i < rows.len() ==> 1 <= (#[trigger] rows[i]).id < next_id
}

/// The dataset catalog.
pub struct Catalog {
    rows: Vec<OsdrItem>,
    next_id: i64,
}

/// What a [`Catalog`] is made of.
pub struct CatalogView {
    pub rows: Seq<OsdrItem>,
    /// Row identifier that the next new row gets.
    pub next_id: i64,
}

impl View for Catalog {
    type V = CatalogView;

    closed spec fn view(&self) -> CatalogView {
        CatalogView { rows: self.rows@, next_id: self.next_id }
    }
}

impl Catalog {
    #[verifier::type_invariant]
    spec fn inv(self) -> bool {
        Self::wf(self@)
    }

    /// What holds of every catalog: no dataset identifier occurs twice, and
    /// every row identifier is below the one that the next new row gets.
    pub open spec fn wf(v: CatalogView) -> bool {
        &&& distinct_keys(v.rows)
        &&& 1 <= v.next_id
        &&& row_ids_below(v.rows, v.next_id)
    }

    /// A catalog without rows.
    pub fn new() -> (c: Catalog)
        ensures
            c@ == (CatalogView { rows: Seq::empty(), next_id: 1 }),
    {
        Catalog { rows: Vec::new(), next_id: 1 }
    }

    /// Number of rows.
    pub fn count_items(&self) -> (n: usize)
        ensures
            n == self@.rows.len(),
            Self::wf(self@),
    {
        proof {
            use_type_invariant(self);
        }
        self.rows.len()
    }

    fn find(&self, key: &String) -> (r: Option<usize>)
        ensures
            match r {
                Some(i) => has_key_at(self.rows@, key@, i as int),
                None => !has_key(self.rows@, key@),
            },
    {
        let n: usize = self.rows.len();
        let mut i: usize = 0;
        while i < n
            invariant
                n == self.rows@.len(),
                i <= n,
                forall|k: int| 0 <= k < i ==> !has_key_at(self.rows@, key@, k),
            decreases n - i,
        {
            let found = match &self.rows[i].dataset_id {
                Some(id) => *id == *key,
                None => false,
            };
            if found {
                return Some(i);
            }
            i += 1;
        }
        None
    }

    /// The row with the dataset identifier `dataset_id`, if there is one.
    pub fn get(&self, dataset_id: &String) -> (r: Option<&OsdrItem>)
        ensures
            match r {
                Some(row) => exists|i: int|
                    #[trigger] has_key_at(self@.rows, dataset_id@, i) && *row == self@.rows[i],
                None => !has_key(self@.rows, dataset_id@),
            },
    {
        match self.find(dataset_id) {
            Some(i) => {
                let row = &self.rows[i];
                assert(has_key_at(self@.rows, dataset_id@, i as int) && *row == self@.rows[i as int]);
                Some(row)
            },
            None => None,
        }
    }

    /// Writes `item` at `now`: over the row with its dataset identifier where
    /// there is one, else as a new row. Returns the row's identifier. `None`,
    /// and no change, where a new row is due and no row identifier is left.
    pub fn upsert_item(&mut self, item: OsdrInsert, now: Timestamp) -> (r: Option<i64>)
        ensures
            Self::wf(old(self)@),
            Self::wf(final(self)@),
            !has_key(old(self)@.rows, item.dataset_id@) && old(self)@.next_id == i64::MAX ==> {
                &&& r is None
                &&& final(self)@ == old(self)@
            },
            !has_key(old(self)@.rows, item.dataset_id@) && old(self)@.next_id < i64::MAX ==> {
                &&& r == Some(old(self)@.next_id)
                &&& final(self)@.next_id == old(self)@.next_id + 1
                &&& final(self)@.rows == upsert_rows(
                    old(self)@.rows,
                    old(self)@.next_id,
                    item,
                    now,
                )
            },
            has_key(old(self)@.rows, item.dataset_id@) ==> {
                &&& final(self)@.next_id == old(self)@.next_id
                &&& final(self)@.rows == upsert_rows(
                    old(self)@.rows,
                    old(self)@.next_id,
                    item,
                    now,
                )
                &&& exists|i: int|
                    #[trigger] has_key_at(old(self)@.rows, item.dataset_id@, i) && r == Some(
                        old(self)@.rows[i].id,
                    )
            },
    {
        proof {
            use_type_invariant(&*self);
        }
        let ghost before = self.rows@;
        let ghost key = item.dataset_id@;
        match self.find(&item.dataset_id) {
            Some(i) => {
                let id: i64 = self.rows[i].id;
                let row = OsdrItem {
                    id,
                    dataset_id: Some(item.dataset_id),
                    title: item.title,
                    status: item.status,
                    updated_at: item.updated_at,
                    inserted_at: now,
                    raw: item.raw,
                };
                let next_id: i64 = self.next_id;
                let mut rows: Vec<OsdrItem> = Vec::new();
                core::mem::swap(&mut rows, &mut self.rows);
                rows.set(i, row);
                proof {
                    lemma_key_position(before, key, i as int);
                    lemma_upsert_keeps_keys_distinct(before, next_id, item, now);
                    assert forall|k: int| 0 <= k < rows@.len() implies 1 <= (
                    #[trigger] rows@[k]).id < next_id by {
                        assert(1 <= before[k].id < next_id);
                    }
                }
                *self = Catalog { rows, next_id };
                Some(id)
            },
            None => {
                if self.next_id == i64::MAX {
                    return None;
                }
                let id: i64 = self.next_id;
                let row = OsdrItem {
                    id,
                    dataset_id: Some(item.dataset_id),
                    title: item.title,
                    status: item.status,
                    updated_at: item.updated_at,
                    inserted_at: now,
                    raw: item.raw,
                };
                let mut rows: Vec<OsdrItem> = Vec::new();
                core::mem::swap(&mut rows, &mut self.rows);
                rows.push(row);
                proof {
                    lemma_upsert_keeps_keys_distinct(before, id, item, now);
                    assert forall|k: int| 0 <= k < rows@.len() implies 1 <= (
                    #[trigger] rows@[k]).id < id + 1 by {
                        if k < before.len() {
                            assert(1 <= before[k].id < id);
                        }
                    }
                }
                *self = Catalog { rows, next_id: id + 1 };
                Some(id)
            },
        }
    }
}

/// With distinct identifiers, the row with a given identifier is at one place
/// only.
proof fn lemma_key_position(rows: Seq<OsdrItem>, key: Seq<char>, i: int)
    requires
        distinct_keys(rows),
        has_key_at(rows, key, i),
    ensures
        has_key(rows, key),
        (choose|j: int| has_key_at(rows, key, j)) == i,
{
    let j = choose|j: int| has_key_at(rows, key, j);
    assert(has_key_at(rows, key, j));
    if j != i {
        assert(text_of(rows[i].dataset_id) != text_of(rows[j].dataset_id));
    }
}

proof fn lemma_upsert_keeps_keys_distinct(
    rows: Seq<OsdrItem>,
    next_id: i64,
    item: OsdrInsert,
    now: Timestamp,
)
    requires
        distinct_keys(rows),
    ensures
        distinct_keys(upsert_rows(rows, next_id, item, now)),
{
    let key = item.dataset_id@;
    let after = upsert_rows(rows, next_id, item, now);
    if has_key(rows, key) {
        let i = choose|i: int| has_key_at(rows, key, i);
        assert forall|a: int, b: int|
            0 <= a < after.len() && 0 <= b < after.len() && a != b
                && after[a].dataset_id is Some implies text_of(after[a].dataset_id) != text_of(
            after[b].dataset_id,
        ) by {
            assert(text_of(after[i].dataset_id) == text_of(rows[i].dataset_id));
            assert(text_of(after[a].dataset_id) == text_of(rows[a].dataset_id));
            assert(text_of(after[b].dataset_id) == text_of(rows[b].dataset_id));
        }
    } else {
        assert forall|a: int, b: int|
            0 <= a < after.len() && 0 <= b < after.len() && a != b
                && after[a].dataset_id is Some implies text_of(after[a].dataset_id) != text_of(
            after[b].dataset_id,
        ) by {
            if a < rows.len() {
                assert(!has_key_at(rows, key, a));
            }
            if b < rows.len() {
                assert(!has_key_at(rows, key, b));
            }
        }
    }
}

proof fn lemma_count_without_key(rows: Seq<OsdrItem>, key: Seq<char>)
    requires
        !has_key(rows, key),
    ensures
        rows_with_key(rows, key) == 0,
    decreases rows.len(),
{
    if rows.len() > 0 {
        assert(!has_key_at(rows, key, rows.len() - 1));
        assert forall|i: int| !has_key_at(rows.drop_last(), key, i) by {
            assert(!has_key_at(rows, key, i));
        }
        lemma_count_without_key(rows.drop_last(), key);
    }
}

proof fn lemma_count_with_key(rows: Seq<OsdrItem>, key: Seq<char>, i: int)
    requires
        distinct_keys(rows),
        has_key_at(rows, key, i),
    ensures
        rows_with_key(rows, key) == 1,
    decreases rows.len(),
{
    let front = rows.drop_last();
    if i == rows.len() - 1 {
        assert forall|j: int| !has_key_at(front, key, j) by {
            if has_key_at(front, key, j) {
                assert(text_of(rows[i].dataset_id) != text_of(rows[j].dataset_id));
            }
        }
        lemma_count_without_key(front, key);
    } else {
        assert(text_of(rows[i].dataset_id) != text_of(rows[rows.len() - 1].dataset_id));
        assert(has_key_at(front, key, i));
        lemma_count_with_key(front, key, i);
    }
}

/// Writing an entry leaves exactly one row with its dataset identifier, which
/// holds what the entry says, and adds at most one row.
pub proof fn law_upsert_one_row(rows: Seq<OsdrItem>, next_id: i64, item: OsdrInsert, now: Timestamp)
    requires
        distinct_keys(rows),
    ensures
        ({
            let after = upsert_rows(rows, next_id, item, now);
            &&& distinct_keys(after)
            &&& rows_with_key(after, item.dataset_id@) == 1
            &&& after.len() == rows.len() + (if has_key(rows, item.dataset_id@) {
                0int
            } else {
                1int
            })
            &&& exists|i: int|
                {
                    &&& #[trigger] has_key_at(after, item.dataset_id@, i)
                    &&& after[i].title == item.title
                    &&& after[i].status == item.status
                    &&& after[i].updated_at == item.updated_at
                    &&& after[i].raw == item.raw
                    &&& after[i].inserted_at == now
                    &&& has_key(rows, item.dataset_id@) ==> after[i].id == rows[i].id
                }
        }),
{
    let key = item.dataset_id@;
    let after = upsert_rows(rows, next_id, item, now);
    lemma_upsert_keeps_keys_distinct(rows, next_id, item, now);
    if has_key(rows, key) {
        let i = choose|i: int| has_key_at(rows, key, i);
        assert(has_key_at(after, key, i));
        lemma_count_with_key(after, key, i);
    } else {
        let i = rows.len() as int;
        assert(has_key_at(after, key, i));
        lemma_count_with_key(after, key, i);
    }
}

/// Writing the same dataset identifier twice, with whatever other fields,
/// leaves one row for it and not two: the second write adds no row, and the
/// row holds what the second write said under the row identifier that the
/// first write left.
pub proof fn law_upsert_twice(
    rows: Seq<OsdrItem>,
    first_id: i64,
    first: OsdrInsert,
    first_at: Timestamp,
    second_id: i64,
    second: OsdrInsert,
    second_at: Timestamp,
)
    requires
        distinct_keys(rows),
        first.dataset_id@ == second.dataset_id@,
    ensures
        ({
            let once = upsert_rows(rows, first_id, first, first_at);
            let twice = upsert_rows(once, second_id, second, second_at);
            &&& twice.len() == once.len()
            &&& rows_with_key(twice, second.dataset_id@) == 1
            &&& exists|i: int|
                {
                    &&& #[trigger] has_key_at(twice, second.dataset_id@, i)
                    &&& has_key_at(once, first.dataset_id@, i)
                    &&& twice[i].id == once[i].id
                    &&& twice[i].title == second.title
                    &&& twice[i].status == second.status
                    &&& twice[i].updated_at == second.updated_at
                    &&& twice[i].raw == second.raw
                    &&& twice[i].inserted_at == second_at
                    &&& forall|j: int| 0 <= j < twice.len() && j != i ==> twice[j] == once[j]
                }
        }),
{
    let key = second.dataset_id@;
    let once = upsert_rows(rows, first_id, first, first_at);
    law_upsert_one_row(rows, first_id, first, first_at);
    let k = choose|k: int| has_key_at(once, key, k);
    assert(has_key(once, key));
    law_upsert_one_row(once, second_id, second, second_at);
    let twice = upsert_rows(once, second_id, second, second_at);
    assert(has_key_at(twice, key, k));
}

/// Writing an entry changes no row with another dataset identifier.
pub proof fn law_upsert_leaves_others(
    rows: Seq<OsdrItem>,
    next_id: i64,
    item: OsdrInsert,
    now: Timestamp,
    i: int,
)
    requires
        distinct_keys(rows),
        0 <= i < rows.len(),
        text_of(rows[i].dataset_id) != Some(item.dataset_id@),
    ensures
        upsert_rows(rows, next_id, item, now)[i] == rows[i],
{
    if has_key(rows, item.dataset_id@) {
        let k = choose|k: int| has_key_at(rows, item.dataset_id@, k);
        assert(k != i);
    }
}

} // verus!
