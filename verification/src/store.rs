//! The record store: transaction identifiers mapped to payment records.
//! The records sit in a vector of pairs whose identifiers never repeat; the
//! store is specified as the finite map that the vector spells out.

use crate::record::{PaymentInfo, TransactionId};
use vstd::prelude::*;
use vstd::std_specs::cmp::PartialEqSpec;

verus! {

/// One slot of the store: an identifier and the record stored under it.
pub struct LedgerEntry {
    /// The identifier that names the record.
    pub id: TransactionId,
    /// The record stored under it.
    pub info: PaymentInfo,
}

/// The map that a sequence of slots spells out; a later slot would win over
/// an earlier one with the same identifier, but the store never holds two.
pub open spec fn map_of(entries: Seq<LedgerEntry>) -> Map<Seq<u8>, PaymentInfo>
    decreases entries.len(),
{
    if entries.len() == 0 {
        Map::empty()
    } else {
        map_of(entries.drop_last()).insert(entries.last().id@, entries.last().info)
    }
}

/// No two slots carry the same identifier.
pub open spec fn distinct_ids(entries: Seq<LedgerEntry>) -> bool {
    forall|i: int, j: int|
        0 <= i < j < entries.len() ==> #[trigger] entries[i].id@ != #[trigger] entries[j].id@
}

/// A key is in the map exactly when some slot carries it.
proof fn lemma_map_of_contains(entries: Seq<LedgerEntry>, k: Seq<u8>)
    ensures
        map_of(entries).contains_key(k) <==> exists|i: int|
            0 <= i < entries.len() && #[trigger] entries[i].id@ == k,
    decreases entries.len(),
{
    if entries.len() > 0 {
        lemma_map_of_contains(entries.drop_last(), k);
        if map_of(entries).contains_key(k) {
            if entries.last().id@ == k {
                assert(entries[entries.len() - 1].id@ == k);
            } else {
                let i = choose|i: int|
                    0 <= i < entries.drop_last().len() && #[trigger] entries.drop_last()[i].id@
                        == k;
                assert(entries[i].id@ == k);
            }
        }
        if exists|i: int| 0 <= i < entries.len() && #[trigger] entries[i].id@ == k {
            let i = choose|i: int| 0 <= i < entries.len() && #[trigger] entries[i].id@ == k;
            if i < entries.len() - 1 {
                assert(entries.drop_last()[i].id@ == k);
            }
        }
    }
}

/// Under distinct identifiers, the slot at `i` is what the map holds for
/// its identifier.
proof fn lemma_map_of_index(entries: Seq<LedgerEntry>, i: int)
    requires
        distinct_ids(entries),
        0 <= i < entries.len(),
    ensures
        map_of(entries).contains_key(entries[i].id@),
        map_of(entries)[entries[i].id@] == entries[i].info,
    decreases entries.len(),
{
    if i == entries.len() - 1 {
    } else {
        assert(distinct_ids(entries.drop_last())) by {
            assert(forall|p: int, q: int|
                0 <= p < q < entries.drop_last().len() ==> #[trigger] entries.drop_last()[p].id@
                    != #[trigger] entries.drop_last()[q].id@);
        }
        lemma_map_of_index(entries.drop_last(), i);
        assert(entries[i].id@ != entries.last().id@);
        assert(entries.drop_last()[i] == entries[i]);
    }
}

/// Dropping the last slot keeps the identifiers distinct.
proof fn lemma_distinct_drop_last(entries: Seq<LedgerEntry>)
    requires
        distinct_ids(entries),
        entries.len() > 0,
    ensures
        distinct_ids(entries.drop_last()),
{
    assert(forall|p: int, q: int|
        0 <= p < q < entries.drop_last().len() ==> #[trigger] entries.drop_last()[p].id@
            != #[trigger] entries.drop_last()[q].id@);
}

/// Replacing the slot at `i` by one with the same identifier rewrites that
/// one key of the map.
proof fn lemma_map_of_update(entries: Seq<LedgerEntry>, i: int, e: LedgerEntry)
    requires
        distinct_ids(entries),
        0 <= i < entries.len(),
        e.id@ == entries[i].id@,
    ensures
        map_of(entries.update(i, e)) == map_of(entries).insert(e.id@, e.info),
        distinct_ids(entries.update(i, e)),
    decreases entries.len(),
{
    let u = entries.update(i, e);
    assert(distinct_ids(u)) by {
        assert(forall|p: int, q: int|
            0 <= p < q < u.len() ==> #[trigger] u[p].id@ != #[trigger] u[q].id@);
    }
    if i == entries.len() - 1 {
        assert(u.drop_last() =~= entries.drop_last());
        assert(u.last() == e);
        assert(map_of(u) == map_of(entries.drop_last()).insert(e.id@, e.info));
        assert(map_of(entries.drop_last()).insert(e.id@, e.info) =~= map_of(
            entries.drop_last(),
        ).insert(entries.last().id@, entries.last().info).insert(e.id@, e.info));
    } else {
        lemma_distinct_drop_last(entries);
        assert(u.drop_last() =~= entries.drop_last().update(i, e));
        assert(u.last() == entries.last());
        lemma_map_of_update(entries.drop_last(), i, e);
        assert(map_of(u) == map_of(entries.drop_last()).insert(e.id@, e.info).insert(
            entries.last().id@,
            entries.last().info,
        ));
        assert(e.id@ != entries.last().id@);
        assert(map_of(entries.drop_last()).insert(e.id@, e.info).insert(
            entries.last().id@,
            entries.last().info,
        ) =~= map_of(entries.drop_last()).insert(entries.last().id@, entries.last().info).insert(
            e.id@,
            e.info,
        ));
    }
}

/// Taking out the slot at `i` takes exactly its key out of the map.
proof fn lemma_map_of_remove(entries: Seq<LedgerEntry>, i: int)
    requires
        distinct_ids(entries),
        0 <= i < entries.len(),
    ensures
        map_of(entries.remove(i)) == map_of(entries).remove(entries[i].id@),
        distinct_ids(entries.remove(i)),
    decreases entries.len(),
{
    let r = entries.remove(i);
    let k = entries[i].id@;
    assert(distinct_ids(r)) by {
        assert(forall|p: int, q: int|
            0 <= p < q < r.len() ==> #[trigger] r[p].id@ != #[trigger] r[q].id@);
    }
    if i == entries.len() - 1 {
        assert(r =~= entries.drop_last());
        lemma_map_of_contains(entries.drop_last(), k);
        assert(forall|j: int|
            0 <= j < entries.drop_last().len() ==> #[trigger] entries.drop_last()[j].id@ != k);
        assert(!map_of(entries.drop_last()).contains_key(k));
        assert(map_of(entries.drop_last()) =~= map_of(entries.drop_last()).insert(
            k,
            entries.last().info,
        ).remove(k));
    } else {
        lemma_distinct_drop_last(entries);
        assert(r.drop_last() =~= entries.drop_last().remove(i));
        assert(r.last() == entries.last());
        lemma_map_of_remove(entries.drop_last(), i);
        assert(map_of(r) == map_of(entries.drop_last()).remove(k).insert(
            entries.last().id@,
            entries.last().info,
        ));
        assert(k != entries.last().id@);
        assert(map_of(entries.drop_last()).remove(k).insert(
            entries.last().id@,
            entries.last().info,
        ) =~= map_of(entries.drop_last()).insert(entries.last().id@, entries.last().info).remove(
            k,
        ));
    }
}

/// The record store.
pub struct Ledger {
    entries: Vec<LedgerEntry>,
}

impl View for Ledger {
    type V = Map<Seq<u8>, PaymentInfo>;

    closed spec fn view(&self) -> Map<Seq<u8>, PaymentInfo> {
        map_of(self.entries@)
    }
}

impl Ledger {
    /// The store never holds two slots with the same identifier.
    pub closed spec fn wf(&self) -> bool {
        distinct_ids(self.entries@)
    }

    /// An empty store.
    pub fn new() -> (r: Self)
        ensures
            r.wf(),
            r@ == Map::<Seq<u8>, PaymentInfo>::empty(),
    {
        Ledger { entries: Vec::new() }
    }

    /// The position of the slot carrying `id`, if any.
    fn find_index(&self, id: &TransactionId) -> (r: Option<usize>)
        ensures
            match r {
                Some(i) => i < self.entries@.len() && self.entries@[i as int].id@ == id@,
                None => forall|i: int|
                    0 <= i < self.entries@.len() ==> #[trigger] self.entries@[i].id@ != id@,
            },
    {
        let n = self.entries.len();
        for i in 0..n
            invariant
                n == self.entries@.len(),
                forall|j: int| 0 <= j < i ==> #[trigger] self.entries@[j].id@ != id@,
        {
            if self.entries[i].id == *id {
                return Some(i);
            }
        }
        None
    }

    /// Whether a record is stored under `id`.
    pub fn contains(&self, id: &TransactionId) -> (r: bool)
        requires
            self.wf(),
        ensures
            r == self@.contains_key(id@),
    {
        proof {
            lemma_map_of_contains(self.entries@, id@);
        }
        match self.find_index(id) {
            Some(_) => true,
            None => false,
        }
    }

    /// The record stored under `id`, if any.
    pub fn get(&self, id: &TransactionId) -> (r: Option<PaymentInfo>)
        requires
            self.wf(),
        ensures
            match r {
                Some(info) => self@.contains_key(id@) && info == self@[id@],
                None => !self@.contains_key(id@),
            },
    {
        proof {
            lemma_map_of_contains(self.entries@, id@);
        }
        match self.find_index(id) {
            Some(i) => {
                proof {
                    lemma_map_of_index(self.entries@, i as int);
                }
                Some(self.entries[i].info)
            },
            None => None,
        }
    }

    /// Stores `info` under the fresh identifier `id`.
    pub fn insert_new(&mut self, id: TransactionId, info: PaymentInfo)
        requires
            old(self).wf(),
            !old(self)@.contains_key(id@),
        ensures
            final(self).wf(),
            final(self)@ == old(self)@.insert(id@, info),
    {
        proof {
            lemma_map_of_contains(self.entries@, id@);
        }
        let ghost pre = self.entries@;
        self.entries.push(LedgerEntry { id, info });
        proof {
            assert(self.entries@.drop_last() =~= pre);
            assert(distinct_ids(self.entries@)) by {
                assert(forall|j: int| 0 <= j < pre.len() ==> #[trigger] pre[j].id@ != id@);
                assert(forall|p: int, q: int|
                    0 <= p < q < self.entries@.len() ==> #[trigger] self.entries@[p].id@
                        != #[trigger] self.entries@[q].id@);
            }
        }
    }

    /// Rewrites the record stored under `id`.
    pub fn set(&mut self, id: &TransactionId, info: PaymentInfo)
        requires
            old(self).wf(),
            old(self)@.contains_key(id@),
        ensures
            final(self).wf(),
            final(self)@ == old(self)@.insert(id@, info),
    {
        proof {
            lemma_map_of_contains(self.entries@, id@);
        }
        match self.find_index(id) {
            Some(i) => {
                let ghost pre = self.entries@;
                let ghost e = LedgerEntry { id: pre[i as int].id, info };
                self.entries[i].info = info;
                proof {
                    assert(self.entries@ =~= pre.update(i as int, e));
                    lemma_map_of_update(pre, i as int, e);
                }
            },
            None => {
                proof {
                    assert(false);
                }
            },
        }
    }

    /// Takes the record stored under `id` out of the store.
    pub fn remove(&mut self, id: &TransactionId)
        requires
            old(self).wf(),
            old(self)@.contains_key(id@),
        ensures
            final(self).wf(),
            final(self)@ == old(self)@.remove(id@),
    {
        proof {
            lemma_map_of_contains(self.entries@, id@);
        }
        match self.find_index(id) {
            Some(i) => {
                proof {
                    lemma_map_of_remove(self.entries@, i as int);
                }
                self.entries.remove(i);
            },
            None => {
                proof {
                    assert(false);
                }
            },
        }
    }
}

} // verus!
