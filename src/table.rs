//! A finite map kept as a vector of entries with distinct keys.
use vstd::prelude::*;
use crate::types::{copy_bytes, AccountInfo, Address, B256, U256};

verus! {

/// A key that can be compared for equality in executable code.
pub trait TableKey: Copy + Sized {
    fn same(&self, other: &Self) -> (r: bool)
        ensures
            r == (*self == *other),
    ;
}

impl TableKey for Address {
    fn same(&self, other: &Self) -> (r: bool) {
        *self == *other
    }
}

impl TableKey for U256 {
    fn same(&self, other: &Self) -> (r: bool) {
        *self == *other
    }
}

impl TableKey for B256 {
    fn same(&self, other: &Self) -> (r: bool) {
        *self == *other
    }
}

impl TableKey for usize {
    fn same(&self, other: &Self) -> (r: bool) {
        *self == *other
    }
}

impl TableKey for u64 {
    fn same(&self, other: &Self) -> (r: bool) {
        *self == *other
    }
}

/// A storage slot of an account.
#[derive(Clone, Copy, Debug, PartialEq, Eq, Structural)]
pub struct SlotKey {
    pub address: Address,
    pub slot: U256,
}

impl TableKey for SlotKey {
    fn same(&self, other: &Self) -> (r: bool) {
        *self == *other
    }
}

/// An account as of a given block.
#[derive(Clone, Copy, Debug, PartialEq, Eq, Structural)]
pub struct BlockKey {
    pub address: Address,
    pub block: u64,
}

impl TableKey for BlockKey {
    fn same(&self, other: &Self) -> (r: bool) {
        *self == *other
    }
}

/// A value that can be copied with the same view.
pub trait TableValue: View + Sized {
    fn duplicate(&self) -> (r: Self)
        ensures
            r@ == self@,
    ;
}

impl TableValue for U256 {
    fn duplicate(&self) -> (r: Self) {
        *self
    }
}

impl TableValue for u64 {
    fn duplicate(&self) -> (r: Self) {
        *self
    }
}

impl TableValue for B256 {
    fn duplicate(&self) -> (r: Self) {
        *self
    }
}

impl TableValue for Vec<u8> {
    fn duplicate(&self) -> (r: Self) {
        copy_bytes(self)
    }
}

impl TableValue for AccountInfo {
    fn duplicate(&self) -> (r: Self) {
        self.copy()
    }
}

/// Entries with pairwise distinct keys; `map()` is what the table holds.
#[verifier::reject_recursive_types(K)]
pub struct Table<K, V: View> {
    entries: Vec<(K, V)>,
    ghost_map: Ghost<Map<K, V::V>>,
}

pub open spec fn entries_match<K, V: View>(entries: Seq<(K, V)>, m: Map<K, V::V>) -> bool {
    &&& forall|i: int, j: int| 0 <= i < j < entries.len() ==> entries[i].0 != entries[j].0
    &&& forall|i: int|
        0 <= i < entries.len() ==> #[trigger] m.contains_key(entries[i].0) && m[entries[i].0]
            == entries[i].1@
    &&& forall|k: K|
        #[trigger] m.contains_key(k) ==> exists|i: int| 0 <= i < entries.len() && entries[i].0 == k
}

impl<K, V: View> View for Table<K, V> {
    type V = Map<K, V::V>;

    closed spec fn view(&self) -> Map<K, V::V> {
        self.ghost_map@
    }
}

impl<K, V: View> Table<K, V> {
    #[verifier::type_invariant]
    closed spec fn inv(self) -> bool {
        entries_match(self.entries@, self.ghost_map@)
    }
}

impl<K: TableKey, V: View> Table<K, V> {
    /// The entries have distinct keys and agree with the view.
    pub closed spec fn wf(&self) -> bool {
        entries_match(self.entries@, self.ghost_map@)
    }

    /// Every table is well formed.
    pub fn check_wf(&self)
        ensures
            self.wf(),
    {
        proof { use_type_invariant(self); }
    }

    pub fn new() -> (r: Self)
        ensures
            r.wf(),
            r@ == Map::<K, V::V>::empty(),
    {
        Table { entries: Vec::new(), ghost_map: Ghost(Map::empty()) }
    }

    fn index_of(&self, k: &K) -> (r: Option<usize>)
        requires
            self.wf(),
        ensures
            r is None ==> !self@.contains_key(*k),
            r matches Some(i) ==> i < self.entries@.len() && self.entries@[i as int].0 == *k,
    {
        let mut i: usize = 0;
        while i < self.entries.len()
            invariant
                entries_match(self.entries@, self.ghost_map@),
                i <= self.entries@.len(),
                forall|j: int| 0 <= j < i ==> self.entries@[j].0 != *k,
            decreases self.entries@.len() - i,
        {
            if self.entries[i].0.same(k) {
                return Some(i);
            }
            i = i + 1;
        }
        None
    }

    pub fn contains_key(&self, k: &K) -> (r: bool)
        requires
            self.wf(),
        ensures
            r == self@.contains_key(*k),
    {
        self.index_of(k).is_some()
    }

    pub fn get(&self, k: &K) -> (r: Option<&V>)
        requires
            self.wf(),
        ensures
            r is None <==> !self@.contains_key(*k),
            r matches Some(v) ==> v@ == self@[*k],
    {
        match self.index_of(k) {
            Some(i) => {
                assert(self.ghost_map@.contains_key(self.entries@[i as int].0));
                Some(&self.entries[i].1)
            },
            None => None,
        }
    }

    pub fn insert(&mut self, k: K, v: V)
        requires
            old(self).wf(),
        ensures
            final(self).wf(),
            final(self)@ == old(self)@.insert(k, v@),
    {
        let ghost m = self.ghost_map@.insert(k, v@);
        let found = self.index_of(&k);
        let mut taken: Table<K, V> = Table::new();
        std::mem::swap(self, &mut taken);
        let Table { mut entries, ghost_map: _ } = taken;
        let ghost old_entries = entries@;
        assert(old_entries == old(self).entries@);
        match found {
            Some(i) => {
                entries.set(i, (k, v));
                assert forall|key: K| #[trigger] m.contains_key(key) implies exists|j: int|
                    0 <= j < entries@.len() && entries@[j].0 == key by {
                    if key != k {
                        let j = choose|j: int| 0 <= j < old_entries.len() && old_entries[j].0 == key;
                        assert(entries@[j].0 == key);
                    } else {
                        assert(entries@[i as int].0 == key);
                    }
                }
            },
            None => {
                entries.push((k, v));
                let n = entries.len() - 1;
                assert forall|key: K| #[trigger] m.contains_key(key) implies exists|j: int|
                    0 <= j < entries@.len() && entries@[j].0 == key by {
                    if key != k {
                        let j = choose|j: int| 0 <= j < old_entries.len() && old_entries[j].0 == key;
                        assert(entries@[j].0 == key);
                    } else {
                        assert(entries@[n as int].0 == key);
                    }
                }
            },
        }
        assert(entries_match(entries@, m));
        *self = Table { entries, ghost_map: Ghost(m) };
    }

    /// Removes the entry of `k`, returning its value.
    pub fn remove(&mut self, k: &K) -> (r: Option<V>)
        requires
            old(self).wf(),
        ensures
            final(self).wf(),
            final(self)@ == old(self)@.remove(*k),
            r is Some <==> old(self)@.contains_key(*k),
            r matches Some(v) ==> v@ == old(self)@[*k],
    {
        match self.index_of(k) {
            None => {
                assert(self@.remove(*k) =~= self@);
                None
            },
            Some(i) => {
                let ghost m = self.ghost_map@.remove(*k);
                let ghost old_map = self.ghost_map@;
                assert(old_map.contains_key(self.entries@[i as int].0));
                let mut taken: Table<K, V> = Table::new();
                std::mem::swap(self, &mut taken);
                let Table { mut entries, ghost_map: _ } = taken;
                let ghost old_entries = entries@;
                assert(entries_match(old_entries, old_map));
                let (_, v) = entries.remove(i);
                proof {
                    let n = entries@;
                    assert(n =~= old_entries.remove(i as int));
                    assert forall|a: int, b: int| 0 <= a < b < n.len() implies n[a].0 != n[b].0 by {
                        let oa = if a < i { a } else { a + 1 };
                        let ob = if b < i { b } else { b + 1 };
                        assert(n[a] == old_entries[oa]);
                        assert(n[b] == old_entries[ob]);
                    }
                    assert forall|j: int| 0 <= j < n.len() implies #[trigger] m.contains_key(n[j].0) && m[n[j].0] == n[j].1@ by {
                        let oj = if j < i { j } else { j + 1 };
                        assert(n[j] == old_entries[oj]);
                        assert(old_map.contains_key(old_entries[oj].0));
                    }
                    assert forall|key: K| #[trigger] m.contains_key(key) implies exists|j: int| 0 <= j < n.len() && n[j].0 == key by {
                        assert(old_map.contains_key(key));
                        let q = choose|q: int| 0 <= q < old_entries.len() && old_entries[q].0 == key;
                        assert(q != i);
                        let nj = if q < i { q } else { q - 1 };
                        assert(n[nj] == old_entries[q]);
                    }
                }
                *self = Table { entries, ghost_map: Ghost(m) };
                Some(v)
            },
        }
    }

    /// Removes every entry.
    pub fn clear(&mut self)
        ensures
            final(self).wf(),
            final(self)@ == Map::<K, V::V>::empty(),
    {
        *self = Table::new();
    }

    pub fn len(&self) -> (r: usize)
        requires
            self.wf(),
        ensures
            r == self@.len(),
            self@.dom().finite(),
    {
        proof {
            lemma_entries_len(self.entries@, self.ghost_map@);
        }
        self.entries.len()
    }

    /// A copy holding the same map.
    pub fn duplicate(&self) -> (r: Self) where V: TableValue
        requires
            self.wf(),
        ensures
            r.wf(),
            r@ == self@,
    {
        let mut entries: Vec<(K, V)> = Vec::new();
        let mut i: usize = 0;
        while i < self.entries.len()
            invariant
                i <= self.entries@.len(),
                entries@.len() == i,
                forall|j: int| 0 <= j < i ==> entries@[j].0 == self.entries@[j].0 && entries@[j].1@
                    == self.entries@[j].1@,
            decreases self.entries@.len() - i,
        {
            entries.push((self.entries[i].0, self.entries[i].1.duplicate()));
            i = i + 1;
        }
        assert(entries_match(entries@, self.ghost_map@)) by {
            assert forall|k: K| #[trigger] self.ghost_map@.contains_key(k) implies exists|j: int|
                0 <= j < entries@.len() && entries@[j].0 == k by {
                let j = choose|j: int| 0 <= j < self.entries@.len() && self.entries@[j].0 == k;
                assert(entries@[j].0 == k);
            }
        }
        Table { entries, ghost_map: Ghost(self.ghost_map@) }
    }

    /// The keys in the order the entries are kept.
    pub closed spec fn keys(&self) -> Seq<K> {
        Seq::new(self.entries@.len(), |i: int| self.entries@[i].0)
    }

    /// The keys are distinct and are exactly those of the map.
    pub proof fn lemma_keys(&self)
        requires
            self.wf(),
        ensures
            self.keys().len() == self@.len(),
            self.keys().no_duplicates(),
            self@.dom().finite(),
            forall|k: K| self@.contains_key(k) <==> self.keys().contains(k),
    {
        lemma_entries_len(self.entries@, self.ghost_map@);
        assert forall|k: K| self@.contains_key(k) <==> self.keys().contains(k) by {
            if self@.contains_key(k) {
                let j = choose|j: int| 0 <= j < self.entries@.len() && self.entries@[j].0 == k;
                assert(self.keys()[j] == k);
            }
            if self.keys().contains(k) {
                let j = choose|j: int| 0 <= j < self.keys().len() && self.keys()[j] == k;
                assert(self.ghost_map@.contains_key(self.entries@[j].0));
            }
        }
    }

    /// The entry at position `i`.
    pub fn entry_at(&self, i: usize) -> (r: (&K, &V))
        requires
            self.wf(),
            i < self@.len(),
        ensures
            self@.contains_key(*r.0),
            self@[*r.0] == r.1@,
            *r.0 == self.keys()[i as int],
    {
        proof {
            lemma_entries_len(self.entries@, self.ghost_map@);
            assert(self.ghost_map@.contains_key(self.entries@[i as int].0));
        }
        (&self.entries[i].0, &self.entries[i].1)
    }
}

/// Distinct keys: the map holds finitely many keys, as many as there are entries.
proof fn lemma_entries_len<K, V: View>(entries: Seq<(K, V)>, m: Map<K, V::V>)
    requires
        entries_match(entries, m),
    ensures
        entries.len() == m.len(),
        m.dom().finite(),
{
    let keys = Seq::new(entries.len(), |i: int| entries[i].0);
    assert(keys.no_duplicates());
    assert(m.dom() =~= keys.to_set()) by {
        assert forall|k: K| m.dom().contains(k) implies keys.to_set().contains(k) by {
            let j = choose|j: int| 0 <= j < entries.len() && entries[j].0 == k;
            assert(keys[j] == k);
        }
    }
    keys.unique_seq_to_set();
}

} // verus!
