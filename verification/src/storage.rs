use vstd::prelude::*;

use crate::address::StorageKey;

verus! {

/// A keyed store of records: each key holds at most one value.
pub struct KeyMap<K, V> {
    entries: Vec<(K, V)>,
}

/// Sum of the values of a sequence of entries.
pub open spec fn entries_sum<K>(s: Seq<(K, u128)>) -> nat
    decreases s.len(),
{
    if s.len() == 0 {
        0
    } else {
        entries_sum(s.drop_last()) + s.last().1 as nat
    }
}

/// Replacing one value changes the sum by the difference.
pub proof fn lemma_entries_sum_update<K>(s: Seq<(K, u128)>, i: int, x: (K, u128))
    requires
        0 <= i < s.len(),
    ensures
        entries_sum(s.update(i, x)) + s[i].1 == entries_sum(s) + x.1,
    decreases s.len(),
{
    let t = s.update(i, x);
    if i == s.len() - 1 {
        assert(t.drop_last() =~= s.drop_last());
    } else {
        assert(t.drop_last() =~= s.drop_last().update(i, x));
        lemma_entries_sum_update(s.drop_last(), i, x);
    }
}

/// No single value exceeds the sum.
pub proof fn lemma_entry_le_sum<K>(s: Seq<(K, u128)>, i: int)
    requires
        0 <= i < s.len(),
    ensures
        s[i].1 <= entries_sum(s),
    decreases s.len(),
{
    if i < s.len() - 1 {
        lemma_entry_le_sum(s.drop_last(), i);
    }
}

/// Two distinct values together do not exceed the sum.
pub proof fn lemma_two_entries_le_sum<K>(s: Seq<(K, u128)>, i: int, j: int)
    requires
        0 <= i < s.len(),
        0 <= j < s.len(),
        i != j,
    ensures
        s[i].1 + s[j].1 <= entries_sum(s),
    decreases s.len(),
{
    let n = s.len() - 1;
    if i == n {
        lemma_entry_le_sum(s.drop_last(), j);
    } else if j == n {
        lemma_entry_le_sum(s.drop_last(), i);
    } else {
        lemma_two_entries_le_sum(s.drop_last(), i, j);
    }
}

impl<K: StorageKey, V> View for KeyMap<K, V> {
    type V = Map<K, V>;

    /// The records held, as a map from key to value.
    closed spec fn view(&self) -> Map<K, V> {
        Map::new(|k: K| self.has(k), |k: K| self.entries@[self.index_of(k)].1)
    }
}

impl<K: StorageKey, V> KeyMap<K, V> {
    /// Keys are never stored twice.
    pub closed spec fn wf(&self) -> bool {
        forall|i: int, j: int|
            0 <= i < j < self.entries@.len() ==> #[trigger] self.entries@[i].0
                != #[trigger] self.entries@[j].0
    }

    /// Whether `k` holds a value.
    pub closed spec fn has(&self, k: K) -> bool {
        exists|i: int| 0 <= i < self.entries@.len() && #[trigger] self.entries@[i].0 == k
    }

    /// The position at which `k` is held.
    closed spec fn index_of(&self, k: K) -> int {
        choose|i: int| 0 <= i < self.entries@.len() && #[trigger] self.entries@[i].0 == k
    }

    /// The stored entries, in storage order.
    pub closed spec fn entry_seq(&self) -> Seq<(K, V)> {
        self.entries@
    }

    /// The entries after storing `v` under `k`.
    pub closed spec fn inserted_seq(&self, k: K, v: V) -> Seq<(K, V)> {
        if self.has(k) {
            self.entries@.update(self.index_of(k), (k, v))
        } else {
            self.entries@.push((k, v))
        }
    }


    proof fn lemma_index_of(&self, k: K, i: int)
        requires
            self.wf(),
            0 <= i < self.entries@.len(),
            self.entries@[i].0 == k,
        ensures
            self.has(k),
            self.index_of(k) == i,
            self.view().dom().contains(k),
            self.view()[k] == self.entries@[i].1,
    {
        assert(self.has(k));
        let j = self.index_of(k);
        if j < i {
            assert(self.entries@[j].0 != self.entries@[i].0);
        } else if i < j {
            assert(self.entries@[i].0 != self.entries@[j].0);
        }
    }

    /// An empty store.
    pub fn new() -> (m: Self)
        ensures
            m.wf(),
            m.view() == Map::<K, V>::empty(),
    {
        let m = KeyMap { entries: Vec::new() };
        assert(m.view() =~= Map::<K, V>::empty());
        m
    }

    fn find(&self, k: &K) -> (r: Option<usize>)
        requires
            self.wf(),
        ensures
            r matches Some(i) ==> i < self.entries@.len() && self.entries@[i as int].0 == *k,
            r is None ==> !self.view().dom().contains(*k),
    {
        let mut i: usize = 0;
        while i < self.entries.len()
            invariant
                i <= self.entries@.len(),
                forall|j: int| 0 <= j < i ==> #[trigger] self.entries@[j].0 != *k,
            decreases self.entries@.len() - i,
        {
            if self.entries[i].0.same_key(k) {
                return Some(i);
            }
            i = i + 1;
        }
        None
    }

    /// The value held under `k`, if any.
    pub fn get(&self, k: &K) -> (r: Option<&V>)
        requires
            self.wf(),
        ensures
            r is Some <==> self.view().dom().contains(*k),
            r matches Some(v) ==> *v == self.view()[*k],
    {
        match self.find(k) {
            Some(i) => {
                proof {
                    self.lemma_index_of(*k, i as int);
                }
                Some(&self.entries[i].1)
            },
            None => None,
        }
    }

    /// Whether `k` holds a value.
    pub fn contains(&self, k: &K) -> (r: bool)
        requires
            self.wf(),
        ensures
            r == self.view().dom().contains(*k),
    {
        match self.find(k) {
            Some(i) => {
                proof {
                    self.lemma_index_of(*k, i as int);
                }
                true
            },
            None => false,
        }
    }

    /// Stores `v` under `k`, replacing what `k` held.
    pub fn insert(&mut self, k: K, v: V)
        requires
            old(self).wf(),
        ensures
            final(self).wf(),
            final(self).view() == old(self).view().insert(k, v),
            final(self).entry_seq() == old(self).inserted_seq(k, v),
    {
        let ghost before = *self;
        match self.find(&k) {
            Some(i) => {
                proof {
                    before.lemma_index_of(k, i as int);
                }
                self.entries.set(i, (k, v));
                proof {
                    assert forall|a: int, b: int|
                        0 <= a < b < self.entries@.len() implies #[trigger] self.entries@[a].0
                        != #[trigger] self.entries@[b].0 by {
                        assert(before.entries@[a].0 != before.entries@[b].0);
                    }
                    self.lemma_index_of(k, i as int);
                    assert forall|q: K| #[trigger]
                        self.view().dom().contains(q) == before.view().insert(
                            k,
                            v,
                        ).dom().contains(q) by {
                        if self.has(q) {
                            let j = self.index_of(q);
                            if j != i {
                                assert(before.entries@[j].0 == q);
                            }
                        }
                        if before.has(q) {
                            let j = before.index_of(q);
                            assert(self.entries@[j].0 == q || j == i);
                        }
                    }
                    assert forall|q: K| #[trigger]
                        self.view().dom().contains(q) implies self.view()[q] == before.view().insert(
                            k,
                            v,
                        )[q] by {
                        let j = self.index_of(q);
                        self.lemma_index_of(q, j);
                        if q != k {
                            before.lemma_index_of(q, j);
                        }
                    }
                    assert(self.view() =~= before.view().insert(k, v));
                }
            },
            None => {
                self.entries.push((k, v));
                proof {
                    let n = before.entries@.len() as int;
                    assert forall|a: int, b: int|
                        0 <= a < b < self.entries@.len() implies #[trigger] self.entries@[a].0
                        != #[trigger] self.entries@[b].0 by {
                        if b == n {
                            assert(before.entries@[a].0 == self.entries@[a].0);
                            if before.entries@[a].0 == k {
                                assert(before.has(k));
                            }
                        } else {
                            assert(before.entries@[a].0 != before.entries@[b].0);
                        }
                    }
                    self.lemma_index_of(k, n);
                    assert forall|q: K| #[trigger]
                        self.view().dom().contains(q) == before.view().insert(
                            k,
                            v,
                        ).dom().contains(q) by {
                        if self.has(q) {
                            let j = self.index_of(q);
                            if j != n {
                                assert(before.entries@[j].0 == q);
                            }
                        }
                        if before.has(q) {
                            let j = before.index_of(q);
                            assert(self.entries@[j].0 == q);
                        }
                    }
                    assert forall|q: K| #[trigger]
                        self.view().dom().contains(q) implies self.view()[q] == before.view().insert(
                            k,
                            v,
                        )[q] by {
                        let j = self.index_of(q);
                        self.lemma_index_of(q, j);
                        if q != k {
                            before.lemma_index_of(q, j);
                        }
                    }
                    assert(self.view() =~= before.view().insert(k, v));
                }
            },
        }
    }
}

impl<K: StorageKey> KeyMap<K, u128> {
    /// Sum of all values held.
    pub closed spec fn total(&self) -> nat {
        entries_sum(self.entries@)
    }

    /// The value held under `k`, or zero.
    pub open spec fn amount_of(&self, k: K) -> nat {
        if self.view().dom().contains(k) {
            self.view()[k] as nat
        } else {
            0
        }
    }

    /// The sum of an empty store is zero.
    pub proof fn lemma_new_total(&self)
        requires
            self.view() == Map::<K, u128>::empty(),
            self.wf(),
        ensures
            self.total() == 0,
    {
        if self.entries@.len() > 0 {
            let k = self.entries@[0].0;
            self.lemma_index_of(k, 0);
        }
    }

    /// No value exceeds the sum; two values under distinct keys together do not either.
    pub proof fn lemma_amounts_le_total(&self, a: K, b: K)
        requires
            self.wf(),
        ensures
            self.amount_of(a) <= self.total(),
            a != b ==> self.amount_of(a) + self.amount_of(b) <= self.total(),
    {
        if self.view().dom().contains(a) {
            let i = self.index_of(a);
            self.lemma_index_of(a, i);
            lemma_entry_le_sum(self.entries@, i);
            if a != b && self.view().dom().contains(b) {
                let j = self.index_of(b);
                self.lemma_index_of(b, j);
                lemma_two_entries_le_sum(self.entries@, i, j);
            }
        } else if self.view().dom().contains(b) {
            let j = self.index_of(b);
            self.lemma_index_of(b, j);
            lemma_entry_le_sum(self.entries@, j);
        }
    }

    /// The value held under `k`, or zero.
    pub fn amount(&self, k: &K) -> (r: u128)
        requires
            self.wf(),
        ensures
            r == self.amount_of(*k),
    {
        match self.get(k) {
            Some(v) => *v,
            None => 0,
        }
    }

    /// Stores `v` under `k`; the sum moves by the difference.
    pub fn set_amount(&mut self, k: K, v: u128)
        requires
            old(self).wf(),
        ensures
            final(self).wf(),
            final(self).view() == old(self).view().insert(k, v),
            final(self).total() + old(self).amount_of(k) == old(self).total() + v,
    {
        let ghost before = *self;
        self.insert(k, v);
        proof {
            if before.has(k) {
                let i = before.index_of(k);
                before.lemma_index_of(k, i);
                lemma_entries_sum_update(before.entries@, i, (k, v));
            } else {
                assert(before.entries@.push((k, v)).drop_last() =~= before.entries@);
            }
        }
    }
}

impl<K: StorageKey> KeyMap<K, u64> {
    /// The count held under `k`, or zero.
    pub open spec fn count_of(&self, k: K) -> nat {
        if self.view().dom().contains(k) {
            self.view()[k] as nat
        } else {
            0
        }
    }

    /// The count held under `k`, or zero.
    pub fn count(&self, k: &K) -> (r: u64)
        requires
            self.wf(),
        ensures
            r == self.count_of(*k),
    {
        match self.get(k) {
            Some(v) => *v,
            None => 0,
        }
    }
}

} // verus!
