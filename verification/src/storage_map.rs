//! A key-value store of `i128` amounts, the shape of a contract's persistent
//! storage: reading a key that was never written gives nothing.
use vstd::prelude::*;
use crate::address::Address;

verus! {

/// A type usable as a storage key: keys are compared by value.
pub trait StorageKey: Sized {
    /// Whether two keys are the same key.
    fn same_key(&self, other: &Self) -> (r: bool)
        ensures
            r == (*self == *other),
    ;
}

impl StorageKey for Address {
    fn same_key(&self, other: &Self) -> (r: bool) {
        self.same(other)
    }
}

impl StorageKey for (Address, Address) {
    fn same_key(&self, other: &Self) -> (r: bool) {
        self.0.same(&other.0) && self.1.same(&other.1)
    }
}

/// A finite map from keys to `i128` amounts.
#[verifier::reject_recursive_types(K)]
pub struct StorageMap<K> {
    entries: Vec<(K, i128)>,
}

impl<K> StorageMap<K> {
    /// The keys held, in the order in which they were first written.
    closed spec fn keys(self) -> Seq<K> {
        self.entries@.map_values(|e: (K, i128)| e.0)
    }

    /// No key is held twice.
    #[verifier::type_invariant]
    closed spec fn distinct_keys(self) -> bool {
        forall|i: int, j: int|
            0 <= i < j < self.entries@.len() ==> self.entries@[i].0 != self.entries@[j].0
    }

    /// The position at which a held key is stored.
    closed spec fn position(self, k: K) -> int {
        choose|i: int| 0 <= i < self.entries@.len() && self.entries@[i].0 == k
    }

    /// The contents as a mathematical map.
    pub closed spec fn contents(self) -> Map<K, i128> {
        Map::new(
            |k: K| self.keys().contains(k),
            |k: K| self.entries@[self.position(k)].1,
        )
    }

    /// Where a key is found, the contents map it to the amount stored there.
    proof fn lemma_position(self, i: int)
        requires
            self.distinct_keys(),
            0 <= i < self.entries@.len(),
        ensures
            self.keys().contains(self.entries@[i].0),
            self.position(self.entries@[i].0) == i,
            self.contents().contains_key(self.entries@[i].0),
            self.contents()[self.entries@[i].0] == self.entries@[i].1,
    {
        let k = self.entries@[i].0;
        assert(self.keys()[i] == k);
        let j = self.position(k);
        assert(0 <= j < self.entries@.len() && self.entries@[j].0 == k);
    }
}

impl<K> View for StorageMap<K> {
    type V = Map<K, i128>;

    closed spec fn view(&self) -> Map<K, i128> {
        self.contents()
    }
}

impl<K: StorageKey + Copy> StorageMap<K> {
    /// An empty store.
    pub fn new() -> (r: Self)
        ensures
            r@ == Map::<K, i128>::empty(),
    {
        let r = StorageMap { entries: Vec::new() };
        assert(r@ =~= Map::<K, i128>::empty());
        r
    }

    /// The contents of a store are finite.
    pub proof fn lemma_finite(&self)
        ensures
            self@.dom().finite(),
    {
        assert(self@.dom() =~= self.keys().to_set());
        vstd::seq_lib::seq_to_set_is_finite(self.keys());
    }

    /// The position of `k`, if it is held.
    fn find(&self, k: &K) -> (r: Option<usize>)
        ensures
            match r {
                Some(i) => i < self.entries@.len() && self.entries@[i as int].0 == *k,
                None => !self.keys().contains(*k),
            },
    {
        let n = self.entries.len();
        let mut i: usize = 0;
        while i < n
            invariant
                n == self.entries@.len(),
                i <= n,
                forall|j: int| 0 <= j < i ==> self.entries@[j].0 != *k,
            decreases n - i,
        {
            if self.entries[i].0.same_key(k) {
                return Some(i);
            }
            i = i + 1;
        }
        assert forall|j: int| 0 <= j < self.keys().len() implies self.keys()[j] != *k by {
            assert(self.keys()[j] == self.entries@[j].0);
        }
        None
    }

    /// The amount stored under `k`, if any.
    pub fn get(&self, k: &K) -> (r: Option<i128>)
        ensures
            r == (if self@.contains_key(*k) { Some(self@[*k]) } else { None::<i128> }),
    {
        proof {
            use_type_invariant(self);
        }
        match self.find(k) {
            Some(i) => {
                proof {
                    self.lemma_position(i as int);
                }
                Some(self.entries[i].1)
            },
            None => None,
        }
    }

    /// Stores `v` under `k`, replacing what was stored there.
    pub fn set(&mut self, k: K, v: i128)
        ensures
            final(self)@ == old(self)@.insert(k, v),
    {
        proof {
            use_type_invariant(&*self);
        }
        let ghost before = *self;
        let found = self.find(&k);
        let mut taken = StorageMap { entries: Vec::new() };
        core::mem::swap(self, &mut taken);
        let mut entries = taken.entries;
        assert(entries@ == before.entries@);
        match found {
            Some(i) => {
                entries.set(i, (k, v));
                *self = StorageMap { entries };
                proof {
                    let after = *self;
                    before.lemma_position(i as int);
                    assert forall|j: int| 0 <= j < after.entries@.len() implies
                        after.keys()[j] == before.keys()[j] by {}
                    assert(after.keys() =~= before.keys());
                    assert forall|kk: K| #[trigger] after.contents().contains_key(kk) implies
                        after.contents()[kk] == before.contents().insert(k, v)[kk] by {
                        let p = after.position(kk);
                        after.lemma_position(p);
                        if kk != k {
                            before.lemma_position(p);
                        }
                    }
                    assert(after.contents() =~= before.contents().insert(k, v));
                }
            },
            None => {
                entries.push((k, v));
                proof {
                    assert forall|a: int, b: int| 0 <= a < b < entries@.len() implies
                        entries@[a].0 != entries@[b].0 by {
                        if b == before.entries@.len() {
                            assert(before.keys()[a] == before.entries@[a].0);
                        }
                    }
                }
                *self = StorageMap { entries };
                proof {
                    let after = *self;
                    let n = before.entries@.len() as int;
                    assert forall|j: int| 0 <= j < n implies after.keys()[j] == before.keys()[j] by {}
                    assert(after.keys()[n] == k);
                    assert forall|kk: K| after.keys().contains(kk) <==> before.keys().contains(kk) || kk == k by {
                        if after.keys().contains(kk) {
                            let j = choose|j: int| 0 <= j < after.keys().len() && after.keys()[j] == kk;
                            if j < n {
                                assert(before.keys()[j] == kk);
                            }
                        }
                        if before.keys().contains(kk) {
                            let j = choose|j: int| 0 <= j < before.keys().len() && before.keys()[j] == kk;
                            assert(after.keys()[j] == kk);
                        }
                    }
                    assert forall|kk: K| #[trigger] after.contents().contains_key(kk) implies
                        after.contents()[kk] == before.contents().insert(k, v)[kk] by {
                        let p = after.position(kk);
                        after.lemma_position(p);
                        if kk != k {
                            before.lemma_position(p);
                        } else {
                            after.lemma_position(n);
                        }
                    }
                    assert(after.contents() =~= before.contents().insert(k, v));
                }
            },
        }
    }
}

} // verus!
