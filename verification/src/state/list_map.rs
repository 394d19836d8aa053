//! Finite maps held as lists in which no key occurs twice.
use crate::felt::Felt;
use crate::utils::Address;
use vstd::prelude::*;

verus! {

/// A key that can be told from another by what it denotes.
pub trait MapKey: View + Copy {
    /// Whether two keys denote the same thing.
    fn same_key(&self, other: &Self) -> (r: bool)
        ensures
            r == (self@ == other@),
    ;
}

impl MapKey for Felt {
    fn same_key(&self, other: &Felt) -> (r: bool) {
        self.equals(other)
    }
}

impl MapKey for Address {
    fn same_key(&self, other: &Address) -> (r: bool) {
        self.equals(other)
    }
}

/// A storage cell: a contract's address and a key of its storage.
#[derive(Clone, Copy, Debug, PartialEq, Eq, Hash)]
pub struct StorageEntry(pub Address, pub Felt);

impl View for StorageEntry {
    type V = (nat, nat);

    open spec fn view(&self) -> (nat, nat) {
        (self.0@, self.1@)
    }
}

impl MapKey for StorageEntry {
    fn same_key(&self, other: &StorageEntry) -> (r: bool) {
        self.0.equals(&other.0) && self.1.equals(&other.1)
    }
}

/// A value that can be copied so that the copy denotes the same thing.
pub trait MapValue: View + Sized {
    /// A copy that denotes what the value denotes.
    fn duplicate(&self) -> (r: Self)
        ensures
            r@ == self@,
    ;
}

impl MapValue for Felt {
    fn duplicate(&self) -> (r: Felt) {
        *self
    }
}

/// The keys of a list of entries.
pub open spec fn entry_keys<K: View, V: View>(s: Seq<(K, V)>) -> Seq<K::V> {
    s.map_values(|e: (K, V)| e.0@)
}

/// The map that a list of entries with distinct keys stands for.
pub open spec fn entries_map<K: View, V: View>(s: Seq<(K, V)>) -> Map<K::V, V::V> {
    Map::new(
        |k: K::V| entry_keys(s).contains(k),
        |k: K::V| s[entry_keys(s).index_of(k)].1@,
    )
}

/// A finite map from keys of `K`, told apart by what they denote, to values
/// of `V`.
#[derive(Debug)]
pub struct ListMap<K: MapKey, V: MapValue> {
    entries: Vec<(K, V)>,
}

impl<K: MapKey, V: MapValue> View for ListMap<K, V> {
    type V = Map<K::V, V::V>;

    closed spec fn view(&self) -> Map<K::V, V::V> {
        entries_map(self.entries@)
    }
}

impl<K: MapKey, V: MapValue> ListMap<K, V> {
    /// The keys of the map in the order in which they came into it.
    pub closed spec fn keys(&self) -> Seq<K::V> {
        entry_keys(self.entries@)
    }

    #[verifier::type_invariant]
    spec fn distinct_keys(self) -> bool {
        entry_keys(self.entries@).no_duplicates()
    }

    /// The map without entries.
    pub fn new() -> (r: ListMap<K, V>)
        ensures
            r@ == Map::<K::V, V::V>::empty(),
    {
        let r = ListMap { entries: Vec::new() };
        assert(r@ =~= Map::<K::V, V::V>::empty());
        r
    }

    /// How many keys the map holds.
    pub fn len(&self) -> (n: usize)
        ensures
            n == self@.dom().len(),
            n == self.keys().len(),
            self@.dom().finite(),
            self.keys().no_duplicates(),
            self.keys().to_set() == self@.dom(),
    {
        proof {
            use_type_invariant(self);
            let keys = entry_keys(self.entries@);
            keys.unique_seq_to_set();
            assert(self@.dom() =~= keys.to_set());
        }
        self.entries.len()
    }

    /// The key at a position of [`Self::keys`].
    pub fn key_at(&self, i: usize) -> (r: K)
        requires
            i < self.keys().len(),
        ensures
            r@ == self.keys()[i as int],
            self@.contains_key(r@),
    {
        proof {
            assert(entry_keys(self.entries@)[i as int] == self.entries@[i as int].0@);
        }
        self.entries[i].0
    }

    /// The value under the key at a position of [`Self::keys`].
    pub fn value_at(&self, i: usize) -> (r: &V)
        requires
            i < self.keys().len(),
        ensures
            self@.contains_key(self.keys()[i as int]),
            r@ == self@[self.keys()[i as int]],
    {
        proof {
            use_type_invariant(self);
            let keys = entry_keys(self.entries@);
            assert(keys[i as int] == self.entries@[i as int].0@);
            let j = keys.index_of(keys[i as int]);
            assert(keys[j] == keys[i as int]);
        }
        &self.entries[i].1
    }

    /// Whether the map holds a key.
    pub fn contains_key(&self, key: &K) -> (r: bool)
        ensures
            r == self@.contains_key(key@),
    {
        match self.position(key) {
            Some(i) => {
                proof {
                    assert(entry_keys(self.entries@)[i as int] == key@);
                }
                true
            },
            None => false,
        }
    }

    fn position(&self, key: &K) -> (r: Option<usize>)
        ensures
            match r {
                Some(i) => i < self.entries@.len() && self.entries@[i as int].0@ == key@,
                None => !entry_keys(self.entries@).contains(key@),
            },
    {
        let mut i: usize = 0;
        while i < self.entries.len()
            invariant
                0 <= i <= self.entries.len(),
                forall|j: int| 0 <= j < i ==> self.entries@[j].0@ != key@,
            decreases self.entries.len() - i,
        {
            if self.entries[i].0.same_key(key) {
                return Some(i);
            }
            i += 1;
        }
        None
    }

    /// The value under a key, if the map holds the key.
    pub fn get(&self, key: &K) -> (r: Option<&V>)
        ensures
            match r {
                Some(v) => self@.contains_key(key@) && v@ == self@[key@],
                None => !self@.contains_key(key@),
            },
    {
        proof {
            use_type_invariant(self);
        }
        match self.position(key) {
            Some(i) => {
                proof {
                    let keys = entry_keys(self.entries@);
                    assert(keys[i as int] == key@);
                    assert(keys.contains(key@));
                    let j = keys.index_of(key@);
                    assert(keys[j] == key@);
                }
                Some(&self.entries[i].1)
            },
            None => None,
        }
    }

    /// Sets the value under a key, whether or not the map held the key.
    pub fn insert(&mut self, key: K, value: V)
        ensures
            final(self)@ == old(self)@.insert(key@, value@),
    {
        proof {
            use_type_invariant(&*self);
        }
        let ghost before = self.entries@;
        let ghost value_view = value@;
        let found = self.position(&key);
        let mut taken = ListMap { entries: Vec::new() };
        core::mem::swap(self, &mut taken);
        let ListMap { entries: mut entries } = taken;
        match found {
            Some(i) => {
                entries.set(i, (key, value));
                proof {
                    let after = entries@;
                    assert(entry_keys(after) =~= entry_keys(before));
                    assert forall|k: K::V| #[trigger] entries_map(after).contains_key(k) implies entries_map(after)[k] == entries_map(before).insert(key@, value_view)[k] by {
                        let j = entry_keys(before).index_of(k);
                        assert(entry_keys(before)[j] == k);
                        if k == key@ {
                            assert(entry_keys(before)[i as int] == key@);
                        }
                    }
                    assert(entry_keys(before)[i as int] == key@);
                    assert(entry_keys(before).contains(key@));
                    assert(entries_map(after).dom() =~= entries_map(before).insert(
                        key@,
                        value_view,
                    ).dom());
                    assert(entries_map(after) =~= entries_map(before).insert(key@, value_view));
                }
            },
            None => {
                entries.push((key, value));
                proof {
                    let after = entries@;
                    assert(entry_keys(after) =~= entry_keys(before).push(key@));
                    assert forall|k: K::V| #[trigger] entries_map(after).contains_key(k) implies entries_map(after)[k] == entries_map(before).insert(key@, value_view)[k] by {
                        let j = entry_keys(after).index_of(k);
                        assert(entry_keys(after)[j] == k);
                        if k != key@ {
                            let j0 = entry_keys(before).index_of(k);
                            assert(entry_keys(before)[j0] == k);
                            assert(entry_keys(after)[j0] == k);
                        } else {
                            assert(entry_keys(after)[before.len() as int] == k);
                        }
                    }
                    assert forall|k: K::V|
                        entry_keys(after).contains(k) <==> (entry_keys(before).contains(k) || k
                            == key@) by {
                        if entry_keys(after).contains(k) {
                            let j = entry_keys(after).index_of(k);
                            if j < before.len() {
                                assert(entry_keys(before)[j] == k);
                            }
                        }
                        if entry_keys(before).contains(k) {
                            let j = entry_keys(before).index_of(k);
                            assert(entry_keys(after)[j] == k);
                        }
                        if k == key@ {
                            assert(entry_keys(after)[before.len() as int] == k);
                        }
                    }
                    assert(entries_map(after).dom() =~= entries_map(before).insert(
                        key@,
                        value@,
                    ).dom());
                    assert(entries_map(after) =~= entries_map(before).insert(key@, value_view));
                }
            },
        }
        *self = ListMap { entries };
    }

    /// A copy of the map.
    pub fn duplicate(&self) -> (r: ListMap<K, V>)
        ensures
            r@ == self@,
            r.keys() == self.keys(),
    {
        proof {
            use_type_invariant(self);
        }
        let mut entries: Vec<(K, V)> = Vec::new();
        let mut i: usize = 0;
        while i < self.entries.len()
            invariant
                0 <= i <= self.entries.len(),
                entries@.len() == i,
                forall|j: int|
                    0 <= j < i ==> entries@[j].0@ == self.entries@[j].0@ && entries@[j].1@
                        == self.entries@[j].1@,
            decreases self.entries.len() - i,
        {
            entries.push((self.entries[i].0, self.entries[i].1.duplicate()));
            i += 1;
        }
        proof {
            assert(entry_keys(entries@) =~= entry_keys(self.entries@));
            assert(entries_map(entries@) =~= entries_map(self.entries@));
        }
        ListMap { entries }
    }

    /// Sets every key of another map to the value that it has there.
    pub fn extend_from(&mut self, other: &ListMap<K, V>)
        ensures
            final(self)@ == old(self)@.union_prefer_right(other@),
    {
        let n = other.len();
        let mut i: usize = 0;
        while i < n
            invariant
                0 <= i <= n,
                n == other.keys().len(),
                other.keys().no_duplicates(),
                other.keys().to_set() == other@.dom(),
                forall|k: K::V|
                    self@.contains_key(k) <==> (old(self)@.contains_key(k) || exists|j: int|
                        0 <= j < i && other.keys()[j] == k),
                forall|k: K::V| #[trigger]
                    self@.contains_key(k) ==> self@[k] == (if exists|j: int|
                        0 <= j < i && other.keys()[j] == k {
                        other@[k]
                    } else {
                        old(self)@[k]
                    }),
            decreases n - i,
        {
            let key = other.key_at(i);
            let value = other.value_at(i).duplicate();
            self.insert(key, value);
            i += 1;
        }
        proof {
            let keys = other.keys();
            assert forall|k: K::V| other@.contains_key(k) <==> exists|j: int|
                0 <= j < n && keys[j] == k by {
                if other@.contains_key(k) {
                    assert(keys.to_set().contains(k));
                    let j = keys.index_of(k);
                    assert(keys[j] == k);
                }
                if exists|j: int| 0 <= j < n && keys[j] == k {
                    let j = choose|j: int| 0 <= j < n && keys[j] == k;
                    assert(keys.to_set().contains(keys[j]));
                }
            }
            assert(self@ =~= old(self)@.union_prefer_right(other@));
        }
    }
}

} // verus!
