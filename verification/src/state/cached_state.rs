//! The layered state: what a transaction wrote, over what it first read,
//! over the store behind it.
use crate::contract_class::{CasmContractClass, CompiledClass, CompiledClassView, ContractClass};
use crate::error::StateError;
use crate::felt::Felt;
use crate::state::list_map::{ListMap, StorageEntry};
use crate::state::state_api::StateReader;
use crate::utils::{Address, ClassHash};
use vstd::prelude::*;

verus! {

/// What a layered cell reads as: the write if there is one, else the value
/// first read, else the value of the store.
pub open spec fn layered<K>(writes: Map<K, nat>, initial: Map<K, nat>, k: K, backing: nat) -> nat {
    if writes.contains_key(k) {
        writes[k]
    } else if initial.contains_key(k) {
        initial[k]
    } else {
        backing
    }
}

/// The first-read values after a read of `k`: the store's value is kept
/// where neither layer had one.
pub open spec fn remembered<K>(writes: Map<K, nat>, initial: Map<K, nat>, k: K, backing: nat) -> Map<
    K,
    nat,
> {
    if writes.contains_key(k) || initial.contains_key(k) {
        initial
    } else {
        initial.insert(k, backing)
    }
}

/// The layers that a [`CachedState`] keeps over its store.
#[derive(Debug)]
pub struct StateCache {
    pub class_hash_initial_values: ListMap<Address, Felt>,
    pub compiled_class_hash_initial_values: ListMap<Felt, Felt>,
    pub nonce_initial_values: ListMap<Address, Felt>,
    pub storage_initial_values: ListMap<StorageEntry, Felt>,
    pub class_hash_writes: ListMap<Address, Felt>,
    pub compiled_class_hash_writes: ListMap<Felt, Felt>,
    pub nonce_writes: ListMap<Address, Felt>,
    pub storage_writes: ListMap<StorageEntry, Felt>,
}

/// What a [`StateCache`] holds.
pub struct StateCacheView {
    pub class_hash_initial_values: Map<nat, nat>,
    pub compiled_class_hash_initial_values: Map<nat, nat>,
    pub nonce_initial_values: Map<nat, nat>,
    pub storage_initial_values: Map<(nat, nat), nat>,
    pub class_hash_writes: Map<nat, nat>,
    pub compiled_class_hash_writes: Map<nat, nat>,
    pub nonce_writes: Map<nat, nat>,
    pub storage_writes: Map<(nat, nat), nat>,
}

impl View for StateCache {
    type V = StateCacheView;

    open spec fn view(&self) -> StateCacheView {
        StateCacheView {
            class_hash_initial_values: self.class_hash_initial_values@,
            compiled_class_hash_initial_values: self.compiled_class_hash_initial_values@,
            nonce_initial_values: self.nonce_initial_values@,
            storage_initial_values: self.storage_initial_values@,
            class_hash_writes: self.class_hash_writes@,
            compiled_class_hash_writes: self.compiled_class_hash_writes@,
            nonce_writes: self.nonce_writes@,
            storage_writes: self.storage_writes@,
        }
    }
}

impl StateCacheView {
    /// The layers with nothing in them.
    pub open spec fn empty() -> StateCacheView {
        StateCacheView {
            class_hash_initial_values: Map::empty(),
            compiled_class_hash_initial_values: Map::empty(),
            nonce_initial_values: Map::empty(),
            storage_initial_values: Map::empty(),
            class_hash_writes: Map::empty(),
            compiled_class_hash_writes: Map::empty(),
            nonce_writes: Map::empty(),
            storage_writes: Map::empty(),
        }
    }
}

impl StateCache {
    /// Layers with nothing in them.
    pub fn new() -> (r: StateCache)
        ensures
            r@ == StateCacheView::empty(),
    {
        StateCache {
            class_hash_initial_values: ListMap::new(),
            compiled_class_hash_initial_values: ListMap::new(),
            nonce_initial_values: ListMap::new(),
            storage_initial_values: ListMap::new(),
            class_hash_writes: ListMap::new(),
            compiled_class_hash_writes: ListMap::new(),
            nonce_writes: ListMap::new(),
            storage_writes: ListMap::new(),
        }
    }

    /// A copy of the layers.
    pub fn duplicate(&self) -> (r: StateCache)
        ensures
            r@ == self@,
            r.storage_writes.keys() == self.storage_writes.keys(),
            r.nonce_writes.keys() == self.nonce_writes.keys(),
            r.class_hash_writes.keys() == self.class_hash_writes.keys(),
    {
        StateCache {
            class_hash_initial_values: self.class_hash_initial_values.duplicate(),
            compiled_class_hash_initial_values: self.compiled_class_hash_initial_values.duplicate(),
            nonce_initial_values: self.nonce_initial_values.duplicate(),
            storage_initial_values: self.storage_initial_values.duplicate(),
            class_hash_writes: self.class_hash_writes.duplicate(),
            compiled_class_hash_writes: self.compiled_class_hash_writes.duplicate(),
            nonce_writes: self.nonce_writes.duplicate(),
            storage_writes: self.storage_writes.duplicate(),
        }
    }
}

/// A state that a transaction works on: its own writes and first reads,
/// and the classes it has seen, over a store that it only reads.
#[derive(Debug)]
pub struct CachedState<'a, T: StateReader> {
    pub state_reader: &'a T,
    pub cache: StateCache,
    pub contract_classes: ListMap<Felt, CompiledClass>,
}

impl<'a, T: StateReader> CachedState<'a, T> {
    /// The class hash that the state shows at an address.
    pub open spec fn class_hash_at(&self, contract_address: nat) -> nat {
        layered(
            self.cache@.class_hash_writes,
            self.cache@.class_hash_initial_values,
            contract_address,
            self.state_reader.spec_class_hash_at(contract_address),
        )
    }

    /// The nonce that the state shows at an address.
    pub open spec fn nonce_at(&self, contract_address: nat) -> nat {
        layered(
            self.cache@.nonce_writes,
            self.cache@.nonce_initial_values,
            contract_address,
            self.state_reader.spec_nonce_at(contract_address),
        )
    }

    /// The value that the state shows in a storage cell.
    pub open spec fn storage_at(&self, storage_entry: (nat, nat)) -> nat {
        layered(
            self.cache@.storage_writes,
            self.cache@.storage_initial_values,
            storage_entry,
            self.state_reader.spec_storage_at(storage_entry),
        )
    }

    /// The compiled class hash that the state shows for a class.
    pub open spec fn compiled_class_hash_of(&self, class_hash: nat) -> nat {
        layered(
            self.cache@.compiled_class_hash_writes,
            self.cache@.compiled_class_hash_initial_values,
            class_hash,
            self.state_reader.spec_compiled_class_hash(class_hash),
        )
    }

    /// The class that the state shows under a hash.
    pub open spec fn contract_class(&self, class_hash: nat) -> Option<CompiledClassView> {
        if self.contract_classes@.contains_key(class_hash) {
            Some(self.contract_classes@[class_hash])
        } else {
            self.state_reader.spec_contract_class(class_hash)
        }
    }

    /// Two states show the same thing wherever they are asked.
    pub open spec fn same_readings(&self, other: &CachedState<'a, T>) -> bool {
        &&& forall|a: nat| self.class_hash_at(a) == other.class_hash_at(a)
        &&& forall|a: nat| self.nonce_at(a) == other.nonce_at(a)
        &&& forall|e: (nat, nat)| self.storage_at(e) == other.storage_at(e)
        &&& forall|h: nat| self.compiled_class_hash_of(h) == other.compiled_class_hash_of(h)
        &&& forall|h: nat| self.contract_class(h) == other.contract_class(h)
    }

    /// This state came out of `before` by reading alone: it shows what
    /// `before` showed and has the writes that `before` had.
    pub open spec fn read_step_of(&self, before: &CachedState<'a, T>) -> bool {
        &&& self.state_reader == before.state_reader
        &&& self.same_readings(before)
        &&& self.cache@.class_hash_writes == before.cache@.class_hash_writes
        &&& self.cache@.nonce_writes == before.cache@.nonce_writes
        &&& self.cache@.storage_writes == before.cache@.storage_writes
        &&& self.cache@.compiled_class_hash_writes == before.cache@.compiled_class_hash_writes
    }

    /// This state came out of `before` by giving the contract at an address
    /// a class, and by reading: but for that class hash it shows what
    /// `before` showed, and but for that write it has the writes of `before`.
    pub open spec fn class_hash_written(
        &self,
        before: &CachedState<'a, T>,
        contract_address: nat,
        class_hash: nat,
    ) -> bool {
        &&& self.state_reader == before.state_reader
        &&& self.cache@.class_hash_writes == before.cache@.class_hash_writes.insert(
            contract_address,
            class_hash,
        )
        &&& self.cache@.nonce_writes == before.cache@.nonce_writes
        &&& self.cache@.storage_writes == before.cache@.storage_writes
        &&& self.cache@.compiled_class_hash_writes == before.cache@.compiled_class_hash_writes
        &&& forall|a: nat|
            self.class_hash_at(a) == if a == contract_address {
                class_hash
            } else {
                before.class_hash_at(a)
            }
        &&& forall|a: nat| self.nonce_at(a) == before.nonce_at(a)
        &&& forall|e: (nat, nat)| self.storage_at(e) == before.storage_at(e)
        &&& forall|h: nat| self.compiled_class_hash_of(h) == before.compiled_class_hash_of(h)
        &&& forall|h: nat| self.contract_class(h) == before.contract_class(h)
    }

    /// A state over a store, with the classes that are already at hand.
    pub fn new(state_reader: &'a T, contract_classes: ListMap<Felt, CompiledClass>) -> (r:
        CachedState<'a, T>)
        ensures
            r.state_reader == state_reader,
            r.cache@ == StateCacheView::empty(),
            r.contract_classes == contract_classes,
    {
        CachedState { state_reader, cache: StateCache::new(), contract_classes }
    }

    /// An overlay of its own: a state that shows what this one shows and
    /// that can be changed, and dropped, without this one noticing.
    pub fn duplicate(&self) -> (r: CachedState<'a, T>)
        ensures
            r.state_reader == self.state_reader,
            r.cache@ == self.cache@,
            r.contract_classes@ == self.contract_classes@,
            r.same_readings(self),
            r.cache.storage_writes.keys() == self.cache.storage_writes.keys(),
            r.cache.nonce_writes.keys() == self.cache.nonce_writes.keys(),
            r.cache.class_hash_writes.keys() == self.cache.class_hash_writes.keys(),
    {
        CachedState {
            state_reader: self.state_reader,
            cache: self.cache.duplicate(),
            contract_classes: self.contract_classes.duplicate(),
        }
    }

    /// Reads the class hash at an address and remembers what the store said.
    pub fn get_class_hash_at(&mut self, contract_address: &Address) -> (r: ClassHash)
        ensures
            r@ == old(self).class_hash_at(contract_address@),
            final(self).state_reader == old(self).state_reader,
            final(self).contract_classes == old(self).contract_classes,
            final(self).cache@ == (StateCacheView {
                class_hash_initial_values: remembered(
                    old(self).cache@.class_hash_writes,
                    old(self).cache@.class_hash_initial_values,
                    contract_address@,
                    old(self).state_reader.spec_class_hash_at(contract_address@),
                ),
                ..old(self).cache@
            }),
            final(self).same_readings(old(self)),
    {
        if let Some(v) = self.cache.class_hash_writes.get(contract_address) {
            return *v;
        }
        if let Some(v) = self.cache.class_hash_initial_values.get(contract_address) {
            return *v;
        }
        let v = self.state_reader.get_class_hash_at(contract_address);
        self.cache.class_hash_initial_values.insert(*contract_address, v);
        v
    }

    /// Reads the nonce at an address and remembers what the store said.
    pub fn get_nonce_at(&mut self, contract_address: &Address) -> (r: Felt)
        ensures
            r@ == old(self).nonce_at(contract_address@),
            final(self).state_reader == old(self).state_reader,
            final(self).contract_classes == old(self).contract_classes,
            final(self).cache@ == (StateCacheView {
                nonce_initial_values: remembered(
                    old(self).cache@.nonce_writes,
                    old(self).cache@.nonce_initial_values,
                    contract_address@,
                    old(self).state_reader.spec_nonce_at(contract_address@),
                ),
                ..old(self).cache@
            }),
            final(self).same_readings(old(self)),
    {
        if let Some(v) = self.cache.nonce_writes.get(contract_address) {
            return *v;
        }
        if let Some(v) = self.cache.nonce_initial_values.get(contract_address) {
            return *v;
        }
        let v = self.state_reader.get_nonce_at(contract_address);
        self.cache.nonce_initial_values.insert(*contract_address, v);
        v
    }

    /// Reads a storage cell and remembers what the store said.
    pub fn get_storage_at(&mut self, storage_entry: &StorageEntry) -> (r: Felt)
        ensures
            r@ == old(self).storage_at(storage_entry@),
            final(self).state_reader == old(self).state_reader,
            final(self).contract_classes == old(self).contract_classes,
            final(self).cache@ == (StateCacheView {
                storage_initial_values: remembered(
                    old(self).cache@.storage_writes,
                    old(self).cache@.storage_initial_values,
                    storage_entry@,
                    old(self).state_reader.spec_storage_at(storage_entry@),
                ),
                ..old(self).cache@
            }),
            final(self).same_readings(old(self)),
    {
        if let Some(v) = self.cache.storage_writes.get(storage_entry) {
            return *v;
        }
        if let Some(v) = self.cache.storage_initial_values.get(storage_entry) {
            return *v;
        }
        let v = self.state_reader.get_storage_at(storage_entry);
        self.cache.storage_initial_values.insert(*storage_entry, v);
        v
    }

    /// Reads the compiled class hash of a class and remembers what the store
    /// said.
    pub fn get_compiled_class_hash(&mut self, class_hash: &ClassHash) -> (r: Felt)
        ensures
            r@ == old(self).compiled_class_hash_of(class_hash@),
            final(self).state_reader == old(self).state_reader,
            final(self).contract_classes == old(self).contract_classes,
            final(self).cache@ == (StateCacheView {
                compiled_class_hash_initial_values: remembered(
                    old(self).cache@.compiled_class_hash_writes,
                    old(self).cache@.compiled_class_hash_initial_values,
                    class_hash@,
                    old(self).state_reader.spec_compiled_class_hash(class_hash@),
                ),
                ..old(self).cache@
            }),
            final(self).same_readings(old(self)),
    {
        if let Some(v) = self.cache.compiled_class_hash_writes.get(class_hash) {
            return *v;
        }
        if let Some(v) = self.cache.compiled_class_hash_initial_values.get(class_hash) {
            return *v;
        }
        let v = self.state_reader.get_compiled_class_hash(class_hash);
        self.cache.compiled_class_hash_initial_values.insert(*class_hash, v);
        v
    }

    /// Looks a class up, first among the classes at hand and then in the
    /// store, and keeps what the store gave.
    pub fn get_contract_class(&mut self, class_hash: &ClassHash) -> (r: Result<
        CompiledClass,
        StateError,
    >)
        ensures
            match r {
                Ok(c) => old(self).contract_class(class_hash@) == Some(c@),
                Err(e) => old(self).contract_class(class_hash@).is_none() && e
                    == StateError::NoneContractClass(*class_hash),
            },
            final(self).state_reader == old(self).state_reader,
            final(self).cache == old(self).cache,
            final(self).contract_classes@ == (match old(self).contract_class(class_hash@) {
                Some(c) => old(self).contract_classes@.insert(class_hash@, c),
                None => old(self).contract_classes@,
            }),
            final(self).same_readings(old(self)),
    {
        if let Some(c) = self.contract_classes.get(class_hash) {
            let found = c.clone();
            assert(self.contract_classes@ =~= self.contract_classes@.insert(class_hash@, found@));
            return Ok(found);
        }
        match self.state_reader.get_contract_class(class_hash) {
            Some(c) => {
                self.contract_classes.insert(*class_hash, c.clone());
                Ok(c)
            },
            None => Err(StateError::NoneContractClass(*class_hash)),
        }
    }

    /// Writes a storage cell.
    pub fn set_storage_at(&mut self, storage_entry: &StorageEntry, value: Felt)
        ensures
            final(self).state_reader == old(self).state_reader,
            final(self).contract_classes == old(self).contract_classes,
            final(self).cache@ == (StateCacheView {
                storage_writes: old(self).cache@.storage_writes.insert(storage_entry@, value@),
                ..old(self).cache@
            }),
    {
        self.cache.storage_writes.insert(*storage_entry, value);
    }

    /// Raises the nonce at an address by one.
    pub fn increment_nonce(&mut self, contract_address: &Address)
        ensures
            final(self).state_reader == old(self).state_reader,
            final(self).contract_classes == old(self).contract_classes,
            final(self).cache@ == (StateCacheView {
                nonce_initial_values: remembered(
                    old(self).cache@.nonce_writes,
                    old(self).cache@.nonce_initial_values,
                    contract_address@,
                    old(self).state_reader.spec_nonce_at(contract_address@),
                ),
                nonce_writes: old(self).cache@.nonce_writes.insert(
                    contract_address@,
                    (old(self).nonce_at(contract_address@) + 1) % crate::felt::prime(),
                ),
                ..old(self).cache@
            }),
            final(self).nonce_at(contract_address@) == (old(self).nonce_at(contract_address@) + 1)
                % crate::felt::prime(),
    {
        let current = self.get_nonce_at(contract_address);
        let next = current.plus(&Felt::one());
        self.cache.nonce_writes.insert(*contract_address, next);
    }

    /// Puts a contract of the given class at an address that holds none.
    /// Where the address holds one, nothing is written.
    pub fn deploy_contract(&mut self, contract_address: Address, class_hash: ClassHash) -> (r:
        Result<(), StateError>)
        ensures
            r is Ok <==> old(self).class_hash_at(contract_address@) == 0,
            r is Err ==> r == Err::<(), StateError>(
                StateError::ContractAddressUnavailable(contract_address),
            ),
            final(self).state_reader == old(self).state_reader,
            final(self).contract_classes == old(self).contract_classes,
            final(self).cache@ == (StateCacheView {
                class_hash_initial_values: remembered(
                    old(self).cache@.class_hash_writes,
                    old(self).cache@.class_hash_initial_values,
                    contract_address@,
                    old(self).state_reader.spec_class_hash_at(contract_address@),
                ),
                class_hash_writes: if r is Ok {
                    old(self).cache@.class_hash_writes.insert(contract_address@, class_hash@)
                } else {
                    old(self).cache@.class_hash_writes
                },
                ..old(self).cache@
            }),
            r is Err ==> final(self).same_readings(old(self)),
    {
        let current = self.get_class_hash_at(&contract_address);
        if !current.is_zero() {
            return Err(StateError::ContractAddressUnavailable(contract_address));
        }
        self.cache.class_hash_writes.insert(contract_address, class_hash);
        Ok(())
    }

    /// Sets the class of the contract at an address, whatever it was.
    pub fn set_class_hash_at(&mut self, contract_address: Address, class_hash: ClassHash)
        ensures
            final(self).state_reader == old(self).state_reader,
            final(self).contract_classes == old(self).contract_classes,
            final(self).cache@ == (StateCacheView {
                class_hash_writes: old(self).cache@.class_hash_writes.insert(
                    contract_address@,
                    class_hash@,
                ),
                ..old(self).cache@
            }),
    {
        self.cache.class_hash_writes.insert(contract_address, class_hash);
    }

    /// Records the hash of the compiled form of a class.
    pub fn set_compiled_class_hash(&mut self, class_hash: &Felt, compiled_class_hash: &Felt)
        ensures
            final(self).state_reader == old(self).state_reader,
            final(self).contract_classes == old(self).contract_classes,
            final(self).cache@ == (StateCacheView {
                compiled_class_hash_writes: old(self).cache@.compiled_class_hash_writes.insert(
                    class_hash@,
                    compiled_class_hash@,
                ),
                ..old(self).cache@
            }),
    {
        self.cache.compiled_class_hash_writes.insert(*class_hash, *compiled_class_hash);
    }

    /// Puts a Cairo 0 class among the classes at hand.
    pub fn set_contract_class(&mut self, class_hash: &ClassHash, contract_class: &ContractClass)
        ensures
            final(self).state_reader == old(self).state_reader,
            final(self).cache == old(self).cache,
            final(self).contract_classes@ == old(self).contract_classes@.insert(
                class_hash@,
                CompiledClassView::Deprecated(contract_class@),
            ),
    {
        self.contract_classes.insert(*class_hash, CompiledClass::Deprecated(contract_class.clone()));
    }

    /// Puts a Cairo 1 class among the classes at hand. A Cairo 0 class that is
    /// at hand under the same hash stays in its place: Cairo 0 classes are
    /// looked up first.
    pub fn set_compiled_class(&mut self, compiled_class_hash: &Felt, casm_class: CasmContractClass)
        ensures
            final(self).state_reader == old(self).state_reader,
            final(self).cache == old(self).cache,
            final(self).contract_classes@ == (if old(self).contract_classes@.contains_key(
                compiled_class_hash@,
            ) && old(self).contract_classes@[compiled_class_hash@] is Deprecated {
                old(self).contract_classes@
            } else {
                old(self).contract_classes@.insert(
                    compiled_class_hash@,
                    CompiledClassView::Casm(casm_class@),
                )
            }),
    {
        let shadowed = match self.contract_classes.get(compiled_class_hash) {
            Some(CompiledClass::Deprecated(_)) => true,
            _ => false,
        };
        if !shadowed {
            self.contract_classes.insert(*compiled_class_hash, CompiledClass::Casm(casm_class));
        }
    }
}

impl<'a, T: StateReader> CachedState<'a, T> {
    /// The contracts that the state has changed: those with a new class
    /// hash, a new nonce or a written storage cell.
    pub open spec fn modified_contracts(&self) -> Set<nat> {
        Set::new(
            |a: nat|
                self.cache@.class_hash_writes.contains_key(a) || self.cache@.nonce_writes.contains_key(
                    a,
                ) || exists|k: nat| self.cache@.storage_writes.contains_key((a, k)),
        )
    }

    /// The storage cells whose written value is not the value of the store.
    pub open spec fn storage_updates(&self) -> Set<(nat, nat)> {
        Set::new(
            |e: (nat, nat)|
                self.cache@.storage_writes.contains_key(e) && self.cache@.storage_writes[e]
                    != self.state_reader.spec_storage_at(e),
        )
    }

    /// Counts the contracts that the state has changed and the storage
    /// cells that it has given a new value.
    pub fn count_actual_storage_changes(&self) -> (r: (usize, usize))
        ensures
            r.0 == self.modified_contracts().len(),
            r.1 == self.storage_updates().len(),
            self.modified_contracts().finite(),
            self.storage_updates().finite(),
    {
        let mut seen: ListMap<Address, Felt> = ListMap::new();
        let class_keys = self.cache.class_hash_writes.len();
        let mut i: usize = 0;
        while i < class_keys
            invariant
                0 <= i <= class_keys,
                class_keys == self.cache.class_hash_writes.keys().len(),
                self.cache.class_hash_writes.keys().to_set() == self.cache.class_hash_writes@.dom(),
                forall|a: nat|
                    seen@.contains_key(a) <==> exists|j: int|
                        0 <= j < i && self.cache.class_hash_writes.keys()[j] == a,
            decreases class_keys - i,
        {
            let k = self.cache.class_hash_writes.key_at(i);
            seen.insert(k, Felt::zero());
            i += 1;
        }
        let nonce_keys = self.cache.nonce_writes.len();
        let mut i: usize = 0;
        while i < nonce_keys
            invariant
                0 <= i <= nonce_keys,
                nonce_keys == self.cache.nonce_writes.keys().len(),
                self.cache.nonce_writes.keys().to_set() == self.cache.nonce_writes@.dom(),
                forall|a: nat|
                    seen@.contains_key(a) <==> (self.cache@.class_hash_writes.contains_key(a)
                        || exists|j: int| 0 <= j < i && self.cache.nonce_writes.keys()[j] == a),
            decreases nonce_keys - i,
        {
            let k = self.cache.nonce_writes.key_at(i);
            seen.insert(k, Felt::zero());
            i += 1;
        }
        let mut changed: ListMap<StorageEntry, Felt> = ListMap::new();
        let storage_keys = self.cache.storage_writes.len();
        let mut i: usize = 0;
        while i < storage_keys
            invariant
                0 <= i <= storage_keys,
                storage_keys == self.cache.storage_writes.keys().len(),
                self.cache.storage_writes.keys().to_set() == self.cache.storage_writes@.dom(),
                forall|a: nat|
                    seen@.contains_key(a) <==> (self.cache@.class_hash_writes.contains_key(a)
                        || self.cache@.nonce_writes.contains_key(a) || exists|j: int|
                        0 <= j < i && self.cache.storage_writes.keys()[j].0 == a),
                forall|e: (nat, nat)|
                    changed@.contains_key(e) <==> (self.storage_updates().contains(e)
                        && exists|j: int| 0 <= j < i && self.cache.storage_writes.keys()[j] == e),
            decreases storage_keys - i,
        {
            let k = self.cache.storage_writes.key_at(i);
            let written = self.cache.storage_writes.value_at(i);
            let stored = self.state_reader.get_storage_at(&k);
            seen.insert(k.0, Felt::zero());
            if !written.equals(&stored) {
                changed.insert(k, Felt::zero());
            }
            i += 1;
        }
        proof {
            let keys = self.cache.storage_writes.keys();
            assert forall|a: nat| seen@.contains_key(a) <==> self.modified_contracts().contains(
                a,
            ) by {
                if exists|j: int| 0 <= j < keys.len() && keys[j].0 == a {
                    let j = choose|j: int| 0 <= j < keys.len() && keys[j].0 == a;
                    assert(keys.to_set().contains(keys[j]));
                    assert(self.cache@.storage_writes.contains_key((a, keys[j].1)));
                }
                if exists|k: nat| self.cache@.storage_writes.contains_key((a, k)) {
                    let k = choose|k: nat| self.cache@.storage_writes.contains_key((a, k));
                    assert(keys.to_set().contains((a, k)));
                    let j = keys.index_of((a, k));
                    assert(keys[j].0 == a);
                }
            }
            assert(seen@.dom() =~= self.modified_contracts());
            assert forall|e: (nat, nat)| changed@.contains_key(e) <==> self.storage_updates().contains(
                e,
            ) by {
                if self.storage_updates().contains(e) {
                    assert(keys.to_set().contains(e));
                    let j = keys.index_of(e);
                    assert(keys[j] == e);
                }
            }
            assert(changed@.dom() =~= self.storage_updates());
        }
        (seen.len(), changed.len())
    }
}

impl<'a, T: StateReader> Clone for CachedState<'a, T> {
    /// An overlay of its own, as [`CachedState::duplicate`] makes it.
    fn clone(&self) -> (r: CachedState<'a, T>)
        ensures
            r.state_reader == self.state_reader,
            r.cache@ == self.cache@,
            r.contract_classes@ == self.contract_classes@,
            r.same_readings(self),
    {
        self.duplicate()
    }
}

/// A state that has only been read from since shows what it showed before:
/// every reading is the same.
pub proof fn lemma_reads_repeat<'a, T: StateReader>(
    before: CachedState<'a, T>,
    after: CachedState<'a, T>,
    contract_address: nat,
    key: nat,
    class_hash: nat,
)
    requires
        after.same_readings(&before),
    ensures
        after.class_hash_at(contract_address) == before.class_hash_at(contract_address),
        after.nonce_at(contract_address) == before.nonce_at(contract_address),
        after.storage_at((contract_address, key)) == before.storage_at((contract_address, key)),
        after.compiled_class_hash_of(class_hash) == before.compiled_class_hash_of(class_hash),
        after.contract_class(class_hash) == before.contract_class(class_hash),
{
}

} // verus!
