//! A store held in memory.
use crate::contract_class::{CompiledClass, CompiledClassView};
use crate::felt::Felt;
use crate::state::list_map::{ListMap, StorageEntry};
use crate::state::state_api::StateReader;
use crate::utils::{Address, ClassHash};
use vstd::prelude::*;

verus! {

/// The value of a map at a key, or zero where the map has none.
pub open spec fn value_or_zero<K>(m: Map<K, nat>, k: K) -> nat {
    if m.contains_key(k) {
        m[k]
    } else {
        0
    }
}

/// The value of a map at a key, if the map has one.
pub open spec fn value_or_none<K, V>(m: Map<K, V>, k: K) -> Option<V> {
    if m.contains_key(k) {
        Some(m[k])
    } else {
        None
    }
}

/// A store that answers from maps in memory.
#[derive(Debug)]
pub struct InMemoryStateReader {
    pub address_to_class_hash: ListMap<Address, Felt>,
    pub address_to_nonce: ListMap<Address, Felt>,
    pub address_to_storage: ListMap<StorageEntry, Felt>,
    pub class_hash_to_compiled_class: ListMap<Felt, CompiledClass>,
    pub class_hash_to_compiled_class_hash: ListMap<Felt, Felt>,
}

impl InMemoryStateReader {
    /// A store that holds nothing.
    pub fn new() -> (r: InMemoryStateReader)
        ensures
            r.address_to_class_hash@ == Map::<nat, nat>::empty(),
            r.address_to_nonce@ == Map::<nat, nat>::empty(),
            r.address_to_storage@ == Map::<(nat, nat), nat>::empty(),
            r.class_hash_to_compiled_class@ == Map::<nat, CompiledClassView>::empty(),
            r.class_hash_to_compiled_class_hash@ == Map::<nat, nat>::empty(),
    {
        InMemoryStateReader {
            address_to_class_hash: ListMap::new(),
            address_to_nonce: ListMap::new(),
            address_to_storage: ListMap::new(),
            class_hash_to_compiled_class: ListMap::new(),
            class_hash_to_compiled_class_hash: ListMap::new(),
        }
    }

    /// The class hashes of the store, to be changed.
    pub fn address_to_class_hash_mut(&mut self) -> (r: &mut ListMap<Address, Felt>)
        ensures
            *r == old(self).address_to_class_hash,
            *final(self) == (InMemoryStateReader { address_to_class_hash: *final(r), ..*old(self) }),
    {
        &mut self.address_to_class_hash
    }

    /// The nonces of the store, to be changed.
    pub fn address_to_nonce_mut(&mut self) -> (r: &mut ListMap<Address, Felt>)
        ensures
            *r == old(self).address_to_nonce,
            *final(self) == (InMemoryStateReader { address_to_nonce: *final(r), ..*old(self) }),
    {
        &mut self.address_to_nonce
    }

    /// The storage of the store, to be changed.
    pub fn address_to_storage_mut(&mut self) -> (r: &mut ListMap<StorageEntry, Felt>)
        ensures
            *r == old(self).address_to_storage,
            *final(self) == (InMemoryStateReader { address_to_storage: *final(r), ..*old(self) }),
    {
        &mut self.address_to_storage
    }

    /// The classes of the store, to be changed.
    pub fn class_hash_to_compiled_class_mut(&mut self) -> (r: &mut ListMap<Felt, CompiledClass>)
        ensures
            *r == old(self).class_hash_to_compiled_class,
            *final(self) == (InMemoryStateReader {
                class_hash_to_compiled_class: *final(r),
                ..*old(self)
            }),
    {
        &mut self.class_hash_to_compiled_class
    }
}

impl StateReader for InMemoryStateReader {
    open spec fn spec_class_hash_at(&self, contract_address: nat) -> nat {
        value_or_zero(self.address_to_class_hash@, contract_address)
    }

    open spec fn spec_nonce_at(&self, contract_address: nat) -> nat {
        value_or_zero(self.address_to_nonce@, contract_address)
    }

    open spec fn spec_storage_at(&self, storage_entry: (nat, nat)) -> nat {
        value_or_zero(self.address_to_storage@, storage_entry)
    }

    open spec fn spec_contract_class(&self, class_hash: nat) -> Option<CompiledClassView> {
        value_or_none(self.class_hash_to_compiled_class@, class_hash)
    }

    open spec fn spec_compiled_class_hash(&self, class_hash: nat) -> nat {
        value_or_zero(self.class_hash_to_compiled_class_hash@, class_hash)
    }

    fn get_contract_class(&self, class_hash: &ClassHash) -> (r: Option<CompiledClass>) {
        match self.class_hash_to_compiled_class.get(class_hash) {
            Some(c) => Some(c.clone()),
            None => None,
        }
    }

    fn get_class_hash_at(&self, contract_address: &Address) -> (r: ClassHash) {
        match self.address_to_class_hash.get(contract_address) {
            Some(h) => *h,
            None => Felt::zero(),
        }
    }

    fn get_nonce_at(&self, contract_address: &Address) -> (r: Felt) {
        match self.address_to_nonce.get(contract_address) {
            Some(n) => *n,
            None => Felt::zero(),
        }
    }

    fn get_storage_at(&self, storage_entry: &StorageEntry) -> (r: Felt) {
        match self.address_to_storage.get(storage_entry) {
            Some(v) => *v,
            None => Felt::zero(),
        }
    }

    fn get_compiled_class_hash(&self, class_hash: &ClassHash) -> (r: Felt) {
        match self.class_hash_to_compiled_class_hash.get(class_hash) {
            Some(v) => *v,
            None => Felt::zero(),
        }
    }
}

} // verus!
