//! What a transaction changed, apart from the state that it changed it in.
use crate::felt::Felt;
use crate::state::cached_state::{CachedState, StateCacheView};
use crate::state::in_memory_state_reader::{value_or_zero, InMemoryStateReader};
use crate::state::list_map::{ListMap, StorageEntry};
use crate::state::state_api::StateReader;
use crate::utils::Address;
use vstd::prelude::*;

verus! {

/// The changes of a state against the store under it: new class hashes, new
/// nonces, newly declared classes and new storage values.
#[derive(Debug)]
pub struct StateDiff {
    pub address_to_class_hash: ListMap<Address, Felt>,
    pub address_to_nonce: ListMap<Address, Felt>,
    pub class_hash_to_compiled_class: ListMap<Felt, Felt>,
    pub storage_updates: ListMap<StorageEntry, Felt>,
}

impl StateDiff {
    /// The changes that a state holds: what it has written.
    pub fn from_cached_state<'a, T: StateReader>(state: &CachedState<'a, T>) -> (r: StateDiff)
        ensures
            r.address_to_class_hash@ == state.cache@.class_hash_writes,
            r.address_to_nonce@ == state.cache@.nonce_writes,
            r.class_hash_to_compiled_class@ == state.cache@.compiled_class_hash_writes,
            r.storage_updates@ == state.cache@.storage_writes,
    {
        StateDiff {
            address_to_class_hash: state.cache.class_hash_writes.duplicate(),
            address_to_nonce: state.cache.nonce_writes.duplicate(),
            class_hash_to_compiled_class: state.cache.compiled_class_hash_writes.duplicate(),
            storage_updates: state.cache.storage_writes.duplicate(),
        }
    }
}

impl InMemoryStateReader {
    /// Takes the changes of a diff into the store.
    pub fn apply_state_diff(&mut self, diff: &StateDiff)
        ensures
            final(self).address_to_class_hash@ == old(self).address_to_class_hash@.union_prefer_right(
                diff.address_to_class_hash@,
            ),
            final(self).address_to_nonce@ == old(self).address_to_nonce@.union_prefer_right(
                diff.address_to_nonce@,
            ),
            final(self).address_to_storage@ == old(self).address_to_storage@.union_prefer_right(
                diff.storage_updates@,
            ),
            final(self).class_hash_to_compiled_class_hash@ == old(
                self,
            ).class_hash_to_compiled_class_hash@.union_prefer_right(
                diff.class_hash_to_compiled_class@,
            ),
            final(self).class_hash_to_compiled_class == old(self).class_hash_to_compiled_class,
    {
        self.address_to_class_hash.extend_from(&diff.address_to_class_hash);
        self.address_to_nonce.extend_from(&diff.address_to_nonce);
        self.address_to_storage.extend_from(&diff.storage_updates);
        self.class_hash_to_compiled_class_hash.extend_from(&diff.class_hash_to_compiled_class);
    }

    /// A store that holds what a diff holds and nothing else.
    pub fn from_state_diff(diff: &StateDiff) -> (r: InMemoryStateReader)
        ensures
            forall|a: nat| r.spec_class_hash_at(a) == value_or_zero(diff.address_to_class_hash@, a),
            forall|a: nat| r.spec_nonce_at(a) == value_or_zero(diff.address_to_nonce@, a),
            forall|e: (nat, nat)| r.spec_storage_at(e) == value_or_zero(diff.storage_updates@, e),
            forall|h: nat|
                r.spec_compiled_class_hash(h) == value_or_zero(
                    diff.class_hash_to_compiled_class@,
                    h,
                ),
    {
        let mut r = InMemoryStateReader::new();
        r.apply_state_diff(diff);
        r
    }
}

impl<'a, T: StateReader> CachedState<'a, T> {
    /// Takes the changes of a diff into the writes of the state.
    pub fn apply_state_update(&mut self, state_updates: &StateDiff)
        ensures
            final(self).state_reader == old(self).state_reader,
            final(self).contract_classes == old(self).contract_classes,
            final(self).cache@ == (StateCacheView {
                class_hash_writes: old(self).cache@.class_hash_writes.union_prefer_right(
                    state_updates.address_to_class_hash@,
                ),
                nonce_writes: old(self).cache@.nonce_writes.union_prefer_right(
                    state_updates.address_to_nonce@,
                ),
                storage_writes: old(self).cache@.storage_writes.union_prefer_right(
                    state_updates.storage_updates@,
                ),
                compiled_class_hash_writes: old(
                    self,
                ).cache@.compiled_class_hash_writes.union_prefer_right(
                    state_updates.class_hash_to_compiled_class@,
                ),
                ..old(self).cache@
            }),
    {
        self.cache.class_hash_writes.extend_from(&state_updates.address_to_class_hash);
        self.cache.nonce_writes.extend_from(&state_updates.address_to_nonce);
        self.cache.storage_writes.extend_from(&state_updates.storage_updates);
        self.cache.compiled_class_hash_writes.extend_from(
            &state_updates.class_hash_to_compiled_class,
        );
    }
}

} // verus!
