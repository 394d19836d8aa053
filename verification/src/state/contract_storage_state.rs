//! The storage of one contract as a running call sees it.
use crate::felt::{felts_view, Felt};
use crate::state::cached_state::{remembered, CachedState, StateCacheView};
use crate::state::list_map::StorageEntry;
use crate::state::state_api::StateReader;
use crate::utils::Address;
use vstd::prelude::*;

verus! {

/// A list of keys after one more key was used: the key joins the list
/// unless it is in it.
pub open spec fn note_key(keys: Seq<nat>, key: nat) -> Seq<nat> {
    if keys.contains(key) {
        keys
    } else {
        keys.push(key)
    }
}

/// Whether a list of field elements holds a number.
pub fn holds_key(keys: &Vec<Felt>, key: &Felt) -> (r: bool)
    ensures
        r == felts_view(keys@).contains(key@),
{
    let mut i: usize = 0;
    while i < keys.len()
        invariant
            0 <= i <= keys.len(),
            forall|j: int| 0 <= j < i ==> felts_view(keys@)[j] != key@,
        decreases keys.len() - i,
    {
        if keys[i].equals(key) {
            assert(felts_view(keys@)[i as int] == key@);
            return true;
        }
        i += 1;
    }
    false
}

/// Adds a key to a list of keys unless the list holds it.
pub fn remember_key(keys: &mut Vec<Felt>, key: Felt)
    ensures
        felts_view(final(keys)@) == note_key(felts_view(old(keys)@), key@),
{
    if !holds_key(keys, &key) {
        keys.push(key);
        assert(felts_view(keys@) =~= felts_view(old(keys)@).push(key@));
    }
}

/// What a call has read from, and which keys it has used of, the storage of
/// one contract.
#[derive(Debug)]
pub struct ContractStorageState {
    /// The contract whose storage this is.
    pub contract_address: Address,
    /// Every value read, in the order of the reads.
    pub read_values: Vec<Felt>,
    /// Every key read or written, once, in the order of first use.
    pub accessed_keys: Vec<Felt>,
}

impl ContractStorageState {
    /// The record of a call that has not touched the storage yet.
    pub fn new(contract_address: Address) -> (r: ContractStorageState)
        ensures
            r.contract_address == contract_address,
            r.read_values@.len() == 0,
            r.accessed_keys@.len() == 0,
    {
        ContractStorageState {
            contract_address,
            read_values: Vec::new(),
            accessed_keys: Vec::new(),
        }
    }

    /// Reads the cell under a key and records the key and the value.
    pub fn read<'a, T: StateReader>(&mut self, state: &mut CachedState<'a, T>, key: &Felt) -> (r:
        Felt)
        ensures
            r@ == old(state).storage_at((old(self).contract_address@, key@)),
            final(self).contract_address == old(self).contract_address,
            felts_view(final(self).read_values@) == felts_view(old(self).read_values@).push(r@),
            felts_view(final(self).accessed_keys@) == note_key(
                felts_view(old(self).accessed_keys@),
                key@,
            ),
            final(state).state_reader == old(state).state_reader,
            final(state).contract_classes == old(state).contract_classes,
            final(state).cache@ == (StateCacheView {
                storage_initial_values: remembered(
                    old(state).cache@.storage_writes,
                    old(state).cache@.storage_initial_values,
                    (old(self).contract_address@, key@),
                    old(state).state_reader.spec_storage_at((old(self).contract_address@, key@)),
                ),
                ..old(state).cache@
            }),
            final(state).same_readings(old(state)),
    {
        remember_key(&mut self.accessed_keys, *key);
        let value = state.get_storage_at(&StorageEntry(self.contract_address, *key));
        self.read_values.push(value);
        assert(felts_view(self.read_values@) =~= felts_view(old(self).read_values@).push(value@));
        value
    }

    /// Writes the cell under a key and records the key.
    pub fn write<'a, T: StateReader>(
        &mut self,
        state: &mut CachedState<'a, T>,
        key: &Felt,
        value: Felt,
    )
        ensures
            final(self).contract_address == old(self).contract_address,
            final(self).read_values == old(self).read_values,
            felts_view(final(self).accessed_keys@) == note_key(
                felts_view(old(self).accessed_keys@),
                key@,
            ),
            final(state).state_reader == old(state).state_reader,
            final(state).contract_classes == old(state).contract_classes,
            final(state).cache@ == (StateCacheView {
                storage_writes: old(state).cache@.storage_writes.insert(
                    (old(self).contract_address@, key@),
                    value@,
                ),
                ..old(state).cache@
            }),
    {
        remember_key(&mut self.accessed_keys, *key);
        state.set_storage_at(&StorageEntry(self.contract_address, *key), value);
    }
}

} // verus!
