//! What the layered state asks of the store behind it.
use crate::contract_class::{
    CasmContractClass, CompiledClass, CompiledClassView, ContractClass,
};
use crate::error::StateError;
use crate::felt::{prime, Felt};
use crate::state::cached_state::CachedState;
use crate::state::list_map::StorageEntry;
use crate::utils::{Address, ClassHash};
use vstd::prelude::*;

verus! {

/// The class behind an optional compiled class.
pub open spec fn opt_class_view(c: Option<CompiledClass>) -> Option<CompiledClassView> {
    match c {
        Some(x) => Some(x@),
        None => None,
    }
}

/// A store that can be read and that answers each question the same way
/// every time. What it does not hold reads as zero, and a class that it does
/// not hold as missing.
pub trait StateReader {
    /// The class hash of the contract at an address.
    spec fn spec_class_hash_at(&self, contract_address: nat) -> nat;

    /// The nonce of the contract at an address.
    spec fn spec_nonce_at(&self, contract_address: nat) -> nat;

    /// The value of a storage cell.
    spec fn spec_storage_at(&self, storage_entry: (nat, nat)) -> nat;

    /// The class stored under a hash.
    spec fn spec_contract_class(&self, class_hash: nat) -> Option<CompiledClassView>;

    /// The hash of the compiled form of the class under a hash.
    spec fn spec_compiled_class_hash(&self, class_hash: nat) -> nat;

    /// Returns the class stored under a hash.
    fn get_contract_class(&self, class_hash: &ClassHash) -> (r: Option<CompiledClass>)
        ensures
            opt_class_view(r) == self.spec_contract_class(class_hash@),
    ;

    /// Returns the class hash of the contract at an address.
    fn get_class_hash_at(&self, contract_address: &Address) -> (r: ClassHash)
        ensures
            r@ == self.spec_class_hash_at(contract_address@),
    ;

    /// Returns the nonce of the contract at an address.
    fn get_nonce_at(&self, contract_address: &Address) -> (r: Felt)
        ensures
            r@ == self.spec_nonce_at(contract_address@),
    ;

    /// Returns the value of a storage cell.
    fn get_storage_at(&self, storage_entry: &StorageEntry) -> (r: Felt)
        ensures
            r@ == self.spec_storage_at(storage_entry@),
    ;

    /// Returns the hash of the compiled form of the class under a hash.
    fn get_compiled_class_hash(&self, class_hash: &ClassHash) -> (r: Felt)
        ensures
            r@ == self.spec_compiled_class_hash(class_hash@),
    ;
}


/// A state that can be changed. Every operation says what the state shows
/// afterwards, wherever it is asked.
pub trait State {
    /// The class hash that the state shows at an address.
    spec fn shown_class_hash(&self, contract_address: nat) -> nat;

    /// The nonce that the state shows at an address.
    spec fn shown_nonce(&self, contract_address: nat) -> nat;

    /// The value that the state shows in a storage cell.
    spec fn shown_storage(&self, storage_entry: (nat, nat)) -> nat;

    /// The compiled class hash that the state shows for a class.
    spec fn shown_compiled_class_hash(&self, class_hash: nat) -> nat;

    /// The class that the state shows under a hash.
    spec fn shown_class(&self, class_hash: nat) -> Option<CompiledClassView>;

    /// The contracts that the state has changed.
    spec fn changed_contracts(&self) -> Set<nat>;

    /// The storage cells that the state has given a new value.
    spec fn changed_cells(&self) -> Set<(nat, nat)>;

    /// Puts a Cairo 0 class under a hash.
    fn set_contract_class(&mut self, class_hash: &ClassHash, contract_class: &ContractClass)
        ensures
            forall|h: nat|
                final(self).shown_class(h) == if h == class_hash@ {
                    Some(CompiledClassView::Deprecated(contract_class@))
                } else {
                    old(self).shown_class(h)
                },
            forall|a: nat| final(self).shown_class_hash(a) == old(self).shown_class_hash(a),
            forall|a: nat| final(self).shown_nonce(a) == old(self).shown_nonce(a),
            forall|e: (nat, nat)| final(self).shown_storage(e) == old(self).shown_storage(e),
    ;

    /// Puts a contract of a class at an address that holds none; where the
    /// address holds one, nothing changes.
    fn deploy_contract(&mut self, contract_address: Address, class_hash: ClassHash) -> (r: Result<
        (),
        StateError,
    >)
        ensures
            r is Ok <==> old(self).shown_class_hash(contract_address@) == 0,
            r is Err ==> r == Err::<(), StateError>(
                StateError::ContractAddressUnavailable(contract_address),
            ),
            forall|a: nat|
                final(self).shown_class_hash(a) == if r is Ok && a == contract_address@ {
                    class_hash@
                } else {
                    old(self).shown_class_hash(a)
                },
            forall|a: nat| final(self).shown_nonce(a) == old(self).shown_nonce(a),
            forall|e: (nat, nat)| final(self).shown_storage(e) == old(self).shown_storage(e),
            forall|h: nat| final(self).shown_class(h) == old(self).shown_class(h),
    ;

    /// Raises the nonce at an address by one.
    fn increment_nonce(&mut self, contract_address: &Address)
        ensures
            forall|a: nat|
                final(self).shown_nonce(a) == if a == contract_address@ {
                    ((old(self).shown_nonce(a) + 1) % prime()) as nat
                } else {
                    old(self).shown_nonce(a)
                },
            forall|a: nat| final(self).shown_class_hash(a) == old(self).shown_class_hash(a),
            forall|e: (nat, nat)| final(self).shown_storage(e) == old(self).shown_storage(e),
            forall|h: nat| final(self).shown_class(h) == old(self).shown_class(h),
    ;

    /// Writes a storage cell.
    fn set_storage_at(&mut self, storage_entry: &StorageEntry, value: Felt)
        ensures
            forall|e: (nat, nat)|
                final(self).shown_storage(e) == if e == storage_entry@ {
                    value@
                } else {
                    old(self).shown_storage(e)
                },
            forall|a: nat| final(self).shown_class_hash(a) == old(self).shown_class_hash(a),
            forall|a: nat| final(self).shown_nonce(a) == old(self).shown_nonce(a),
            forall|h: nat| final(self).shown_class(h) == old(self).shown_class(h),
    ;

    /// Sets the class of the contract at an address, whatever it was.
    fn set_class_hash_at(&mut self, contract_address: Address, class_hash: ClassHash)
        ensures
            forall|a: nat|
                final(self).shown_class_hash(a) == if a == contract_address@ {
                    class_hash@
                } else {
                    old(self).shown_class_hash(a)
                },
            forall|a: nat| final(self).shown_nonce(a) == old(self).shown_nonce(a),
            forall|e: (nat, nat)| final(self).shown_storage(e) == old(self).shown_storage(e),
            forall|h: nat| final(self).shown_class(h) == old(self).shown_class(h),
    ;

    /// Puts a Cairo 1 class under a hash, unless the state has a Cairo 0 class
    /// of its own there.
    fn set_compiled_class(&mut self, compiled_class_hash: &Felt, casm_class: CasmContractClass)
        ensures
            forall|h: nat|
                h != compiled_class_hash@ ==> final(self).shown_class(h) == old(self).shown_class(h),
            final(self).shown_class(compiled_class_hash@) == Some(
                CompiledClassView::Casm(casm_class@),
            ) || final(self).shown_class(compiled_class_hash@) == old(self).shown_class(
                compiled_class_hash@,
            ),
            !(old(self).shown_class(compiled_class_hash@) matches Some(
                CompiledClassView::Deprecated(_),
            )) ==> final(self).shown_class(compiled_class_hash@) == Some(
                CompiledClassView::Casm(casm_class@),
            ),
            forall|a: nat| final(self).shown_class_hash(a) == old(self).shown_class_hash(a),
            forall|a: nat| final(self).shown_nonce(a) == old(self).shown_nonce(a),
            forall|e: (nat, nat)| final(self).shown_storage(e) == old(self).shown_storage(e),
    ;

    /// Records the hash of the compiled form of a class.
    fn set_compiled_class_hash(&mut self, class_hash: &Felt, compiled_class_hash: &Felt)
        ensures
            forall|h: nat|
                final(self).shown_compiled_class_hash(h) == if h == class_hash@ {
                    compiled_class_hash@
                } else {
                    old(self).shown_compiled_class_hash(h)
                },
            forall|a: nat| final(self).shown_class_hash(a) == old(self).shown_class_hash(a),
            forall|a: nat| final(self).shown_nonce(a) == old(self).shown_nonce(a),
            forall|e: (nat, nat)| final(self).shown_storage(e) == old(self).shown_storage(e),
            forall|h: nat| final(self).shown_class(h) == old(self).shown_class(h),
    ;

    /// Counts the contracts that the state has changed and the storage
    /// cells that it has given a new value.
    fn count_actual_storage_changes(&self) -> (r: (usize, usize))
        ensures
            r.0 == self.changed_contracts().len(),
            r.1 == self.changed_cells().len(),
    ;
}

impl<'a, T: StateReader> State for CachedState<'a, T> {
    open spec fn shown_class_hash(&self, contract_address: nat) -> nat {
        self.class_hash_at(contract_address)
    }

    open spec fn shown_nonce(&self, contract_address: nat) -> nat {
        self.nonce_at(contract_address)
    }

    open spec fn shown_storage(&self, storage_entry: (nat, nat)) -> nat {
        self.storage_at(storage_entry)
    }

    open spec fn shown_compiled_class_hash(&self, class_hash: nat) -> nat {
        self.compiled_class_hash_of(class_hash)
    }

    open spec fn shown_class(&self, class_hash: nat) -> Option<CompiledClassView> {
        self.contract_class(class_hash)
    }

    open spec fn changed_contracts(&self) -> Set<nat> {
        self.modified_contracts()
    }

    open spec fn changed_cells(&self) -> Set<(nat, nat)> {
        self.storage_updates()
    }

    fn set_contract_class(&mut self, class_hash: &ClassHash, contract_class: &ContractClass) {
        CachedState::set_contract_class(self, class_hash, contract_class)
    }

    fn deploy_contract(&mut self, contract_address: Address, class_hash: ClassHash) -> (r: Result<
        (),
        StateError,
    >) {
        CachedState::deploy_contract(self, contract_address, class_hash)
    }

    fn increment_nonce(&mut self, contract_address: &Address) {
        CachedState::increment_nonce(self, contract_address)
    }

    fn set_storage_at(&mut self, storage_entry: &StorageEntry, value: Felt) {
        CachedState::set_storage_at(self, storage_entry, value)
    }

    fn set_class_hash_at(&mut self, contract_address: Address, class_hash: ClassHash) {
        CachedState::set_class_hash_at(self, contract_address, class_hash)
    }

    fn set_compiled_class(&mut self, compiled_class_hash: &Felt, casm_class: CasmContractClass) {
        CachedState::set_compiled_class(self, compiled_class_hash, casm_class)
    }

    fn set_compiled_class_hash(&mut self, class_hash: &Felt, compiled_class_hash: &Felt) {
        CachedState::set_compiled_class_hash(self, class_hash, compiled_class_hash)
    }

    fn count_actual_storage_changes(&self) -> (r: (usize, usize)) {
        CachedState::count_actual_storage_changes(self)
    }
}

} // verus!
