//! Calls that run as compiled native code.
use crate::execution::{CallInfo, CallInfoView};
use crate::felt::{felts_view, Felt};
use crate::state::cached_state::CachedState;
use crate::state::state_api::StateReader;
use crate::utils::{clone_felts, Address, ClassHash};
use vstd::prelude::*;

verus! {

/// A call to be run as native code.
#[derive(Debug, PartialEq, Eq)]
pub struct NativeEntryPoint {
    pub contract_address: Address,
    pub calldata: Vec<Felt>,
    pub entrypoint_selector: Felt,
    pub caller_address: Address,
    pub initial_gas: u128,
}

/// The name of the function that a selector stands for, if any.
pub open spec fn function_name(selector: nat) -> Option<Seq<char>> {
    if selector == 0 {
        Some("fib_contract::fib_contract::Fibonacci::fib"@)
    } else if selector == 1 {
        Some(""@)
    } else {
        None
    }
}

/// Gives the name of the function that a selector stands for.
pub fn function_id_by_selector(selector: &Felt) -> (r: Option<String>)
    ensures
        match r {
            Some(name) => function_name(selector@) == Some(name@),
            None => function_name(selector@).is_none(),
        },
{
    if selector.is_zero() {
        Some("fib_contract::fib_contract::Fibonacci::fib".to_owned())
    } else if selector.equals(&Felt::one()) {
        Some("".to_owned())
    } else {
        None
    }
}

impl NativeEntryPoint {
    /// A call to be run as native code.
    pub fn new(
        contract_address: Address,
        calldata: Vec<Felt>,
        entrypoint_selector: Felt,
        caller_address: Address,
        initial_gas: u128,
    ) -> (r: NativeEntryPoint)
        ensures
            r.contract_address == contract_address,
            r.calldata == calldata,
            r.entrypoint_selector == entrypoint_selector,
            r.caller_address == caller_address,
            r.initial_gas == initial_gas,
    {
        NativeEntryPoint {
            contract_address,
            calldata,
            entrypoint_selector,
            caller_address,
            initial_gas,
        }
    }

    /// Finds what is to be run: the class of the called contract and the
    /// name of the function that the selector stands for.
    pub fn prepare<'a, T: StateReader>(&self, state: &mut CachedState<'a, T>) -> (r: (
        ClassHash,
        Option<String>,
    ))
        ensures
            r.0@ == old(state).class_hash_at(self.contract_address@),
            match r.1 {
                Some(name) => function_name(self.entrypoint_selector@) == Some(name@),
                None => function_name(self.entrypoint_selector@).is_none(),
            },
            final(state).read_step_of(old(state)),
            final(state).contract_classes == old(state).contract_classes,
    {
        let class_hash = state.get_class_hash_at(&self.contract_address);
        (class_hash, function_id_by_selector(&self.entrypoint_selector))
    }

    /// The record of the call once the native code has returned a number:
    /// the number is all that the call returns, and nothing else is known
    /// of the run.
    pub fn execute(&self, class_hash: ClassHash, result: u64) -> (r: CallInfo)
        ensures
            r@ == (CallInfoView {
                class_hash: Some(class_hash@),
                entry_point_selector: Some(self.entrypoint_selector@),
                calldata: felts_view(self.calldata@),
                retdata: seq![result as nat],
                ..CallInfoView::empty(self.caller_address@, self.contract_address@)
            }),
    {
        let mut r = CallInfo::empty(self.caller_address, self.contract_address);
        r.class_hash = Some(class_hash);
        r.entry_point_selector = Some(self.entrypoint_selector);
        r.calldata = clone_felts(&self.calldata);
        let mut retdata: Vec<Felt> = Vec::new();
        retdata.push(Felt::from_u64(result));
        assert(felts_view(retdata@) =~= seq![result as nat]);
        r.retdata = retdata;
        assert(r@.internal_calls =~= Seq::<CallInfoView>::empty());
        r
    }
}

} // verus!
