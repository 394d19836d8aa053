//! Invoking a function of a deployed contract.
use crate::definitions::block_context::BlockContext;
use crate::definitions::constants::{
    execute_entry_point_selector, spec_execute_entry_point_selector,
    spec_validate_entry_point_selector, validate_entry_point_selector,
};
use crate::definitions::transaction_type::TransactionType;
use crate::error::TransactionError;
use crate::execution::transaction_run::{plan_view, PlannedCall, PlannedCallView, TransactionRun};
use crate::execution::{
    call_topology, call_topology_upto, calls_view, opt_felt_view, CallInfo, CallInfoView, CallType,
    EntryPointType, ExecutionEntryPoint, ExecutionEntryPointView, ResourceUsage,
    TransactionExecutionContext, TransactionExecutionContextView, TransactionExecutionInfo,
    TransactionExecutionInfoView,
};
use crate::felt::{decimal_digits, felts_view, prime, Felt};
use crate::hash_utils::{
    calculate_transaction_hash_common, transaction_hash_of, TransactionHashPrefix,
};
use crate::state::cached_state::{remembered, CachedState, StateCacheView};
use crate::state::execution_resources_manager::weighted_count;
use crate::state::state_api::StateReader;
use crate::transaction::fee::{
    calculate_tx_fee, calculate_tx_resources, fee_of, tx_resources_of,
};
use crate::utils::{clone_felts, Address};
use vstd::prelude::*;

verus! {

/// Whether every call of the tree under `call` runs at the address of `call`.
pub open spec fn stays_in_contract(call: CallInfoView) -> bool {
    forall|i: int|
        0 <= i < call_topology(call).len() ==> (#[trigger] call_topology(
            call,
        )[i]).contract_address == call.contract_address
}

/// Checks that a call tree never left the contract that it started in.
pub fn verify_no_calls_to_other_contracts(call_info: &CallInfo) -> (r: Result<
    (),
    TransactionError,
>)
    ensures
        r is Ok <==> stays_in_contract(call_info@),
        r is Err ==> r matches Err(TransactionError::UnauthorizedActionOnValidate),
{
    let calls = call_info.gen_call_topology();
    let mut i: usize = 0;
    while i < calls.len()
        invariant
            0 <= i <= calls.len(),
            calls@.map_values(|c: CallInfo| c@) == call_topology(call_info@),
            forall|j: int|
                0 <= j < i ==> (#[trigger] call_topology(call_info@)[j]).contract_address
                    == call_info@.contract_address,
        decreases calls.len() - i,
    {
        assert(calls@.map_values(|c: CallInfo| c@)[i as int] == calls@[i as int]@);
        if !calls[i].contract_address.equals(&call_info.contract_address) {
            return Err(TransactionError::UnauthorizedActionOnValidate);
        }
        i += 1;
    }
    Ok(())
}

/// What the fields of an invoke come to before its hash is made: the
/// selector that goes into the hash and what is hashed after the chain.
/// A transaction of version 0 has no nonce and hashes its selector; a later
/// one has a nonce and hashes it after the chain, with zero for a selector.
pub open spec fn preprocessed(entry_point_selector: nat, nonce: Option<nat>, version: nat) -> Result<
    (nat, Seq<nat>),
    TransactionError,
> {
    if version == 0 {
        match nonce {
            Some(_) => Err(TransactionError::InvokeFunctionZeroHasNonce),
            None => Ok((entry_point_selector, Seq::empty())),
        }
    } else {
        match nonce {
            Some(n) => Ok((0nat, seq![n])),
            None => Err(TransactionError::InvokeFunctionNonZeroMissingNonce),
        }
    }
}

/// An invoke of version 0 that passes the check of its fields has no nonce,
/// and one that comes with a nonce is turned down for it.
pub proof fn lemma_version_zero_has_no_nonce(
    entry_point_selector: nat,
    nonce: Option<nat>,
    version: nat,
)
    requires
        version == 0,
    ensures
        preprocessed(entry_point_selector, nonce, version) is Ok ==> nonce is None,
        nonce is Some ==> preprocessed(entry_point_selector, nonce, version) == Err::<
            (nat, Seq<nat>),
            TransactionError,
        >(TransactionError::InvokeFunctionZeroHasNonce),
{
}

/// The call tree of a call that has made a call to another contract does
/// not stay in its contract.
pub proof fn lemma_foreign_call_leaves_contract(call: CallInfoView, i: int)
    requires
        0 <= i < call.internal_calls.len(),
        call.internal_calls[i].contract_address != call.contract_address,
    ensures
        !stays_in_contract(call),
{
    lemma_child_in_topology(call, call.internal_calls.len(), i);
    let k = choose|k: int|
        0 <= k < call_topology_upto(call, call.internal_calls.len()).len()
            && call_topology_upto(call, call.internal_calls.len())[k] == call.internal_calls[i];
    assert(call_topology(call)[k].contract_address != call.contract_address);
}

/// Every child of a call that is followed occurs in the list of its calls.
pub proof fn lemma_child_in_topology(call: CallInfoView, n: nat, i: int)
    requires
        0 <= i < n <= call.internal_calls.len(),
    ensures
        exists|k: int|
            0 <= k < call_topology_upto(call, n).len() && call_topology_upto(call, n)[k]
                == call.internal_calls[i],
    decreases n,
{
    let child = call.internal_calls[n - 1];
    let before = call_topology_upto(call, (n - 1) as nat);
    let below = call_topology_upto(child, child.internal_calls.len());
    assert(call_topology_upto(call, n) == before + below);
    if i == n - 1 {
        lemma_topology_starts_with_call(child, child.internal_calls.len());
        assert((before + below)[before.len() as int] == child);
    } else {
        lemma_child_in_topology(call, (n - 1) as nat, i);
        let k = choose|k: int| 0 <= k < before.len() && before[k] == call.internal_calls[i];
        assert((before + below)[k] == call.internal_calls[i]);
    }
}

/// The list of the calls of a tree starts with the call at its root.
pub proof fn lemma_topology_starts_with_call(call: CallInfoView, n: nat)
    ensures
        call_topology_upto(call, n).len() > 0,
        call_topology_upto(call, n)[0] == call,
    decreases n,
{
    if n == 0 || n > call.internal_calls.len() {
    } else {
        lemma_topology_starts_with_call(call, (n - 1) as nat);
        let child = call.internal_calls[n - 1];
        let before = call_topology_upto(call, (n - 1) as nat);
        let below = call_topology_upto(child, child.internal_calls.len());
        assert((before + below)[0] == before[0]);
    }
}

/// Checks the nonce of an invoke against its version and gives what goes
/// into its hash.
pub fn preprocess_invoke_function_fields(
    entry_point_selector: Felt,
    nonce: Option<Felt>,
    version: Felt,
) -> (r: Result<(Felt, Vec<Felt>), TransactionError>)
    ensures
        match preprocessed(entry_point_selector@, opt_felt_view(nonce), version@) {
            Ok((selector, additional)) => r matches Ok((s, a)) && s@ == selector && felts_view(a@)
                == additional,
            Err(e) => r == Err::<(Felt, Vec<Felt>), TransactionError>(e),
        },
{
    if version.is_zero() {
        match nonce {
            Some(_) => Err(TransactionError::InvokeFunctionZeroHasNonce),
            None => {
                let additional_data: Vec<Felt> = Vec::new();
                assert(felts_view(additional_data@) =~= Seq::<nat>::empty());
                Ok((entry_point_selector, additional_data))
            },
        }
    } else {
        match nonce {
            Some(n) => {
                let mut additional_data: Vec<Felt> = Vec::new();
                additional_data.push(n);
                assert(felts_view(additional_data@) =~= seq![n@]);
                Ok((Felt::zero(), additional_data))
            },
            None => Err(TransactionError::InvokeFunctionNonZeroMissingNonce),
        }
    }
}

/// A transaction that calls an entry point of a deployed contract.
#[derive(Debug, PartialEq, Eq)]
pub struct InvokeFunction {
    pub contract_address: Address,
    pub entry_point_selector: Felt,
    pub entry_point_type: EntryPointType,
    pub calldata: Vec<Felt>,
    pub tx_type: TransactionType,
    pub version: Felt,
    pub validate_entry_point_selector: Felt,
    pub hash_value: Felt,
    pub signature: Vec<Felt>,
    pub max_fee: u128,
    pub nonce: Option<Felt>,
}

/// What an [`InvokeFunction`] holds.
pub struct InvokeFunctionView {
    pub contract_address: nat,
    pub entry_point_selector: nat,
    pub entry_point_type: EntryPointType,
    pub calldata: Seq<nat>,
    pub tx_type: TransactionType,
    pub version: nat,
    pub validate_entry_point_selector: nat,
    pub hash_value: nat,
    pub signature: Seq<nat>,
    pub max_fee: nat,
    pub nonce: Option<nat>,
}

impl View for InvokeFunction {
    type V = InvokeFunctionView;

    open spec fn view(&self) -> InvokeFunctionView {
        InvokeFunctionView {
            contract_address: self.contract_address@,
            entry_point_selector: self.entry_point_selector@,
            entry_point_type: self.entry_point_type,
            calldata: felts_view(self.calldata@),
            tx_type: self.tx_type,
            version: self.version@,
            validate_entry_point_selector: self.validate_entry_point_selector@,
            hash_value: self.hash_value@,
            signature: felts_view(self.signature@),
            max_fee: self.max_fee as nat,
            nonce: opt_felt_view(self.nonce),
        }
    }
}

/// What charging the fee of a transaction comes to.
#[derive(Debug, PartialEq, Eq)]
pub enum FeeCharge {
    /// The transaction pays nothing.
    Nothing,
    /// The fee is to be moved by this call of the fee token.
    Transfer { actual_fee: u128, call: PlannedCall },
}

/// The call of the fee token that moves a fee from an account to the
/// sequencer.
pub open spec fn fee_transfer_call(
    block_context: BlockContext,
    account: nat,
    actual_fee: nat,
) -> PlannedCallView {
    PlannedCallView {
        entry_point: ExecutionEntryPointView {
            call_type: CallType::Call,
            contract_address: block_context.starknet_os_config.fee_token_address@,
            code_address: None,
            class_hash: None,
            calldata: seq![block_context.block_info.sequencer_address@, actual_fee, 0nat],
            caller_address: account,
            entry_point_selector: crate::definitions::constants::spec_transfer_entry_point_selector(),
            entry_point_type: EntryPointType::External,
            initial_gas: 0,
        },
        n_steps: block_context.invoke_tx_max_n_steps as nat,
        must_stay_in_contract: false,
    }
}

/// What charging a fee comes to for resources, a fee bound and a payer: no
/// fee where the bound is zero; an error where the fee is over the bound or
/// cannot be held; else the transfer of the fee.
pub open spec fn fee_charge_of(
    resources: ResourceUsage,
    block_context: BlockContext,
    max_fee: nat,
    account: nat,
) -> Result<Option<(nat, PlannedCallView)>, FeeFailure> {
    let fee = fee_of(
        block_context.cairo_resource_fee_weights,
        resources,
        block_context.starknet_os_config.gas_price as nat,
    );
    if max_fee == 0 {
        Ok(None)
    } else if fee > u128::MAX {
        Err(FeeFailure::Resources)
    } else if fee > max_fee {
        Err(FeeFailure::ExceedsMaxFee)
    } else {
        Ok(Some((fee, fee_transfer_call(block_context, account, fee))))
    }
}

/// Why a fee cannot be charged.
pub enum FeeFailure {
    /// The fee cannot be held in the type of fees.
    Resources,
    /// The fee is more than the transaction allows.
    ExceedsMaxFee,
}

/// Decides how the fee of a transaction is charged.
pub fn plan_fee_charge(
    resources: &ResourceUsage,
    block_context: &BlockContext,
    max_fee: u128,
    account: Address,
) -> (r: Result<FeeCharge, TransactionError>)
    ensures
        match fee_charge_of(*resources, *block_context, max_fee as nat, account@) {
            Ok(None) => r == Ok::<FeeCharge, TransactionError>(FeeCharge::Nothing),
            Ok(Some((fee, call))) => r matches Ok(FeeCharge::Transfer { actual_fee, call: c })
                && actual_fee == fee && c@ == call,
            Err(FeeFailure::Resources) => r == Err::<FeeCharge, TransactionError>(
                TransactionError::ResourcesCalculation,
            ),
            Err(FeeFailure::ExceedsMaxFee) => r matches Err(TransactionError::FeeError(m)) && m@
                == "Actual fee exceeded max fee"@,
        },
{
    if max_fee == 0 {
        return Ok(FeeCharge::Nothing);
    }
    let actual_fee = match calculate_tx_fee(
        resources,
        block_context.starknet_os_config.gas_price,
        block_context,
    ) {
        Ok(f) => f,
        Err(_) => {
            return Err(TransactionError::ResourcesCalculation);
        },
    };
    if actual_fee > max_fee {
        return Err(TransactionError::FeeError("Actual fee exceeded max fee".to_owned()));
    }
    let mut calldata: Vec<Felt> = Vec::new();
    calldata.push(block_context.block_info.sequencer_address.0);
    calldata.push(Felt::from_u128(actual_fee));
    calldata.push(Felt::zero());
    assert(felts_view(calldata@) =~= seq![
        block_context.block_info.sequencer_address@,
        actual_fee as nat,
        0nat,
    ]);
    let entry_point = ExecutionEntryPoint::new(
        block_context.starknet_os_config.fee_token_address,
        calldata,
        crate::definitions::constants::transfer_entry_point_selector(),
        account,
        EntryPointType::External,
        None,
        None,
        0,
    );
    Ok(
        FeeCharge::Transfer {
            actual_fee,
            call: PlannedCall {
                entry_point,
                n_steps: block_context.invoke_tx_max_n_steps,
                must_stay_in_contract: false,
            },
        },
    )
}

/// The error that a failed transfer of the fee is reported as.
pub fn fee_transfer_failure() -> (r: TransactionError)
    ensures
        r matches TransactionError::FeeError(m) && m@ == "Fee transfer failure"@,
{
    TransactionError::FeeError("Fee transfer failure".to_owned())
}

/// What the check of a nonce against a state comes to, for a transaction
/// of a later version than 0.
pub open spec fn nonce_checked<'a, T: StateReader>(
    pre: &CachedState<'a, T>,
    post: &CachedState<'a, T>,
    account: nat,
    nonce: nat,
    r: Result<(), TransactionError>,
) -> bool {
    let current = pre.nonce_at(account);
    &&& post.state_reader == pre.state_reader
    &&& post.contract_classes == pre.contract_classes
    &&& if current != nonce {
        &&& r matches Err(TransactionError::InvalidTransactionNonce(is, given))
        &&& is@ == decimal_digits(current)
        &&& given@ == decimal_digits(nonce)
        &&& post.read_step_of(pre)
    } else {
        &&& r is Ok
        &&& post.cache@ == (StateCacheView {
            nonce_initial_values: remembered(
                pre.cache@.nonce_writes,
                pre.cache@.nonce_initial_values,
                account,
                pre.state_reader.spec_nonce_at(account),
            ),
            nonce_writes: pre.cache@.nonce_writes.insert(account, ((nonce + 1) % prime()) as nat),
            ..pre.cache@
        })
        &&& post.nonce_at(account) == (nonce + 1) % prime()
    }
}

/// Checks that the nonce of a transaction is the one of its account and, if
/// so, raises the nonce of the account by one.
pub fn check_and_increment_nonce<'a, T: StateReader>(
    state: &mut CachedState<'a, T>,
    account: &Address,
    nonce: &Felt,
) -> (r: Result<(), TransactionError>)
    ensures
        nonce_checked(old(state), final(state), account@, nonce@, r),
{
    let current_nonce = state.get_nonce_at(account);
    if !nonce.equals(&current_nonce) {
        return Err(
            TransactionError::InvalidTransactionNonce(
                current_nonce.to_decimal_string(),
                nonce.to_decimal_string(),
            ),
        );
    }
    state.increment_nonce(account);
    Ok(())
}

impl InvokeFunction {
    /// Makes an invoke, with the hash that its fields give it where none is
    /// given. An invoke of version 0 must come without a nonce, a later one
    /// with one.
    pub fn new(
        contract_address: Address,
        entry_point_selector: Felt,
        max_fee: u128,
        version: Felt,
        calldata: Vec<Felt>,
        signature: Vec<Felt>,
        chain_id: Felt,
        nonce: Option<Felt>,
        hash_value: Option<Felt>,
    ) -> (r: Result<InvokeFunction, TransactionError>)
        ensures
            match preprocessed(entry_point_selector@, opt_felt_view(nonce), version@) {
                Err(e) => r == Err::<InvokeFunction, TransactionError>(e),
                Ok((selector_field, additional_data)) => r matches Ok(tx) && tx@ == (
                InvokeFunctionView {
                    contract_address: contract_address@,
                    entry_point_selector: entry_point_selector@,
                    entry_point_type: EntryPointType::External,
                    calldata: felts_view(calldata@),
                    tx_type: TransactionType::InvokeFunction,
                    version: version@,
                    validate_entry_point_selector: spec_validate_entry_point_selector(),
                    hash_value: match hash_value {
                        Some(h) => h@,
                        None => transaction_hash_of(
                            TransactionHashPrefix::Invoke,
                            version@,
                            contract_address@,
                            selector_field,
                            felts_view(calldata@),
                            max_fee as nat,
                            chain_id@,
                            additional_data,
                        ),
                    },
                    signature: felts_view(signature@),
                    max_fee: max_fee as nat,
                    nonce: opt_felt_view(nonce),
                }),
            },
            version@ == 0 && nonce is Some ==> r == Err::<InvokeFunction, TransactionError>(
                TransactionError::InvokeFunctionZeroHasNonce,
            ),
    {
        let (entry_point_selector_field, additional_data) =
            match preprocess_invoke_function_fields(entry_point_selector, nonce, version) {
            Ok(fields) => fields,
            Err(e) => {
                return Err(e);
            },
        };
        let hash_value = match hash_value {
            Some(hash) => hash,
            None => calculate_transaction_hash_common(
                TransactionHashPrefix::Invoke,
                version,
                &contract_address,
                entry_point_selector_field,
                &calldata,
                max_fee,
                chain_id,
                &additional_data,
            ),
        };
        Ok(
            InvokeFunction {
                contract_address,
                entry_point_selector,
                entry_point_type: EntryPointType::External,
                calldata,
                tx_type: TransactionType::InvokeFunction,
                version,
                max_fee,
                signature,
                validate_entry_point_selector: validate_entry_point_selector(),
                nonce,
                hash_value,
            },
        )
    }

    /// The address of the invoked contract.
    pub fn contract_address(&self) -> (r: &Address)
        ensures
            *r == self.contract_address,
    {
        &self.contract_address
    }

    /// The hash of the transaction.
    pub fn hash_value(&self) -> (r: &Felt)
        ensures
            *r == self.hash_value,
    {
        &self.hash_value
    }

    /// The signature of the transaction.
    pub fn signature(&self) -> (r: &Vec<Felt>)
        ensures
            *r == self.signature,
    {
        &self.signature
    }

    /// The context that the calls of the transaction run in. A transaction
    /// of version 0 runs with nonce zero; a later one must have a nonce.
    pub fn get_execution_context(&self, n_steps: u64) -> (r: Result<
        TransactionExecutionContext,
        TransactionError,
    >)
        ensures
            self.version@ != 0 && self.nonce is None ==> r == Err::<
                TransactionExecutionContext,
                TransactionError,
            >(TransactionError::MissingNonce),
            !(self.version@ != 0 && self.nonce is None) ==> (r matches Ok(c) && c@ == (
            TransactionExecutionContextView {
                n_emitted_events: 0,
                version: self.version@,
                account_contract_address: self.contract_address@,
                max_fee: self.max_fee as nat,
                transaction_hash: self.hash_value@,
                signature: felts_view(self.signature@),
                nonce: if self.version@ == 0 {
                    0
                } else {
                    self.nonce->0@
                },
                n_sent_messages: 0,
                n_steps: n_steps as nat,
            })),
    {
        let nonce = if self.version.is_zero() {
            Felt::zero()
        } else {
            match self.nonce {
                Some(n) => n,
                None => {
                    return Err(TransactionError::MissingNonce);
                },
            }
        };
        Ok(
            TransactionExecutionContext::new(
                self.contract_address,
                self.hash_value,
                clone_felts(&self.signature),
                self.max_fee,
                nonce,
                n_steps,
                self.version,
            ),
        )
    }

    /// Whether the account checks the transaction before it runs: it does
    /// for a transaction of a later version than 0 that goes through
    /// `__execute__`.
    pub open spec fn validates(&self) -> bool {
        self.entry_point_selector@ == spec_execute_entry_point_selector() && self.version@ != 0
    }

    /// The call that checks the transaction, where the account checks it.
    pub open spec fn validate_call(&self, block_context: BlockContext) -> PlannedCallView {
        PlannedCallView {
            entry_point: ExecutionEntryPointView {
                call_type: CallType::Call,
                contract_address: self.contract_address@,
                code_address: None,
                class_hash: None,
                calldata: felts_view(self.calldata@),
                caller_address: 0,
                entry_point_selector: self.validate_entry_point_selector@,
                entry_point_type: EntryPointType::External,
                initial_gas: 0,
            },
            n_steps: block_context.validate_max_n_steps as nat,
            must_stay_in_contract: true,
        }
    }

    /// The call that runs the transaction.
    pub open spec fn execute_call(&self, block_context: BlockContext) -> PlannedCallView {
        PlannedCallView {
            entry_point: ExecutionEntryPointView {
                call_type: CallType::Call,
                contract_address: self.contract_address@,
                code_address: None,
                class_hash: None,
                calldata: felts_view(self.calldata@),
                caller_address: 0,
                entry_point_selector: self.entry_point_selector@,
                entry_point_type: EntryPointType::External,
                initial_gas: 0,
            },
            n_steps: block_context.invoke_tx_max_n_steps as nat,
            must_stay_in_contract: false,
        }
    }

    /// The calls that the transaction makes: the check by the account, where
    /// there is one, and then the call itself.
    pub open spec fn plan(&self, block_context: BlockContext) -> Seq<PlannedCallView> {
        if self.validates() {
            seq![self.validate_call(block_context), self.execute_call(block_context)]
        } else {
            seq![self.execute_call(block_context)]
        }
    }

    /// Builds the call that checks the transaction, where the account checks
    /// it. The call must not leave the account.
    pub fn run_validate_entrypoint(&self, block_context: &BlockContext) -> (r: Option<PlannedCall>)
        ensures
            match r {
                Some(call) => self.validates() && call@ == self.validate_call(*block_context),
                None => !self.validates(),
            },
    {
        if !self.entry_point_selector.equals(&execute_entry_point_selector()) {
            return None;
        }
        if self.version.is_zero() {
            return None;
        }
        let entry_point = ExecutionEntryPoint::new(
            self.contract_address,
            clone_felts(&self.calldata),
            self.validate_entry_point_selector,
            Address(Felt::zero()),
            EntryPointType::External,
            None,
            None,
            0,
        );
        Some(
            PlannedCall {
                entry_point,
                n_steps: block_context.validate_max_n_steps,
                must_stay_in_contract: true,
            },
        )
    }

    /// Builds the call that runs the transaction.
    pub fn run_execute_entrypoint(&self, block_context: &BlockContext) -> (r: PlannedCall)
        ensures
            r@ == self.execute_call(*block_context),
    {
        let entry_point = ExecutionEntryPoint::new(
            self.contract_address,
            clone_felts(&self.calldata),
            self.entry_point_selector,
            Address(Felt::zero()),
            EntryPointType::External,
            None,
            None,
            0,
        );
        PlannedCall {
            entry_point,
            n_steps: block_context.invoke_tx_max_n_steps,
            must_stay_in_contract: false,
        }
    }

    /// Sets up the part of the execution that charges no fee: a run of the
    /// calls of the transaction on an overlay of the state. The state itself
    /// is not touched, whatever comes of the run.
    pub fn apply<'a, T: StateReader>(
        &self,
        state: &CachedState<'a, T>,
        block_context: &BlockContext,
    ) -> (r: Result<TransactionRun<'a, T>, TransactionError>)
        ensures
            self.version@ != 0 && self.nonce is None ==> r matches Err(
                TransactionError::MissingNonce,
            ),
            !(self.version@ != 0 && self.nonce is None) ==> (r matches Ok(run) && {
                &&& run.stack.state.state_reader == state.state_reader
                &&& run.stack.state.cache@ == state.cache@
                &&& run.stack.state.contract_classes@ == state.contract_classes@
                &&& run.stack.state.same_readings(state)
                &&& run.stack.block_context == *block_context
                &&& run.stack.tx_context@ == (TransactionExecutionContextView {
                    n_emitted_events: 0,
                    version: self.version@,
                    account_contract_address: self.contract_address@,
                    max_fee: self.max_fee as nat,
                    transaction_hash: self.hash_value@,
                    signature: felts_view(self.signature@),
                    nonce: if self.version@ == 0 {
                        0
                    } else {
                        self.nonce->0@
                    },
                    n_sent_messages: 0,
                    n_steps: block_context.invoke_tx_max_n_steps as nat,
                })
                &&& run.stack.frames@.len() == 0
                &&& run.records@.len() == 0
                &&& plan_view(run.planned@) == self.plan(*block_context)
            }),
    {
        let tx_context = match self.get_execution_context(block_context.invoke_tx_max_n_steps) {
            Ok(c) => c,
            Err(e) => {
                return Err(e);
            },
        };
        let mut planned: Vec<PlannedCall> = Vec::new();
        match self.run_validate_entrypoint(block_context) {
            Some(call) => {
                planned.push(call);
            },
            None => {},
        }
        planned.push(self.run_execute_entrypoint(block_context));
        assert(plan_view(planned@) =~= self.plan(*block_context));
        Ok(TransactionRun::new(state.duplicate(), *block_context, tx_context, planned))
    }

    /// Checks the nonce of the transaction against its account and raises
    /// the nonce of the account. A transaction of version 0 has no nonce to
    /// check. A later one without a nonce is turned down.
    pub fn handle_nonce<'a, T: StateReader>(&self, state: &mut CachedState<'a, T>) -> (r: Result<
        (),
        TransactionError,
    >)
        ensures
            self.version@ == 0 ==> r is Ok && *final(state) == *old(state),
            self.version@ != 0 && self.nonce is None ==> r == Err::<(), TransactionError>(
                TransactionError::MissingNonce,
            ) && *final(state) == *old(state),
            self.version@ != 0 && self.nonce is Some ==> nonce_checked(
                old(state),
                final(state),
                self.contract_address@,
                self.nonce->0@,
                r,
            ),
    {
        if self.version.is_zero() {
            return Ok(());
        }
        match &self.nonce {
            None => Err(TransactionError::MissingNonce),
            Some(nonce) => check_and_increment_nonce(state, &self.contract_address, nonce),
        }
    }

    /// Decides how the fee of the transaction is charged.
    pub fn charge_fee(&self, resources: &ResourceUsage, block_context: &BlockContext) -> (r: Result<
        FeeCharge,
        TransactionError,
    >)
        ensures
            match fee_charge_of(
                *resources,
                *block_context,
                self.max_fee as nat,
                self.contract_address@,
            ) {
                Ok(None) => r == Ok::<FeeCharge, TransactionError>(FeeCharge::Nothing),
                Ok(Some((fee, call))) => r matches Ok(FeeCharge::Transfer { actual_fee, call: c })
                    && actual_fee == fee && c@ == call,
                Err(FeeFailure::Resources) => r == Err::<FeeCharge, TransactionError>(
                    TransactionError::ResourcesCalculation,
                ),
                Err(FeeFailure::ExceedsMaxFee) => r matches Err(TransactionError::FeeError(m))
                    && m@ == "Actual fee exceeded max fee"@,
            },
    {
        plan_fee_charge(resources, block_context, self.max_fee, self.contract_address)
    }

    /// The report of the part of the execution that charges no fee, for a
    /// run that has ended with the given records and resources on a state.
    pub open spec fn applied_info<'a, T: StateReader>(
        &self,
        run: &TransactionRun<'a, T>,
    ) -> Result<TransactionExecutionInfoView, TransactionError> {
        let records = calls_view(run.records@);
        let expected: nat = if self.validates() {
            2
        } else {
            1
        };
        if !(run.stack.frames@.len() == 0 && run.planned@.len() == 0) || records.len()
            != expected {
            Err(TransactionError::CallStillRunning)
        } else {
            match tx_resources_of(
                run.stack.resources_manager.cairo_usage,
                weighted_count(
                    run.stack.resources_manager.syscall_counter@,
                    run.stack.resources_manager.syscall_counter.keys(),
                    run.stack.block_context.os_resources.syscall_steps,
                ),
                self.tx_type,
                run.stack.state.modified_contracts().len(),
                run.stack.state.storage_updates().len(),
                run.stack.block_context.os_resources,
            ) {
                None => Err(TransactionError::ResourcesCalculation),
                Some(actual_resources) => Ok(
                    TransactionExecutionInfoView {
                        validate_info: if self.validates() {
                            Some(records[0])
                        } else {
                            None
                        },
                        call_info: Some(records.last()),
                        fee_transfer_info: None,
                        actual_fee: 0,
                        actual_resources,
                        tx_type: Some(self.tx_type),
                    },
                ),
            }
        }
    }

    /// Closes the part of the execution that charges no fee: gives the
    /// state that the calls have worked on and the report of what they did.
    pub fn finish_apply<'a, T: StateReader>(&self, run: TransactionRun<'a, T>) -> (r: Result<
        (CachedState<'a, T>, TransactionExecutionInfo),
        TransactionError,
    >)
        ensures
            match self.applied_info(&run) {
                Ok(info) => r matches Ok((state, i)) && state == run.stack.state && i@ == info,
                Err(e) => r matches Err(f) && f == e,
            },
    {
        let block_context = run.stack.block_context;
        let validates = self.entry_point_selector.equals(&execute_entry_point_selector())
            && !self.version.is_zero();
        let ghost views = calls_view(run.records@);
        let (state, records, resources_manager) = match run.into_parts() {
            Ok(parts) => parts,
            Err(e) => {
                return Err(e);
            },
        };
        let expected: usize = if validates {
            2
        } else {
            1
        };
        if records.len() != expected {
            return Err(TransactionError::CallStillRunning);
        }
        let changes = state.count_actual_storage_changes();
        let actual_resources = match calculate_tx_resources(
            &resources_manager,
            self.tx_type,
            changes,
            &block_context.os_resources,
        ) {
            Ok(u) => u,
            Err(e) => {
                return Err(e);
            },
        };
        let mut records = records;
        let call_info = records.pop();
        let validate_info = if validates {
            records.pop()
        } else {
            None
        };
        proof {
            assert(call_info matches Some(c) && c@ == views.last());
            if validates {
                assert(validate_info matches Some(c) && c@ == views[0]);
            }
        }
        Ok(
            (
                state,
                TransactionExecutionInfo::create_concurrent_stage_execution_info(
                    validate_info,
                    call_info,
                    actual_resources,
                    Some(self.tx_type),
                ),
            ),
        )
    }

    /// What [`InvokeFunction::execute`] does.
    pub open spec fn executed<'a, T: StateReader>(
        &self,
        pre: &CachedState<'a, T>,
        post: &CachedState<'a, T>,
        applied: Result<TransactionRun<'a, T>, TransactionError>,
        block_context: BlockContext,
        r: Result<(TransactionExecutionInfo, FeeCharge), TransactionError>,
    ) -> bool {
        match applied {
            Err(e) => r matches Err(f) && f == e && *post == *pre,
            Ok(run) => match self.applied_info(&run) {
                Err(e) => r matches Err(f) && f == e && *post == *pre,
                Ok(info) => {
                    if self.version@ != 0 && self.nonce is None {
                        r matches Err(TransactionError::MissingNonce) && *post == *pre
                    } else if self.version@ != 0 && run.stack.state.nonce_at(
                        self.contract_address@,
                    ) != self.nonce->0@ {
                        &&& r matches Err(TransactionError::InvalidTransactionNonce(is, given))
                        &&& is@ == decimal_digits(run.stack.state.nonce_at(self.contract_address@))
                        &&& given@ == decimal_digits(self.nonce->0@)
                        &&& *post == *pre
                    } else {
                        &&& if self.version@ == 0 {
                            *post == run.stack.state
                        } else {
                            nonce_checked(
                                &run.stack.state,
                                post,
                                self.contract_address@,
                                self.nonce->0@,
                                Ok(()),
                            )
                        }
                        &&& match fee_charge_of(
                            info.actual_resources,
                            block_context,
                            self.max_fee as nat,
                            self.contract_address@,
                        ) {
                            Ok(None) => r matches Ok((i, FeeCharge::Nothing)) && i@ == info,
                            Ok(Some((fee, call))) => r matches Ok(
                                (i, FeeCharge::Transfer { actual_fee, call: c }),
                            ) && i@ == info && actual_fee == fee && c@ == call,
                            Err(FeeFailure::Resources) => r matches Err(
                                TransactionError::ResourcesCalculation,
                            ),
                            Err(FeeFailure::ExceedsMaxFee) => r matches Err(
                                TransactionError::FeeError(m),
                            ) && m@ == "Actual fee exceeded max fee"@,
                        }
                    }
                },
            },
        }
    }

    /// Closes the execution up to the transfer of the fee.
    ///
    /// `applied` is what came of the run that [`InvokeFunction::apply`] set
    /// up, once it has been driven to its end. Where that run failed, or the
    /// nonce is not the account's, the state stays as it was. Else the state
    /// becomes the one that the calls have worked on, with the nonce of the
    /// account raised, and stays so even if the fee then turns out to be
    /// more than the transaction allows.
    pub fn execute<'a, T: StateReader>(
        &self,
        state: &mut CachedState<'a, T>,
        applied: Result<TransactionRun<'a, T>, TransactionError>,
        block_context: &BlockContext,
    ) -> (r: Result<(TransactionExecutionInfo, FeeCharge), TransactionError>)
        ensures
            self.executed(old(state), final(state), applied, *block_context, r),
    {
        let run = match applied {
            Ok(run) => run,
            Err(e) => {
                return Err(e);
            },
        };
        let (overlay, info) = match self.finish_apply(run) {
            Ok(parts) => parts,
            Err(e) => {
                return Err(e);
            },
        };
        let mut overlay = overlay;
        match self.handle_nonce(&mut overlay) {
            Ok(()) => {},
            Err(e) => {
                return Err(e);
            },
        }
        *state = overlay;
        match self.charge_fee(&info.actual_resources, block_context) {
            Ok(charge) => Ok((info, charge)),
            Err(e) => Err(e),
        }
    }
}

/// What [`settle_fee`] does.
pub open spec fn fee_settled<'a, T: StateReader>(
    pre: &CachedState<'a, T>,
    post: &CachedState<'a, T>,
    info: TransactionExecutionInfoView,
    charge: Option<(u128, Result<TransactionRun<'a, T>, TransactionError>)>,
    r: Result<TransactionExecutionInfo, TransactionError>,
) -> bool {
    match charge {
        None => {
            &&& *post == *pre
            &&& r matches Ok(i)
            &&& i@ == (TransactionExecutionInfoView {
                fee_transfer_info: None,
                actual_fee: 0,
                ..info
            })
        },
        Some((actual_fee, Ok(run))) => if run.stack.frames@.len() == 0 && run.planned@.len() == 0
            && run.records@.len() == 1 {
            &&& *post == run.stack.state
            &&& r matches Ok(i)
            &&& i@ == (TransactionExecutionInfoView {
                fee_transfer_info: Some(run.records@[0]@),
                actual_fee: actual_fee as nat,
                ..info
            })
        } else {
            &&& *post == *pre
            &&& r matches Err(TransactionError::FeeError(m))
            &&& m@ == "Fee transfer failure"@
        },
        Some((_, Err(_))) => {
            &&& *post == *pre
            &&& r matches Err(TransactionError::FeeError(m))
            &&& m@ == "Fee transfer failure"@
        },
    }
}

/// Closes the execution of a transaction once its fee is dealt with.
///
/// `charge` is nothing where the transaction pays no fee; else it is the fee
/// and what came of the run of its transfer. Where the transfer went through,
/// the state becomes the one that it worked on and the report gets the fee
/// and the record of the transfer. Where it failed, the state stays as it
/// was, with what the transaction did before, and the transaction fails.
pub fn settle_fee<'a, T: StateReader>(
    state: &mut CachedState<'a, T>,
    info: TransactionExecutionInfo,
    charge: Option<(u128, Result<TransactionRun<'a, T>, TransactionError>)>,
) -> (r: Result<TransactionExecutionInfo, TransactionError>)
    ensures
        fee_settled(old(state), final(state), info@, charge, r),
{
    match charge {
        None => Ok(TransactionExecutionInfo::from_concurrent_state_execution_info(info, 0, None)),
        Some((actual_fee, Ok(run))) => {
            let ghost views = run.records@;
            match run.into_parts() {
                Ok((overlay, records, _)) => {
                    let mut records = records;
                    if records.len() != 1 {
                        return Err(fee_transfer_failure());
                    }
                    let record = records.pop();
                    assert(record matches Some(c) && c == views[0]);
                    *state = overlay;
                    Ok(
                        TransactionExecutionInfo::from_concurrent_state_execution_info(
                            info,
                            actual_fee,
                            record,
                        ),
                    )
                },
                Err(_) => Err(fee_transfer_failure()),
            }
        },
        Some((_, Err(_))) => Err(fee_transfer_failure()),
    }
}


/// What an invoke reports of a run depends on nothing but what the run
/// holds: two runs that have ended with the same records, the same counts
/// and the same changes, in the same block, give the same report.
pub proof fn lemma_report_determined<'a, T: StateReader>(
    tx: InvokeFunction,
    first: TransactionRun<'a, T>,
    second: TransactionRun<'a, T>,
)
    requires
        first.stack.frames@.len() == second.stack.frames@.len(),
        first.planned@.len() == second.planned@.len(),
        calls_view(first.records@) == calls_view(second.records@),
        first.stack.resources_manager.cairo_usage == second.stack.resources_manager.cairo_usage,
        weighted_count(
            first.stack.resources_manager.syscall_counter@,
            first.stack.resources_manager.syscall_counter.keys(),
            first.stack.block_context.os_resources.syscall_steps,
        ) == weighted_count(
            second.stack.resources_manager.syscall_counter@,
            second.stack.resources_manager.syscall_counter.keys(),
            second.stack.block_context.os_resources.syscall_steps,
        ),
        first.stack.state.modified_contracts() == second.stack.state.modified_contracts(),
        first.stack.state.storage_updates() == second.stack.state.storage_updates(),
        first.stack.block_context.os_resources == second.stack.block_context.os_resources,
    ensures
        tx.applied_info(&first) == tx.applied_info(&second),
{
}

/// States that hold the same writes over the same store have changed the
/// same contracts and the same storage cells.
pub proof fn lemma_changes_determined<'a, T: StateReader>(
    first: CachedState<'a, T>,
    second: CachedState<'a, T>,
)
    requires
        first.state_reader == second.state_reader,
        first.cache@.class_hash_writes == second.cache@.class_hash_writes,
        first.cache@.nonce_writes == second.cache@.nonce_writes,
        first.cache@.storage_writes == second.cache@.storage_writes,
    ensures
        first.modified_contracts() == second.modified_contracts(),
        first.storage_updates() == second.storage_updates(),
{
    assert(first.modified_contracts() =~= second.modified_contracts());
    assert(first.storage_updates() =~= second.storage_updates());
}

} // verus!
