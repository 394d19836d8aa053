//! Deploying an account contract.
use crate::contract_class::CompiledClass;
use crate::definitions::block_context::BlockContext;
use crate::definitions::constants::{
    constructor_entry_point_selector, spec_constructor_entry_point_selector,
    spec_validate_deploy_entry_point_selector, validate_deploy_entry_point_selector,
    INITIAL_GAS_COST,
};
use crate::definitions::transaction_type::TransactionType;
use crate::error::{StateError, TransactionError};
use crate::execution::transaction_run::{plan_view, PlannedCall, PlannedCallView, TransactionRun};
use crate::execution::{
    calls_view, CallInfo, CallInfoView, CallType, EntryPointType, ExecutionEntryPoint,
    ExecutionEntryPointView, ResourceUsage, TransactionExecutionContext,
    TransactionExecutionContextView, TransactionExecutionInfo, TransactionExecutionInfoView,
};
use crate::felt::{decimal_digits, felts_view, Felt};
use crate::hash_utils::{
    calculate_contract_address, calculate_deploy_account_transaction_hash, contract_address_of,
    deploy_account_hash_of, prepend_two,
};
use crate::state::cached_state::CachedState;
use crate::state::execution_resources_manager::weighted_count;
use crate::state::state_api::StateReader;
use crate::transaction::fee::{calculate_tx_resources, tx_resources_of};
use crate::transaction::invoke_function::{
    check_and_increment_nonce, fee_charge_of, nonce_checked, plan_fee_charge, FeeCharge,
    FeeFailure,
};
use crate::utils::{clone_felts, Address, ClassHash};
use vstd::prelude::*;

verus! {

/// The contracts and classes that a transaction touches before it runs.
#[derive(Clone, Debug, PartialEq, Eq)]
pub struct StateSelector {
    pub contract_addresses: Vec<Address>,
    pub class_hashes: Vec<ClassHash>,
}

/// A transaction that deploys an account contract, paid for by the account
/// that it deploys.
#[derive(Debug, PartialEq, Eq)]
pub struct DeployAccount {
    pub contract_address: Address,
    pub contract_address_salt: Felt,
    pub class_hash: ClassHash,
    pub constructor_calldata: Vec<Felt>,
    pub version: Felt,
    pub nonce: Felt,
    pub max_fee: u128,
    pub hash_value: Felt,
    pub signature: Vec<Felt>,
}

/// What a [`DeployAccount`] holds.
pub struct DeployAccountView {
    pub contract_address: nat,
    pub contract_address_salt: nat,
    pub class_hash: nat,
    pub constructor_calldata: Seq<nat>,
    pub version: nat,
    pub nonce: nat,
    pub max_fee: nat,
    pub hash_value: nat,
    pub signature: Seq<nat>,
}

impl View for DeployAccount {
    type V = DeployAccountView;

    open spec fn view(&self) -> DeployAccountView {
        DeployAccountView {
            contract_address: self.contract_address@,
            contract_address_salt: self.contract_address_salt@,
            class_hash: self.class_hash@,
            constructor_calldata: felts_view(self.constructor_calldata@),
            version: self.version@,
            nonce: self.nonce@,
            max_fee: self.max_fee as nat,
            hash_value: self.hash_value@,
            signature: felts_view(self.signature@),
        }
    }
}

/// Another name of [`DeployAccount`].
pub type InternalDeployAccount = DeployAccount;

impl DeployAccount {
    /// Makes the deployment of an account. The address of the account
    /// follows from its salt, its class and the arguments of its
    /// constructor, with nobody as the deployer; the hash follows from the
    /// fields where none is given.
    pub fn new(
        class_hash: ClassHash,
        max_fee: u128,
        version: Felt,
        nonce: Felt,
        constructor_calldata: Vec<Felt>,
        signature: Vec<Felt>,
        contract_address_salt: Felt,
        chain_id: Felt,
        hash_value: Option<Felt>,
    ) -> (r: Result<DeployAccount, TransactionError>)
        ensures
            r matches Ok(tx) && tx@ == ({
                let contract_address = contract_address_of(
                    contract_address_salt@,
                    class_hash@,
                    felts_view(constructor_calldata@),
                    0,
                );
                DeployAccountView {
                    contract_address,
                    contract_address_salt: contract_address_salt@,
                    class_hash: class_hash@,
                    constructor_calldata: felts_view(constructor_calldata@),
                    version: version@,
                    nonce: nonce@,
                    max_fee: max_fee as nat,
                    hash_value: match hash_value {
                        Some(h) => h@,
                        None => deploy_account_hash_of(
                            version@,
                            contract_address,
                            class_hash@,
                            felts_view(constructor_calldata@),
                            max_fee as nat,
                            nonce@,
                            contract_address_salt@,
                            chain_id@,
                        ),
                    },
                    signature: felts_view(signature@),
                }
            }),
    {
        let contract_address = Address(
            calculate_contract_address(
                &contract_address_salt,
                &class_hash,
                &constructor_calldata,
                Address(Felt::zero()),
            ),
        );
        let hash_value = match hash_value {
            Some(hash) => hash,
            None => calculate_deploy_account_transaction_hash(
                version,
                &contract_address,
                class_hash,
                &constructor_calldata,
                max_fee,
                nonce,
                contract_address_salt,
                chain_id,
            ),
        };
        Ok(
            DeployAccount {
                contract_address,
                contract_address_salt,
                class_hash,
                constructor_calldata,
                version,
                nonce,
                max_fee,
                hash_value,
                signature,
            },
        )
    }

    /// The address of the account.
    pub fn contract_address(&self) -> (r: &Address)
        ensures
            *r == self.contract_address,
    {
        &self.contract_address
    }

    /// The salt that the address was made with.
    pub fn contract_address_salt(&self) -> (r: &Felt)
        ensures
            *r == self.contract_address_salt,
    {
        &self.contract_address_salt
    }

    /// The class of the account.
    pub fn class_hash(&self) -> (r: &ClassHash)
        ensures
            *r == self.class_hash,
    {
        &self.class_hash
    }

    /// The arguments of the constructor.
    pub fn constructor_calldata(&self) -> (r: &Vec<Felt>)
        ensures
            *r == self.constructor_calldata,
    {
        &self.constructor_calldata
    }

    /// The hash of the transaction.
    pub fn hash_value(&self) -> (r: &Felt)
        ensures
            *r == self.hash_value,
    {
        &self.hash_value
    }

    /// The signature of the transaction.
    pub fn signature(&self) -> (r: &Vec<Felt>)
        ensures
            *r == self.signature,
    {
        &self.signature
    }

    /// The contract and the class that the transaction touches.
    pub fn get_state_selector(&self, _block_context: BlockContext) -> (r: StateSelector)
        ensures
            r.contract_addresses@ == seq![self.contract_address],
            r.class_hashes@ == seq![self.class_hash],
    {
        let mut contract_addresses: Vec<Address> = Vec::new();
        contract_addresses.push(self.contract_address);
        let mut class_hashes: Vec<ClassHash> = Vec::new();
        class_hashes.push(self.class_hash);
        assert(contract_addresses@ =~= seq![self.contract_address]);
        assert(class_hashes@ =~= seq![self.class_hash]);
        StateSelector { contract_addresses, class_hashes }
    }

    /// The context that the calls of the transaction run in.
    pub fn get_execution_context(&self, n_steps: u64) -> (r: TransactionExecutionContext)
        ensures
            r@ == (TransactionExecutionContextView {
                n_emitted_events: 0,
                version: self.version@,
                account_contract_address: self.contract_address@,
                max_fee: self.max_fee as nat,
                transaction_hash: self.hash_value@,
                signature: felts_view(self.signature@),
                nonce: self.nonce@,
                n_sent_messages: 0,
                n_steps: n_steps as nat,
            }),
    {
        TransactionExecutionContext::new(
            self.contract_address,
            self.hash_value,
            clone_felts(&self.signature),
            self.max_fee,
            self.nonce,
            n_steps,
            self.version,
        )
    }

    /// Whether a class has no constructor to run.
    pub fn constructor_entry_points_empty(&self, contract_class: &CompiledClass) -> (r: bool)
        ensures
            r == !contract_class@.has_constructor(),
    {
        !contract_class.has_constructor()
    }

    /// The call of the constructor of the account.
    pub open spec fn constructor_call(&self, block_context: BlockContext) -> PlannedCallView {
        PlannedCallView {
            entry_point: ExecutionEntryPointView {
                call_type: CallType::Call,
                contract_address: self.contract_address@,
                code_address: None,
                class_hash: None,
                calldata: felts_view(self.constructor_calldata@),
                caller_address: 0,
                entry_point_selector: spec_constructor_entry_point_selector(),
                entry_point_type: EntryPointType::Constructor,
                initial_gas: INITIAL_GAS_COST as nat,
            },
            n_steps: block_context.validate_max_n_steps as nat,
            must_stay_in_contract: true,
        }
    }

    /// The call by which the account checks its own deployment.
    pub open spec fn validate_call(&self, block_context: BlockContext) -> PlannedCallView {
        PlannedCallView {
            entry_point: ExecutionEntryPointView {
                call_type: CallType::Call,
                contract_address: self.contract_address@,
                code_address: None,
                class_hash: None,
                calldata: seq![self.class_hash@, self.contract_address_salt@] + felts_view(
                    self.constructor_calldata@,
                ),
                caller_address: 0,
                entry_point_selector: spec_validate_deploy_entry_point_selector(),
                entry_point_type: EntryPointType::External,
                initial_gas: INITIAL_GAS_COST as nat,
            },
            n_steps: block_context.validate_max_n_steps as nat,
            must_stay_in_contract: true,
        }
    }

    /// The record of the constructor of an account whose class has none.
    pub open spec fn empty_constructor_record(&self) -> CallInfoView {
        CallInfoView {
            call_type: Some(CallType::Call),
            class_hash: Some(self.class_hash@),
            entry_point_selector: Some(spec_constructor_entry_point_selector()),
            entry_point_type: Some(EntryPointType::Constructor),
            ..CallInfoView::empty(0, self.contract_address@)
        }
    }

    /// Builds the call of the constructor of the account. The call must not
    /// leave the account.
    pub fn run_constructor_entrypoint(&self, block_context: &BlockContext) -> (r: PlannedCall)
        ensures
            r@ == self.constructor_call(*block_context),
    {
        let entry_point = ExecutionEntryPoint::new(
            self.contract_address,
            clone_felts(&self.constructor_calldata),
            constructor_entry_point_selector(),
            Address(Felt::zero()),
            EntryPointType::Constructor,
            None,
            None,
            INITIAL_GAS_COST,
        );
        PlannedCall {
            entry_point,
            n_steps: block_context.validate_max_n_steps,
            must_stay_in_contract: true,
        }
    }

    /// Decides what the constructor of the account comes to: where the
    /// class has none, a record of a call that ran nothing, unless
    /// arguments were given for it, which is an error; else the call of
    /// the constructor.
    pub fn handle_constructor(&self, contract_class: &CompiledClass, block_context: &BlockContext) -> (r:
        Result<Result<CallInfo, PlannedCall>, TransactionError>)
        ensures
            if contract_class@.has_constructor() {
                r matches Ok(Err(call)) && call@ == self.constructor_call(*block_context)
            } else if self.constructor_calldata@.len() > 0 {
                r matches Err(TransactionError::EmptyConstructorCalldata)
            } else {
                r matches Ok(Ok(record)) && record@ == self.empty_constructor_record()
            },
    {
        if self.constructor_entry_points_empty(contract_class) {
            if self.constructor_calldata.len() > 0 {
                return Err(TransactionError::EmptyConstructorCalldata);
            }
            Ok(
                Ok(
                    CallInfo::empty_constructor_call(
                        self.contract_address,
                        Address(Felt::zero()),
                        Some(self.class_hash),
                    ),
                ),
            )
        } else {
            Ok(Err(self.run_constructor_entrypoint(block_context)))
        }
    }

    /// Builds the call by which the account checks its own deployment. A
    /// transaction of version 0 is not checked. The call must not leave the
    /// account.
    pub fn run_validate_entrypoint(&self, block_context: &BlockContext) -> (r: Option<PlannedCall>)
        ensures
            match r {
                Some(call) => self.version@ != 0 && call@ == self.validate_call(*block_context),
                None => self.version@ == 0,
            },
    {
        if self.version.is_zero() {
            return None;
        }
        let calldata = prepend_two(
            self.class_hash,
            self.contract_address_salt,
            &self.constructor_calldata,
        );
        let entry_point = ExecutionEntryPoint::new(
            self.contract_address,
            calldata,
            validate_deploy_entry_point_selector(),
            Address(Felt::zero()),
            EntryPointType::External,
            None,
            None,
            INITIAL_GAS_COST,
        );
        Some(
            PlannedCall {
                entry_point,
                n_steps: block_context.validate_max_n_steps,
                must_stay_in_contract: true,
            },
        )
    }

    /// What [`DeployAccount::apply`] does.
    pub open spec fn applied<'a, T: StateReader>(
        &self,
        state: &CachedState<'a, T>,
        block_context: BlockContext,
        r: Result<TransactionRun<'a, T>, TransactionError>,
    ) -> bool {
        match state.contract_class(self.class_hash@) {
            None => r matches Err(TransactionError::State(StateError::NoneContractClass(h)))
                && h@ == self.class_hash@,
            Some(class) => if state.class_hash_at(self.contract_address@) != 0 {
                r matches Err(TransactionError::State(StateError::ContractAddressUnavailable(a)))
                    && a@ == self.contract_address@
            } else if !class.has_constructor() && self.constructor_calldata@.len() > 0 {
                r matches Err(TransactionError::EmptyConstructorCalldata)
            } else {
                &&& r matches Ok(run)
                &&& run.stack.state.class_hash_written(
                    state,
                    self.contract_address@,
                    self.class_hash@,
                )
                &&& run.stack.block_context == block_context
                &&& run.stack.tx_context@ == (TransactionExecutionContextView {
                    n_emitted_events: 0,
                    version: self.version@,
                    account_contract_address: self.contract_address@,
                    max_fee: self.max_fee as nat,
                    transaction_hash: self.hash_value@,
                    signature: felts_view(self.signature@),
                    nonce: self.nonce@,
                    n_sent_messages: 0,
                    n_steps: block_context.validate_max_n_steps as nat,
                })
                &&& run.stack.frames@.len() == 0
                &&& calls_view(run.records@) == (if class.has_constructor() {
                    Seq::<CallInfoView>::empty()
                } else {
                    seq![self.empty_constructor_record()]
                })
                &&& plan_view(run.planned@) == (if class.has_constructor() {
                    seq![self.constructor_call(block_context)]
                } else {
                    Seq::<PlannedCallView>::empty()
                }) + (if self.version@ != 0 {
                    seq![self.validate_call(block_context)]
                } else {
                    Seq::<PlannedCallView>::empty()
                })
            },
        }
    }

    /// Sets up the part of the execution that charges no fee, on an overlay
    /// of the state: the account is put at its address, which must hold no
    /// contract yet, and the calls of its constructor and of its own check
    /// are planned. The state itself is not touched.
    pub fn apply<'a, T: StateReader>(
        &self,
        state: &CachedState<'a, T>,
        block_context: &BlockContext,
    ) -> (r: Result<TransactionRun<'a, T>, TransactionError>)
        ensures
            self.applied(state, *block_context, r),
    {
        let mut overlay = state.duplicate();
        let contract_class = match overlay.get_contract_class(&self.class_hash) {
            Ok(c) => c,
            Err(e) => {
                return Err(TransactionError::State(e));
            },
        };
        match overlay.deploy_contract(self.contract_address, self.class_hash) {
            Ok(()) => {},
            Err(e) => {
                return Err(TransactionError::State(e));
            },
        }
        let mut planned: Vec<PlannedCall> = Vec::new();
        let mut records: Vec<CallInfo> = Vec::new();
        match self.handle_constructor(&contract_class, block_context) {
            Ok(Ok(record)) => {
                records.push(record);
            },
            Ok(Err(call)) => {
                planned.push(call);
            },
            Err(e) => {
                return Err(e);
            },
        }
        match self.run_validate_entrypoint(block_context) {
            Some(call) => {
                planned.push(call);
            },
            None => {},
        }
        let tx_context = self.get_execution_context(block_context.validate_max_n_steps);
        let mut run = TransactionRun::new(overlay, *block_context, tx_context, planned);
        run.records = records;
        proof {
            let class = state.contract_class(self.class_hash@)->0;
            assert(calls_view(run.records@) =~= (if class.has_constructor() {
                Seq::<CallInfoView>::empty()
            } else {
                seq![self.empty_constructor_record()]
            }));
            assert(plan_view(run.planned@) =~= (if class.has_constructor() {
                seq![self.constructor_call(*block_context)]
            } else {
                Seq::<PlannedCallView>::empty()
            }) + (if self.version@ != 0 {
                seq![self.validate_call(*block_context)]
            } else {
                Seq::<PlannedCallView>::empty()
            }));
        }
        Ok(run)
    }

    /// The report of the part of the execution that charges no fee, for a
    /// run that has ended.
    pub open spec fn applied_info<'a, T: StateReader>(
        &self,
        run: &TransactionRun<'a, T>,
    ) -> Result<TransactionExecutionInfoView, TransactionError> {
        let records = calls_view(run.records@);
        let expected: nat = if self.version@ != 0 {
            2
        } else {
            1
        };
        if !(run.stack.frames@.len() == 0 && run.planned@.len() == 0) || records.len()
            != expected {
            Err(TransactionError::CallStillRunning)
        } else {
            match tx_resources_of(
                run.stack.resources_manager.cairo_usage,
                weighted_count(
                    run.stack.resources_manager.syscall_counter@,
                    run.stack.resources_manager.syscall_counter.keys(),
                    run.stack.block_context.os_resources.syscall_steps,
                ),
                TransactionType::DeployAccount,
                run.stack.state.modified_contracts().len(),
                run.stack.state.storage_updates().len(),
                run.stack.block_context.os_resources,
            ) {
                None => Err(TransactionError::ResourcesCalculation),
                Some(actual_resources) => Ok(
                    TransactionExecutionInfoView {
                        validate_info: if self.version@ != 0 {
                            Some(records[1])
                        } else {
                            None
                        },
                        call_info: Some(records[0]),
                        fee_transfer_info: None,
                        actual_fee: 0,
                        actual_resources,
                        tx_type: Some(TransactionType::DeployAccount),
                    },
                ),
            }
        }
    }

    /// Closes the part of the execution that charges no fee: gives the
    /// state that the calls have worked on and the report of what they did.
    pub fn finish_apply<'a, T: StateReader>(&self, run: TransactionRun<'a, T>) -> (r: Result<
        (CachedState<'a, T>, TransactionExecutionInfo),
        TransactionError,
    >)
        ensures
            match self.applied_info(&run) {
                Ok(info) => r matches Ok((state, i)) && state == run.stack.state && i@ == info,
                Err(e) => r matches Err(f) && f == e,
            },
    {
        let block_context = run.stack.block_context;
        let validates = !self.version.is_zero();
        let ghost views = calls_view(run.records@);
        let (state, records, resources_manager) = match run.into_parts() {
            Ok(parts) => parts,
            Err(e) => {
                return Err(e);
            },
        };
        let expected: usize = if validates {
            2
        } else {
            1
        };
        if records.len() != expected {
            return Err(TransactionError::CallStillRunning);
        }
        let changes = state.count_actual_storage_changes();
        let actual_resources = match calculate_tx_resources(
            &resources_manager,
            TransactionType::DeployAccount,
            changes,
            &block_context.os_resources,
        ) {
            Ok(u) => u,
            Err(e) => {
                return Err(e);
            },
        };
        let mut records = records;
        let validate_info = if validates {
            records.pop()
        } else {
            None
        };
        let call_info = records.pop();
        proof {
            assert(call_info matches Some(c) && c@ == views[0]);
            if validates {
                assert(validate_info matches Some(c) && c@ == views[1]);
            }
        }
        Ok(
            (
                state,
                TransactionExecutionInfo::create_concurrent_stage_execution_info(
                    validate_info,
                    call_info,
                    actual_resources,
                    Some(TransactionType::DeployAccount),
                ),
            ),
        )
    }

    /// Checks the nonce of the transaction against the account and raises
    /// the nonce of the account. A transaction of version 0 has no nonce to
    /// check.
    pub fn handle_nonce<'a, T: StateReader>(&self, state: &mut CachedState<'a, T>) -> (r: Result<
        (),
        TransactionError,
    >)
        ensures
            self.version@ == 0 ==> r is Ok && *final(state) == *old(state),
            self.version@ != 0 ==> nonce_checked(
                old(state),
                final(state),
                self.contract_address@,
                self.nonce@,
                r,
            ),
    {
        if self.version.is_zero() {
            return Ok(());
        }
        check_and_increment_nonce(state, &self.contract_address, &self.nonce)
    }

    /// Decides how the fee of the transaction is charged.
    pub fn charge_fee(&self, resources: &ResourceUsage, block_context: &BlockContext) -> (r: Result<
        FeeCharge,
        TransactionError,
    >)
        ensures
            match fee_charge_of(
                *resources,
                *block_context,
                self.max_fee as nat,
                self.contract_address@,
            ) {
                Ok(None) => r == Ok::<FeeCharge, TransactionError>(FeeCharge::Nothing),
                Ok(Some((fee, call))) => r matches Ok(FeeCharge::Transfer { actual_fee, call: c })
                    && actual_fee == fee && c@ == call,
                Err(FeeFailure::Resources) => r == Err::<FeeCharge, TransactionError>(
                    TransactionError::ResourcesCalculation,
                ),
                Err(FeeFailure::ExceedsMaxFee) => r matches Err(TransactionError::FeeError(m))
                    && m@ == "Actual fee exceeded max fee"@,
            },
    {
        plan_fee_charge(resources, block_context, self.max_fee, self.contract_address)
    }

    /// What [`DeployAccount::execute`] does.
    pub open spec fn executed<'a, T: StateReader>(
        &self,
        pre: &CachedState<'a, T>,
        post: &CachedState<'a, T>,
        applied: Result<TransactionRun<'a, T>, TransactionError>,
        block_context: BlockContext,
        r: Result<(TransactionExecutionInfo, FeeCharge), TransactionError>,
    ) -> bool {
        match applied {
            Err(e) => r matches Err(f) && f == e && *post == *pre,
            Ok(run) => match self.applied_info(&run) {
                Err(e) => r matches Err(f) && f == e && *post == *pre,
                Ok(info) => {
                    if self.version@ != 0 && run.stack.state.nonce_at(self.contract_address@)
                        != self.nonce@ {
                        &&& r matches Err(TransactionError::InvalidTransactionNonce(is, given))
                        &&& is@ == decimal_digits(run.stack.state.nonce_at(self.contract_address@))
                        &&& given@ == decimal_digits(self.nonce@)
                        &&& *post == *pre
                    } else {
                        &&& if self.version@ == 0 {
                            *post == run.stack.state
                        } else {
                            nonce_checked(
                                &run.stack.state,
                                post,
                                self.contract_address@,
                                self.nonce@,
                                Ok(()),
                            )
                        }
                        &&& match fee_charge_of(
                            info.actual_resources,
                            block_context,
                            self.max_fee as nat,
                            self.contract_address@,
                        ) {
                            Ok(None) => r matches Ok((i, FeeCharge::Nothing)) && i@ == info,
                            Ok(Some((fee, call))) => r matches Ok(
                                (i, FeeCharge::Transfer { actual_fee, call: c }),
                            ) && i@ == info && actual_fee == fee && c@ == call,
                            Err(FeeFailure::Resources) => r matches Err(
                                TransactionError::ResourcesCalculation,
                            ),
                            Err(FeeFailure::ExceedsMaxFee) => r matches Err(
                                TransactionError::FeeError(m),
                            ) && m@ == "Actual fee exceeded max fee"@,
                        }
                    }
                },
            },
        }
    }

    /// Closes the execution up to the transfer of the fee.
    ///
    /// `applied` is what came of the run that [`DeployAccount::apply`] set
    /// up, once it has been driven to its end. Where that run failed, or the
    /// nonce is not the account's, the state stays as it was. Else the state
    /// becomes the one that the calls have worked on, with the nonce of the
    /// account raised.
    pub fn execute<'a, T: StateReader>(
        &self,
        state: &mut CachedState<'a, T>,
        applied: Result<TransactionRun<'a, T>, TransactionError>,
        block_context: &BlockContext,
    ) -> (r: Result<(TransactionExecutionInfo, FeeCharge), TransactionError>)
        ensures
            self.executed(old(state), final(state), applied, *block_context, r),
    {
        let run = match applied {
            Ok(run) => run,
            Err(e) => {
                return Err(e);
            },
        };
        let (overlay, info) = match self.finish_apply(run) {
            Ok(parts) => parts,
            Err(e) => {
                return Err(e);
            },
        };
        let mut overlay = overlay;
        match self.handle_nonce(&mut overlay) {
            Ok(()) => {},
            Err(e) => {
                return Err(e);
            },
        }
        *state = overlay;
        match self.charge_fee(&info.actual_resources, block_context) {
            Ok(charge) => Ok((info, charge)),
            Err(e) => Err(e),
        }
    }
}

} // verus!
