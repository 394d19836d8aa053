//! Declaring a contract class.
use crate::contract_class::{CompiledClassView, ContractClass};
use crate::definitions::block_context::BlockContext;
use crate::definitions::constants::{
    spec_validate_declare_entry_point_selector, validate_declare_entry_point_selector,
};
use crate::definitions::transaction_type::TransactionType;
use crate::error::TransactionError;
use crate::execution::transaction_run::{plan_view, PlannedCall, PlannedCallView, TransactionRun};
use crate::execution::{
    calls_view, CallType, EntryPointType, ExecutionEntryPoint, ExecutionEntryPointView,
    TransactionExecutionContext, TransactionExecutionContextView, TransactionExecutionInfo,
    TransactionExecutionInfoView,
};
use crate::felt::{decimal_digits, felts_view, Felt};
use crate::hash_utils::{calculate_declare_transaction_hash, declare_hash_of};
use crate::state::cached_state::CachedState;
use crate::state::execution_resources_manager::weighted_count;
use crate::state::state_api::StateReader;
use crate::transaction::fee::{calculate_tx_resources, tx_resources_of};
use crate::transaction::invoke_function::{
    check_and_increment_nonce, fee_charge_of, nonce_checked, plan_fee_charge, FeeCharge,
    FeeFailure,
};
use crate::utils::{clone_felts, Address, ClassHash};
use vstd::prelude::*;

verus! {

/// A transaction that makes a Cairo 0 class known to the chain.
#[derive(Debug, PartialEq, Eq)]
pub struct Declare {
    pub class_hash: ClassHash,
    pub contract_class: ContractClass,
    pub sender_address: Address,
    pub version: Felt,
    pub max_fee: u128,
    pub signature: Vec<Felt>,
    pub nonce: Felt,
    pub hash_value: Felt,
}

impl Declare {
    /// Makes a declaration of a class under its hash, with the hash that
    /// its fields give it where none is given.
    pub fn new(
        contract_class: ContractClass,
        class_hash: ClassHash,
        chain_id: Felt,
        sender_address: Address,
        max_fee: u128,
        version: Felt,
        signature: Vec<Felt>,
        nonce: Felt,
        hash_value: Option<Felt>,
    ) -> (r: Declare)
        ensures
            r.class_hash == class_hash,
            r.contract_class == contract_class,
            r.sender_address == sender_address,
            r.version == version,
            r.max_fee == max_fee,
            r.signature == signature,
            r.nonce == nonce,
            r.hash_value@ == (match hash_value {
                Some(h) => h@,
                None => declare_hash_of(
                    class_hash@,
                    chain_id@,
                    sender_address@,
                    max_fee as nat,
                    version@,
                    nonce@,
                ),
            }),
    {
        let hash_value = match hash_value {
            Some(hash) => hash,
            None => calculate_declare_transaction_hash(
                class_hash,
                chain_id,
                &sender_address,
                max_fee,
                version,
                nonce,
            ),
        };
        Declare {
            class_hash,
            contract_class,
            sender_address,
            version,
            max_fee,
            signature,
            nonce,
            hash_value,
        }
    }

    /// The context that the calls of the transaction run in.
    pub fn get_execution_context(&self, n_steps: u64) -> (r: TransactionExecutionContext)
        ensures
            r@ == (TransactionExecutionContextView {
                n_emitted_events: 0,
                version: self.version@,
                account_contract_address: self.sender_address@,
                max_fee: self.max_fee as nat,
                transaction_hash: self.hash_value@,
                signature: felts_view(self.signature@),
                nonce: self.nonce@,
                n_sent_messages: 0,
                n_steps: n_steps as nat,
            }),
    {
        TransactionExecutionContext::new(
            self.sender_address,
            self.hash_value,
            clone_felts(&self.signature),
            self.max_fee,
            self.nonce,
            n_steps,
            self.version,
        )
    }

    /// The call by which the sender checks the declaration.
    pub open spec fn validate_call(&self, block_context: BlockContext) -> PlannedCallView {
        PlannedCallView {
            entry_point: ExecutionEntryPointView {
                call_type: CallType::Call,
                contract_address: self.sender_address@,
                code_address: None,
                class_hash: None,
                calldata: seq![self.class_hash@],
                caller_address: 0,
                entry_point_selector: spec_validate_declare_entry_point_selector(),
                entry_point_type: EntryPointType::External,
                initial_gas: 0,
            },
            n_steps: block_context.validate_max_n_steps as nat,
            must_stay_in_contract: true,
        }
    }

    /// Builds the call by which the sender checks the declaration. A
    /// transaction of version 0 is not checked. The call must not leave the
    /// sender.
    pub fn run_validate_entrypoint(&self, block_context: &BlockContext) -> (r: Option<PlannedCall>)
        ensures
            match r {
                Some(call) => self.version@ != 0 && call@ == self.validate_call(*block_context),
                None => self.version@ == 0,
            },
    {
        if self.version.is_zero() {
            return None;
        }
        let mut calldata: Vec<Felt> = Vec::new();
        calldata.push(self.class_hash);
        assert(felts_view(calldata@) =~= seq![self.class_hash@]);
        let entry_point = ExecutionEntryPoint::new(
            self.sender_address,
            calldata,
            validate_declare_entry_point_selector(),
            Address(Felt::zero()),
            EntryPointType::External,
            None,
            None,
            0,
        );
        Some(
            PlannedCall {
                entry_point,
                n_steps: block_context.validate_max_n_steps,
                must_stay_in_contract: true,
            },
        )
    }

    /// Sets up the part of the execution that charges no fee, on an overlay
    /// of the state: the class is put among the classes at hand under its
    /// hash, and the check by the sender is planned. The state itself is not
    /// touched.
    pub fn apply<'a, T: StateReader>(
        &self,
        state: &CachedState<'a, T>,
        block_context: &BlockContext,
    ) -> (r: TransactionRun<'a, T>)
        ensures
            r.stack.state.state_reader == state.state_reader,
            r.stack.state.cache@ == state.cache@,
            r.stack.state.contract_classes@ == state.contract_classes@.insert(
                self.class_hash@,
                CompiledClassView::Deprecated(self.contract_class@),
            ),
            r.stack.block_context == *block_context,
            r.stack.tx_context@ == (TransactionExecutionContextView {
                n_emitted_events: 0,
                version: self.version@,
                account_contract_address: self.sender_address@,
                max_fee: self.max_fee as nat,
                transaction_hash: self.hash_value@,
                signature: felts_view(self.signature@),
                nonce: self.nonce@,
                n_sent_messages: 0,
                n_steps: block_context.validate_max_n_steps as nat,
            }),
            r.stack.frames@.len() == 0,
            r.records@.len() == 0,
            plan_view(r.planned@) == (if self.version@ != 0 {
                seq![self.validate_call(*block_context)]
            } else {
                Seq::<PlannedCallView>::empty()
            }),
    {
        let mut overlay = state.duplicate();
        overlay.set_contract_class(&self.class_hash, &self.contract_class);
        let mut planned: Vec<PlannedCall> = Vec::new();
        match self.run_validate_entrypoint(block_context) {
            Some(call) => {
                planned.push(call);
            },
            None => {},
        }
        assert(plan_view(planned@) =~= (if self.version@ != 0 {
            seq![self.validate_call(*block_context)]
        } else {
            Seq::<PlannedCallView>::empty()
        }));
        let tx_context = self.get_execution_context(block_context.validate_max_n_steps);
        TransactionRun::new(overlay, *block_context, tx_context, planned)
    }

    /// The report of the part of the execution that charges no fee, for a
    /// run that has ended.
    pub open spec fn applied_info<'a, T: StateReader>(
        &self,
        run: &TransactionRun<'a, T>,
    ) -> Result<TransactionExecutionInfoView, TransactionError> {
        let records = calls_view(run.records@);
        let expected: nat = if self.version@ != 0 {
            1
        } else {
            0
        };
        if !(run.stack.frames@.len() == 0 && run.planned@.len() == 0) || records.len()
            != expected {
            Err(TransactionError::CallStillRunning)
        } else {
            match tx_resources_of(
                run.stack.resources_manager.cairo_usage,
                weighted_count(
                    run.stack.resources_manager.syscall_counter@,
                    run.stack.resources_manager.syscall_counter.keys(),
                    run.stack.block_context.os_resources.syscall_steps,
                ),
                TransactionType::Declare,
                run.stack.state.modified_contracts().len(),
                run.stack.state.storage_updates().len(),
                run.stack.block_context.os_resources,
            ) {
                None => Err(TransactionError::ResourcesCalculation),
                Some(actual_resources) => Ok(
                    TransactionExecutionInfoView {
                        validate_info: if self.version@ != 0 {
                            Some(records[0])
                        } else {
                            None
                        },
                        call_info: None,
                        fee_transfer_info: None,
                        actual_fee: 0,
                        actual_resources,
                        tx_type: Some(TransactionType::Declare),
                    },
                ),
            }
        }
    }

    /// Closes the part of the execution that charges no fee: gives the
    /// state that the calls have worked on and the report of what they did.
    pub fn finish_apply<'a, T: StateReader>(&self, run: TransactionRun<'a, T>) -> (r: Result<
        (CachedState<'a, T>, TransactionExecutionInfo),
        TransactionError,
    >)
        ensures
            match self.applied_info(&run) {
                Ok(info) => r matches Ok((state, i)) && state == run.stack.state && i@ == info,
                Err(e) => r matches Err(f) && f == e,
            },
    {
        let block_context = run.stack.block_context;
        let validates = !self.version.is_zero();
        let ghost views = calls_view(run.records@);
        let (state, records, resources_manager) = match run.into_parts() {
            Ok(parts) => parts,
            Err(e) => {
                return Err(e);
            },
        };
        let expected: usize = if validates {
            1
        } else {
            0
        };
        if records.len() != expected {
            return Err(TransactionError::CallStillRunning);
        }
        let changes = state.count_actual_storage_changes();
        let actual_resources = match calculate_tx_resources(
            &resources_manager,
            TransactionType::Declare,
            changes,
            &block_context.os_resources,
        ) {
            Ok(u) => u,
            Err(e) => {
                return Err(e);
            },
        };
        let mut records = records;
        let validate_info = records.pop();
        proof {
            if validates {
                assert(validate_info matches Some(c) && c@ == views[0]);
            }
        }
        Ok(
            (
                state,
                TransactionExecutionInfo::create_concurrent_stage_execution_info(
                    validate_info,
                    None,
                    actual_resources,
                    Some(TransactionType::Declare),
                ),
            ),
        )
    }

    /// Checks the nonce of the transaction against the sender and raises
    /// the nonce of the sender. A transaction of version 0 has no nonce to
    /// check.
    pub fn handle_nonce<'a, T: StateReader>(&self, state: &mut CachedState<'a, T>) -> (r: Result<
        (),
        TransactionError,
    >)
        ensures
            self.version@ == 0 ==> r is Ok && *final(state) == *old(state),
            self.version@ != 0 ==> nonce_checked(
                old(state),
                final(state),
                self.sender_address@,
                self.nonce@,
                r,
            ),
    {
        if self.version.is_zero() {
            return Ok(());
        }
        check_and_increment_nonce(state, &self.sender_address, &self.nonce)
    }

    /// What [`Declare::execute`] does.
    pub open spec fn executed<'a, T: StateReader>(
        &self,
        pre: &CachedState<'a, T>,
        post: &CachedState<'a, T>,
        applied: Result<TransactionRun<'a, T>, TransactionError>,
        block_context: BlockContext,
        r: Result<(TransactionExecutionInfo, FeeCharge), TransactionError>,
    ) -> bool {
        match applied {
            Err(e) => r matches Err(f) && f == e && *post == *pre,
            Ok(run) => match self.applied_info(&run) {
                Err(e) => r matches Err(f) && f == e && *post == *pre,
                Ok(info) => {
                    if self.version@ != 0 && run.stack.state.nonce_at(self.sender_address@)
                        != self.nonce@ {
                        &&& r matches Err(TransactionError::InvalidTransactionNonce(is, given))
                        &&& is@ == decimal_digits(run.stack.state.nonce_at(self.sender_address@))
                        &&& given@ == decimal_digits(self.nonce@)
                        &&& *post == *pre
                    } else {
                        &&& if self.version@ == 0 {
                            *post == run.stack.state
                        } else {
                            nonce_checked(
                                &run.stack.state,
                                post,
                                self.sender_address@,
                                self.nonce@,
                                Ok(()),
                            )
                        }
                        &&& match fee_charge_of(
                            info.actual_resources,
                            block_context,
                            self.max_fee as nat,
                            self.sender_address@,
                        ) {
                            Ok(None) => r matches Ok((i, FeeCharge::Nothing)) && i@ == info,
                            Ok(Some((fee, call))) => r matches Ok(
                                (i, FeeCharge::Transfer { actual_fee, call: c }),
                            ) && i@ == info && actual_fee == fee && c@ == call,
                            Err(FeeFailure::Resources) => r matches Err(
                                TransactionError::ResourcesCalculation,
                            ),
                            Err(FeeFailure::ExceedsMaxFee) => r matches Err(
                                TransactionError::FeeError(m),
                            ) && m@ == "Actual fee exceeded max fee"@,
                        }
                    }
                },
            },
        }
    }

    /// Closes the execution up to the transfer of the fee.
    ///
    /// `applied` is what came of the run that [`Declare::apply`] set up,
    /// once it has been driven to its end. Where that run failed, or the
    /// nonce is not the sender's, the state stays as it was. Else the state
    /// becomes the one that the calls have worked on, with the nonce of the
    /// sender raised.
    pub fn execute<'a, T: StateReader>(
        &self,
        state: &mut CachedState<'a, T>,
        applied: Result<TransactionRun<'a, T>, TransactionError>,
        block_context: &BlockContext,
    ) -> (r: Result<(TransactionExecutionInfo, FeeCharge), TransactionError>)
        ensures
            self.executed(old(state), final(state), applied, *block_context, r),
    {
        let run = match applied {
            Ok(run) => run,
            Err(e) => {
                return Err(e);
            },
        };
        let (overlay, info) = match self.finish_apply(run) {
            Ok(parts) => parts,
            Err(e) => {
                return Err(e);
            },
        };
        let mut overlay = overlay;
        match self.handle_nonce(&mut overlay) {
            Ok(()) => {},
            Err(e) => {
                return Err(e);
            },
        }
        *state = overlay;
        match plan_fee_charge(
            &info.actual_resources,
            block_context,
            self.max_fee,
            self.sender_address,
        ) {
            Ok(charge) => Ok((info, charge)),
            Err(e) => Err(e),
        }
    }
}

} // verus!
