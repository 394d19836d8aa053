//! The stack of running calls of one transaction.
//!
//! The virtual machine runs one entry point at a time and stops whenever the
//! code makes a system call. The stack says, for every such stop and for the
//! end of every run, what the machine is to do next: go on with an answer,
//! or run the entry point of a call that the code has made.
use crate::contract_class::CompiledClass;
use crate::definitions::block_context::BlockContext;
use crate::definitions::constants::{
    class_hash_not_found_code, contract_address_unavailable_code, entry_point_failed_code,
    entry_point_not_found_code, out_of_gas_code, spec_class_hash_not_found_code,
    spec_contract_address_unavailable_code, spec_entry_point_failed_code,
    spec_entry_point_not_found_code, spec_out_of_gas_code,
    spec_unsupported_address_domain_code, unsupported_address_domain_code,
};
use crate::syscalls::syscall_request::{SyscallResponse, SyscallResponseView};
use crate::error::{StateError, TransactionError};
use crate::execution::{
    calls_view, events_view, messages_view, opt_felt_view, CallInfo, CallInfoView, EntryPointType,
    ExecutionEntryPoint, ExecutionEntryPointView, ExecutionResources, OrderedEvent,
    OrderedEventView, OrderedL2ToL1Message, OrderedL2ToL1MessageView, TransactionExecutionContext,
};
use crate::felt::{felts_view, Felt};
use crate::state::cached_state::CachedState;
use crate::state::contract_storage_state::ContractStorageState;
use crate::state::execution_resources_manager::ExecutionResourcesManager;
use crate::state::state_api::StateReader;
use crate::utils::{clone_felts, Address, ClassHash};
use vstd::prelude::*;

verus! {

/// What a frame waits for while the call that it made runs above it.
#[derive(Clone, Copy, Debug, PartialEq, Eq)]
pub enum PendingCall {
    /// The return of a called entry point.
    Call,
    /// The return of the constructor of the contract deployed at the address.
    Deploy { contract_address: Address },
}

/// What a [`PendingCall`] holds.
pub enum PendingCallView {
    Call,
    Deploy { contract_address: nat },
}

impl View for PendingCall {
    type V = PendingCallView;

    open spec fn view(&self) -> PendingCallView {
        match self {
            PendingCall::Call => PendingCallView::Call,
            PendingCall::Deploy { contract_address } => PendingCallView::Deploy {
                contract_address: contract_address@,
            },
        }
    }
}

/// The view of an optional pending call.
pub open spec fn opt_pending_view(p: Option<PendingCall>) -> Option<PendingCallView> {
    match p {
        Some(x) => Some(x@),
        None => None,
    }
}

/// A call that is running, with what it has done so far.
#[derive(Debug)]
pub struct CallFrame {
    /// The call as it was asked for.
    pub entry_point: ExecutionEntryPoint,
    /// The class whose code runs.
    pub class_hash: ClassHash,
    /// Whether the class is of the Cairo 1 kind.
    pub is_cairo1: bool,
    /// Whether a failure of the run becomes a failed record instead of an
    /// error of the transaction.
    pub support_reverted: bool,
    pub storage: ContractStorageState,
    pub events: Vec<OrderedEvent>,
    pub l2_to_l1_messages: Vec<OrderedL2ToL1Message>,
    pub internal_calls: Vec<CallInfo>,
    /// The gas that the call has left.
    pub remaining_gas: u128,
    /// Whether a system call of the run was refused.
    pub failure_flag: bool,
    pub pending: Option<PendingCall>,
}

/// What a [`CallFrame`] holds.
pub struct CallFrameView {
    pub entry_point: ExecutionEntryPointView,
    pub class_hash: nat,
    pub is_cairo1: bool,
    pub support_reverted: bool,
    /// The contract whose storage the call works on.
    pub storage_address: nat,
    pub storage_read_values: Seq<nat>,
    pub accessed_storage_keys: Seq<nat>,
    pub events: Seq<OrderedEventView>,
    pub l2_to_l1_messages: Seq<OrderedL2ToL1MessageView>,
    pub internal_calls: Seq<CallInfoView>,
    pub remaining_gas: nat,
    pub failure_flag: bool,
    pub pending: Option<PendingCallView>,
}

impl View for CallFrame {
    type V = CallFrameView;

    open spec fn view(&self) -> CallFrameView {
        CallFrameView {
            entry_point: self.entry_point@,
            class_hash: self.class_hash@,
            is_cairo1: self.is_cairo1,
            support_reverted: self.support_reverted,
            storage_address: self.storage.contract_address@,
            storage_read_values: felts_view(self.storage.read_values@),
            accessed_storage_keys: felts_view(self.storage.accessed_keys@),
            events: events_view(self.events@),
            l2_to_l1_messages: messages_view(self.l2_to_l1_messages@),
            internal_calls: calls_view(self.internal_calls@),
            remaining_gas: self.remaining_gas as nat,
            failure_flag: self.failure_flag,
            pending: opt_pending_view(self.pending),
        }
    }
}

impl CallFrameView {
    /// The frame of a call that has just begun.
    pub open spec fn fresh(
        entry_point: ExecutionEntryPointView,
        class_hash: nat,
        is_cairo1: bool,
        support_reverted: bool,
    ) -> CallFrameView {
        CallFrameView {
            entry_point,
            class_hash,
            is_cairo1,
            support_reverted,
            storage_address: entry_point.contract_address,
            storage_read_values: Seq::empty(),
            accessed_storage_keys: Seq::empty(),
            events: Seq::empty(),
            l2_to_l1_messages: Seq::empty(),
            internal_calls: Seq::empty(),
            remaining_gas: entry_point.initial_gas,
            failure_flag: false,
            pending: None,
        }
    }

    /// The record of the call when it ends with the given outcome of its run.
    pub open spec fn record(
        self,
        retdata: Seq<nat>,
        execution_resources: ExecutionResources,
        gas_consumed: nat,
        failure_flag: bool,
    ) -> CallInfoView {
        CallInfoView {
            caller_address: self.entry_point.caller_address,
            call_type: Some(self.entry_point.call_type),
            contract_address: self.entry_point.contract_address,
            code_address: self.entry_point.code_address,
            class_hash: Some(self.class_hash),
            entry_point_selector: Some(self.entry_point.entry_point_selector),
            entry_point_type: Some(self.entry_point.entry_point_type),
            calldata: self.entry_point.calldata,
            retdata,
            execution_resources,
            events: self.events,
            l2_to_l1_messages: self.l2_to_l1_messages,
            storage_read_values: self.storage_read_values,
            accessed_storage_keys: self.accessed_storage_keys,
            internal_calls: self.internal_calls,
            gas_consumed,
            failure_flag: self.failure_flag || failure_flag,
        }
    }
}

/// The frames that a list holds.
pub open spec fn frames_view(s: Seq<CallFrame>) -> Seq<CallFrameView> {
    s.map_values(|f: CallFrame| f@)
}

impl CallFrame {
    /// The frame of a call that has just begun.
    pub fn new(
        entry_point: ExecutionEntryPoint,
        class_hash: ClassHash,
        is_cairo1: bool,
        support_reverted: bool,
    ) -> (r: CallFrame)
        ensures
            r@ == CallFrameView::fresh(entry_point@, class_hash@, is_cairo1, support_reverted),
    {
        let storage = ContractStorageState::new(entry_point.contract_address);
        let remaining_gas = entry_point.initial_gas;
        let r = CallFrame {
            entry_point,
            class_hash,
            is_cairo1,
            support_reverted,
            storage,
            events: Vec::new(),
            l2_to_l1_messages: Vec::new(),
            internal_calls: Vec::new(),
            remaining_gas,
            failure_flag: false,
            pending: None,
        };
        assert(r@.storage_read_values =~= Seq::<nat>::empty());
        assert(r@.accessed_storage_keys =~= Seq::<nat>::empty());
        assert(r@.events =~= Seq::<OrderedEventView>::empty());
        assert(r@.l2_to_l1_messages =~= Seq::<OrderedL2ToL1MessageView>::empty());
        assert(r@.internal_calls =~= Seq::<CallInfoView>::empty());
        r
    }

    /// Closes the frame into the record of its call.
    pub fn into_call_info(
        self,
        retdata: Vec<Felt>,
        execution_resources: ExecutionResources,
        gas_consumed: u128,
        failure_flag: bool,
    ) -> (r: CallInfo)
        ensures
            r@ == self@.record(
                felts_view(retdata@),
                execution_resources,
                gas_consumed as nat,
                failure_flag,
            ),
    {
        let ghost calls = self.internal_calls@;
        let r = CallInfo {
            caller_address: self.entry_point.caller_address,
            call_type: Some(self.entry_point.call_type),
            contract_address: self.entry_point.contract_address,
            code_address: self.entry_point.code_address,
            class_hash: Some(self.class_hash),
            entry_point_selector: Some(self.entry_point.entry_point_selector),
            entry_point_type: Some(self.entry_point.entry_point_type),
            calldata: self.entry_point.calldata,
            retdata,
            execution_resources,
            events: self.events,
            l2_to_l1_messages: self.l2_to_l1_messages,
            storage_read_values: self.storage.read_values,
            accessed_storage_keys: self.storage.accessed_keys,
            internal_calls: self.internal_calls,
            gas_consumed,
            failure_flag: self.failure_flag || failure_flag,
        };
        assert(r@.internal_calls =~= calls_view(calls));
        r
    }
}

/// What the virtual machine is to run: the code of a class from an offset,
/// on behalf of the frame that is now on top of the stack.
#[derive(Debug, PartialEq, Eq)]
pub struct VmRun {
    pub class_hash: ClassHash,
    pub is_cairo1: bool,
    pub entry_point_offset: usize,
    pub entry_point_type: EntryPointType,
    pub entry_point_selector: Felt,
    pub calldata: Vec<Felt>,
    pub initial_gas: u128,
}

/// What a [`VmRun`] holds.
pub struct VmRunView {
    pub class_hash: nat,
    pub is_cairo1: bool,
    pub entry_point_offset: nat,
    pub entry_point_type: EntryPointType,
    pub entry_point_selector: nat,
    pub calldata: Seq<nat>,
    pub initial_gas: nat,
}

impl View for VmRun {
    type V = VmRunView;

    open spec fn view(&self) -> VmRunView {
        VmRunView {
            class_hash: self.class_hash@,
            is_cairo1: self.is_cairo1,
            entry_point_offset: self.entry_point_offset as nat,
            entry_point_type: self.entry_point_type,
            entry_point_selector: self.entry_point_selector@,
            calldata: felts_view(self.calldata@),
            initial_gas: self.initial_gas as nat,
        }
    }
}

/// How a run of the virtual machine ended.
#[derive(Debug, PartialEq, Eq)]
pub enum VmOutcome {
    /// The entry point returned.
    Returned {
        retdata: Vec<Felt>,
        execution_resources: ExecutionResources,
        gas_consumed: u128,
        /// Whether the code gave up by itself, which Cairo 1 code can.
        failure_flag: bool,
    },
    /// The machine could not go on.
    Failed { error: TransactionError },
}

/// Where a call resolves to.
pub struct Resolved {
    pub class_hash: nat,
    pub is_cairo1: bool,
    pub offset: nat,
}

/// Why a call resolves to nothing.
pub enum Unresolved {
    /// No contract is deployed at the address of the call.
    ClassHashNotFound,
    /// The state knows no class under the hash.
    NoneContractClass(nat),
    /// The class has no entry point of the kind and selector of the call.
    EntryPointNotFound,
}

/// The class that a call runs the code of: the one that the call names,
/// else the one of the contract at its address.
pub open spec fn resolved_class_hash<'a, T: StateReader>(
    state: &CachedState<'a, T>,
    entry_point: ExecutionEntryPointView,
) -> nat {
    match entry_point.class_hash {
        Some(h) => h,
        None => state.class_hash_at(entry_point.contract_address),
    }
}

/// Where a call resolves to in a state, or why it does not.
pub open spec fn resolve<'a, T: StateReader>(
    state: &CachedState<'a, T>,
    entry_point: ExecutionEntryPointView,
) -> Result<Resolved, Unresolved> {
    let class_hash = resolved_class_hash(state, entry_point);
    if class_hash == 0 {
        Err(Unresolved::ClassHashNotFound)
    } else {
        match state.contract_class(class_hash) {
            None => Err(Unresolved::NoneContractClass(class_hash)),
            Some(class) => match class.entry_point(
                entry_point.entry_point_type,
                entry_point.entry_point_selector,
            ) {
                None => Err(Unresolved::EntryPointNotFound),
                Some(e) => Ok(
                    Resolved {
                        class_hash,
                        is_cairo1: class is Casm,
                        offset: e.offset,
                    },
                ),
            },
        }
    }
}

/// Whether an error is the one that a failed resolution is reported with.
pub open spec fn reports(error: TransactionError, why: Unresolved, contract_address: nat) -> bool {
    match why {
        Unresolved::ClassHashNotFound => error matches TransactionError::ClassHashNotFound(a)
            && a@ == contract_address,
        Unresolved::NoneContractClass(h) => error matches TransactionError::State(
            StateError::NoneContractClass(c),
        ) && c@ == h,
        Unresolved::EntryPointNotFound => error == TransactionError::EntryPointNotFound,
    }
}

/// The short text that stands for a failed resolution in a failed record.
pub open spec fn unresolved_code(why: Unresolved) -> nat {
    match why {
        Unresolved::ClassHashNotFound => spec_class_hash_not_found_code(),
        Unresolved::NoneContractClass(_) => spec_class_hash_not_found_code(),
        Unresolved::EntryPointNotFound => spec_entry_point_not_found_code(),
    }
}

/// Resolves a call: finds the class whose code it runs and where in the code
/// it starts. The state remembers what it had to read for that.
pub fn resolve_entry_point<'a, T: StateReader>(
    state: &mut CachedState<'a, T>,
    entry_point: &ExecutionEntryPoint,
) -> (r: Result<(ClassHash, bool, usize), (TransactionError, Felt)>)
    ensures
        match r {
            Ok((class_hash, is_cairo1, offset)) => resolve(old(state), entry_point@) == Ok::<
                Resolved,
                Unresolved,
            >(Resolved { class_hash: class_hash@, is_cairo1, offset: offset as nat }),
            Err((error, code)) => resolve(old(state), entry_point@) matches Err(why) && reports(
                error,
                why,
                entry_point@.contract_address,
            ) && code@ == unresolved_code(why),
        },
        final(state).read_step_of(old(state)),
{
    let class_hash = match entry_point.class_hash {
        Some(h) => h,
        None => state.get_class_hash_at(&entry_point.contract_address),
    };
    if class_hash.is_zero() {
        return Err(
            (
                TransactionError::ClassHashNotFound(entry_point.contract_address),
                class_hash_not_found_code(),
            ),
        );
    }
    let class = match state.get_contract_class(&class_hash) {
        Ok(c) => c,
        Err(_) => {
            return Err(
                (
                    TransactionError::State(StateError::NoneContractClass(class_hash)),
                    class_hash_not_found_code(),
                ),
            );
        },
    };
    let is_cairo1 = match &class {
        CompiledClass::Casm(_) => true,
        CompiledClass::Deprecated(_) => false,
    };
    match class.get_selected_entry_point(
        entry_point.entry_point_type,
        &entry_point.entry_point_selector,
    ) {
        Ok(e) => Ok((class_hash, is_cairo1, e.offset)),
        Err(_) => Err((TransactionError::EntryPointNotFound, entry_point_not_found_code())),
    }
}


/// The short text that stands for an error in a failed record.
pub open spec fn error_code(error: TransactionError) -> nat {
    match error {
        TransactionError::OutOfGas => spec_out_of_gas_code(),
        TransactionError::ClassHashNotFound(_) => spec_class_hash_not_found_code(),
        TransactionError::State(StateError::NoneContractClass(_)) => spec_class_hash_not_found_code(),
        TransactionError::State(
            StateError::ContractAddressUnavailable(_),
        ) => spec_contract_address_unavailable_code(),
        TransactionError::EntryPointNotFound => spec_entry_point_not_found_code(),
        TransactionError::UnsupportedAddressDomain => spec_unsupported_address_domain_code(),
        _ => spec_entry_point_failed_code(),
    }
}

/// Gives the short text that stands for an error in a failed record.
pub fn short_error_code(error: &TransactionError) -> (r: Felt)
    ensures
        r@ == error_code(*error),
{
    match error {
        TransactionError::OutOfGas => out_of_gas_code(),
        TransactionError::ClassHashNotFound(_) => class_hash_not_found_code(),
        TransactionError::State(StateError::NoneContractClass(_)) => class_hash_not_found_code(),
        TransactionError::State(
            StateError::ContractAddressUnavailable(_),
        ) => contract_address_unavailable_code(),
        TransactionError::EntryPointNotFound => entry_point_not_found_code(),
        TransactionError::UnsupportedAddressDomain => unsupported_address_domain_code(),
        _ => entry_point_failed_code(),
    }
}

/// The record of a call that failed before any of its code ran.
pub open spec fn failed_record(
    entry_point: ExecutionEntryPointView,
    class_hash: Option<nat>,
    code: nat,
) -> CallInfoView {
    CallInfoView {
        call_type: Some(entry_point.call_type),
        code_address: entry_point.code_address,
        class_hash,
        entry_point_selector: Some(entry_point.entry_point_selector),
        entry_point_type: Some(entry_point.entry_point_type),
        calldata: entry_point.calldata,
        retdata: seq![code],
        failure_flag: true,
        ..CallInfoView::empty(entry_point.caller_address, entry_point.contract_address)
    }
}

/// Builds the record of a call that failed before any of its code ran.
pub fn failed_call_info(
    entry_point: ExecutionEntryPoint,
    class_hash: Option<ClassHash>,
    code: Felt,
) -> (r: CallInfo)
    ensures
        r@ == failed_record(entry_point@, opt_felt_view(class_hash), code@),
{
    let mut r = CallInfo::empty(entry_point.caller_address, entry_point.contract_address);
    r.call_type = Some(entry_point.call_type);
    r.code_address = entry_point.code_address;
    r.class_hash = class_hash;
    r.entry_point_selector = Some(entry_point.entry_point_selector);
    r.entry_point_type = Some(entry_point.entry_point_type);
    r.calldata = entry_point.calldata;
    let mut retdata: Vec<Felt> = Vec::new();
    retdata.push(code);
    r.retdata = retdata;
    r.failure_flag = true;
    assert(r@.retdata =~= seq![code@]);
    assert(r@.internal_calls =~= Seq::<CallInfoView>::empty());
    r
}

/// What comes of the start of a call.
#[derive(Debug, PartialEq, Eq)]
pub enum Begin {
    /// The call is on the stack; its code is to be run.
    Run(VmRun),
    /// The call is over already, with this record.
    Finished(CallInfo),
}

/// What comes of the end of a run.
#[derive(Debug, PartialEq, Eq)]
pub enum Finished {
    /// The bottom call is over, with this record.
    Done(CallInfo),
    /// The call below goes on, with this answer to the system call that it
    /// waits on.
    Resume(SyscallResponse),
}

/// The running calls of one transaction, the newest on top, with the state
/// that they work on and the counters that they share.
#[derive(Debug)]
pub struct CallStack<'a, T: StateReader> {
    pub state: CachedState<'a, T>,
    pub block_context: BlockContext,
    pub tx_context: TransactionExecutionContext,
    pub resources_manager: ExecutionResourcesManager,
    pub frames: Vec<CallFrame>,
}

/// What the frame below gets told when the call above it ends.
pub open spec fn answer_to_parent(
    pending: Option<PendingCallView>,
    record: CallInfoView,
) -> SyscallResponseView {
    if record.failure_flag {
        SyscallResponseView::Failure { retdata: record.retdata }
    } else {
        match pending {
            Some(PendingCallView::Deploy { contract_address }) => SyscallResponseView::Deploy {
                contract_address,
                retdata: record.retdata,
            },
            _ => SyscallResponseView::CallContract { retdata: record.retdata },
        }
    }
}

/// The frame below after the call above it ended with a record.
pub open spec fn parent_after(parent: CallFrameView, record: CallInfoView) -> CallFrameView {
    CallFrameView {
        internal_calls: parent.internal_calls.push(record),
        pending: None,
        remaining_gas: if parent.remaining_gas >= record.gas_consumed {
            (parent.remaining_gas - record.gas_consumed) as nat
        } else {
            0
        },
        failure_flag: parent.failure_flag || record.failure_flag,
        ..parent
    }
}

/// What [`CallStack::begin`] does: `post` and `r` are what comes of starting
/// the call on the stack `pre`.
pub open spec fn began<'a, T: StateReader>(
    pre: &CallStack<'a, T>,
    post: &CallStack<'a, T>,
    entry_point: ExecutionEntryPoint,
    support_reverted: bool,
    r: Result<Begin, TransactionError>,
) -> bool {
    &&& post.state.read_step_of(&pre.state)
    &&& post.block_context == pre.block_context
    &&& post.tx_context == pre.tx_context
    &&& post.resources_manager == pre.resources_manager
    &&& match resolve(&pre.state, entry_point@) {
        Ok(found) => if found.is_cairo1 && entry_point.initial_gas == 0 {
            &&& r matches Ok(Begin::Finished(c))
            &&& c@ == failed_record(
                entry_point@,
                Some(found.class_hash),
                spec_out_of_gas_code(),
            )
            &&& post.frames == pre.frames
        } else {
            &&& r matches Ok(Begin::Run(run))
            &&& run@ == (VmRunView {
                class_hash: found.class_hash,
                is_cairo1: found.is_cairo1,
                entry_point_offset: found.offset,
                entry_point_type: entry_point.entry_point_type,
                entry_point_selector: entry_point.entry_point_selector@,
                calldata: entry_point@.calldata,
                initial_gas: entry_point.initial_gas as nat,
            })
            &&& post.frames_v() == pre.frames_v().push(
                CallFrameView::fresh(
                    entry_point@,
                    found.class_hash,
                    found.is_cairo1,
                    support_reverted,
                ),
            )
        },
        Err(why) => {
            &&& post.frames == pre.frames
            &&& if support_reverted {
                r matches Ok(Begin::Finished(c)) && c@ == failed_record(
                    entry_point@,
                    None,
                    unresolved_code(why),
                )
            } else {
                r matches Err(e) && reports(e, why, entry_point@.contract_address)
            }
        },
    }
}

/// What [`CallStack::finish`] does: `post` and `r` are what comes of the end
/// of the run of the top call of the stack `pre`.
pub open spec fn finished<'a, T: StateReader>(
    pre: &CallStack<'a, T>,
    post: &CallStack<'a, T>,
    outcome: VmOutcome,
    r: Result<Finished, TransactionError>,
) -> bool {
    &&& post.state == pre.state
    &&& post.block_context == pre.block_context
    &&& post.tx_context == pre.tx_context
    &&& pre.frames@.len() == 0 ==> {
        &&& r == Err::<Finished, TransactionError>(TransactionError::NoRunningCall)
        &&& post.frames@ == pre.frames@
        &&& post.resources_manager == pre.resources_manager
    }
    &&& (pre.frames@.len() > 0 ==> ({
        let top = pre.frames_v().last();
        let below = pre.frames_v().drop_last();
        match outcome {
            VmOutcome::Failed { error } if !top.support_reverted => r == Err::<
                Finished,
                TransactionError,
            >(error),
            _ => {
                let record = match outcome {
                    VmOutcome::Returned {
                        retdata,
                        execution_resources,
                        gas_consumed,
                        failure_flag,
                    } => top.record(
                        felts_view(retdata@),
                        execution_resources,
                        gas_consumed as nat,
                        failure_flag,
                    ),
                    VmOutcome::Failed { error } => top.record(
                        seq![error_code(error)],
                        ExecutionResources::zero(),
                        0,
                        true,
                    ),
                };
                let used = record.execution_resources;
                if !pre.resources_manager.cairo_usage.fits_with(used) {
                    r == Err::<Finished, TransactionError>(
                        TransactionError::ResourcesCalculation,
                    )
                } else {
                    &&& post.resources_manager.syscall_counter
                        == pre.resources_manager.syscall_counter
                    &&& post.resources_manager.cairo_usage
                        == pre.resources_manager.cairo_usage.spec_plus(used)
                    &&& if below.len() == 0 {
                        &&& r matches Ok(Finished::Done(c))
                        &&& c@ == record
                        &&& post.frames@.len() == 0
                    } else {
                        &&& r matches Ok(Finished::Resume(answer))
                        &&& answer@ == answer_to_parent(below.last().pending, record)
                        &&& post.frames_v() == below.drop_last().push(
                            parent_after(below.last(), record),
                        )
                    }
                }
            },
        }
    }))
}

impl<'a, T: StateReader> CallStack<'a, T> {
    /// What the frames hold, from the bottom up.
    pub open spec fn frames_v(&self) -> Seq<CallFrameView> {
        frames_view(self.frames@)
    }

    /// A stack without calls over a state.
    pub fn new(
        state: CachedState<'a, T>,
        block_context: BlockContext,
        tx_context: TransactionExecutionContext,
        resources_manager: ExecutionResourcesManager,
    ) -> (r: CallStack<'a, T>)
        ensures
            r.state == state,
            r.block_context == block_context,
            r.tx_context == tx_context,
            r.resources_manager == resources_manager,
            r.frames@.len() == 0,
    {
        CallStack { state, block_context, tx_context, resources_manager, frames: Vec::new() }
    }

    /// Starts a call on top of the stack.
    ///
    /// The call is resolved in the state. A call into Cairo 1 code with no
    /// gas is over at once, out of gas. A call that does not resolve is an
    /// error, or, where failures are to be recorded, over at once with a
    /// failed record.
    pub fn begin(&mut self, entry_point: ExecutionEntryPoint, support_reverted: bool) -> (r: Result<
        Begin,
        TransactionError,
    >)
        ensures
            began(old(self), final(self), entry_point, support_reverted, r),
    {
        match resolve_entry_point(&mut self.state, &entry_point) {
            Ok((class_hash, is_cairo1, offset)) => {
                if is_cairo1 && entry_point.initial_gas == 0 {
                    return Ok(
                        Begin::Finished(
                            failed_call_info(entry_point, Some(class_hash), out_of_gas_code()),
                        ),
                    );
                }
                let run = VmRun {
                    class_hash,
                    is_cairo1,
                    entry_point_offset: offset,
                    entry_point_type: entry_point.entry_point_type,
                    entry_point_selector: entry_point.entry_point_selector,
                    calldata: clone_felts(&entry_point.calldata),
                    initial_gas: entry_point.initial_gas,
                };
                let frame = CallFrame::new(entry_point, class_hash, is_cairo1, support_reverted);
                let ghost before = self.frames@;
                self.frames.push(frame);
                assert(frames_view(self.frames@) =~= frames_view(before).push(frame@));
                Ok(Begin::Run(run))
            },
            Err((error, code)) => {
                if support_reverted {
                    Ok(Begin::Finished(failed_call_info(entry_point, None, code)))
                } else {
                    Err(error)
                }
            },
        }
    }

    /// Takes note of the end of the run of the call on top of the stack.
    ///
    /// The call leaves the stack and becomes a record. Where the machine
    /// failed, the record is a failed one if failures are to be recorded;
    /// else the failure is the error of the whole transaction. The
    /// resources of the run are added to those of the transaction. The
    /// record goes to the call below, which gets its answer, or, if there
    /// is none, to the caller.
    pub fn finish(&mut self, outcome: VmOutcome) -> (r: Result<Finished, TransactionError>)
        ensures
            finished(old(self), final(self), outcome, r),
    {
        let ghost before = self.frames@;
        let top = match self.frames.pop() {
            Some(f) => f,
            None => {
                return Err(TransactionError::NoRunningCall);
            },
        };
        proof {
            assert(frames_view(before).last() == top@);
            assert(frames_view(self.frames@) =~= frames_view(before).drop_last());
        }
        let (retdata, used, gas_consumed, failure_flag) = match outcome {
            VmOutcome::Returned { retdata, execution_resources, gas_consumed, failure_flag } => (
                retdata,
                execution_resources,
                gas_consumed,
                failure_flag,
            ),
            VmOutcome::Failed { error } => {
                if !top.support_reverted {
                    return Err(error);
                }
                let mut retdata: Vec<Felt> = Vec::new();
                retdata.push(short_error_code(&error));
                assert(felts_view(retdata@) =~= seq![error_code(error)]);
                (retdata, ExecutionResources::new(), 0u128, true)
            },
        };
        match self.resources_manager.cairo_usage.checked_plus(&used) {
            Some(sum) => {
                self.resources_manager.cairo_usage = sum;
            },
            None => {
                return Err(TransactionError::ResourcesCalculation);
            },
        }
        let answer_data = clone_felts(&retdata);
        let record = top.into_call_info(retdata, used, gas_consumed, failure_flag);
        let ghost below = self.frames@;
        match self.frames.pop() {
            None => Ok(Finished::Done(record)),
            Some(parent) => {
                let mut parent = parent;
                proof {
                    assert(frames_view(below).last() == parent@);
                    assert(frames_view(self.frames@) =~= frames_view(below).drop_last());
                }
                let ghost parent_before = parent@;
                let ghost record_view = record@;
                let answer = if record.failure_flag {
                    SyscallResponse::Failure { retdata: answer_data }
                } else {
                    match parent.pending {
                        Some(PendingCall::Deploy { contract_address }) => SyscallResponse::Deploy {
                            contract_address,
                            retdata: answer_data,
                        },
                        _ => SyscallResponse::CallContract { retdata: answer_data },
                    }
                };
                parent.remaining_gas = if parent.remaining_gas >= record.gas_consumed {
                    parent.remaining_gas - record.gas_consumed
                } else {
                    0
                };
                parent.failure_flag = parent.failure_flag || record.failure_flag;
                parent.pending = None;
                let ghost calls_before = parent.internal_calls@;
                parent.internal_calls.push(record);
                proof {
                    assert(calls_view(parent.internal_calls@) =~= calls_view(calls_before).push(
                        record_view,
                    ));
                    assert(parent@ == parent_after(parent_before, record_view));
                }
                let ghost rest = self.frames@;
                self.frames.push(parent);
                assert(frames_view(self.frames@) =~= frames_view(rest).push(parent@));
                Ok(Finished::Resume(answer))
            },
        }
    }
}


/// The start of a call has one outcome: whatever comes of the same start on
/// the same stack is the same run, or the same record, or the same error,
/// and leaves the same calls behind.
pub proof fn lemma_begin_determined<'a, T: StateReader>(
    pre: &CallStack<'a, T>,
    first: &CallStack<'a, T>,
    second: &CallStack<'a, T>,
    entry_point: ExecutionEntryPoint,
    support_reverted: bool,
    r1: Result<Begin, TransactionError>,
    r2: Result<Begin, TransactionError>,
)
    requires
        began(pre, first, entry_point, support_reverted, r1),
        began(pre, second, entry_point, support_reverted, r2),
    ensures
        match (r1, r2) {
            (Ok(Begin::Run(a)), Ok(Begin::Run(b))) => a@ == b@,
            (Ok(Begin::Finished(a)), Ok(Begin::Finished(b))) => a@ == b@,
            (Err(e), Err(f)) => e == f,
            _ => false,
        },
        first.frames_v() == second.frames_v(),
        first.state.same_readings(&second.state),
        first.tx_context == second.tx_context,
        first.resources_manager == second.resources_manager,
{
    match (r1, r2) {
        (Err(TransactionError::ClassHashNotFound(a)), Err(TransactionError::ClassHashNotFound(b))) => {
            Felt::lemma_view_injective(a.0, b.0);
        },
        (
            Err(TransactionError::State(StateError::NoneContractClass(a))),
            Err(TransactionError::State(StateError::NoneContractClass(b))),
        ) => {
            Felt::lemma_view_injective(a, b);
        },
        _ => {},
    }
}

/// The end of a run has one outcome: whatever comes of the same end on the
/// same stack is the same record, or the same answer, or the same error,
/// and leaves the same calls and the same counts behind.
pub proof fn lemma_finish_determined<'a, T: StateReader>(
    pre: &CallStack<'a, T>,
    first: &CallStack<'a, T>,
    second: &CallStack<'a, T>,
    outcome: VmOutcome,
    r1: Result<Finished, TransactionError>,
    r2: Result<Finished, TransactionError>,
)
    requires
        finished(pre, first, outcome, r1),
        finished(pre, second, outcome, r2),
    ensures
        match (r1, r2) {
            (Ok(Finished::Done(a)), Ok(Finished::Done(b))) => a@ == b@,
            (Ok(Finished::Resume(a)), Ok(Finished::Resume(b))) => a@ == b@,
            (Err(e), Err(f)) => e == f,
            _ => false,
        },
        r1 is Ok ==> first.frames_v() == second.frames_v(),
        r1 is Ok ==> first.resources_manager.cairo_usage == second.resources_manager.cairo_usage,
        first.state == second.state,
        first.tx_context == second.tx_context,
{
    if pre.frames@.len() > 0 && r1 is Ok {
        let below = pre.frames_v().drop_last();
        if below.len() == 0 {
            assert(first.frames_v() =~= second.frames_v());
        }
    }
}

} // verus!
