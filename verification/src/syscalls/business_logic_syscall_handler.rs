//! What the host does for each system call of a running contract.
use crate::definitions::constants::{
    constructor_entry_point_selector, contract_address_unavailable_code,
    class_hash_not_found_code, entry_point_failed_code, out_of_gas_code,
    spec_class_hash_not_found_code, spec_constructor_entry_point_selector,
    spec_contract_address_unavailable_code, spec_entry_point_failed_code, spec_out_of_gas_code,
    spec_unsupported_address_domain_code, unsupported_address_domain_code,
};
use crate::error::TransactionError;
use crate::execution::call_stack::{
    frames_view, resolve, resolve_entry_point, unresolved_code, CallFrame, CallFrameView,
    CallStack, PendingCall, PendingCallView, VmRun, VmRunView,
};
use crate::execution::{
    calls_view, events_view, messages_view, CallInfo, CallInfoView, CallType, EntryPointType,
    ExecutionEntryPoint, ExecutionEntryPointView, OrderedEvent, OrderedEventView,
    OrderedL2ToL1Message, OrderedL2ToL1MessageView, TransactionExecutionContextView,
};
use crate::felt::{felts_view, Felt};
use crate::hash_utils::{calculate_contract_address, contract_address_of};
use crate::state::cached_state::{remembered, CachedState, StateCacheView};
use crate::state::contract_storage_state::note_key;
use crate::state::execution_resources_manager::syscall_count;
use crate::state::state_api::StateReader;
use crate::syscalls::syscall_request::{
    ExecutionInfo, ExecutionInfoView, SyscallRequest, SyscallRequestView, SyscallResponse,
    SyscallResponseView, TxInfo, TxInfoView,
};
use crate::utils::{clone_felts, Address};
use vstd::prelude::*;

verus! {

/// What comes of a system call.
#[derive(Debug, PartialEq, Eq)]
pub enum SyscallOutcome {
    /// The calling code goes on with this answer.
    Respond(SyscallResponse),
    /// The call that the code made is on the stack; its code is to be run,
    /// and the calling code goes on when that run has ended.
    Call(VmRun),
}

/// The answer with which a refused system call is turned down.
pub open spec fn refusal(code: nat) -> SyscallResponseView {
    SyscallResponseView::Failure { retdata: seq![code] }
}

/// The call that a frame makes of another contract.
pub open spec fn contract_call_of(
    top: CallFrameView,
    contract_address: nat,
    function_selector: nat,
    calldata: Seq<nat>,
) -> ExecutionEntryPointView {
    ExecutionEntryPointView {
        call_type: CallType::Call,
        contract_address,
        code_address: None,
        class_hash: None,
        calldata,
        caller_address: top.entry_point.contract_address,
        entry_point_selector: function_selector,
        entry_point_type: EntryPointType::External,
        initial_gas: top.remaining_gas,
    }
}

/// The call that a frame makes of the code of a class on its own storage.
pub open spec fn library_call_of(
    top: CallFrameView,
    class_hash: nat,
    function_selector: nat,
    calldata: Seq<nat>,
    entry_point_type: EntryPointType,
) -> ExecutionEntryPointView {
    ExecutionEntryPointView {
        call_type: CallType::Delegate,
        contract_address: top.entry_point.contract_address,
        code_address: Some(class_hash),
        class_hash: Some(class_hash),
        calldata,
        caller_address: top.entry_point.caller_address,
        entry_point_selector: function_selector,
        entry_point_type,
        initial_gas: top.remaining_gas,
    }
}

/// The call of the constructor of a contract that a frame deploys.
pub open spec fn constructor_call_of(
    top: CallFrameView,
    contract_address: nat,
    class_hash: nat,
    calldata: Seq<nat>,
) -> ExecutionEntryPointView {
    ExecutionEntryPointView {
        call_type: CallType::Call,
        contract_address,
        code_address: None,
        class_hash: Some(class_hash),
        calldata,
        caller_address: top.entry_point.contract_address,
        entry_point_selector: spec_constructor_entry_point_selector(),
        entry_point_type: EntryPointType::Constructor,
        initial_gas: top.remaining_gas,
    }
}

/// What the transaction tells a contract of itself.
pub open spec fn tx_info_of(tx: TransactionExecutionContextView, chain_id: nat) -> TxInfoView {
    TxInfoView {
        version: tx.version,
        account_contract_address: tx.account_contract_address,
        max_fee: tx.max_fee,
        signature: tx.signature,
        transaction_hash: tx.transaction_hash,
        chain_id,
        nonce: tx.nonce,
    }
}

/// The stack is `pre` with another frame in the place of its top frame.
pub open spec fn top_replaced<'a, T: StateReader>(
    pre: &CallStack<'a, T>,
    post: &CallStack<'a, T>,
    top: CallFrameView,
) -> bool {
    post.frames_v() == pre.frames_v().drop_last().push(top)
}

/// The start of a call from the top frame: where the call resolves, its
/// frame goes on the stack and its code is to be run; where it does not,
/// or where Cairo 1 code would start without gas, the system call is
/// refused. `top` is the calling frame as it is left behind.
pub open spec fn child_started<'a, T: StateReader>(
    pre: &CallStack<'a, T>,
    post: &CallStack<'a, T>,
    state: &CachedState<'a, T>,
    top: CallFrameView,
    child: ExecutionEntryPointView,
    pending: PendingCallView,
    r: Result<SyscallOutcome, TransactionError>,
) -> bool {
    match resolve(state, child) {
        Ok(found) => if found.is_cairo1 && child.initial_gas == 0 {
            &&& r matches Ok(SyscallOutcome::Respond(answer))
            &&& answer@ == refusal(spec_out_of_gas_code())
            &&& top_replaced(pre, post, CallFrameView { failure_flag: true, ..top })
        } else {
            &&& r matches Ok(SyscallOutcome::Call(run))
            &&& run@ == (VmRunView {
                class_hash: found.class_hash,
                is_cairo1: found.is_cairo1,
                entry_point_offset: found.offset,
                entry_point_type: child.entry_point_type,
                entry_point_selector: child.entry_point_selector,
                calldata: child.calldata,
                initial_gas: child.initial_gas,
            })
            &&& post.frames_v() == pre.frames_v().drop_last().push(
                CallFrameView { pending: Some(pending), ..top },
            ).push(
                CallFrameView::fresh(child, found.class_hash, found.is_cairo1, top.support_reverted),
            )
        },
        Err(why) => {
            &&& r matches Ok(SyscallOutcome::Respond(answer))
            &&& answer@ == refusal(unresolved_code(why))
            &&& top_replaced(pre, post, CallFrameView { failure_flag: true, ..top })
        },
    }
}

/// What a system call does once it is counted and paid for. `top` is the
/// frame that made the call, with the gas that it has left.
pub open spec fn handled<'a, T: StateReader>(
    pre: &CallStack<'a, T>,
    post: &CallStack<'a, T>,
    top: CallFrameView,
    request: SyscallRequestView,
    r: Result<SyscallOutcome, TransactionError>,
) -> bool {
    let here = top.entry_point.contract_address;
    match request {
        SyscallRequestView::StorageRead { address_domain, address } => {
            &&& post.tx_context == pre.tx_context
            &&& if address_domain != 0 {
                &&& r matches Ok(SyscallOutcome::Respond(answer))
                &&& answer@ == refusal(spec_unsupported_address_domain_code())
                &&& post.state == pre.state
                &&& top_replaced(pre, post, CallFrameView { failure_flag: true, ..top })
            } else {
                let here = top.storage_address;
                let value = pre.state.storage_at((here, address));
                &&& r matches Ok(SyscallOutcome::Respond(answer))
                &&& answer@ == (SyscallResponseView::StorageRead { value })
                &&& post.state.read_step_of(&pre.state)
                &&& post.state.contract_classes == pre.state.contract_classes
                &&& post.state.cache@ == (StateCacheView {
                    storage_initial_values: remembered(
                        pre.state.cache@.storage_writes,
                        pre.state.cache@.storage_initial_values,
                        (here, address),
                        pre.state.state_reader.spec_storage_at((here, address)),
                    ),
                    ..pre.state.cache@
                })
                &&& top_replaced(
                    pre,
                    post,
                    CallFrameView {
                        storage_read_values: top.storage_read_values.push(value),
                        accessed_storage_keys: note_key(top.accessed_storage_keys, address),
                        ..top
                    },
                )
            }
        },
        SyscallRequestView::StorageWrite { address_domain, address, value } => {
            &&& post.tx_context == pre.tx_context
            &&& r matches Ok(SyscallOutcome::Respond(answer))
            &&& if address_domain != 0 {
                &&& answer@ == refusal(spec_unsupported_address_domain_code())
                &&& post.state == pre.state
                &&& top_replaced(pre, post, CallFrameView { failure_flag: true, ..top })
            } else {
                let here = top.storage_address;
                &&& answer@ == SyscallResponseView::Empty
                &&& post.state.state_reader == pre.state.state_reader
                &&& post.state.contract_classes == pre.state.contract_classes
                &&& post.state.cache@ == (StateCacheView {
                    storage_writes: pre.state.cache@.storage_writes.insert(
                        (here, address),
                        value,
                    ),
                    ..pre.state.cache@
                })
                &&& top_replaced(
                    pre,
                    post,
                    CallFrameView {
                        accessed_storage_keys: note_key(top.accessed_storage_keys, address),
                        ..top
                    },
                )
            }
        },
        SyscallRequestView::EmitEvent { keys, data } => {
            &&& post.state == pre.state
            &&& if pre.tx_context.n_emitted_events == u64::MAX {
                r == Err::<SyscallOutcome, TransactionError>(
                    TransactionError::ResourcesCalculation,
                )
            } else {
                &&& r matches Ok(SyscallOutcome::Respond(answer))
                &&& answer@ == SyscallResponseView::Empty
                &&& post.tx_context@ == (TransactionExecutionContextView {
                    n_emitted_events: pre.tx_context@.n_emitted_events + 1,
                    ..pre.tx_context@
                })
                &&& top_replaced(
                    pre,
                    post,
                    CallFrameView {
                        events: top.events.push(
                            OrderedEventView {
                                order: pre.tx_context@.n_emitted_events,
                                keys,
                                data,
                            },
                        ),
                        ..top
                    },
                )
            }
        },
        SyscallRequestView::SendMessageToL1 { to_address, payload } => {
            &&& post.state == pre.state
            &&& if pre.tx_context.n_sent_messages == u64::MAX {
                r == Err::<SyscallOutcome, TransactionError>(
                    TransactionError::ResourcesCalculation,
                )
            } else {
                &&& r matches Ok(SyscallOutcome::Respond(answer))
                &&& answer@ == SyscallResponseView::Empty
                &&& post.tx_context@ == (TransactionExecutionContextView {
                    n_sent_messages: pre.tx_context@.n_sent_messages + 1,
                    ..pre.tx_context@
                })
                &&& top_replaced(
                    pre,
                    post,
                    CallFrameView {
                        l2_to_l1_messages: top.l2_to_l1_messages.push(
                            OrderedL2ToL1MessageView {
                                order: pre.tx_context@.n_sent_messages,
                                to_address,
                                payload,
                            },
                        ),
                        ..top
                    },
                )
            }
        },
        SyscallRequestView::GetBlockNumber => told(
            pre,
            post,
            top,
            r,
            SyscallResponseView::GetBlockNumber {
                block_number: pre.block_context.block_info.block_number as nat,
            },
        ),
        SyscallRequestView::GetBlockTimestamp => told(
            pre,
            post,
            top,
            r,
            SyscallResponseView::GetBlockTimestamp {
                block_timestamp: pre.block_context.block_info.block_timestamp as nat,
            },
        ),
        SyscallRequestView::GetSequencerAddress => told(
            pre,
            post,
            top,
            r,
            SyscallResponseView::GetSequencerAddress {
                sequencer_address: pre.block_context.block_info.sequencer_address@,
            },
        ),
        SyscallRequestView::GetTxInfo => told(
            pre,
            post,
            top,
            r,
            SyscallResponseView::GetTxInfo {
                tx_info: tx_info_of(
                    pre.tx_context@,
                    pre.block_context.starknet_os_config.chain_id@,
                ),
            },
        ),
        SyscallRequestView::GetTxSignature => told(
            pre,
            post,
            top,
            r,
            SyscallResponseView::GetTxSignature { signature: pre.tx_context@.signature },
        ),
        SyscallRequestView::GetCallerAddress => told(
            pre,
            post,
            top,
            r,
            SyscallResponseView::GetCallerAddress {
                caller_address: top.entry_point.caller_address,
            },
        ),
        SyscallRequestView::GetContractAddress => told(
            pre,
            post,
            top,
            r,
            SyscallResponseView::GetContractAddress { contract_address: here },
        ),
        SyscallRequestView::GetExecutionInfo => told(
            pre,
            post,
            top,
            r,
            SyscallResponseView::GetExecutionInfo {
                execution_info: ExecutionInfoView {
                    block_number: pre.block_context.block_info.block_number as nat,
                    block_timestamp: pre.block_context.block_info.block_timestamp as nat,
                    sequencer_address: pre.block_context.block_info.sequencer_address@,
                    tx_info: tx_info_of(
                        pre.tx_context@,
                        pre.block_context.starknet_os_config.chain_id@,
                    ),
                    caller_address: top.entry_point.caller_address,
                    contract_address: here,
                    entry_point_selector: top.entry_point.entry_point_selector,
                },
            },
        ),
        SyscallRequestView::ReplaceClass { class_hash } => {
            &&& post.tx_context == pre.tx_context
            &&& r matches Ok(SyscallOutcome::Respond(answer))
            &&& answer@ == SyscallResponseView::Empty
            &&& post.state.state_reader == pre.state.state_reader
            &&& post.state.contract_classes == pre.state.contract_classes
            &&& post.state.cache@ == (StateCacheView {
                class_hash_writes: pre.state.cache@.class_hash_writes.insert(here, class_hash),
                ..pre.state.cache@
            })
            &&& top_replaced(pre, post, top)
        },
        SyscallRequestView::CallContract { contract_address, function_selector, calldata } => {
            &&& post.tx_context == pre.tx_context
            &&& post.state.read_step_of(&pre.state)
            &&& child_started(
                pre,
                post,
                &pre.state,
                top,
                contract_call_of(top, contract_address, function_selector, calldata),
                PendingCallView::Call,
                r,
            )
        },
        SyscallRequestView::LibraryCall { class_hash, function_selector, calldata } => {
            &&& post.tx_context == pre.tx_context
            &&& post.state.read_step_of(&pre.state)
            &&& child_started(
                pre,
                post,
                &pre.state,
                top,
                library_call_of(
                    top,
                    class_hash,
                    function_selector,
                    calldata,
                    EntryPointType::External,
                ),
                PendingCallView::Call,
                r,
            )
        },
        SyscallRequestView::DelegateCall { class_hash, function_selector, calldata } => {
            &&& post.tx_context == pre.tx_context
            &&& post.state.read_step_of(&pre.state)
            &&& child_started(
                pre,
                post,
                &pre.state,
                top,
                library_call_of(
                    top,
                    class_hash,
                    function_selector,
                    calldata,
                    EntryPointType::External,
                ),
                PendingCallView::Call,
                r,
            )
        },
        SyscallRequestView::LibraryCallL1Handler { class_hash, function_selector, calldata } => {
            &&& post.tx_context == pre.tx_context
            &&& post.state.read_step_of(&pre.state)
            &&& child_started(
                pre,
                post,
                &pre.state,
                top,
                library_call_of(
                    top,
                    class_hash,
                    function_selector,
                    calldata,
                    EntryPointType::L1Handler,
                ),
                PendingCallView::Call,
                r,
            )
        },
        SyscallRequestView::Deploy {
            class_hash,
            contract_address_salt,
            constructor_calldata,
            deploy_from_zero,
        } => {
            let deployer = if deploy_from_zero {
                0
            } else {
                here
            };
            let address = contract_address_of(
                contract_address_salt,
                class_hash,
                constructor_calldata,
                deployer,
            );
            let free = pre.state.class_hash_at(address) == 0;
            &&& post.tx_context == pre.tx_context
            &&& if !free {
                &&& post.state.read_step_of(&pre.state)
                &&& r matches Ok(SyscallOutcome::Respond(answer))
                &&& answer@ == refusal(spec_contract_address_unavailable_code())
                &&& top_replaced(pre, post, CallFrameView { failure_flag: true, ..top })
            } else {
                &&& post.state.class_hash_written(&pre.state, address, class_hash)
                &&& match pre.state.contract_class(class_hash) {
                    None => {
                        &&& r matches Ok(SyscallOutcome::Respond(answer))
                        &&& answer@ == refusal(spec_class_hash_not_found_code())
                        &&& top_replaced(pre, post, CallFrameView { failure_flag: true, ..top })
                    },
                    Some(class) => {
                        if class.has_constructor() {
                            child_started(
                                pre,
                                post,
                                &post.state,
                                top,
                                constructor_call_of(top, address, class_hash, constructor_calldata),
                                PendingCallView::Deploy { contract_address: address },
                                r,
                            )
                        } else if constructor_calldata.len() > 0 {
                            &&& r matches Ok(SyscallOutcome::Respond(answer))
                            &&& answer@ == refusal(spec_entry_point_failed_code())
                            &&& top_replaced(
                                pre,
                                post,
                                CallFrameView { failure_flag: true, ..top },
                            )
                        } else {
                            &&& r matches Ok(SyscallOutcome::Respond(answer))
                            &&& answer@ == (SyscallResponseView::Deploy {
                                contract_address: address,
                                retdata: Seq::empty(),
                            })
                            &&& top_replaced(
                                pre,
                                post,
                                CallFrameView {
                                    internal_calls: top.internal_calls.push(
                                        CallInfoView {
                                            call_type: Some(CallType::Call),
                                            class_hash: Some(class_hash),
                                            entry_point_selector: Some(
                                                spec_constructor_entry_point_selector(),
                                            ),
                                            entry_point_type: Some(EntryPointType::Constructor),
                                            ..CallInfoView::empty(here, address)
                                        },
                                    ),
                                    ..top
                                },
                            )
                        }
                    },
                }
            }
        },
    }
}

/// A system call that only tells the code something: nothing changes but
/// the gas of the calling frame.
pub open spec fn told<'a, T: StateReader>(
    pre: &CallStack<'a, T>,
    post: &CallStack<'a, T>,
    top: CallFrameView,
    r: Result<SyscallOutcome, TransactionError>,
    answer: SyscallResponseView,
) -> bool {
    &&& post.tx_context == pre.tx_context
    &&& post.state == pre.state
    &&& r matches Ok(SyscallOutcome::Respond(a))
    &&& a@ == answer
    &&& top_replaced(pre, post, top)
}


/// The frame that made a system call once the call is paid for: Cairo 1
/// code has the gas that it came with, less the cost of the call.
pub open spec fn charged(top: CallFrameView, gas: nat, cost: nat) -> CallFrameView {
    if top.is_cairo1 {
        CallFrameView { remaining_gas: (gas - cost) as nat, ..top }
    } else {
        top
    }
}

/// What [`CallStack::syscall`] does: `post` and `r` are what comes of a
/// system call of the top call of the stack `pre`.
pub open spec fn syscalled<'a, T: StateReader>(
    pre: &CallStack<'a, T>,
    post: &CallStack<'a, T>,
    request: SyscallRequestView,
    gas: u128,
    r: Result<SyscallOutcome, TransactionError>,
) -> bool {
    &&& post.block_context == pre.block_context
    &&& post.resources_manager.cairo_usage == pre.resources_manager.cairo_usage
    &&& pre.frames@.len() == 0 ==> {
        &&& r == Err::<SyscallOutcome, TransactionError>(TransactionError::NoRunningCall)
        &&& post.frames@ == pre.frames@
        &&& post.state == pre.state
        &&& post.tx_context == pre.tx_context
        &&& post.resources_manager == pre.resources_manager
    }
    &&& pre.frames@.len() > 0 ==> ({
        let top = pre.frames_v().last();
        let kind = request.kind();
        let count = syscall_count(pre.resources_manager.syscall_counter@, kind);
        let cost = pre.block_context.os_resources.syscall_gas_cost as nat;
        if count + 1 > u64::MAX {
            r == Err::<SyscallOutcome, TransactionError>(TransactionError::ResourcesCalculation)
        } else {
            &&& post.resources_manager.syscall_counter@
                == pre.resources_manager.syscall_counter@.insert(kind, (count + 1) as nat)
            &&& if top.is_cairo1 && gas < cost {
                &&& r matches Ok(SyscallOutcome::Respond(answer))
                &&& answer@ == refusal(spec_out_of_gas_code())
                &&& post.state == pre.state
                &&& post.tx_context == pre.tx_context
                &&& top_replaced(
                    pre,
                    post,
                    CallFrameView { failure_flag: true, remaining_gas: gas as nat, ..top },
                )
            } else {
                handled(pre, post, charged(top, gas as nat, cost), request, r)
            }
        }
    })
}

impl<'a, T: StateReader> CallStack<'a, T> {
    /// What the transaction tells a contract of itself.
    fn tx_info(&self) -> (r: TxInfo)
        ensures
            r@ == tx_info_of(self.tx_context@, self.block_context.starknet_os_config.chain_id@),
    {
        TxInfo {
            version: self.tx_context.version,
            account_contract_address: self.tx_context.account_contract_address,
            max_fee: self.tx_context.max_fee,
            signature: clone_felts(&self.tx_context.signature),
            transaction_hash: self.tx_context.transaction_hash,
            chain_id: self.block_context.starknet_os_config.chain_id,
            nonce: self.tx_context.nonce,
        }
    }

    /// Puts the calling frame back and answers its system call.
    fn answer(&mut self, top: CallFrame, response: SyscallResponse) -> (r: Result<
        SyscallOutcome,
        TransactionError,
    >)
        ensures
            final(self).state == old(self).state,
            final(self).block_context == old(self).block_context,
            final(self).tx_context == old(self).tx_context,
            final(self).resources_manager == old(self).resources_manager,
            final(self).frames_v() == old(self).frames_v().push(top@),
            r matches Ok(SyscallOutcome::Respond(a)) && a == response,
    {
        let ghost before = self.frames@;
        self.frames.push(top);
        assert(frames_view(self.frames@) =~= frames_view(before).push(top@));
        Ok(SyscallOutcome::Respond(response))
    }

    /// Puts the calling frame back, marked as failed, and turns its system
    /// call down.
    fn refuse(&mut self, top: CallFrame, code: Felt) -> (r: Result<
        SyscallOutcome,
        TransactionError,
    >)
        ensures
            final(self).state == old(self).state,
            final(self).block_context == old(self).block_context,
            final(self).tx_context == old(self).tx_context,
            final(self).resources_manager == old(self).resources_manager,
            final(self).frames_v() == old(self).frames_v().push(
                CallFrameView { failure_flag: true, ..top@ },
            ),
            r matches Ok(SyscallOutcome::Respond(a)) && a@ == refusal(code@),
    {
        let mut top = top;
        top.failure_flag = true;
        let mut retdata: Vec<Felt> = Vec::new();
        retdata.push(code);
        assert(felts_view(retdata@) =~= seq![code@]);
        self.answer(top, SyscallResponse::Failure { retdata })
    }

    /// Starts the call that the calling frame makes.
    fn start_child(&mut self, top: CallFrame, child: ExecutionEntryPoint, pending: PendingCall) -> (r:
        Result<SyscallOutcome, TransactionError>)
        ensures
            final(self).state.read_step_of(&old(self).state),
            final(self).block_context == old(self).block_context,
            final(self).tx_context == old(self).tx_context,
            final(self).resources_manager == old(self).resources_manager,
            match resolve(&old(self).state, child@) {
                Ok(found) => if found.is_cairo1 && child.initial_gas == 0 {
                    &&& r matches Ok(SyscallOutcome::Respond(answer))
                    &&& answer@ == refusal(spec_out_of_gas_code())
                    &&& final(self).frames_v() == old(self).frames_v().push(
                        CallFrameView { failure_flag: true, ..top@ },
                    )
                } else {
                    &&& r matches Ok(SyscallOutcome::Call(run))
                    &&& run@ == (VmRunView {
                        class_hash: found.class_hash,
                        is_cairo1: found.is_cairo1,
                        entry_point_offset: found.offset,
                        entry_point_type: child.entry_point_type,
                        entry_point_selector: child.entry_point_selector@,
                        calldata: child@.calldata,
                        initial_gas: child.initial_gas as nat,
                    })
                    &&& final(self).frames_v() == old(self).frames_v().push(
                        CallFrameView { pending: Some(pending@), ..top@ },
                    ).push(
                        CallFrameView::fresh(
                            child@,
                            found.class_hash,
                            found.is_cairo1,
                            top.support_reverted,
                        ),
                    )
                },
                Err(why) => {
                    &&& r matches Ok(SyscallOutcome::Respond(answer))
                    &&& answer@ == refusal(unresolved_code(why))
                    &&& final(self).frames_v() == old(self).frames_v().push(
                        CallFrameView { failure_flag: true, ..top@ },
                    )
                },
            },
    {
        match resolve_entry_point(&mut self.state, &child) {
            Ok((class_hash, is_cairo1, offset)) => {
                if is_cairo1 && child.initial_gas == 0 {
                    return self.refuse(top, out_of_gas_code());
                }
                let run = VmRun {
                    class_hash,
                    is_cairo1,
                    entry_point_offset: offset,
                    entry_point_type: child.entry_point_type,
                    entry_point_selector: child.entry_point_selector,
                    calldata: clone_felts(&child.calldata),
                    initial_gas: child.initial_gas,
                };
                let mut top = top;
                top.pending = Some(pending);
                let frame = CallFrame::new(child, class_hash, is_cairo1, top.support_reverted);
                let ghost before = self.frames@;
                self.frames.push(top);
                self.frames.push(frame);
                assert(frames_view(self.frames@) =~= frames_view(before).push(top@).push(frame@));
                Ok(SyscallOutcome::Call(run))
            },
            Err((_, code)) => self.refuse(top, code),
        }
    }

    /// Carries out a system call of the call on top of the stack.
    ///
    /// `gas` is the gas that Cairo 1 code says it has left; Cairo 0 code has
    /// no gas to speak of. The call is counted. Cairo 1 code pays for it, and
    /// is turned down out of gas where it cannot. Then the call is carried
    /// out as [`handled`] says.
    pub fn syscall(&mut self, request: SyscallRequest, gas: u128) -> (r: Result<
        SyscallOutcome,
        TransactionError,
    >)
        ensures
            syscalled(old(self), final(self), request@, gas, r),
    {
        let ghost before = self.frames@;
        let ghost asked = request@;
        let mut top = match self.frames.pop() {
            Some(f) => f,
            None => {
                return Err(TransactionError::NoRunningCall);
            },
        };
        proof {
            assert(frames_view(before).last() == top@);
            assert(frames_view(self.frames@) =~= frames_view(before).drop_last());
        }
        if !self.resources_manager.increment_syscall_counter(request.kind(), 1) {
            return Err(TransactionError::ResourcesCalculation);
        }
        if top.is_cairo1 {
            let cost = self.block_context.os_resources.syscall_gas_cost;
            top.remaining_gas = gas;
            if gas < cost {
                return self.refuse(top, out_of_gas_code());
            }
            top.remaining_gas = gas - cost;
        }
        let here = top.entry_point.contract_address;
        match request {
            SyscallRequest::StorageRead { address_domain, address } => {
                if !address_domain.is_zero() {
                    return self.refuse(top, unsupported_address_domain_code());
                }
                let value = top.storage.read(&mut self.state, &address);
                self.answer(top, SyscallResponse::StorageRead { value })
            },
            SyscallRequest::StorageWrite { address_domain, address, value } => {
                if !address_domain.is_zero() {
                    return self.refuse(top, unsupported_address_domain_code());
                }
                top.storage.write(&mut self.state, &address, value);
                self.answer(top, SyscallResponse::Empty)
            },
            SyscallRequest::EmitEvent { keys, data } => {
                let order = self.tx_context.n_emitted_events;
                if order == u64::MAX {
                    return Err(TransactionError::ResourcesCalculation);
                }
                let event = OrderedEvent::new(order, keys, data);
                let ghost events_before = top.events@;
                top.events.push(event);
                assert(events_view(top.events@) =~= events_view(events_before).push(event@));
                self.tx_context.n_emitted_events = order + 1;
                self.answer(top, SyscallResponse::Empty)
            },
            SyscallRequest::SendMessageToL1 { to_address, payload } => {
                let order = self.tx_context.n_sent_messages;
                if order == u64::MAX {
                    return Err(TransactionError::ResourcesCalculation);
                }
                let message = OrderedL2ToL1Message::new(order, to_address, payload);
                let ghost messages_before = top.l2_to_l1_messages@;
                top.l2_to_l1_messages.push(message);
                assert(messages_view(top.l2_to_l1_messages@) =~= messages_view(
                    messages_before,
                ).push(message@));
                self.tx_context.n_sent_messages = order + 1;
                self.answer(top, SyscallResponse::Empty)
            },
            SyscallRequest::GetBlockNumber => {
                let block_number = self.block_context.block_info.block_number;
                self.answer(top, SyscallResponse::GetBlockNumber { block_number })
            },
            SyscallRequest::GetBlockTimestamp => {
                let block_timestamp = self.block_context.block_info.block_timestamp;
                self.answer(top, SyscallResponse::GetBlockTimestamp { block_timestamp })
            },
            SyscallRequest::GetSequencerAddress => {
                let sequencer_address = self.block_context.block_info.sequencer_address;
                self.answer(top, SyscallResponse::GetSequencerAddress { sequencer_address })
            },
            SyscallRequest::GetTxInfo => {
                let tx_info = self.tx_info();
                self.answer(top, SyscallResponse::GetTxInfo { tx_info })
            },
            SyscallRequest::GetExecutionInfo => {
                let execution_info = ExecutionInfo {
                    block_number: self.block_context.block_info.block_number,
                    block_timestamp: self.block_context.block_info.block_timestamp,
                    sequencer_address: self.block_context.block_info.sequencer_address,
                    tx_info: self.tx_info(),
                    caller_address: top.entry_point.caller_address,
                    contract_address: here,
                    entry_point_selector: top.entry_point.entry_point_selector,
                };
                self.answer(top, SyscallResponse::GetExecutionInfo { execution_info })
            },
            SyscallRequest::GetTxSignature => {
                let signature = clone_felts(&self.tx_context.signature);
                self.answer(top, SyscallResponse::GetTxSignature { signature })
            },
            SyscallRequest::GetCallerAddress => {
                let caller_address = top.entry_point.caller_address;
                self.answer(top, SyscallResponse::GetCallerAddress { caller_address })
            },
            SyscallRequest::GetContractAddress => {
                self.answer(top, SyscallResponse::GetContractAddress { contract_address: here })
            },
            SyscallRequest::ReplaceClass { class_hash } => {
                self.state.set_class_hash_at(here, class_hash);
                self.answer(top, SyscallResponse::Empty)
            },
            SyscallRequest::CallContract { contract_address, function_selector, calldata } => {
                let child = ExecutionEntryPoint::new(
                    contract_address,
                    calldata,
                    function_selector,
                    here,
                    EntryPointType::External,
                    Some(CallType::Call),
                    None,
                    top.remaining_gas,
                );
                self.start_child(top, child, PendingCall::Call)
            },
            SyscallRequest::LibraryCall { class_hash, function_selector, calldata } => {
                let child = library_entry_point(
                    &top,
                    class_hash,
                    function_selector,
                    calldata,
                    EntryPointType::External,
                );
                self.start_child(top, child, PendingCall::Call)
            },
            SyscallRequest::DelegateCall { class_hash, function_selector, calldata } => {
                let child = library_entry_point(
                    &top,
                    class_hash,
                    function_selector,
                    calldata,
                    EntryPointType::External,
                );
                self.start_child(top, child, PendingCall::Call)
            },
            SyscallRequest::LibraryCallL1Handler { class_hash, function_selector, calldata } => {
                let child = library_entry_point(
                    &top,
                    class_hash,
                    function_selector,
                    calldata,
                    EntryPointType::L1Handler,
                );
                self.start_child(top, child, PendingCall::Call)
            },
            SyscallRequest::Deploy {
                class_hash,
                contract_address_salt,
                constructor_calldata,
                deploy_from_zero,
            } => {
                let deployer = if deploy_from_zero {
                    Address(Felt::zero())
                } else {
                    here
                };
                let contract_address = Address(
                    calculate_contract_address(
                        &contract_address_salt,
                        &class_hash,
                        &constructor_calldata,
                        deployer,
                    ),
                );
                if self.state.deploy_contract(contract_address, class_hash).is_err() {
                    return self.refuse(top, contract_address_unavailable_code());
                }
                let class = match self.state.get_contract_class(&class_hash) {
                    Ok(c) => c,
                    Err(_) => {
                        return self.refuse(top, class_hash_not_found_code());
                    },
                };
                if class.has_constructor() {
                    let child = ExecutionEntryPoint::new(
                        contract_address,
                        constructor_calldata,
                        constructor_entry_point_selector(),
                        here,
                        EntryPointType::Constructor,
                        Some(CallType::Call),
                        Some(class_hash),
                        top.remaining_gas,
                    );
                    self.start_child(top, child, PendingCall::Deploy { contract_address })
                } else if constructor_calldata.len() > 0 {
                    self.refuse(top, entry_point_failed_code())
                } else {
                    let record = CallInfo::empty_constructor_call(
                        contract_address,
                        here,
                        Some(class_hash),
                    );
                    let ghost calls_before = top.internal_calls@;
                    top.internal_calls.push(record);
                    assert(calls_view(top.internal_calls@) =~= calls_view(calls_before).push(
                        record@,
                    ));
                    let retdata: Vec<Felt> = Vec::new();
                    assert(felts_view(retdata@) =~= Seq::<nat>::empty());
                    self.answer(top, SyscallResponse::Deploy { contract_address, retdata })
                }
            },
        }
    }
}

/// Builds the call that a frame makes of the code of a class on its own
/// storage.
fn library_entry_point(
    top: &CallFrame,
    class_hash: Felt,
    function_selector: Felt,
    calldata: Vec<Felt>,
    entry_point_type: EntryPointType,
) -> (r: ExecutionEntryPoint)
    ensures
        r@ == library_call_of(
            top@,
            class_hash@,
            function_selector@,
            felts_view(calldata@),
            entry_point_type,
        ),
{
    let mut child = ExecutionEntryPoint::new(
        top.entry_point.contract_address,
        calldata,
        function_selector,
        top.entry_point.caller_address,
        entry_point_type,
        Some(CallType::Delegate),
        Some(class_hash),
        top.remaining_gas,
    );
    child.code_address = Some(Address(class_hash));
    child
}


/// Two outcomes of system calls tell the driver the same thing.
pub open spec fn same_outcome(
    first: Result<SyscallOutcome, TransactionError>,
    second: Result<SyscallOutcome, TransactionError>,
) -> bool {
    match (first, second) {
        (Ok(SyscallOutcome::Respond(a)), Ok(SyscallOutcome::Respond(b))) => a@ == b@,
        (Ok(SyscallOutcome::Call(a)), Ok(SyscallOutcome::Call(b))) => a@ == b@,
        (Err(e), Err(f)) => e == f,
        _ => false,
    }
}

/// Two stacks hold the same calls over states that show the same and have
/// written the same, in the same transaction.
pub open spec fn same_calls<'a, T: StateReader>(
    first: &CallStack<'a, T>,
    second: &CallStack<'a, T>,
) -> bool {
    &&& first.frames_v() == second.frames_v()
    &&& first.tx_context@ == second.tx_context@
    &&& first.state.state_reader == second.state.state_reader
    &&& first.state.same_readings(&second.state)
    &&& first.state.cache@.class_hash_writes == second.state.cache@.class_hash_writes
    &&& first.state.cache@.nonce_writes == second.state.cache@.nonce_writes
    &&& first.state.cache@.storage_writes == second.state.cache@.storage_writes
    &&& first.state.cache@.compiled_class_hash_writes
        == second.state.cache@.compiled_class_hash_writes
}

/// The start of a call from a frame has one outcome.
pub proof fn lemma_child_started_determined<'a, T: StateReader>(
    pre: &CallStack<'a, T>,
    first: &CallStack<'a, T>,
    second: &CallStack<'a, T>,
    state: &CachedState<'a, T>,
    other_state: &CachedState<'a, T>,
    top: CallFrameView,
    child: ExecutionEntryPointView,
    pending: PendingCallView,
    r1: Result<SyscallOutcome, TransactionError>,
    r2: Result<SyscallOutcome, TransactionError>,
)
    requires
        child_started(pre, first, state, top, child, pending, r1),
        child_started(pre, second, other_state, top, child, pending, r2),
        state.same_readings(other_state),
    ensures
        same_outcome(r1, r2),
        first.frames_v() == second.frames_v(),
{
    assert(resolve(state, child) == resolve(other_state, child));
}

/// What a system call does once it is counted and paid for has one
/// outcome.
pub proof fn lemma_handled_determined<'a, T: StateReader>(
    pre: &CallStack<'a, T>,
    first: &CallStack<'a, T>,
    second: &CallStack<'a, T>,
    top: CallFrameView,
    request: SyscallRequestView,
    r1: Result<SyscallOutcome, TransactionError>,
    r2: Result<SyscallOutcome, TransactionError>,
)
    requires
        handled(pre, first, top, request, r1),
        handled(pre, second, top, request, r2),
    ensures
        same_outcome(r1, r2),
        r1 is Ok ==> same_calls(first, second),
{
    let here = top.entry_point.contract_address;
    match request {
        SyscallRequestView::CallContract { contract_address, function_selector, calldata } => {
            lemma_child_started_determined(
                pre,
                first,
                second,
                &pre.state,
                &pre.state,
                top,
                contract_call_of(top, contract_address, function_selector, calldata),
                PendingCallView::Call,
                r1,
                r2,
            );
        },
        SyscallRequestView::LibraryCall { class_hash, function_selector, calldata } => {
            lemma_child_started_determined(
                pre,
                first,
                second,
                &pre.state,
                &pre.state,
                top,
                library_call_of(
                    top,
                    class_hash,
                    function_selector,
                    calldata,
                    EntryPointType::External,
                ),
                PendingCallView::Call,
                r1,
                r2,
            );
        },
        SyscallRequestView::DelegateCall { class_hash, function_selector, calldata } => {
            lemma_child_started_determined(
                pre,
                first,
                second,
                &pre.state,
                &pre.state,
                top,
                library_call_of(
                    top,
                    class_hash,
                    function_selector,
                    calldata,
                    EntryPointType::External,
                ),
                PendingCallView::Call,
                r1,
                r2,
            );
        },
        SyscallRequestView::LibraryCallL1Handler { class_hash, function_selector, calldata } => {
            lemma_child_started_determined(
                pre,
                first,
                second,
                &pre.state,
                &pre.state,
                top,
                library_call_of(
                    top,
                    class_hash,
                    function_selector,
                    calldata,
                    EntryPointType::L1Handler,
                ),
                PendingCallView::Call,
                r1,
                r2,
            );
        },
        SyscallRequestView::Deploy {
            class_hash,
            contract_address_salt,
            constructor_calldata,
            deploy_from_zero,
        } => {
            let deployer = if deploy_from_zero {
                0
            } else {
                here
            };
            let address = contract_address_of(
                contract_address_salt,
                class_hash,
                constructor_calldata,
                deployer,
            );
            if pre.state.class_hash_at(address) == 0 {
                match pre.state.contract_class(class_hash) {
                    Some(class) => {
                        if class.has_constructor() {
                            lemma_child_started_determined(
                                pre,
                                first,
                                second,
                                &first.state,
                                &second.state,
                                top,
                                constructor_call_of(top, address, class_hash, constructor_calldata),
                                PendingCallView::Deploy { contract_address: address },
                                r1,
                                r2,
                            );
                        }
                    },
                    None => {},
                }
            }
        },
        SyscallRequestView::StorageRead { .. } => {},
        SyscallRequestView::StorageWrite { .. } => {},
        SyscallRequestView::EmitEvent { .. } => {},
        SyscallRequestView::SendMessageToL1 { .. } => {},
        SyscallRequestView::ReplaceClass { .. } => {},
        SyscallRequestView::GetBlockNumber => {},
        SyscallRequestView::GetBlockTimestamp => {},
        SyscallRequestView::GetSequencerAddress => {},
        SyscallRequestView::GetTxInfo => {},
        SyscallRequestView::GetTxSignature => {},
        SyscallRequestView::GetCallerAddress => {},
        SyscallRequestView::GetContractAddress => {},
        SyscallRequestView::GetExecutionInfo => {},
    }
}

/// A system call has one outcome: whatever comes of the same call on the
/// same stack is the same answer, or the same call to run, or the same
/// error, and leaves the same calls behind, with the same counts.
pub proof fn lemma_syscall_determined<'a, T: StateReader>(
    pre: &CallStack<'a, T>,
    first: &CallStack<'a, T>,
    second: &CallStack<'a, T>,
    request: SyscallRequestView,
    gas: u128,
    r1: Result<SyscallOutcome, TransactionError>,
    r2: Result<SyscallOutcome, TransactionError>,
)
    requires
        syscalled(pre, first, request, gas, r1),
        syscalled(pre, second, request, gas, r2),
    ensures
        same_outcome(r1, r2),
        r1 is Ok ==> same_calls(first, second),
        r1 is Ok ==> first.resources_manager.syscall_counter@
            == second.resources_manager.syscall_counter@,
        first.resources_manager.cairo_usage == second.resources_manager.cairo_usage,
        first.block_context == second.block_context,
{
    if pre.frames@.len() > 0 {
        let top = pre.frames_v().last();
        let kind = request.kind();
        let count = syscall_count(pre.resources_manager.syscall_counter@, kind);
        let cost = pre.block_context.os_resources.syscall_gas_cost as nat;
        if count + 1 <= u64::MAX && !(top.is_cairo1 && gas < cost) {
            lemma_handled_determined(
                pre,
                first,
                second,
                charged(top, gas as nat, cost),
                request,
                r1,
                r2,
            );
        }
    }
}

} // verus!
