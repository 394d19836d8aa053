//! System calls as Cairo 1 code lays them out in memory.
//!
//! A request starts with the word that names the system call and the gas
//! that the code has left; an answer starts with the gas that is left after
//! the call and with a flag that says whether the call was refused. Arrays
//! are named by the places where they start and end.
use crate::definitions::constants::{
    call_contract_word, deploy_word, emit_event_word, get_execution_info_word,
    library_call_word, replace_class_word, send_message_to_l1_word, spec_call_contract_word,
    spec_deploy_word, spec_emit_event_word, spec_get_execution_info_word,
    spec_library_call_word, spec_replace_class_word, spec_send_message_to_l1_word,
    spec_storage_read_word, spec_storage_write_word, storage_read_word, storage_write_word,
};
use crate::error::SyscallHandlerError;
use crate::felt::{decimal_digits, felts_view, Felt};
use crate::syscalls::deprecated_syscall_request::{
    arrays_view, cell_number, cell_pointer, cells_view, number_at, pointer_at, values_view,
    MaybeRelocatable, MaybeRelocatableView, Relocatable,
};
use crate::syscalls::syscall_request::{
    ExecutionInfo, ExecutionInfoView, SyscallKind, SyscallRequest, SyscallRequestView,
    SyscallResponse, SyscallResponseView, TxInfo, TxInfoView,
};
use crate::utils::Address;
use vstd::prelude::*;

verus! {

/// The system call that a word names, if it names one.
pub open spec fn kind_of_word(word: nat) -> Option<SyscallKind> {
    if word == spec_call_contract_word() {
        Some(SyscallKind::CallContract)
    } else if word == spec_deploy_word() {
        Some(SyscallKind::Deploy)
    } else if word == spec_emit_event_word() {
        Some(SyscallKind::EmitEvent)
    } else if word == spec_get_execution_info_word() {
        Some(SyscallKind::GetExecutionInfo)
    } else if word == spec_library_call_word() {
        Some(SyscallKind::LibraryCall)
    } else if word == spec_replace_class_word() {
        Some(SyscallKind::ReplaceClass)
    } else if word == spec_send_message_to_l1_word() {
        Some(SyscallKind::SendMessageToL1)
    } else if word == spec_storage_read_word() {
        Some(SyscallKind::StorageRead)
    } else if word == spec_storage_write_word() {
        Some(SyscallKind::StorageWrite)
    } else {
        None
    }
}

/// Tells which system call a word names. A word that names none is turned
/// down, written in decimal.
pub fn syscall_kind_of(word: &Felt) -> (r: Result<SyscallKind, SyscallHandlerError>)
    ensures
        match kind_of_word(word@) {
            Some(kind) => r == Ok::<SyscallKind, SyscallHandlerError>(kind),
            None => r matches Err(SyscallHandlerError::UnknownSyscall(t)) && t@ == decimal_digits(
                word@,
            ),
        },
{
    if word.equals(&call_contract_word()) {
        Ok(SyscallKind::CallContract)
    } else if word.equals(&deploy_word()) {
        Ok(SyscallKind::Deploy)
    } else if word.equals(&emit_event_word()) {
        Ok(SyscallKind::EmitEvent)
    } else if word.equals(&get_execution_info_word()) {
        Ok(SyscallKind::GetExecutionInfo)
    } else if word.equals(&library_call_word()) {
        Ok(SyscallKind::LibraryCall)
    } else if word.equals(&replace_class_word()) {
        Ok(SyscallKind::ReplaceClass)
    } else if word.equals(&send_message_to_l1_word()) {
        Ok(SyscallKind::SendMessageToL1)
    } else if word.equals(&storage_read_word()) {
        Ok(SyscallKind::StorageRead)
    } else if word.equals(&storage_write_word()) {
        Ok(SyscallKind::StorageWrite)
    } else {
        Err(SyscallHandlerError::UnknownSyscall(word.to_decimal_string()))
    }
}

/// An array in memory, from where it starts up to where it ends.
#[derive(Clone, Copy, Debug, PartialEq, Eq, Structural)]
pub struct Span {
    pub start: Relocatable,
    pub end: Relocatable,
}

impl Span {
    /// How many cells the array has, if it ends in the segment in which it
    /// starts and not before its start.
    pub open spec fn spec_len(self) -> Option<nat> {
        if self.start.segment_index == self.end.segment_index && self.start.offset
            <= self.end.offset {
            Some((self.end.offset - self.start.offset) as nat)
        } else {
            None
        }
    }

    /// How many cells the array has.
    pub fn len(&self) -> (r: Option<usize>)
        ensures
            match r {
                Some(n) => self.spec_len() == Some(n as nat),
                None => self.spec_len().is_none(),
            },
    {
        if self.start.segment_index == self.end.segment_index && self.start.offset
            <= self.end.offset {
            Some(self.end.offset - self.start.offset)
        } else {
            None
        }
    }
}

/// The request of a system call as it lies in the memory of Cairo 1 code,
/// after the word and the gas.
#[derive(Clone, Copy, Debug, PartialEq, Eq)]
pub enum Cairo1SyscallRequest {
    CallContract { contract_address: Address, function_selector: Felt, calldata: Span },
    LibraryCall { class_hash: Felt, function_selector: Felt, calldata: Span },
    Deploy { class_hash: Felt, contract_address_salt: Felt, calldata: Span, deploy_from_zero: bool },
    EmitEvent { keys: Span, data: Span },
    GetExecutionInfo,
    ReplaceClass { class_hash: Felt },
    SendMessageToL1 { to_address: Address, payload: Span },
    StorageRead { address_domain: Felt, address: Felt },
    StorageWrite { address_domain: Felt, address: Felt, value: Felt },
}

/// What a [`Cairo1SyscallRequest`] holds.
pub enum Cairo1SyscallRequestView {
    CallContract { contract_address: nat, function_selector: nat, calldata: Span },
    LibraryCall { class_hash: nat, function_selector: nat, calldata: Span },
    Deploy { class_hash: nat, contract_address_salt: nat, calldata: Span, deploy_from_zero: bool },
    EmitEvent { keys: Span, data: Span },
    GetExecutionInfo,
    ReplaceClass { class_hash: nat },
    SendMessageToL1 { to_address: nat, payload: Span },
    StorageRead { address_domain: nat, address: nat },
    StorageWrite { address_domain: nat, address: nat, value: nat },
}

impl View for Cairo1SyscallRequest {
    type V = Cairo1SyscallRequestView;

    open spec fn view(&self) -> Cairo1SyscallRequestView {
        match *self {
            Cairo1SyscallRequest::CallContract {
                contract_address,
                function_selector,
                calldata,
            } => Cairo1SyscallRequestView::CallContract {
                contract_address: contract_address@,
                function_selector: function_selector@,
                calldata,
            },
            Cairo1SyscallRequest::LibraryCall {
                class_hash,
                function_selector,
                calldata,
            } => Cairo1SyscallRequestView::LibraryCall {
                class_hash: class_hash@,
                function_selector: function_selector@,
                calldata,
            },
            Cairo1SyscallRequest::Deploy {
                class_hash,
                contract_address_salt,
                calldata,
                deploy_from_zero,
            } => Cairo1SyscallRequestView::Deploy {
                class_hash: class_hash@,
                contract_address_salt: contract_address_salt@,
                calldata,
                deploy_from_zero,
            },
            Cairo1SyscallRequest::EmitEvent { keys, data } => Cairo1SyscallRequestView::EmitEvent {
                keys,
                data,
            },
            Cairo1SyscallRequest::GetExecutionInfo => Cairo1SyscallRequestView::GetExecutionInfo,
            Cairo1SyscallRequest::ReplaceClass {
                class_hash,
            } => Cairo1SyscallRequestView::ReplaceClass { class_hash: class_hash@ },
            Cairo1SyscallRequest::SendMessageToL1 {
                to_address,
                payload,
            } => Cairo1SyscallRequestView::SendMessageToL1 { to_address: to_address@, payload },
            Cairo1SyscallRequest::StorageRead {
                address_domain,
                address,
            } => Cairo1SyscallRequestView::StorageRead {
                address_domain: address_domain@,
                address: address@,
            },
            Cairo1SyscallRequest::StorageWrite {
                address_domain,
                address,
                value,
            } => Cairo1SyscallRequestView::StorageWrite {
                address_domain: address_domain@,
                address: address@,
                value: value@,
            },
        }
    }
}

/// How many cells the request of a system call takes after the word and the
/// gas.
pub open spec fn body_size(kind: SyscallKind) -> nat {
    match kind {
        SyscallKind::CallContract => 4,
        SyscallKind::LibraryCall => 4,
        SyscallKind::Deploy => 5,
        SyscallKind::EmitEvent => 4,
        SyscallKind::ReplaceClass => 1,
        SyscallKind::SendMessageToL1 => 3,
        SyscallKind::StorageRead => 2,
        SyscallKind::StorageWrite => 3,
        _ => 0,
    }
}

/// How many cells the request of a system call takes after the word and the
/// gas.
pub fn get_body_size(kind: SyscallKind) -> (r: usize)
    ensures
        r == body_size(kind),
{
    match kind {
        SyscallKind::CallContract => 4,
        SyscallKind::LibraryCall => 4,
        SyscallKind::Deploy => 5,
        SyscallKind::EmitEvent => 4,
        SyscallKind::ReplaceClass => 1,
        SyscallKind::SendMessageToL1 => 3,
        SyscallKind::StorageRead => 2,
        SyscallKind::StorageWrite => 3,
        _ => 0,
    }
}

/// The array that two cells name by its start and its end.
pub open spec fn cell_span(cells: Seq<Option<MaybeRelocatableView>>, i: int) -> Result<
    Span,
    SyscallHandlerError,
> {
    match cell_pointer(cells, i) {
        Err(e) => Err(e),
        Ok(start) => match cell_pointer(cells, i + 1) {
            Err(e) => Err(e),
            Ok(end) => Ok(Span { start, end }),
        },
    }
}

fn span_at(cells: &Vec<Option<MaybeRelocatable>>, i: usize) -> (r: Result<
    Span,
    SyscallHandlerError,
>)
    requires
        i + 1 < cells@.len(),
    ensures
        r == cell_span(cells_view(cells@), i as int),
{
    let len = cells.len();
    let start = match pointer_at(cells, i) {
        Ok(p) => p,
        Err(e) => {
            return Err(e);
        },
    };
    match pointer_at(cells, i + 1) {
        Ok(end) => Ok(Span { start, end }),
        Err(e) => Err(e),
    }
}

/// The gas that the head of a request names, or why it names none.
pub open spec fn parsed_gas(cells: Seq<Option<MaybeRelocatableView>>) -> Result<
    nat,
    SyscallHandlerError,
> {
    if cells.len() < 2 {
        Err(SyscallHandlerError::MissingCells)
    } else {
        match cell_number(cells, 1) {
            Err(e) => Err(e),
            Ok(gas) => if gas <= u128::MAX {
                Ok(gas)
            } else {
                Err(SyscallHandlerError::FeltToUsize(1))
            },
        }
    }
}

/// The system call that the head of a request names, or why it names none.
pub open spec fn parsed_kind(cells: Seq<Option<MaybeRelocatableView>>) -> Result<
    SyscallKind,
    HeadFailure,
> {
    if cells.len() < 2 {
        Err(HeadFailure::Cells(SyscallHandlerError::MissingCells))
    } else {
        match cell_number(cells, 0) {
            Err(e) => Err(HeadFailure::Cells(e)),
            Ok(word) => match kind_of_word(word) {
                None => Err(HeadFailure::UnknownWord(word)),
                Some(kind) => Ok(kind),
            },
        }
    }
}

/// Why the head of a request names no system call.
pub enum HeadFailure {
    /// The cells are not those of a head.
    Cells(SyscallHandlerError),
    /// The word names no system call.
    UnknownWord(nat),
}

/// Reads the head of a request: the system call that it names and the gas
/// that the code has left.
pub fn read_syscall_head(cells: &Vec<Option<MaybeRelocatable>>) -> (r: Result<
    (SyscallKind, u128),
    SyscallHandlerError,
>)
    ensures
        match parsed_kind(cells_view(cells@)) {
            Err(HeadFailure::Cells(e)) => r == Err::<(SyscallKind, u128), SyscallHandlerError>(e),
            Err(HeadFailure::UnknownWord(word)) => r matches Err(
                SyscallHandlerError::UnknownSyscall(t),
            ) && t@ == decimal_digits(word),
            Ok(kind) => match parsed_gas(cells_view(cells@)) {
                Err(e) => r == Err::<(SyscallKind, u128), SyscallHandlerError>(e),
                Ok(gas) => r == Ok::<(SyscallKind, u128), SyscallHandlerError>((kind, gas as u128)),
            },
        },
{
    if cells.len() < 2 {
        return Err(SyscallHandlerError::MissingCells);
    }
    let word = match number_at(cells, 0) {
        Ok(f) => f,
        Err(e) => {
            return Err(e);
        },
    };
    let kind = match syscall_kind_of(&word) {
        Ok(k) => k,
        Err(e) => {
            return Err(e);
        },
    };
    let gas = match number_at(cells, 1) {
        Ok(f) => f,
        Err(e) => {
            return Err(e);
        },
    };
    match gas.to_u128() {
        Some(g) => Ok((kind, g)),
        None => Err(SyscallHandlerError::FeltToUsize(1)),
    }
}

/// The request that a run of cells reads as, for a kind of system call. The
/// cells are those after the word and the gas.
pub open spec fn parsed_body(kind: SyscallKind, cells: Seq<Option<MaybeRelocatableView>>) -> Result<
    Cairo1SyscallRequestView,
    SyscallHandlerError,
> {
    if cells.len() < body_size(kind) {
        Err(SyscallHandlerError::MissingCells)
    } else {
        match kind {
            SyscallKind::CallContract => match cell_number(cells, 0) {
                Err(e) => Err(e),
                Ok(contract_address) => match cell_number(cells, 1) {
                    Err(e) => Err(e),
                    Ok(function_selector) => match cell_span(cells, 2) {
                        Err(e) => Err(e),
                        Ok(calldata) => Ok(
                            Cairo1SyscallRequestView::CallContract {
                                contract_address,
                                function_selector,
                                calldata,
                            },
                        ),
                    },
                },
            },
            SyscallKind::LibraryCall => match cell_number(cells, 0) {
                Err(e) => Err(e),
                Ok(class_hash) => match cell_number(cells, 1) {
                    Err(e) => Err(e),
                    Ok(function_selector) => match cell_span(cells, 2) {
                        Err(e) => Err(e),
                        Ok(calldata) => Ok(
                            Cairo1SyscallRequestView::LibraryCall {
                                class_hash,
                                function_selector,
                                calldata,
                            },
                        ),
                    },
                },
            },
            SyscallKind::Deploy => match cell_number(cells, 0) {
                Err(e) => Err(e),
                Ok(class_hash) => match cell_number(cells, 1) {
                    Err(e) => Err(e),
                    Ok(contract_address_salt) => match cell_span(cells, 2) {
                        Err(e) => Err(e),
                        Ok(calldata) => match cell_number(cells, 4) {
                            Err(e) => Err(e),
                            Ok(flag) => Ok(
                                Cairo1SyscallRequestView::Deploy {
                                    class_hash,
                                    contract_address_salt,
                                    calldata,
                                    deploy_from_zero: flag != 0,
                                },
                            ),
                        },
                    },
                },
            },
            SyscallKind::EmitEvent => match cell_span(cells, 0) {
                Err(e) => Err(e),
                Ok(keys) => match cell_span(cells, 2) {
                    Err(e) => Err(e),
                    Ok(data) => Ok(Cairo1SyscallRequestView::EmitEvent { keys, data }),
                },
            },
            SyscallKind::GetExecutionInfo => Ok(Cairo1SyscallRequestView::GetExecutionInfo),
            SyscallKind::ReplaceClass => match cell_number(cells, 0) {
                Err(e) => Err(e),
                Ok(class_hash) => Ok(Cairo1SyscallRequestView::ReplaceClass { class_hash }),
            },
            SyscallKind::SendMessageToL1 => match cell_number(cells, 0) {
                Err(e) => Err(e),
                Ok(to_address) => match cell_span(cells, 1) {
                    Err(e) => Err(e),
                    Ok(payload) => Ok(
                        Cairo1SyscallRequestView::SendMessageToL1 { to_address, payload },
                    ),
                },
            },
            SyscallKind::StorageRead => match cell_number(cells, 0) {
                Err(e) => Err(e),
                Ok(address_domain) => match cell_number(cells, 1) {
                    Err(e) => Err(e),
                    Ok(address) => Ok(
                        Cairo1SyscallRequestView::StorageRead { address_domain, address },
                    ),
                },
            },
            SyscallKind::StorageWrite => match cell_number(cells, 0) {
                Err(e) => Err(e),
                Ok(address_domain) => match cell_number(cells, 1) {
                    Err(e) => Err(e),
                    Ok(address) => match cell_number(cells, 2) {
                        Err(e) => Err(e),
                        Ok(value) => Ok(
                            Cairo1SyscallRequestView::StorageWrite {
                                address_domain,
                                address,
                                value,
                            },
                        ),
                    },
                },
            },
            _ => Err(SyscallHandlerError::NoLayout),
        }
    }
}

/// Reads the request of a system call of a kind from the cells after its
/// head.
pub fn read_syscall_body(kind: SyscallKind, cells: &Vec<Option<MaybeRelocatable>>) -> (r: Result<
    Cairo1SyscallRequest,
    SyscallHandlerError,
>)
    ensures
        match parsed_body(kind, cells_view(cells@)) {
            Ok(request) => r matches Ok(q) && q@ == request,
            Err(e) => r == Err::<Cairo1SyscallRequest, SyscallHandlerError>(e),
        },
{
    if cells.len() < get_body_size(kind) {
        return Err(SyscallHandlerError::MissingCells);
    }
    match kind {
        SyscallKind::CallContract => {
            let contract_address = match number_at(cells, 0) {
                Ok(x) => x,
                Err(e) => {
                    return Err(e);
                },
            };
            let function_selector = match number_at(cells, 1) {
                Ok(x) => x,
                Err(e) => {
                    return Err(e);
                },
            };
            match span_at(cells, 2) {
                Ok(calldata) => Ok(
                    Cairo1SyscallRequest::CallContract {
                        contract_address: Address(contract_address),
                        function_selector,
                        calldata,
                    },
                ),
                Err(e) => Err(e),
            }
        },
        SyscallKind::LibraryCall => {
            let class_hash = match number_at(cells, 0) {
                Ok(x) => x,
                Err(e) => {
                    return Err(e);
                },
            };
            let function_selector = match number_at(cells, 1) {
                Ok(x) => x,
                Err(e) => {
                    return Err(e);
                },
            };
            match span_at(cells, 2) {
                Ok(calldata) => Ok(
                    Cairo1SyscallRequest::LibraryCall { class_hash, function_selector, calldata },
                ),
                Err(e) => Err(e),
            }
        },
        SyscallKind::Deploy => {
            let class_hash = match number_at(cells, 0) {
                Ok(x) => x,
                Err(e) => {
                    return Err(e);
                },
            };
            let contract_address_salt = match number_at(cells, 1) {
                Ok(x) => x,
                Err(e) => {
                    return Err(e);
                },
            };
            let calldata = match span_at(cells, 2) {
                Ok(x) => x,
                Err(e) => {
                    return Err(e);
                },
            };
            match number_at(cells, 4) {
                Ok(flag) => Ok(
                    Cairo1SyscallRequest::Deploy {
                        class_hash,
                        contract_address_salt,
                        calldata,
                        deploy_from_zero: !flag.is_zero(),
                    },
                ),
                Err(e) => Err(e),
            }
        },
        SyscallKind::EmitEvent => {
            let keys = match span_at(cells, 0) {
                Ok(x) => x,
                Err(e) => {
                    return Err(e);
                },
            };
            match span_at(cells, 2) {
                Ok(data) => Ok(Cairo1SyscallRequest::EmitEvent { keys, data }),
                Err(e) => Err(e),
            }
        },
        SyscallKind::GetExecutionInfo => Ok(Cairo1SyscallRequest::GetExecutionInfo),
        SyscallKind::ReplaceClass => match number_at(cells, 0) {
            Ok(class_hash) => Ok(Cairo1SyscallRequest::ReplaceClass { class_hash }),
            Err(e) => Err(e),
        },
        SyscallKind::SendMessageToL1 => {
            let to_address = match number_at(cells, 0) {
                Ok(x) => x,
                Err(e) => {
                    return Err(e);
                },
            };
            match span_at(cells, 1) {
                Ok(payload) => Ok(
                    Cairo1SyscallRequest::SendMessageToL1 {
                        to_address: Address(to_address),
                        payload,
                    },
                ),
                Err(e) => Err(e),
            }
        },
        SyscallKind::StorageRead => {
            let address_domain = match number_at(cells, 0) {
                Ok(x) => x,
                Err(e) => {
                    return Err(e);
                },
            };
            match number_at(cells, 1) {
                Ok(address) => Ok(Cairo1SyscallRequest::StorageRead { address_domain, address }),
                Err(e) => Err(e),
            }
        },
        SyscallKind::StorageWrite => {
            let address_domain = match number_at(cells, 0) {
                Ok(x) => x,
                Err(e) => {
                    return Err(e);
                },
            };
            let address = match number_at(cells, 1) {
                Ok(x) => x,
                Err(e) => {
                    return Err(e);
                },
            };
            match number_at(cells, 2) {
                Ok(value) => Ok(
                    Cairo1SyscallRequest::StorageWrite { address_domain, address, value },
                ),
                Err(e) => Err(e),
            }
        },
        _ => Err(SyscallHandlerError::NoLayout),
    }
}

impl Cairo1SyscallRequestView {
    /// The arrays that belong to the request, in the order of the request.
    pub open spec fn spans(self) -> Seq<Span> {
        match self {
            Cairo1SyscallRequestView::CallContract { calldata, .. } => seq![calldata],
            Cairo1SyscallRequestView::LibraryCall { calldata, .. } => seq![calldata],
            Cairo1SyscallRequestView::Deploy { calldata, .. } => seq![calldata],
            Cairo1SyscallRequestView::EmitEvent { keys, data } => seq![keys, data],
            Cairo1SyscallRequestView::SendMessageToL1 { payload, .. } => seq![payload],
            _ => Seq::empty(),
        }
    }

    /// Whether arrays are of the number and the lengths of those that
    /// belong to the request.
    pub open spec fn takes(self, arrays: Seq<Seq<nat>>) -> bool {
        &&& arrays.len() == self.spans().len()
        &&& forall|i: int|
            0 <= i < arrays.len() ==> self.spans()[i].spec_len() == Some(
                (#[trigger] arrays[i]).len(),
            )
    }

    /// The request with its arrays in the place of the pointers to them.
    pub open spec fn completed(self, arrays: Seq<Seq<nat>>) -> SyscallRequestView {
        match self {
            Cairo1SyscallRequestView::CallContract {
                contract_address,
                function_selector,
                ..
            } => SyscallRequestView::CallContract {
                contract_address,
                function_selector,
                calldata: arrays[0],
            },
            Cairo1SyscallRequestView::LibraryCall {
                class_hash,
                function_selector,
                ..
            } => SyscallRequestView::LibraryCall {
                class_hash,
                function_selector,
                calldata: arrays[0],
            },
            Cairo1SyscallRequestView::Deploy {
                class_hash,
                contract_address_salt,
                deploy_from_zero,
                ..
            } => SyscallRequestView::Deploy {
                class_hash,
                contract_address_salt,
                constructor_calldata: arrays[0],
                deploy_from_zero,
            },
            Cairo1SyscallRequestView::EmitEvent { .. } => SyscallRequestView::EmitEvent {
                keys: arrays[0],
                data: arrays[1],
            },
            Cairo1SyscallRequestView::GetExecutionInfo => SyscallRequestView::GetExecutionInfo,
            Cairo1SyscallRequestView::ReplaceClass {
                class_hash,
            } => SyscallRequestView::ReplaceClass { class_hash },
            Cairo1SyscallRequestView::SendMessageToL1 {
                to_address,
                ..
            } => SyscallRequestView::SendMessageToL1 { to_address, payload: arrays[0] },
            Cairo1SyscallRequestView::StorageRead {
                address_domain,
                address,
            } => SyscallRequestView::StorageRead { address_domain, address },
            Cairo1SyscallRequestView::StorageWrite {
                address_domain,
                address,
                value,
            } => SyscallRequestView::StorageWrite { address_domain, address, value },
        }
    }
}

/// Takes the single array of a list of arrays, if it is of the length of a
/// span.
fn take_span(arrays: Vec<Vec<Felt>>, span: Span) -> (r: Result<Vec<Felt>, SyscallHandlerError>)
    ensures
        match r {
            Ok(a) => arrays@.len() == 1 && a == arrays@[0] && span.spec_len() == Some(a@.len()),
            Err(e) => e == SyscallHandlerError::WrongArrays && !(arrays@.len() == 1
                && span.spec_len() == Some(arrays@[0]@.len())),
        },
{
    let mut arrays = arrays;
    if arrays.len() != 1 {
        return Err(SyscallHandlerError::WrongArrays);
    }
    match (arrays.pop(), span.len()) {
        (Some(a), Some(len)) => if a.len() == len {
            Ok(a)
        } else {
            Err(SyscallHandlerError::WrongArrays)
        },
        _ => Err(SyscallHandlerError::WrongArrays),
    }
}

impl Cairo1SyscallRequest {
    /// Lists the arrays that belong to the request.
    pub fn arrays(&self) -> (r: Vec<Span>)
        ensures
            r@ == self@.spans(),
    {
        let mut r: Vec<Span> = Vec::new();
        match *self {
            Cairo1SyscallRequest::CallContract { calldata, .. } => {
                r.push(calldata);
            },
            Cairo1SyscallRequest::LibraryCall { calldata, .. } => {
                r.push(calldata);
            },
            Cairo1SyscallRequest::Deploy { calldata, .. } => {
                r.push(calldata);
            },
            Cairo1SyscallRequest::EmitEvent { keys, data } => {
                r.push(keys);
                r.push(data);
            },
            Cairo1SyscallRequest::SendMessageToL1 { payload, .. } => {
                r.push(payload);
            },
            _ => {},
        }
        assert(r@ =~= self@.spans());
        r
    }

    /// Puts the arrays of the request, read out of memory, in the place of
    /// the pointers to them. Arrays that are not of the number and lengths
    /// that the request names are turned down.
    pub fn complete(&self, arrays: Vec<Vec<Felt>>) -> (r: Result<
        SyscallRequest,
        SyscallHandlerError,
    >)
        ensures
            if self@.takes(arrays_view(arrays@)) {
                r matches Ok(q) && q@ == self@.completed(arrays_view(arrays@))
            } else {
                r == Err::<SyscallRequest, SyscallHandlerError>(SyscallHandlerError::WrongArrays)
            },
    {
        let ghost views = arrays_view(arrays@);
        match *self {
            Cairo1SyscallRequest::CallContract { contract_address, function_selector, calldata } => {
                match take_span(arrays, calldata) {
                    Ok(calldata) => {
                        assert(felts_view(calldata@) == views[0]);
                        Ok(
                            SyscallRequest::CallContract {
                                contract_address,
                                function_selector,
                                calldata,
                            },
                        )
                    },
                    Err(e) => Err(e),
                }
            },
            Cairo1SyscallRequest::LibraryCall { class_hash, function_selector, calldata } => {
                match take_span(arrays, calldata) {
                    Ok(calldata) => {
                        assert(felts_view(calldata@) == views[0]);
                        Ok(SyscallRequest::LibraryCall { class_hash, function_selector, calldata })
                    },
                    Err(e) => Err(e),
                }
            },
            Cairo1SyscallRequest::Deploy {
                class_hash,
                contract_address_salt,
                calldata,
                deploy_from_zero,
            } => {
                match take_span(arrays, calldata) {
                    Ok(constructor_calldata) => {
                        assert(felts_view(constructor_calldata@) == views[0]);
                        Ok(
                            SyscallRequest::Deploy {
                                class_hash,
                                contract_address_salt,
                                constructor_calldata,
                                deploy_from_zero,
                            },
                        )
                    },
                    Err(e) => Err(e),
                }
            },
            Cairo1SyscallRequest::EmitEvent { keys: keys_span, data: data_span } => {
                let mut arrays = arrays;
                if arrays.len() != 2 {
                    return Err(SyscallHandlerError::WrongArrays);
                }
                let data = arrays.pop();
                let keys = arrays.pop();
                match (keys, data, keys_span.len(), data_span.len()) {
                    (Some(keys), Some(data), Some(keys_len), Some(data_len)) => {
                        assert(felts_view(keys@) == views[0]);
                        assert(felts_view(data@) == views[1]);
                        if keys.len() != keys_len || data.len() != data_len {
                            return Err(SyscallHandlerError::WrongArrays);
                        }
                        Ok(SyscallRequest::EmitEvent { keys, data })
                    },
                    _ => {
                        assert(self@.spans()[0] == keys_span);
                        assert(self@.spans()[1] == data_span);
                        Err(SyscallHandlerError::WrongArrays)
                    },
                }
            },
            Cairo1SyscallRequest::SendMessageToL1 { to_address, payload } => {
                match take_span(arrays, payload) {
                    Ok(payload) => {
                        assert(felts_view(payload@) == views[0]);
                        Ok(SyscallRequest::SendMessageToL1 { to_address, payload })
                    },
                    Err(e) => Err(e),
                }
            },
            other => {
                if arrays.len() != 0 {
                    return Err(SyscallHandlerError::WrongArrays);
                }
                match other {
                    Cairo1SyscallRequest::GetExecutionInfo => Ok(SyscallRequest::GetExecutionInfo),
                    Cairo1SyscallRequest::ReplaceClass { class_hash } => Ok(
                        SyscallRequest::ReplaceClass { class_hash },
                    ),
                    Cairo1SyscallRequest::StorageRead { address_domain, address } => Ok(
                        SyscallRequest::StorageRead { address_domain, address },
                    ),
                    Cairo1SyscallRequest::StorageWrite { address_domain, address, value } => Ok(
                        SyscallRequest::StorageWrite { address_domain, address, value },
                    ),
                    _ => Err(SyscallHandlerError::WrongArrays),
                }
            },
        }
    }
}

/// The place where an array of a length ends that starts at a place.
pub open spec fn end_of(start: Relocatable, len: nat) -> Option<Relocatable> {
    if start.offset + len <= usize::MAX {
        Some(Relocatable { segment_index: start.segment_index, offset: (start.offset + len) as usize })
    } else {
        None
    }
}

/// The cells that name an array by its start and its end.
pub open spec fn span_layout(start: Relocatable, len: nat) -> Option<Seq<MaybeRelocatableView>> {
    match end_of(start, len) {
        Some(end) => Some(
            seq![
                MaybeRelocatableView::RelocatableValue(start),
                MaybeRelocatableView::RelocatableValue(end),
            ],
        ),
        None => None,
    }
}

/// The cells of the record that tells Cairo 1 code of the block.
pub open spec fn block_info_layout(info: ExecutionInfoView) -> Seq<MaybeRelocatableView> {
    seq![
        MaybeRelocatableView::Int(info.block_number),
        MaybeRelocatableView::Int(info.block_timestamp),
        MaybeRelocatableView::Int(info.sequencer_address),
    ]
}

/// Lays out the record that tells Cairo 1 code of the block.
pub fn block_info_cells(info: &ExecutionInfo) -> (r: Vec<MaybeRelocatable>)
    ensures
        values_view(r@) == block_info_layout(info@),
{
    let mut r: Vec<MaybeRelocatable> = Vec::new();
    r.push(MaybeRelocatable::Int(Felt::from_u64(info.block_number)));
    r.push(MaybeRelocatable::Int(Felt::from_u64(info.block_timestamp)));
    r.push(MaybeRelocatable::Int(info.sequencer_address.0));
    assert(values_view(r@) =~= block_info_layout(info@));
    r
}

/// The cells of the record that tells Cairo 1 code of its transaction, with
/// the signature at a place in memory.
pub open spec fn cairo1_tx_info_layout(tx_info: TxInfoView, signature: Relocatable) -> Option<
    Seq<MaybeRelocatableView>,
> {
    match end_of(signature, tx_info.signature.len()) {
        None => None,
        Some(end) => Some(
            seq![
                MaybeRelocatableView::Int(tx_info.version),
                MaybeRelocatableView::Int(tx_info.account_contract_address),
                MaybeRelocatableView::Int(tx_info.max_fee),
                MaybeRelocatableView::RelocatableValue(signature),
                MaybeRelocatableView::RelocatableValue(end),
                MaybeRelocatableView::Int(tx_info.transaction_hash),
                MaybeRelocatableView::Int(tx_info.chain_id),
                MaybeRelocatableView::Int(tx_info.nonce),
            ],
        ),
    }
}

/// Lays out the record that tells Cairo 1 code of its transaction.
pub fn cairo1_tx_info_cells(tx_info: &TxInfo, signature: Relocatable) -> (r: Option<
    Vec<MaybeRelocatable>,
>)
    ensures
        match cairo1_tx_info_layout(tx_info@, signature) {
            Some(cells) => r matches Some(c) && values_view(c@) == cells,
            None => r is None,
        },
{
    let end = match signature.offset.checked_add(tx_info.signature.len()) {
        Some(offset) => Relocatable { segment_index: signature.segment_index, offset },
        None => {
            return None;
        },
    };
    let mut r: Vec<MaybeRelocatable> = Vec::new();
    r.push(MaybeRelocatable::Int(tx_info.version));
    r.push(MaybeRelocatable::Int(tx_info.account_contract_address.0));
    r.push(MaybeRelocatable::Int(Felt::from_u128(tx_info.max_fee)));
    r.push(MaybeRelocatable::RelocatableValue(signature));
    r.push(MaybeRelocatable::RelocatableValue(end));
    r.push(MaybeRelocatable::Int(tx_info.transaction_hash));
    r.push(MaybeRelocatable::Int(tx_info.chain_id));
    r.push(MaybeRelocatable::Int(tx_info.nonce));
    assert(values_view(r@) =~= cairo1_tx_info_layout(tx_info@, signature)->0);
    Some(r)
}

/// The cells of the record that tells Cairo 1 code of its execution, with
/// the records of the block and of the transaction at places in memory.
pub open spec fn execution_info_layout(
    info: ExecutionInfoView,
    block_info: Relocatable,
    tx_info: Relocatable,
) -> Seq<MaybeRelocatableView> {
    seq![
        MaybeRelocatableView::RelocatableValue(block_info),
        MaybeRelocatableView::RelocatableValue(tx_info),
        MaybeRelocatableView::Int(info.caller_address),
        MaybeRelocatableView::Int(info.contract_address),
        MaybeRelocatableView::Int(info.entry_point_selector),
    ]
}

/// Lays out the record that tells Cairo 1 code of its execution.
pub fn execution_info_cells(info: &ExecutionInfo, block_info: Relocatable, tx_info: Relocatable) -> (r:
    Vec<MaybeRelocatable>)
    ensures
        values_view(r@) == execution_info_layout(info@, block_info, tx_info),
{
    let mut r: Vec<MaybeRelocatable> = Vec::new();
    r.push(MaybeRelocatable::RelocatableValue(block_info));
    r.push(MaybeRelocatable::RelocatableValue(tx_info));
    r.push(MaybeRelocatable::Int(info.caller_address.0));
    r.push(MaybeRelocatable::Int(info.contract_address.0));
    r.push(MaybeRelocatable::Int(info.entry_point_selector));
    assert(values_view(r@) =~= execution_info_layout(info@, block_info, tx_info));
    r
}

/// What follows the head of an answer. `array` is where in memory the array
/// of the answer, or the record of the execution, has been put.
pub open spec fn answer_body(response: SyscallResponseView, array: Option<Relocatable>) -> Result<
    Seq<MaybeRelocatableView>,
    SyscallHandlerError,
> {
    match response {
        SyscallResponseView::Empty => Ok(Seq::empty()),
        SyscallResponseView::StorageRead { value } => Ok(seq![MaybeRelocatableView::Int(value)]),
        SyscallResponseView::GetExecutionInfo { .. } => match array {
            Some(p) => Ok(seq![MaybeRelocatableView::RelocatableValue(p)]),
            None => Err(SyscallHandlerError::WrongArrays),
        },
        SyscallResponseView::CallContract { retdata } => match array {
            Some(p) => match span_layout(p, retdata.len()) {
                Some(cells) => Ok(cells),
                None => Err(SyscallHandlerError::WrongArrays),
            },
            None => Err(SyscallHandlerError::WrongArrays),
        },
        SyscallResponseView::Failure { retdata } => match array {
            Some(p) => match span_layout(p, retdata.len()) {
                Some(cells) => Ok(cells),
                None => Err(SyscallHandlerError::WrongArrays),
            },
            None => Err(SyscallHandlerError::WrongArrays),
        },
        SyscallResponseView::Deploy { contract_address, retdata } => match array {
            Some(p) => match span_layout(p, retdata.len()) {
                Some(cells) => Ok(seq![MaybeRelocatableView::Int(contract_address)] + cells),
                None => Err(SyscallHandlerError::WrongArrays),
            },
            None => Err(SyscallHandlerError::WrongArrays),
        },
        _ => Err(SyscallHandlerError::NoLayout),
    }
}

/// The cells that answer a system call of Cairo 1 code: the gas that is
/// left, one for a call that was refused and zero for another, and what
/// the answer holds.
pub open spec fn answer_layout(
    response: SyscallResponseView,
    gas: nat,
    array: Option<Relocatable>,
) -> Result<Seq<MaybeRelocatableView>, SyscallHandlerError> {
    match answer_body(response, array) {
        Err(e) => Err(e),
        Ok(body) => Ok(
            seq![
                MaybeRelocatableView::Int(gas),
                MaybeRelocatableView::Int(
                    if response is Failure {
                        1nat
                    } else {
                        0nat
                    },
                ),
            ] + body,
        ),
    }
}

fn push_span(cells: &mut Vec<MaybeRelocatable>, start: Relocatable, len: usize) -> (r: bool)
    ensures
        match span_layout(start, len as nat) {
            Some(span) => r && values_view(final(cells)@) == values_view(old(cells)@) + span,
            None => !r && final(cells)@ == old(cells)@,
        },
{
    match start.offset.checked_add(len) {
        Some(offset) => {
            cells.push(MaybeRelocatable::RelocatableValue(start));
            cells.push(
                MaybeRelocatable::RelocatableValue(
                    Relocatable { segment_index: start.segment_index, offset },
                ),
            );
            assert(values_view(cells@) =~= values_view(old(cells)@) + span_layout(
                start,
                len as nat,
            )->0);
            true
        },
        None => false,
    }
}

/// Lays out the answer to a system call of Cairo 1 code.
pub fn cairo1_response_cells(response: &SyscallResponse, gas: u128, array: Option<Relocatable>) -> (r:
    Result<Vec<MaybeRelocatable>, SyscallHandlerError>)
    ensures
        match answer_layout(response@, gas as nat, array) {
            Ok(cells) => r matches Ok(c) && values_view(c@) == cells,
            Err(e) => r == Err::<Vec<MaybeRelocatable>, SyscallHandlerError>(e),
        },
{
    let mut cells: Vec<MaybeRelocatable> = Vec::new();
    cells.push(MaybeRelocatable::Int(Felt::from_u128(gas)));
    let failed = match response {
        SyscallResponse::Failure { .. } => true,
        _ => false,
    };
    cells.push(
        MaybeRelocatable::Int(
            if failed {
                Felt::one()
            } else {
                Felt::zero()
            },
        ),
    );
    let ghost head = values_view(cells@);
    assert(head =~= seq![
        MaybeRelocatableView::Int(gas as nat),
        MaybeRelocatableView::Int(
            if response@ is Failure {
                1nat
            } else {
                0nat
            },
        ),
    ]);
    match response {
        SyscallResponse::Empty => {
            assert(values_view(cells@) =~= head + Seq::<MaybeRelocatableView>::empty());
            Ok(cells)
        },
        SyscallResponse::StorageRead { value } => {
            cells.push(MaybeRelocatable::Int(*value));
            assert(values_view(cells@) =~= head + seq![MaybeRelocatableView::Int(value@)]);
            Ok(cells)
        },
        SyscallResponse::GetExecutionInfo { .. } => match array {
            Some(p) => {
                cells.push(MaybeRelocatable::RelocatableValue(p));
                assert(values_view(cells@) =~= head + seq![
                    MaybeRelocatableView::RelocatableValue(p),
                ]);
                Ok(cells)
            },
            None => Err(SyscallHandlerError::WrongArrays),
        },
        SyscallResponse::CallContract { retdata } => match array {
            Some(p) => if push_span(&mut cells, p, retdata.len()) {
                Ok(cells)
            } else {
                Err(SyscallHandlerError::WrongArrays)
            },
            None => Err(SyscallHandlerError::WrongArrays),
        },
        SyscallResponse::Failure { retdata } => match array {
            Some(p) => if push_span(&mut cells, p, retdata.len()) {
                Ok(cells)
            } else {
                Err(SyscallHandlerError::WrongArrays)
            },
            None => Err(SyscallHandlerError::WrongArrays),
        },
        SyscallResponse::Deploy { contract_address, retdata } => match array {
            Some(p) => {
                cells.push(MaybeRelocatable::Int(contract_address.0));
                assert(values_view(cells@) =~= head + seq![
                    MaybeRelocatableView::Int(contract_address@),
                ]);
                if push_span(&mut cells, p, retdata.len()) {
                    assert(values_view(cells@) =~= head + (seq![
                        MaybeRelocatableView::Int(contract_address@),
                    ] + span_layout(p, retdata@.len())->0));
                    Ok(cells)
                } else {
                    Err(SyscallHandlerError::WrongArrays)
                }
            },
            None => Err(SyscallHandlerError::WrongArrays),
        },
        _ => Err(SyscallHandlerError::NoLayout),
    }
}

} // verus!
