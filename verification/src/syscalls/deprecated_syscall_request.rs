//! System calls as Cairo 0 code lays them out in memory.
use crate::error::SyscallHandlerError;
use crate::felt::{felts_view, Felt};
use crate::syscalls::syscall_request::{
    SyscallKind, SyscallRequest, SyscallRequestView, SyscallResponse, SyscallResponseView, TxInfo,
    TxInfoView,
};
use crate::utils::Address;
use vstd::prelude::*;

verus! {

/// A place in the memory of the machine.
#[derive(Clone, Copy, Debug, PartialEq, Eq, Hash, Structural)]
pub struct Relocatable {
    pub segment_index: isize,
    pub offset: usize,
}

/// What a cell of the memory of the machine holds.
#[derive(Clone, Copy, Debug, PartialEq, Eq, Hash)]
pub enum MaybeRelocatable {
    Int(Felt),
    RelocatableValue(Relocatable),
}

/// What a [`MaybeRelocatable`] holds.
pub enum MaybeRelocatableView {
    Int(nat),
    RelocatableValue(Relocatable),
}

impl View for MaybeRelocatable {
    type V = MaybeRelocatableView;

    open spec fn view(&self) -> MaybeRelocatableView {
        match self {
            MaybeRelocatable::Int(f) => MaybeRelocatableView::Int(f@),
            MaybeRelocatable::RelocatableValue(r) => MaybeRelocatableView::RelocatableValue(*r),
        }
    }
}

/// What a run of cells holds, each cell with a value or without.
pub open spec fn cells_view(s: Seq<Option<MaybeRelocatable>>) -> Seq<Option<MaybeRelocatableView>> {
    s.map_values(
        |c: Option<MaybeRelocatable>|
            match c {
                Some(v) => Some(v@),
                None => None,
            },
    )
}

/// What a run of filled cells holds.
pub open spec fn values_view(s: Seq<MaybeRelocatable>) -> Seq<MaybeRelocatableView> {
    s.map_values(|c: MaybeRelocatable| c@)
}

/// The request of a system call as it lies in memory: numbers, and pointers
/// to the arrays that belong to it.
#[derive(Clone, Copy, Debug, PartialEq, Eq)]
pub enum DeprecatedSyscallRequest {
    EmitEvent { selector: Felt, keys_len: usize, keys: Relocatable, data_len: usize, data: Relocatable },
    GetTxInfo { selector: Felt },
    Deploy {
        selector: Felt,
        class_hash: Felt,
        contract_address_salt: Felt,
        constructor_calldata_size: usize,
        constructor_calldata: Relocatable,
        deploy_from_zero: usize,
    },
    SendMessageToL1 {
        selector: Felt,
        to_address: Address,
        payload_size: usize,
        payload_ptr: Relocatable,
    },
    LibraryCall {
        selector: Felt,
        class_hash: Felt,
        function_selector: Felt,
        calldata_size: usize,
        calldata: Relocatable,
    },
    LibraryCallL1Handler {
        selector: Felt,
        class_hash: Felt,
        function_selector: Felt,
        calldata_size: usize,
        calldata: Relocatable,
    },
    DelegateCall {
        selector: Felt,
        class_hash: Felt,
        function_selector: Felt,
        calldata_size: usize,
        calldata: Relocatable,
    },
    CallContract {
        selector: Felt,
        contract_address: Address,
        function_selector: Felt,
        calldata_size: usize,
        calldata: Relocatable,
    },
    GetCallerAddress { selector: Felt },
    GetSequencerAddress { selector: Felt },
    GetBlockNumber { selector: Felt },
    GetBlockTimestamp { selector: Felt },
    GetTxSignature { selector: Felt },
    GetContractAddress { selector: Felt },
    StorageRead { selector: Felt, address: Felt },
    StorageWrite { selector: Felt, address: Felt, value: Felt },
    ReplaceClass { selector: Felt, class_hash: Felt },
}

/// What a [`DeprecatedSyscallRequest`] holds.
pub enum DeprecatedSyscallRequestView {
    EmitEvent { selector: nat, keys_len: nat, keys: Relocatable, data_len: nat, data: Relocatable },
    GetTxInfo { selector: nat },
    Deploy {
        selector: nat,
        class_hash: nat,
        contract_address_salt: nat,
        constructor_calldata_size: nat,
        constructor_calldata: Relocatable,
        deploy_from_zero: nat,
    },
    SendMessageToL1 { selector: nat, to_address: nat, payload_size: nat, payload_ptr: Relocatable },
    LibraryCall {
        selector: nat,
        class_hash: nat,
        function_selector: nat,
        calldata_size: nat,
        calldata: Relocatable,
    },
    LibraryCallL1Handler {
        selector: nat,
        class_hash: nat,
        function_selector: nat,
        calldata_size: nat,
        calldata: Relocatable,
    },
    DelegateCall {
        selector: nat,
        class_hash: nat,
        function_selector: nat,
        calldata_size: nat,
        calldata: Relocatable,
    },
    CallContract {
        selector: nat,
        contract_address: nat,
        function_selector: nat,
        calldata_size: nat,
        calldata: Relocatable,
    },
    GetCallerAddress { selector: nat },
    GetSequencerAddress { selector: nat },
    GetBlockNumber { selector: nat },
    GetBlockTimestamp { selector: nat },
    GetTxSignature { selector: nat },
    GetContractAddress { selector: nat },
    StorageRead { selector: nat, address: nat },
    StorageWrite { selector: nat, address: nat, value: nat },
    ReplaceClass { selector: nat, class_hash: nat },
}

impl View for DeprecatedSyscallRequest {
    type V = DeprecatedSyscallRequestView;

    open spec fn view(&self) -> DeprecatedSyscallRequestView {
        match *self {
            DeprecatedSyscallRequest::EmitEvent {
                selector,
                keys_len,
                keys,
                data_len,
                data,
            } => DeprecatedSyscallRequestView::EmitEvent {
                selector: selector@,
                keys_len: keys_len as nat,
                keys,
                data_len: data_len as nat,
                data,
            },
            DeprecatedSyscallRequest::GetTxInfo {
                selector,
            } => DeprecatedSyscallRequestView::GetTxInfo { selector: selector@ },
            DeprecatedSyscallRequest::Deploy {
                selector,
                class_hash,
                contract_address_salt,
                constructor_calldata_size,
                constructor_calldata,
                deploy_from_zero,
            } => DeprecatedSyscallRequestView::Deploy {
                selector: selector@,
                class_hash: class_hash@,
                contract_address_salt: contract_address_salt@,
                constructor_calldata_size: constructor_calldata_size as nat,
                constructor_calldata,
                deploy_from_zero: deploy_from_zero as nat,
            },
            DeprecatedSyscallRequest::SendMessageToL1 {
                selector,
                to_address,
                payload_size,
                payload_ptr,
            } => DeprecatedSyscallRequestView::SendMessageToL1 {
                selector: selector@,
                to_address: to_address@,
                payload_size: payload_size as nat,
                payload_ptr,
            },
            DeprecatedSyscallRequest::LibraryCall {
                selector,
                class_hash,
                function_selector,
                calldata_size,
                calldata,
            } => DeprecatedSyscallRequestView::LibraryCall {
                selector: selector@,
                class_hash: class_hash@,
                function_selector: function_selector@,
                calldata_size: calldata_size as nat,
                calldata,
            },
            DeprecatedSyscallRequest::LibraryCallL1Handler {
                selector,
                class_hash,
                function_selector,
                calldata_size,
                calldata,
            } => DeprecatedSyscallRequestView::LibraryCallL1Handler {
                selector: selector@,
                class_hash: class_hash@,
                function_selector: function_selector@,
                calldata_size: calldata_size as nat,
                calldata,
            },
            DeprecatedSyscallRequest::DelegateCall {
                selector,
                class_hash,
                function_selector,
                calldata_size,
                calldata,
            } => DeprecatedSyscallRequestView::DelegateCall {
                selector: selector@,
                class_hash: class_hash@,
                function_selector: function_selector@,
                calldata_size: calldata_size as nat,
                calldata,
            },
            DeprecatedSyscallRequest::CallContract {
                selector,
                contract_address,
                function_selector,
                calldata_size,
                calldata,
            } => DeprecatedSyscallRequestView::CallContract {
                selector: selector@,
                contract_address: contract_address@,
                function_selector: function_selector@,
                calldata_size: calldata_size as nat,
                calldata,
            },
            DeprecatedSyscallRequest::GetCallerAddress {
                selector,
            } => DeprecatedSyscallRequestView::GetCallerAddress { selector: selector@ },
            DeprecatedSyscallRequest::GetSequencerAddress {
                selector,
            } => DeprecatedSyscallRequestView::GetSequencerAddress { selector: selector@ },
            DeprecatedSyscallRequest::GetBlockNumber {
                selector,
            } => DeprecatedSyscallRequestView::GetBlockNumber { selector: selector@ },
            DeprecatedSyscallRequest::GetBlockTimestamp {
                selector,
            } => DeprecatedSyscallRequestView::GetBlockTimestamp { selector: selector@ },
            DeprecatedSyscallRequest::GetTxSignature {
                selector,
            } => DeprecatedSyscallRequestView::GetTxSignature { selector: selector@ },
            DeprecatedSyscallRequest::GetContractAddress {
                selector,
            } => DeprecatedSyscallRequestView::GetContractAddress { selector: selector@ },
            DeprecatedSyscallRequest::StorageRead {
                selector,
                address,
            } => DeprecatedSyscallRequestView::StorageRead {
                selector: selector@,
                address: address@,
            },
            DeprecatedSyscallRequest::StorageWrite {
                selector,
                address,
                value,
            } => DeprecatedSyscallRequestView::StorageWrite {
                selector: selector@,
                address: address@,
                value: value@,
            },
            DeprecatedSyscallRequest::ReplaceClass {
                selector,
                class_hash,
            } => DeprecatedSyscallRequestView::ReplaceClass {
                selector: selector@,
                class_hash: class_hash@,
            },
        }
    }
}

/// How many cells the request of a system call takes.
pub open spec fn request_size(kind: SyscallKind) -> nat {
    match kind {
        SyscallKind::EmitEvent => 5,
        SyscallKind::Deploy => 6,
        SyscallKind::SendMessageToL1 => 4,
        SyscallKind::LibraryCall => 5,
        SyscallKind::LibraryCallL1Handler => 5,
        SyscallKind::DelegateCall => 5,
        SyscallKind::DelegateL1Handler => 5,
        SyscallKind::CallContract => 5,
        SyscallKind::StorageRead => 2,
        SyscallKind::StorageWrite => 3,
        SyscallKind::ReplaceClass => 2,
        _ => 1,
    }
}

/// How many cells the request of a system call takes.
pub fn get_request_size(kind: SyscallKind) -> (r: usize)
    ensures
        r == request_size(kind),
{
    match kind {
        SyscallKind::EmitEvent => 5,
        SyscallKind::Deploy => 6,
        SyscallKind::SendMessageToL1 => 4,
        SyscallKind::LibraryCall => 5,
        SyscallKind::LibraryCallL1Handler => 5,
        SyscallKind::DelegateCall => 5,
        SyscallKind::DelegateL1Handler => 5,
        SyscallKind::CallContract => 5,
        SyscallKind::StorageRead => 2,
        SyscallKind::StorageWrite => 3,
        SyscallKind::ReplaceClass => 2,
        _ => 1,
    }
}

/// The number in a cell, or why the cell gives none.
pub open spec fn cell_number(cells: Seq<Option<MaybeRelocatableView>>, i: int) -> Result<
    nat,
    SyscallHandlerError,
> {
    match cells[i] {
        None => Err(SyscallHandlerError::MissingValue(i as usize)),
        Some(MaybeRelocatableView::RelocatableValue(_)) => Err(
            SyscallHandlerError::ExpectedInteger(i as usize),
        ),
        Some(MaybeRelocatableView::Int(n)) => Ok(n),
    }
}

/// The length or flag in a cell, or why the cell gives none.
pub open spec fn cell_size(cells: Seq<Option<MaybeRelocatableView>>, i: int) -> Result<
    nat,
    SyscallHandlerError,
> {
    match cell_number(cells, i) {
        Err(e) => Err(e),
        Ok(n) => if n <= usize::MAX {
            Ok(n)
        } else {
            Err(SyscallHandlerError::FeltToUsize(i as usize))
        },
    }
}

/// The pointer in a cell, or why the cell gives none.
pub open spec fn cell_pointer(cells: Seq<Option<MaybeRelocatableView>>, i: int) -> Result<
    Relocatable,
    SyscallHandlerError,
> {
    match cells[i] {
        None => Err(SyscallHandlerError::MissingValue(i as usize)),
        Some(MaybeRelocatableView::Int(_)) => Err(SyscallHandlerError::ExpectedRelocatable(i as usize)),
        Some(MaybeRelocatableView::RelocatableValue(r)) => Ok(r),
    }
}

pub(crate) fn number_at(cells: &Vec<Option<MaybeRelocatable>>, i: usize) -> (r: Result<
    Felt,
    SyscallHandlerError,
>)
    requires
        i < cells@.len(),
    ensures
        match cell_number(cells_view(cells@), i as int) {
            Ok(n) => r matches Ok(f) && f@ == n,
            Err(e) => r == Err::<Felt, SyscallHandlerError>(e),
        },
{
    match cells[i] {
        None => Err(SyscallHandlerError::MissingValue(i)),
        Some(MaybeRelocatable::RelocatableValue(_)) => Err(SyscallHandlerError::ExpectedInteger(i)),
        Some(MaybeRelocatable::Int(f)) => Ok(f),
    }
}

pub(crate) fn size_at(cells: &Vec<Option<MaybeRelocatable>>, i: usize) -> (r: Result<
    usize,
    SyscallHandlerError,
>)
    requires
        i < cells@.len(),
    ensures
        match cell_size(cells_view(cells@), i as int) {
            Ok(n) => r matches Ok(f) && f == n,
            Err(e) => r == Err::<usize, SyscallHandlerError>(e),
        },
{
    match number_at(cells, i) {
        Err(e) => Err(e),
        Ok(f) => match f.to_usize() {
            Some(n) => Ok(n),
            None => Err(SyscallHandlerError::FeltToUsize(i)),
        },
    }
}

pub(crate) fn pointer_at(cells: &Vec<Option<MaybeRelocatable>>, i: usize) -> (r: Result<
    Relocatable,
    SyscallHandlerError,
>)
    requires
        i < cells@.len(),
    ensures
        r == cell_pointer(cells_view(cells@), i as int),
{
    match cells[i] {
        None => Err(SyscallHandlerError::MissingValue(i)),
        Some(MaybeRelocatable::Int(_)) => Err(SyscallHandlerError::ExpectedRelocatable(i)),
        Some(MaybeRelocatable::RelocatableValue(r)) => Ok(r),
    }
}

/// The request that a run of cells reads as, for a kind of system call: the
/// cells are taken in order, each as the kind asks, and the first cell that
/// is not as asked gives the error.
pub open spec fn parsed_request(kind: SyscallKind, cells: Seq<Option<MaybeRelocatableView>>) -> Result<
    DeprecatedSyscallRequestView,
    SyscallHandlerError,
> {
    if cells.len() < request_size(kind) {
        Err(SyscallHandlerError::MissingCells)
    } else {
        match cell_number(cells, 0) {
            Err(e) => Err(e),
            Ok(selector) => match kind {
                SyscallKind::EmitEvent => match cell_size(cells, 1) {
                    Err(e) => Err(e),
                    Ok(keys_len) => match cell_pointer(cells, 2) {
                        Err(e) => Err(e),
                        Ok(keys) => match cell_size(cells, 3) {
                            Err(e) => Err(e),
                            Ok(data_len) => match cell_pointer(cells, 4) {
                                Err(e) => Err(e),
                                Ok(data) => Ok(
                                    DeprecatedSyscallRequestView::EmitEvent {
                                        selector,
                                        keys_len,
                                        keys,
                                        data_len,
                                        data,
                                    },
                                ),
                            },
                        },
                    },
                },
                SyscallKind::Deploy => match cell_number(cells, 1) {
                    Err(e) => Err(e),
                    Ok(class_hash) => match cell_number(cells, 2) {
                        Err(e) => Err(e),
                        Ok(contract_address_salt) => match cell_size(cells, 3) {
                            Err(e) => Err(e),
                            Ok(constructor_calldata_size) => match cell_pointer(cells, 4) {
                                Err(e) => Err(e),
                                Ok(constructor_calldata) => match cell_size(cells, 5) {
                                    Err(e) => Err(e),
                                    Ok(deploy_from_zero) => Ok(
                                        DeprecatedSyscallRequestView::Deploy {
                                            selector,
                                            class_hash,
                                            contract_address_salt,
                                            constructor_calldata_size,
                                            constructor_calldata,
                                            deploy_from_zero,
                                        },
                                    ),
                                },
                            },
                        },
                    },
                },
                SyscallKind::SendMessageToL1 => match cell_number(cells, 1) {
                    Err(e) => Err(e),
                    Ok(to_address) => match cell_size(cells, 2) {
                        Err(e) => Err(e),
                        Ok(payload_size) => match cell_pointer(cells, 3) {
                            Err(e) => Err(e),
                            Ok(payload_ptr) => Ok(
                                DeprecatedSyscallRequestView::SendMessageToL1 {
                                    selector,
                                    to_address,
                                    payload_size,
                                    payload_ptr,
                                },
                            ),
                        },
                    },
                },
                SyscallKind::LibraryCall | SyscallKind::LibraryCallL1Handler
                | SyscallKind::DelegateCall | SyscallKind::DelegateL1Handler
                | SyscallKind::CallContract => match cell_number(cells, 1) {
                    Err(e) => Err(e),
                    Ok(target) => match cell_number(cells, 2) {
                        Err(e) => Err(e),
                        Ok(function_selector) => match cell_size(cells, 3) {
                            Err(e) => Err(e),
                            Ok(calldata_size) => match cell_pointer(cells, 4) {
                                Err(e) => Err(e),
                                Ok(calldata) => Ok(
                                    match kind {
                                        SyscallKind::LibraryCall => DeprecatedSyscallRequestView::LibraryCall {
                                            selector,
                                            class_hash: target,
                                            function_selector,
                                            calldata_size,
                                            calldata,
                                        },
                                        SyscallKind::LibraryCallL1Handler => DeprecatedSyscallRequestView::LibraryCallL1Handler {
                                            selector,
                                            class_hash: target,
                                            function_selector,
                                            calldata_size,
                                            calldata,
                                        },
                                        SyscallKind::CallContract => DeprecatedSyscallRequestView::CallContract {
                                            selector,
                                            contract_address: target,
                                            function_selector,
                                            calldata_size,
                                            calldata,
                                        },
                                        _ => DeprecatedSyscallRequestView::DelegateCall {
                                            selector,
                                            class_hash: target,
                                            function_selector,
                                            calldata_size,
                                            calldata,
                                        },
                                    },
                                ),
                            },
                        },
                    },
                },
                SyscallKind::StorageRead => match cell_number(cells, 1) {
                    Err(e) => Err(e),
                    Ok(address) => Ok(
                        DeprecatedSyscallRequestView::StorageRead { selector, address },
                    ),
                },
                SyscallKind::StorageWrite => match cell_number(cells, 1) {
                    Err(e) => Err(e),
                    Ok(address) => match cell_number(cells, 2) {
                        Err(e) => Err(e),
                        Ok(value) => Ok(
                            DeprecatedSyscallRequestView::StorageWrite { selector, address, value },
                        ),
                    },
                },
                SyscallKind::ReplaceClass => match cell_number(cells, 1) {
                    Err(e) => Err(e),
                    Ok(class_hash) => Ok(
                        DeprecatedSyscallRequestView::ReplaceClass { selector, class_hash },
                    ),
                },
                SyscallKind::GetTxInfo => Ok(DeprecatedSyscallRequestView::GetTxInfo { selector }),
                SyscallKind::GetCallerAddress => Ok(
                    DeprecatedSyscallRequestView::GetCallerAddress { selector },
                ),
                SyscallKind::GetSequencerAddress => Ok(
                    DeprecatedSyscallRequestView::GetSequencerAddress { selector },
                ),
                SyscallKind::GetBlockNumber => Ok(
                    DeprecatedSyscallRequestView::GetBlockNumber { selector },
                ),
                SyscallKind::GetBlockTimestamp => Ok(
                    DeprecatedSyscallRequestView::GetBlockTimestamp { selector },
                ),
                SyscallKind::GetTxSignature => Ok(
                    DeprecatedSyscallRequestView::GetTxSignature { selector },
                ),
                SyscallKind::GetContractAddress => Ok(
                    DeprecatedSyscallRequestView::GetContractAddress { selector },
                ),
                SyscallKind::GetExecutionInfo => Err(SyscallHandlerError::NoLayout),
            },
        }
    }
}

/// Reads the request of a system call of a kind from the cells at the
/// system call pointer.
pub fn read_syscall_request(kind: SyscallKind, cells: &Vec<Option<MaybeRelocatable>>) -> (r: Result<
    DeprecatedSyscallRequest,
    SyscallHandlerError,
>)
    ensures
        match parsed_request(kind, cells_view(cells@)) {
            Ok(request) => r matches Ok(q) && q@ == request,
            Err(e) => r == Err::<DeprecatedSyscallRequest, SyscallHandlerError>(e),
        },
{
    if cells.len() < get_request_size(kind) {
        return Err(SyscallHandlerError::MissingCells);
    }
    let selector = match number_at(cells, 0) {
        Ok(f) => f,
        Err(e) => {
            return Err(e);
        },
    };
    match kind {
        SyscallKind::EmitEvent => {
            let keys_len = match size_at(cells, 1) {
                Ok(x) => x,
                Err(e) => {
                    return Err(e);
                },
            };
            let keys = match pointer_at(cells, 2) {
                Ok(x) => x,
                Err(e) => {
                    return Err(e);
                },
            };
            let data_len = match size_at(cells, 3) {
                Ok(x) => x,
                Err(e) => {
                    return Err(e);
                },
            };
            let data = match pointer_at(cells, 4) {
                Ok(x) => x,
                Err(e) => {
                    return Err(e);
                },
            };
            Ok(DeprecatedSyscallRequest::EmitEvent { selector, keys_len, keys, data_len, data })
        },
        SyscallKind::Deploy => {
            let class_hash = match number_at(cells, 1) {
                Ok(x) => x,
                Err(e) => {
                    return Err(e);
                },
            };
            let contract_address_salt = match number_at(cells, 2) {
                Ok(x) => x,
                Err(e) => {
                    return Err(e);
                },
            };
            let constructor_calldata_size = match size_at(cells, 3) {
                Ok(x) => x,
                Err(e) => {
                    return Err(e);
                },
            };
            let constructor_calldata = match pointer_at(cells, 4) {
                Ok(x) => x,
                Err(e) => {
                    return Err(e);
                },
            };
            let deploy_from_zero = match size_at(cells, 5) {
                Ok(x) => x,
                Err(e) => {
                    return Err(e);
                },
            };
            Ok(
                DeprecatedSyscallRequest::Deploy {
                    selector,
                    class_hash,
                    contract_address_salt,
                    constructor_calldata_size,
                    constructor_calldata,
                    deploy_from_zero,
                },
            )
        },
        SyscallKind::SendMessageToL1 => {
            let to_address = match number_at(cells, 1) {
                Ok(x) => x,
                Err(e) => {
                    return Err(e);
                },
            };
            let payload_size = match size_at(cells, 2) {
                Ok(x) => x,
                Err(e) => {
                    return Err(e);
                },
            };
            let payload_ptr = match pointer_at(cells, 3) {
                Ok(x) => x,
                Err(e) => {
                    return Err(e);
                },
            };
            Ok(
                DeprecatedSyscallRequest::SendMessageToL1 {
                    selector,
                    to_address: Address(to_address),
                    payload_size,
                    payload_ptr,
                },
            )
        },
        SyscallKind::LibraryCall | SyscallKind::LibraryCallL1Handler | SyscallKind::DelegateCall
        | SyscallKind::DelegateL1Handler | SyscallKind::CallContract => {
            let target = match number_at(cells, 1) {
                Ok(x) => x,
                Err(e) => {
                    return Err(e);
                },
            };
            let function_selector = match number_at(cells, 2) {
                Ok(x) => x,
                Err(e) => {
                    return Err(e);
                },
            };
            let calldata_size = match size_at(cells, 3) {
                Ok(x) => x,
                Err(e) => {
                    return Err(e);
                },
            };
            let calldata = match pointer_at(cells, 4) {
                Ok(x) => x,
                Err(e) => {
                    return Err(e);
                },
            };
            Ok(
                match kind {
                    SyscallKind::LibraryCall => DeprecatedSyscallRequest::LibraryCall {
                        selector,
                        class_hash: target,
                        function_selector,
                        calldata_size,
                        calldata,
                    },
                    SyscallKind::LibraryCallL1Handler => DeprecatedSyscallRequest::LibraryCallL1Handler {
                        selector,
                        class_hash: target,
                        function_selector,
                        calldata_size,
                        calldata,
                    },
                    SyscallKind::CallContract => DeprecatedSyscallRequest::CallContract {
                        selector,
                        contract_address: Address(target),
                        function_selector,
                        calldata_size,
                        calldata,
                    },
                    _ => DeprecatedSyscallRequest::DelegateCall {
                        selector,
                        class_hash: target,
                        function_selector,
                        calldata_size,
                        calldata,
                    },
                },
            )
        },
        SyscallKind::StorageRead => {
            let address = match number_at(cells, 1) {
                Ok(x) => x,
                Err(e) => {
                    return Err(e);
                },
            };
            Ok(DeprecatedSyscallRequest::StorageRead { selector, address })
        },
        SyscallKind::StorageWrite => {
            let address = match number_at(cells, 1) {
                Ok(x) => x,
                Err(e) => {
                    return Err(e);
                },
            };
            let value = match number_at(cells, 2) {
                Ok(x) => x,
                Err(e) => {
                    return Err(e);
                },
            };
            Ok(DeprecatedSyscallRequest::StorageWrite { selector, address, value })
        },
        SyscallKind::ReplaceClass => {
            let class_hash = match number_at(cells, 1) {
                Ok(x) => x,
                Err(e) => {
                    return Err(e);
                },
            };
            Ok(DeprecatedSyscallRequest::ReplaceClass { selector, class_hash })
        },
        SyscallKind::GetTxInfo => Ok(DeprecatedSyscallRequest::GetTxInfo { selector }),
        SyscallKind::GetCallerAddress => Ok(
            DeprecatedSyscallRequest::GetCallerAddress { selector },
        ),
        SyscallKind::GetSequencerAddress => Ok(
            DeprecatedSyscallRequest::GetSequencerAddress { selector },
        ),
        SyscallKind::GetBlockNumber => Ok(DeprecatedSyscallRequest::GetBlockNumber { selector }),
        SyscallKind::GetBlockTimestamp => Ok(
            DeprecatedSyscallRequest::GetBlockTimestamp { selector },
        ),
        SyscallKind::GetTxSignature => Ok(DeprecatedSyscallRequest::GetTxSignature { selector }),
        SyscallKind::GetContractAddress => Ok(
            DeprecatedSyscallRequest::GetContractAddress { selector },
        ),
        SyscallKind::GetExecutionInfo => Err(SyscallHandlerError::NoLayout),
    }
}


/// What a list of arrays holds.
pub open spec fn arrays_view(s: Seq<Vec<Felt>>) -> Seq<Seq<nat>> {
    s.map_values(|v: Vec<Felt>| felts_view(v@))
}

impl DeprecatedSyscallRequestView {
    /// The arrays that belong to the request: where each starts and how long
    /// it is, in the order of the request.
    pub open spec fn pointed_arrays(self) -> Seq<(Relocatable, nat)> {
        match self {
            DeprecatedSyscallRequestView::EmitEvent { keys_len, keys, data_len, data, .. } => seq![
                (keys, keys_len),
                (data, data_len),
            ],
            DeprecatedSyscallRequestView::Deploy {
                constructor_calldata_size,
                constructor_calldata,
                ..
            } => seq![(constructor_calldata, constructor_calldata_size)],
            DeprecatedSyscallRequestView::SendMessageToL1 { payload_size, payload_ptr, .. } => seq![
                (payload_ptr, payload_size),
            ],
            DeprecatedSyscallRequestView::LibraryCall { calldata_size, calldata, .. } => seq![
                (calldata, calldata_size),
            ],
            DeprecatedSyscallRequestView::LibraryCallL1Handler {
                calldata_size,
                calldata,
                ..
            } => seq![(calldata, calldata_size)],
            DeprecatedSyscallRequestView::DelegateCall { calldata_size, calldata, .. } => seq![
                (calldata, calldata_size),
            ],
            DeprecatedSyscallRequestView::CallContract { calldata_size, calldata, .. } => seq![
                (calldata, calldata_size),
            ],
            _ => Seq::empty(),
        }
    }

    /// Whether arrays are of the number and the lengths of those that
    /// belong to the request.
    pub open spec fn takes(self, arrays: Seq<Seq<nat>>) -> bool {
        &&& arrays.len() == self.pointed_arrays().len()
        &&& forall|i: int|
            0 <= i < arrays.len() ==> (#[trigger] arrays[i]).len() == self.pointed_arrays()[i].1
    }

    /// The request with its arrays in the place of the pointers to them.
    /// Storage is asked for in the address domain zero; a contract is
    /// deployed from nobody where the flag of the request is not zero.
    pub open spec fn completed(self, arrays: Seq<Seq<nat>>) -> SyscallRequestView {
        match self {
            DeprecatedSyscallRequestView::EmitEvent { .. } => SyscallRequestView::EmitEvent {
                keys: arrays[0],
                data: arrays[1],
            },
            DeprecatedSyscallRequestView::GetTxInfo { .. } => SyscallRequestView::GetTxInfo,
            DeprecatedSyscallRequestView::Deploy {
                class_hash,
                contract_address_salt,
                deploy_from_zero,
                ..
            } => SyscallRequestView::Deploy {
                class_hash,
                contract_address_salt,
                constructor_calldata: arrays[0],
                deploy_from_zero: deploy_from_zero != 0,
            },
            DeprecatedSyscallRequestView::SendMessageToL1 {
                to_address,
                ..
            } => SyscallRequestView::SendMessageToL1 { to_address, payload: arrays[0] },
            DeprecatedSyscallRequestView::LibraryCall {
                class_hash,
                function_selector,
                ..
            } => SyscallRequestView::LibraryCall {
                class_hash,
                function_selector,
                calldata: arrays[0],
            },
            DeprecatedSyscallRequestView::LibraryCallL1Handler {
                class_hash,
                function_selector,
                ..
            } => SyscallRequestView::LibraryCallL1Handler {
                class_hash,
                function_selector,
                calldata: arrays[0],
            },
            DeprecatedSyscallRequestView::DelegateCall {
                class_hash,
                function_selector,
                ..
            } => SyscallRequestView::DelegateCall {
                class_hash,
                function_selector,
                calldata: arrays[0],
            },
            DeprecatedSyscallRequestView::CallContract {
                contract_address,
                function_selector,
                ..
            } => SyscallRequestView::CallContract {
                contract_address,
                function_selector,
                calldata: arrays[0],
            },
            DeprecatedSyscallRequestView::GetCallerAddress { .. } => SyscallRequestView::GetCallerAddress,
            DeprecatedSyscallRequestView::GetSequencerAddress { .. } => SyscallRequestView::GetSequencerAddress,
            DeprecatedSyscallRequestView::GetBlockNumber { .. } => SyscallRequestView::GetBlockNumber,
            DeprecatedSyscallRequestView::GetBlockTimestamp { .. } => SyscallRequestView::GetBlockTimestamp,
            DeprecatedSyscallRequestView::GetTxSignature { .. } => SyscallRequestView::GetTxSignature,
            DeprecatedSyscallRequestView::GetContractAddress { .. } => SyscallRequestView::GetContractAddress,
            DeprecatedSyscallRequestView::StorageRead { address, .. } => SyscallRequestView::StorageRead {
                address_domain: 0,
                address,
            },
            DeprecatedSyscallRequestView::StorageWrite {
                address,
                value,
                ..
            } => SyscallRequestView::StorageWrite { address_domain: 0, address, value },
            DeprecatedSyscallRequestView::ReplaceClass {
                class_hash,
                ..
            } => SyscallRequestView::ReplaceClass { class_hash },
        }
    }
}

/// Takes the single array of a list of arrays, if it is of a length.
fn take_one(arrays: Vec<Vec<Felt>>, len: usize) -> (r: Result<Vec<Felt>, SyscallHandlerError>)
    ensures
        match r {
            Ok(a) => arrays@.len() == 1 && a == arrays@[0] && a@.len() == len,
            Err(e) => e == SyscallHandlerError::WrongArrays && !(arrays@.len() == 1
                && arrays@[0]@.len() == len),
        },
{
    let mut arrays = arrays;
    if arrays.len() != 1 {
        return Err(SyscallHandlerError::WrongArrays);
    }
    match arrays.pop() {
        Some(a) => if a.len() == len {
            Ok(a)
        } else {
            Err(SyscallHandlerError::WrongArrays)
        },
        None => Err(SyscallHandlerError::WrongArrays),
    }
}

impl DeprecatedSyscallRequest {
    /// Lists the arrays that belong to the request: where each starts and
    /// how long it is.
    pub fn arrays(&self) -> (r: Vec<(Relocatable, usize)>)
        ensures
            r@.len() == self@.pointed_arrays().len(),
            forall|i: int|
                0 <= i < r@.len() ==> (#[trigger] r@[i]).0 == self@.pointed_arrays()[i].0 && r@[i].1
                    == self@.pointed_arrays()[i].1,
    {
        let mut r: Vec<(Relocatable, usize)> = Vec::new();
        match *self {
            DeprecatedSyscallRequest::EmitEvent { keys_len, keys, data_len, data, .. } => {
                r.push((keys, keys_len));
                r.push((data, data_len));
            },
            DeprecatedSyscallRequest::Deploy {
                constructor_calldata_size,
                constructor_calldata,
                ..
            } => {
                r.push((constructor_calldata, constructor_calldata_size));
            },
            DeprecatedSyscallRequest::SendMessageToL1 { payload_size, payload_ptr, .. } => {
                r.push((payload_ptr, payload_size));
            },
            DeprecatedSyscallRequest::LibraryCall { calldata_size, calldata, .. } => {
                r.push((calldata, calldata_size));
            },
            DeprecatedSyscallRequest::LibraryCallL1Handler { calldata_size, calldata, .. } => {
                r.push((calldata, calldata_size));
            },
            DeprecatedSyscallRequest::DelegateCall { calldata_size, calldata, .. } => {
                r.push((calldata, calldata_size));
            },
            DeprecatedSyscallRequest::CallContract { calldata_size, calldata, .. } => {
                r.push((calldata, calldata_size));
            },
            _ => {},
        }
        r
    }

    /// Puts the arrays of the request, read out of memory, in the place of
    /// the pointers to them. Arrays that are not of the number and lengths
    /// that the request names are turned down.
    pub fn complete(&self, arrays: Vec<Vec<Felt>>) -> (r: Result<
        SyscallRequest,
        SyscallHandlerError,
    >)
        ensures
            if self@.takes(arrays_view(arrays@)) {
                r matches Ok(q) && q@ == self@.completed(arrays_view(arrays@))
            } else {
                r == Err::<SyscallRequest, SyscallHandlerError>(SyscallHandlerError::WrongArrays)
            },
    {
        let ghost views = arrays_view(arrays@);
        match *self {
            DeprecatedSyscallRequest::EmitEvent { keys_len, data_len, .. } => {
                let mut arrays = arrays;
                if arrays.len() != 2 {
                    return Err(SyscallHandlerError::WrongArrays);
                }
                let data = arrays.pop();
                let keys = arrays.pop();
                match (keys, data) {
                    (Some(keys), Some(data)) => {
                        assert(felts_view(keys@) == views[0]);
                        assert(felts_view(data@) == views[1]);
                        if keys.len() != keys_len || data.len() != data_len {
                            return Err(SyscallHandlerError::WrongArrays);
                        }
                        Ok(SyscallRequest::EmitEvent { keys, data })
                    },
                    _ => Err(SyscallHandlerError::WrongArrays),
                }
            },
            DeprecatedSyscallRequest::Deploy {
                class_hash,
                contract_address_salt,
                constructor_calldata_size,
                deploy_from_zero,
                ..
            } => {
                match take_one(arrays, constructor_calldata_size) {
                    Ok(constructor_calldata) => {
                        assert(felts_view(constructor_calldata@) == views[0]);
                        Ok(
                            SyscallRequest::Deploy {
                                class_hash,
                                contract_address_salt,
                                constructor_calldata,
                                deploy_from_zero: deploy_from_zero != 0,
                            },
                        )
                    },
                    Err(e) => Err(e),
                }
            },
            DeprecatedSyscallRequest::SendMessageToL1 { to_address, payload_size, .. } => {
                match take_one(arrays, payload_size) {
                    Ok(payload) => {
                        assert(felts_view(payload@) == views[0]);
                        Ok(SyscallRequest::SendMessageToL1 { to_address, payload })
                    },
                    Err(e) => Err(e),
                }
            },
            DeprecatedSyscallRequest::LibraryCall {
                class_hash,
                function_selector,
                calldata_size,
                ..
            } => {
                match take_one(arrays, calldata_size) {
                    Ok(calldata) => {
                        assert(felts_view(calldata@) == views[0]);
                        Ok(SyscallRequest::LibraryCall { class_hash, function_selector, calldata })
                    },
                    Err(e) => Err(e),
                }
            },
            DeprecatedSyscallRequest::LibraryCallL1Handler {
                class_hash,
                function_selector,
                calldata_size,
                ..
            } => {
                match take_one(arrays, calldata_size) {
                    Ok(calldata) => {
                        assert(felts_view(calldata@) == views[0]);
                        Ok(
                            SyscallRequest::LibraryCallL1Handler {
                                class_hash,
                                function_selector,
                                calldata,
                            },
                        )
                    },
                    Err(e) => Err(e),
                }
            },
            DeprecatedSyscallRequest::DelegateCall {
                class_hash,
                function_selector,
                calldata_size,
                ..
            } => {
                match take_one(arrays, calldata_size) {
                    Ok(calldata) => {
                        assert(felts_view(calldata@) == views[0]);
                        Ok(SyscallRequest::DelegateCall { class_hash, function_selector, calldata })
                    },
                    Err(e) => Err(e),
                }
            },
            DeprecatedSyscallRequest::CallContract {
                contract_address,
                function_selector,
                calldata_size,
                ..
            } => {
                match take_one(arrays, calldata_size) {
                    Ok(calldata) => {
                        assert(felts_view(calldata@) == views[0]);
                        Ok(
                            SyscallRequest::CallContract {
                                contract_address,
                                function_selector,
                                calldata,
                            },
                        )
                    },
                    Err(e) => Err(e),
                }
            },
            other => {
                if arrays.len() != 0 {
                    return Err(SyscallHandlerError::WrongArrays);
                }
                match other {
                    DeprecatedSyscallRequest::GetTxInfo { .. } => Ok(SyscallRequest::GetTxInfo),
                    DeprecatedSyscallRequest::GetCallerAddress { .. } => Ok(
                        SyscallRequest::GetCallerAddress,
                    ),
                    DeprecatedSyscallRequest::GetSequencerAddress { .. } => Ok(
                        SyscallRequest::GetSequencerAddress,
                    ),
                    DeprecatedSyscallRequest::GetBlockNumber { .. } => Ok(
                        SyscallRequest::GetBlockNumber,
                    ),
                    DeprecatedSyscallRequest::GetBlockTimestamp { .. } => Ok(
                        SyscallRequest::GetBlockTimestamp,
                    ),
                    DeprecatedSyscallRequest::GetTxSignature { .. } => Ok(
                        SyscallRequest::GetTxSignature,
                    ),
                    DeprecatedSyscallRequest::GetContractAddress { .. } => Ok(
                        SyscallRequest::GetContractAddress,
                    ),
                    DeprecatedSyscallRequest::StorageRead { address, .. } => Ok(
                        SyscallRequest::StorageRead { address_domain: Felt::zero(), address },
                    ),
                    DeprecatedSyscallRequest::StorageWrite { address, value, .. } => Ok(
                        SyscallRequest::StorageWrite {
                            address_domain: Felt::zero(),
                            address,
                            value,
                        },
                    ),
                    DeprecatedSyscallRequest::ReplaceClass { class_hash, .. } => Ok(
                        SyscallRequest::ReplaceClass { class_hash },
                    ),
                    _ => Err(SyscallHandlerError::WrongArrays),
                }
            },
        }
    }
}

/// The cells of the record that tells Cairo 0 code of its transaction, with
/// the signature at a place in memory.
pub open spec fn tx_info_layout(tx_info: TxInfoView, signature: Relocatable) -> Seq<
    MaybeRelocatableView,
> {
    seq![
        MaybeRelocatableView::Int(tx_info.version),
        MaybeRelocatableView::Int(tx_info.account_contract_address),
        MaybeRelocatableView::Int(tx_info.max_fee),
        MaybeRelocatableView::Int(tx_info.signature.len()),
        MaybeRelocatableView::RelocatableValue(signature),
        MaybeRelocatableView::Int(tx_info.transaction_hash),
        MaybeRelocatableView::Int(tx_info.chain_id),
        MaybeRelocatableView::Int(tx_info.nonce),
    ]
}

/// Lays out the record that tells Cairo 0 code of its transaction.
pub fn tx_info_cells(tx_info: &TxInfo, signature: Relocatable) -> (r: Vec<MaybeRelocatable>)
    ensures
        values_view(r@) == tx_info_layout(tx_info@, signature),
{
    let mut r: Vec<MaybeRelocatable> = Vec::new();
    r.push(MaybeRelocatable::Int(tx_info.version));
    r.push(MaybeRelocatable::Int(tx_info.account_contract_address.0));
    r.push(MaybeRelocatable::Int(Felt::from_u128(tx_info.max_fee)));
    r.push(MaybeRelocatable::Int(Felt::from_u64(tx_info.signature.len() as u64)));
    r.push(MaybeRelocatable::RelocatableValue(signature));
    r.push(MaybeRelocatable::Int(tx_info.transaction_hash));
    r.push(MaybeRelocatable::Int(tx_info.chain_id));
    r.push(MaybeRelocatable::Int(tx_info.nonce));
    assert(values_view(r@) =~= tx_info_layout(tx_info@, signature));
    r
}

/// The cells that answer a system call of Cairo 0 code, after the cells of
/// its request. `array` is where in memory the array of the answer, or the
/// record of the transaction, has been put. An answer that says that the
/// call was refused has no layout.
pub open spec fn response_layout(response: SyscallResponseView, array: Option<Relocatable>) -> Result<
    Seq<MaybeRelocatableView>,
    SyscallHandlerError,
> {
    match response {
        SyscallResponseView::Empty => Ok(Seq::empty()),
        SyscallResponseView::StorageRead { value } => Ok(seq![MaybeRelocatableView::Int(value)]),
        SyscallResponseView::GetBlockNumber { block_number } => Ok(
            seq![MaybeRelocatableView::Int(block_number)],
        ),
        SyscallResponseView::GetBlockTimestamp { block_timestamp } => Ok(
            seq![MaybeRelocatableView::Int(block_timestamp)],
        ),
        SyscallResponseView::GetSequencerAddress { sequencer_address } => Ok(
            seq![MaybeRelocatableView::Int(sequencer_address)],
        ),
        SyscallResponseView::GetCallerAddress { caller_address } => Ok(
            seq![MaybeRelocatableView::Int(caller_address)],
        ),
        SyscallResponseView::GetContractAddress { contract_address } => Ok(
            seq![MaybeRelocatableView::Int(contract_address)],
        ),
        SyscallResponseView::Deploy { contract_address, .. } => Ok(
            seq![
                MaybeRelocatableView::Int(contract_address),
                MaybeRelocatableView::Int(0),
                MaybeRelocatableView::RelocatableValue(Relocatable { segment_index: 0, offset: 0 }),
            ],
        ),
        SyscallResponseView::GetTxInfo { .. } => match array {
            Some(p) => Ok(seq![MaybeRelocatableView::RelocatableValue(p)]),
            None => Err(SyscallHandlerError::WrongArrays),
        },
        SyscallResponseView::GetTxSignature { signature } => match array {
            Some(p) => Ok(
                seq![
                    MaybeRelocatableView::Int(signature.len()),
                    MaybeRelocatableView::RelocatableValue(p),
                ],
            ),
            None => Err(SyscallHandlerError::WrongArrays),
        },
        SyscallResponseView::CallContract { retdata } => match array {
            Some(p) => Ok(
                seq![
                    MaybeRelocatableView::Int(retdata.len()),
                    MaybeRelocatableView::RelocatableValue(p),
                ],
            ),
            None => Err(SyscallHandlerError::WrongArrays),
        },
        SyscallResponseView::GetExecutionInfo { .. } => Err(SyscallHandlerError::NoLayout),
        SyscallResponseView::Failure { .. } => Err(SyscallHandlerError::NoLayout),
    }
}

fn one_number(value: Felt) -> (r: Vec<MaybeRelocatable>)
    ensures
        values_view(r@) == seq![MaybeRelocatableView::Int(value@)],
{
    let mut r: Vec<MaybeRelocatable> = Vec::new();
    r.push(MaybeRelocatable::Int(value));
    assert(values_view(r@) =~= seq![MaybeRelocatableView::Int(value@)]);
    r
}

fn length_and_pointer(len: usize, array: Option<Relocatable>) -> (r: Result<
    Vec<MaybeRelocatable>,
    SyscallHandlerError,
>)
    ensures
        match array {
            Some(p) => r matches Ok(cells) && values_view(cells@) == seq![
                MaybeRelocatableView::Int(len as nat),
                MaybeRelocatableView::RelocatableValue(p),
            ],
            None => r == Err::<Vec<MaybeRelocatable>, SyscallHandlerError>(
                SyscallHandlerError::WrongArrays,
            ),
        },
{
    match array {
        Some(p) => {
            let mut r: Vec<MaybeRelocatable> = Vec::new();
            r.push(MaybeRelocatable::Int(Felt::from_u64(len as u64)));
            r.push(MaybeRelocatable::RelocatableValue(p));
            assert(values_view(r@) =~= seq![
                MaybeRelocatableView::Int(len as nat),
                MaybeRelocatableView::RelocatableValue(p),
            ]);
            Ok(r)
        },
        None => Err(SyscallHandlerError::WrongArrays),
    }
}

/// Lays out the answer to a system call of Cairo 0 code.
pub fn deprecated_response_cells(response: &SyscallResponse, array: Option<Relocatable>) -> (r:
    Result<Vec<MaybeRelocatable>, SyscallHandlerError>)
    ensures
        match response_layout(response@, array) {
            Ok(cells) => r matches Ok(c) && values_view(c@) == cells,
            Err(e) => r == Err::<Vec<MaybeRelocatable>, SyscallHandlerError>(e),
        },
{
    match response {
        SyscallResponse::Empty => {
            let r: Vec<MaybeRelocatable> = Vec::new();
            assert(values_view(r@) =~= Seq::<MaybeRelocatableView>::empty());
            Ok(r)
        },
        SyscallResponse::StorageRead { value } => Ok(one_number(*value)),
        SyscallResponse::GetBlockNumber { block_number } => Ok(
            one_number(Felt::from_u64(*block_number)),
        ),
        SyscallResponse::GetBlockTimestamp { block_timestamp } => Ok(
            one_number(Felt::from_u64(*block_timestamp)),
        ),
        SyscallResponse::GetSequencerAddress { sequencer_address } => Ok(
            one_number(sequencer_address.0),
        ),
        SyscallResponse::GetCallerAddress { caller_address } => Ok(one_number(caller_address.0)),
        SyscallResponse::GetContractAddress { contract_address } => Ok(
            one_number(contract_address.0),
        ),
        SyscallResponse::Deploy { contract_address, .. } => {
            let mut r: Vec<MaybeRelocatable> = Vec::new();
            r.push(MaybeRelocatable::Int(contract_address.0));
            r.push(MaybeRelocatable::Int(Felt::zero()));
            r.push(
                MaybeRelocatable::RelocatableValue(Relocatable { segment_index: 0, offset: 0 }),
            );
            assert(values_view(r@) =~= seq![
                MaybeRelocatableView::Int(contract_address@),
                MaybeRelocatableView::Int(0),
                MaybeRelocatableView::RelocatableValue(Relocatable { segment_index: 0, offset: 0 }),
            ]);
            Ok(r)
        },
        SyscallResponse::GetTxInfo { .. } => match array {
            Some(p) => {
                let mut r: Vec<MaybeRelocatable> = Vec::new();
                r.push(MaybeRelocatable::RelocatableValue(p));
                assert(values_view(r@) =~= seq![MaybeRelocatableView::RelocatableValue(p)]);
                Ok(r)
            },
            None => Err(SyscallHandlerError::WrongArrays),
        },
        SyscallResponse::GetTxSignature { signature } => length_and_pointer(
            signature.len(),
            array,
        ),
        SyscallResponse::CallContract { retdata } => length_and_pointer(retdata.len(), array),
        SyscallResponse::GetExecutionInfo { .. } => Err(SyscallHandlerError::NoLayout),
        SyscallResponse::Failure { .. } => Err(SyscallHandlerError::NoLayout),
    }
}

} // verus!
