//! What a running contract can ask of the host, and what it is told.
use crate::felt::{felts_view, Felt};
use crate::state::list_map::{MapKey, MapValue};
use crate::utils::{Address, ClassHash};
use vstd::prelude::*;

verus! {

/// The system calls.
#[derive(Clone, Copy, Debug, PartialEq, Eq, Hash, Structural)]
pub enum SyscallKind {
    CallContract,
    DelegateCall,
    DelegateL1Handler,
    Deploy,
    EmitEvent,
    GetBlockNumber,
    GetBlockTimestamp,
    GetCallerAddress,
    GetContractAddress,
    GetExecutionInfo,
    GetSequencerAddress,
    GetTxInfo,
    GetTxSignature,
    LibraryCall,
    LibraryCallL1Handler,
    ReplaceClass,
    SendMessageToL1,
    StorageRead,
    StorageWrite,
}

impl View for SyscallKind {
    type V = SyscallKind;

    open spec fn view(&self) -> SyscallKind {
        *self
    }
}

impl MapKey for SyscallKind {
    fn same_key(&self, other: &SyscallKind) -> (r: bool) {
        *self == *other
    }
}

/// A count that can be held in a map.
#[derive(Clone, Copy, Debug, PartialEq, Eq, Structural)]
pub struct Count(pub u64);

impl View for Count {
    type V = nat;

    open spec fn view(&self) -> nat {
        self.0 as nat
    }
}

impl MapValue for Count {
    fn duplicate(&self) -> (r: Count) {
        *self
    }
}

/// A request of a running contract, with what its pointers point at read
/// out of the machine's memory.
#[derive(Debug, PartialEq, Eq)]
pub enum SyscallRequest {
    StorageRead { address_domain: Felt, address: Felt },
    StorageWrite { address_domain: Felt, address: Felt, value: Felt },
    EmitEvent { keys: Vec<Felt>, data: Vec<Felt> },
    SendMessageToL1 { to_address: Address, payload: Vec<Felt> },
    GetBlockNumber,
    GetBlockTimestamp,
    GetSequencerAddress,
    GetTxInfo,
    GetTxSignature,
    GetCallerAddress,
    GetContractAddress,
    GetExecutionInfo,
    CallContract { contract_address: Address, function_selector: Felt, calldata: Vec<Felt> },
    LibraryCall { class_hash: ClassHash, function_selector: Felt, calldata: Vec<Felt> },
    LibraryCallL1Handler { class_hash: ClassHash, function_selector: Felt, calldata: Vec<Felt> },
    DelegateCall { class_hash: ClassHash, function_selector: Felt, calldata: Vec<Felt> },
    Deploy {
        class_hash: ClassHash,
        contract_address_salt: Felt,
        constructor_calldata: Vec<Felt>,
        deploy_from_zero: bool,
    },
    ReplaceClass { class_hash: ClassHash },
}

/// What a [`SyscallRequest`] holds.
pub enum SyscallRequestView {
    StorageRead { address_domain: nat, address: nat },
    StorageWrite { address_domain: nat, address: nat, value: nat },
    EmitEvent { keys: Seq<nat>, data: Seq<nat> },
    SendMessageToL1 { to_address: nat, payload: Seq<nat> },
    GetBlockNumber,
    GetBlockTimestamp,
    GetSequencerAddress,
    GetTxInfo,
    GetTxSignature,
    GetCallerAddress,
    GetContractAddress,
    GetExecutionInfo,
    CallContract { contract_address: nat, function_selector: nat, calldata: Seq<nat> },
    LibraryCall { class_hash: nat, function_selector: nat, calldata: Seq<nat> },
    LibraryCallL1Handler { class_hash: nat, function_selector: nat, calldata: Seq<nat> },
    DelegateCall { class_hash: nat, function_selector: nat, calldata: Seq<nat> },
    Deploy {
        class_hash: nat,
        contract_address_salt: nat,
        constructor_calldata: Seq<nat>,
        deploy_from_zero: bool,
    },
    ReplaceClass { class_hash: nat },
}

impl View for SyscallRequest {
    type V = SyscallRequestView;

    open spec fn view(&self) -> SyscallRequestView {
        match self {
            SyscallRequest::StorageRead { address_domain, address } => SyscallRequestView::StorageRead {
                address_domain: address_domain@,
                address: address@,
            },
            SyscallRequest::StorageWrite {
                address_domain,
                address,
                value,
            } => SyscallRequestView::StorageWrite {
                address_domain: address_domain@,
                address: address@,
                value: value@,
            },
            SyscallRequest::EmitEvent { keys, data } => SyscallRequestView::EmitEvent {
                keys: felts_view(keys@),
                data: felts_view(data@),
            },
            SyscallRequest::SendMessageToL1 {
                to_address,
                payload,
            } => SyscallRequestView::SendMessageToL1 {
                to_address: to_address@,
                payload: felts_view(payload@),
            },
            SyscallRequest::GetBlockNumber => SyscallRequestView::GetBlockNumber,
            SyscallRequest::GetBlockTimestamp => SyscallRequestView::GetBlockTimestamp,
            SyscallRequest::GetSequencerAddress => SyscallRequestView::GetSequencerAddress,
            SyscallRequest::GetTxInfo => SyscallRequestView::GetTxInfo,
            SyscallRequest::GetTxSignature => SyscallRequestView::GetTxSignature,
            SyscallRequest::GetCallerAddress => SyscallRequestView::GetCallerAddress,
            SyscallRequest::GetContractAddress => SyscallRequestView::GetContractAddress,
            SyscallRequest::GetExecutionInfo => SyscallRequestView::GetExecutionInfo,
            SyscallRequest::CallContract {
                contract_address,
                function_selector,
                calldata,
            } => SyscallRequestView::CallContract {
                contract_address: contract_address@,
                function_selector: function_selector@,
                calldata: felts_view(calldata@),
            },
            SyscallRequest::LibraryCall {
                class_hash,
                function_selector,
                calldata,
            } => SyscallRequestView::LibraryCall {
                class_hash: class_hash@,
                function_selector: function_selector@,
                calldata: felts_view(calldata@),
            },
            SyscallRequest::LibraryCallL1Handler {
                class_hash,
                function_selector,
                calldata,
            } => SyscallRequestView::LibraryCallL1Handler {
                class_hash: class_hash@,
                function_selector: function_selector@,
                calldata: felts_view(calldata@),
            },
            SyscallRequest::DelegateCall {
                class_hash,
                function_selector,
                calldata,
            } => SyscallRequestView::DelegateCall {
                class_hash: class_hash@,
                function_selector: function_selector@,
                calldata: felts_view(calldata@),
            },
            SyscallRequest::Deploy {
                class_hash,
                contract_address_salt,
                constructor_calldata,
                deploy_from_zero,
            } => SyscallRequestView::Deploy {
                class_hash: class_hash@,
                contract_address_salt: contract_address_salt@,
                constructor_calldata: felts_view(constructor_calldata@),
                deploy_from_zero: *deploy_from_zero,
            },
            SyscallRequest::ReplaceClass { class_hash } => SyscallRequestView::ReplaceClass {
                class_hash: class_hash@,
            },
        }
    }
}

impl SyscallRequestView {
    /// The system call that the request is for.
    pub open spec fn kind(self) -> SyscallKind {
        match self {
            SyscallRequestView::StorageRead { .. } => SyscallKind::StorageRead,
            SyscallRequestView::StorageWrite { .. } => SyscallKind::StorageWrite,
            SyscallRequestView::EmitEvent { .. } => SyscallKind::EmitEvent,
            SyscallRequestView::SendMessageToL1 { .. } => SyscallKind::SendMessageToL1,
            SyscallRequestView::GetBlockNumber => SyscallKind::GetBlockNumber,
            SyscallRequestView::GetBlockTimestamp => SyscallKind::GetBlockTimestamp,
            SyscallRequestView::GetSequencerAddress => SyscallKind::GetSequencerAddress,
            SyscallRequestView::GetTxInfo => SyscallKind::GetTxInfo,
            SyscallRequestView::GetTxSignature => SyscallKind::GetTxSignature,
            SyscallRequestView::GetCallerAddress => SyscallKind::GetCallerAddress,
            SyscallRequestView::GetContractAddress => SyscallKind::GetContractAddress,
            SyscallRequestView::GetExecutionInfo => SyscallKind::GetExecutionInfo,
            SyscallRequestView::CallContract { .. } => SyscallKind::CallContract,
            SyscallRequestView::LibraryCall { .. } => SyscallKind::LibraryCall,
            SyscallRequestView::LibraryCallL1Handler { .. } => SyscallKind::LibraryCallL1Handler,
            SyscallRequestView::DelegateCall { .. } => SyscallKind::DelegateCall,
            SyscallRequestView::Deploy { .. } => SyscallKind::Deploy,
            SyscallRequestView::ReplaceClass { .. } => SyscallKind::ReplaceClass,
        }
    }
}

impl SyscallRequest {
    /// The system call that the request is for.
    pub fn kind(&self) -> (r: SyscallKind)
        ensures
            r == self@.kind(),
    {
        match self {
            SyscallRequest::StorageRead { .. } => SyscallKind::StorageRead,
            SyscallRequest::StorageWrite { .. } => SyscallKind::StorageWrite,
            SyscallRequest::EmitEvent { .. } => SyscallKind::EmitEvent,
            SyscallRequest::SendMessageToL1 { .. } => SyscallKind::SendMessageToL1,
            SyscallRequest::GetBlockNumber => SyscallKind::GetBlockNumber,
            SyscallRequest::GetBlockTimestamp => SyscallKind::GetBlockTimestamp,
            SyscallRequest::GetSequencerAddress => SyscallKind::GetSequencerAddress,
            SyscallRequest::GetTxInfo => SyscallKind::GetTxInfo,
            SyscallRequest::GetTxSignature => SyscallKind::GetTxSignature,
            SyscallRequest::GetCallerAddress => SyscallKind::GetCallerAddress,
            SyscallRequest::GetContractAddress => SyscallKind::GetContractAddress,
            SyscallRequest::GetExecutionInfo => SyscallKind::GetExecutionInfo,
            SyscallRequest::CallContract { .. } => SyscallKind::CallContract,
            SyscallRequest::LibraryCall { .. } => SyscallKind::LibraryCall,
            SyscallRequest::LibraryCallL1Handler { .. } => SyscallKind::LibraryCallL1Handler,
            SyscallRequest::DelegateCall { .. } => SyscallKind::DelegateCall,
            SyscallRequest::Deploy { .. } => SyscallKind::Deploy,
            SyscallRequest::ReplaceClass { .. } => SyscallKind::ReplaceClass,
        }
    }
}

/// What the transaction tells a contract of itself.
#[derive(Debug, PartialEq, Eq)]
pub struct TxInfo {
    pub version: Felt,
    pub account_contract_address: Address,
    pub max_fee: u128,
    pub signature: Vec<Felt>,
    pub transaction_hash: Felt,
    pub chain_id: Felt,
    pub nonce: Felt,
}

/// What a [`TxInfo`] holds.
pub struct TxInfoView {
    pub version: nat,
    pub account_contract_address: nat,
    pub max_fee: nat,
    pub signature: Seq<nat>,
    pub transaction_hash: nat,
    pub chain_id: nat,
    pub nonce: nat,
}

impl View for TxInfo {
    type V = TxInfoView;

    open spec fn view(&self) -> TxInfoView {
        TxInfoView {
            version: self.version@,
            account_contract_address: self.account_contract_address@,
            max_fee: self.max_fee as nat,
            signature: felts_view(self.signature@),
            transaction_hash: self.transaction_hash@,
            chain_id: self.chain_id@,
            nonce: self.nonce@,
        }
    }
}

/// What a call is told of the block, of its transaction and of itself.
#[derive(Debug, PartialEq, Eq)]
pub struct ExecutionInfo {
    pub block_number: u64,
    pub block_timestamp: u64,
    pub sequencer_address: Address,
    pub tx_info: TxInfo,
    pub caller_address: Address,
    pub contract_address: Address,
    pub entry_point_selector: Felt,
}

/// What an [`ExecutionInfo`] holds.
pub struct ExecutionInfoView {
    pub block_number: nat,
    pub block_timestamp: nat,
    pub sequencer_address: nat,
    pub tx_info: TxInfoView,
    pub caller_address: nat,
    pub contract_address: nat,
    pub entry_point_selector: nat,
}

impl View for ExecutionInfo {
    type V = ExecutionInfoView;

    open spec fn view(&self) -> ExecutionInfoView {
        ExecutionInfoView {
            block_number: self.block_number as nat,
            block_timestamp: self.block_timestamp as nat,
            sequencer_address: self.sequencer_address@,
            tx_info: self.tx_info@,
            caller_address: self.caller_address@,
            contract_address: self.contract_address@,
            entry_point_selector: self.entry_point_selector@,
        }
    }
}

/// The answer to a system call.
#[derive(Debug, PartialEq, Eq)]
pub enum SyscallResponse {
    /// The call was carried out and has nothing to tell.
    Empty,
    StorageRead { value: Felt },
    GetBlockNumber { block_number: u64 },
    GetBlockTimestamp { block_timestamp: u64 },
    GetSequencerAddress { sequencer_address: Address },
    GetTxInfo { tx_info: TxInfo },
    GetTxSignature { signature: Vec<Felt> },
    GetCallerAddress { caller_address: Address },
    GetContractAddress { contract_address: Address },
    GetExecutionInfo { execution_info: ExecutionInfo },
    /// What the called entry point returned.
    CallContract { retdata: Vec<Felt> },
    /// Where the new contract is and what its constructor returned.
    Deploy { contract_address: Address, retdata: Vec<Felt> },
    /// The call was refused, with the reason as a short text.
    Failure { retdata: Vec<Felt> },
}

/// What a [`SyscallResponse`] holds.
pub enum SyscallResponseView {
    Empty,
    StorageRead { value: nat },
    GetBlockNumber { block_number: nat },
    GetBlockTimestamp { block_timestamp: nat },
    GetSequencerAddress { sequencer_address: nat },
    GetTxInfo { tx_info: TxInfoView },
    GetTxSignature { signature: Seq<nat> },
    GetCallerAddress { caller_address: nat },
    GetContractAddress { contract_address: nat },
    GetExecutionInfo { execution_info: ExecutionInfoView },
    CallContract { retdata: Seq<nat> },
    Deploy { contract_address: nat, retdata: Seq<nat> },
    Failure { retdata: Seq<nat> },
}

impl View for SyscallResponse {
    type V = SyscallResponseView;

    open spec fn view(&self) -> SyscallResponseView {
        match self {
            SyscallResponse::Empty => SyscallResponseView::Empty,
            SyscallResponse::StorageRead { value } => SyscallResponseView::StorageRead {
                value: value@,
            },
            SyscallResponse::GetBlockNumber {
                block_number,
            } => SyscallResponseView::GetBlockNumber { block_number: *block_number as nat },
            SyscallResponse::GetBlockTimestamp {
                block_timestamp,
            } => SyscallResponseView::GetBlockTimestamp {
                block_timestamp: *block_timestamp as nat,
            },
            SyscallResponse::GetSequencerAddress {
                sequencer_address,
            } => SyscallResponseView::GetSequencerAddress {
                sequencer_address: sequencer_address@,
            },
            SyscallResponse::GetTxInfo { tx_info } => SyscallResponseView::GetTxInfo {
                tx_info: tx_info@,
            },
            SyscallResponse::GetTxSignature { signature } => SyscallResponseView::GetTxSignature {
                signature: felts_view(signature@),
            },
            SyscallResponse::GetCallerAddress {
                caller_address,
            } => SyscallResponseView::GetCallerAddress { caller_address: caller_address@ },
            SyscallResponse::GetContractAddress {
                contract_address,
            } => SyscallResponseView::GetContractAddress { contract_address: contract_address@ },
            SyscallResponse::GetExecutionInfo {
                execution_info,
            } => SyscallResponseView::GetExecutionInfo { execution_info: execution_info@ },
            SyscallResponse::CallContract { retdata } => SyscallResponseView::CallContract {
                retdata: felts_view(retdata@),
            },
            SyscallResponse::Deploy { contract_address, retdata } => SyscallResponseView::Deploy {
                contract_address: contract_address@,
                retdata: felts_view(retdata@),
            },
            SyscallResponse::Failure { retdata } => SyscallResponseView::Failure {
                retdata: felts_view(retdata@),
            },
        }
    }
}

} // verus!
