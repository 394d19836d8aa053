//! What a block gives the transactions that run in it.
use crate::definitions::constants::{
    main_net_chain_id, spec_main_net_chain_id, spec_test_net2_chain_id, spec_test_net_chain_id,
    test_net2_chain_id, test_net_chain_id, DEFAULT_INVOKE_TX_MAX_N_STEPS,
    DEFAULT_VALIDATE_MAX_N_STEPS,
};
use crate::execution::ExecutionResources;
use crate::felt::Felt;
use crate::syscalls::syscall_request::SyscallKind;
use crate::utils::Address;
use vstd::prelude::*;

verus! {

/// The chains that a transaction can be signed for.
#[derive(Clone, Copy, Debug, PartialEq, Eq, Hash, Structural)]
pub enum StarknetChainId {
    MainNet,
    TestNet,
    TestNet2,
}

impl StarknetChainId {
    /// The name of the chain read as a number.
    pub open spec fn spec_felt(self) -> nat {
        match self {
            StarknetChainId::MainNet => spec_main_net_chain_id(),
            StarknetChainId::TestNet => spec_test_net_chain_id(),
            StarknetChainId::TestNet2 => spec_test_net2_chain_id(),
        }
    }

    /// The name of the chain read as a number.
    pub fn to_felt(&self) -> (r: Felt)
        ensures
            r@ == self.spec_felt(),
    {
        match self {
            StarknetChainId::MainNet => main_net_chain_id(),
            StarknetChainId::TestNet => test_net_chain_id(),
            StarknetChainId::TestNet2 => test_net2_chain_id(),
        }
    }
}

/// What the operating system of the chain is set up with.
#[derive(Clone, Copy, Debug, PartialEq, Eq)]
pub struct StarknetOsConfig {
    pub chain_id: Felt,
    pub fee_token_address: Address,
    pub gas_price: u128,
}

/// What is known of the block under construction.
#[derive(Clone, Copy, Debug, PartialEq, Eq)]
pub struct BlockInfo {
    pub block_number: u64,
    pub block_timestamp: u64,
    pub gas_price: u64,
    pub sequencer_address: Address,
}

/// How much one unit of each resource weighs in the fee. A resource without
/// a weight of its own weighs nothing.
#[derive(Clone, Copy, Debug, PartialEq, Eq, Structural)]
pub struct ResourceWeights {
    pub l1_gas_usage: u128,
    pub n_steps: u128,
    pub pedersen_builtin: u128,
    pub range_check_builtin: u128,
    pub ecdsa_builtin: u128,
    pub bitwise_builtin: u128,
    pub ec_op_builtin: u128,
    pub poseidon_builtin: u128,
    pub keccak_builtin: u128,
    pub segment_arena_builtin: u128,
    pub output_builtin: u128,
}

impl ResourceWeights {
    /// Weights under which nothing costs anything.
    pub open spec fn zero() -> ResourceWeights {
        ResourceWeights {
            l1_gas_usage: 0,
            n_steps: 0,
            pedersen_builtin: 0,
            range_check_builtin: 0,
            ecdsa_builtin: 0,
            bitwise_builtin: 0,
            ec_op_builtin: 0,
            poseidon_builtin: 0,
            keccak_builtin: 0,
            segment_arena_builtin: 0,
            output_builtin: 0,
        }
    }

    /// Weights under which nothing costs anything.
    pub fn new() -> (r: ResourceWeights)
        ensures
            r == ResourceWeights::zero(),
    {
        ResourceWeights {
            l1_gas_usage: 0,
            n_steps: 0,
            pedersen_builtin: 0,
            range_check_builtin: 0,
            ecdsa_builtin: 0,
            bitwise_builtin: 0,
            ec_op_builtin: 0,
            poseidon_builtin: 0,
            keccak_builtin: 0,
            segment_arena_builtin: 0,
            output_builtin: 0,
        }
    }
}

/// The steps that one system call of each kind stands for in what a
/// transaction used.
#[derive(Clone, Copy, Debug, PartialEq, Eq, Structural)]
pub struct SyscallSteps {
    pub call_contract: usize,
    pub delegate_call: usize,
    pub delegate_l1_handler: usize,
    pub deploy: usize,
    pub emit_event: usize,
    pub get_block_number: usize,
    pub get_block_timestamp: usize,
    pub get_caller_address: usize,
    pub get_contract_address: usize,
    pub get_execution_info: usize,
    pub get_sequencer_address: usize,
    pub get_tx_info: usize,
    pub get_tx_signature: usize,
    pub library_call: usize,
    pub library_call_l1_handler: usize,
    pub replace_class: usize,
    pub send_message_to_l1: usize,
    pub storage_read: usize,
    pub storage_write: usize,
}

impl SyscallSteps {
    /// The steps that a system call of a kind stands for.
    pub open spec fn spec_of(self, kind: SyscallKind) -> usize {
        match kind {
            SyscallKind::CallContract => self.call_contract,
            SyscallKind::DelegateCall => self.delegate_call,
            SyscallKind::DelegateL1Handler => self.delegate_l1_handler,
            SyscallKind::Deploy => self.deploy,
            SyscallKind::EmitEvent => self.emit_event,
            SyscallKind::GetBlockNumber => self.get_block_number,
            SyscallKind::GetBlockTimestamp => self.get_block_timestamp,
            SyscallKind::GetCallerAddress => self.get_caller_address,
            SyscallKind::GetContractAddress => self.get_contract_address,
            SyscallKind::GetExecutionInfo => self.get_execution_info,
            SyscallKind::GetSequencerAddress => self.get_sequencer_address,
            SyscallKind::GetTxInfo => self.get_tx_info,
            SyscallKind::GetTxSignature => self.get_tx_signature,
            SyscallKind::LibraryCall => self.library_call,
            SyscallKind::LibraryCallL1Handler => self.library_call_l1_handler,
            SyscallKind::ReplaceClass => self.replace_class,
            SyscallKind::SendMessageToL1 => self.send_message_to_l1,
            SyscallKind::StorageRead => self.storage_read,
            SyscallKind::StorageWrite => self.storage_write,
        }
    }

    /// The steps that a system call of a kind stands for.
    pub fn of(&self, kind: SyscallKind) -> (r: usize)
        ensures
            r == self.spec_of(kind),
    {
        match kind {
            SyscallKind::CallContract => self.call_contract,
            SyscallKind::DelegateCall => self.delegate_call,
            SyscallKind::DelegateL1Handler => self.delegate_l1_handler,
            SyscallKind::Deploy => self.deploy,
            SyscallKind::EmitEvent => self.emit_event,
            SyscallKind::GetBlockNumber => self.get_block_number,
            SyscallKind::GetBlockTimestamp => self.get_block_timestamp,
            SyscallKind::GetCallerAddress => self.get_caller_address,
            SyscallKind::GetContractAddress => self.get_contract_address,
            SyscallKind::GetExecutionInfo => self.get_execution_info,
            SyscallKind::GetSequencerAddress => self.get_sequencer_address,
            SyscallKind::GetTxInfo => self.get_tx_info,
            SyscallKind::GetTxSignature => self.get_tx_signature,
            SyscallKind::LibraryCall => self.library_call,
            SyscallKind::LibraryCallL1Handler => self.library_call_l1_handler,
            SyscallKind::ReplaceClass => self.replace_class,
            SyscallKind::SendMessageToL1 => self.send_message_to_l1,
            SyscallKind::StorageRead => self.storage_read,
            SyscallKind::StorageWrite => self.storage_write,
        }
    }

    /// The same steps for a system call of every kind.
    pub fn uniform(steps: usize) -> (r: SyscallSteps)
        ensures
            forall|kind: SyscallKind| r.spec_of(kind) == steps,
    {
        SyscallSteps {
            call_contract: steps,
            delegate_call: steps,
            delegate_l1_handler: steps,
            deploy: steps,
            emit_event: steps,
            get_block_number: steps,
            get_block_timestamp: steps,
            get_caller_address: steps,
            get_contract_address: steps,
            get_execution_info: steps,
            get_sequencer_address: steps,
            get_tx_info: steps,
            get_tx_signature: steps,
            library_call: steps,
            library_call_l1_handler: steps,
            replace_class: steps,
            send_message_to_l1: steps,
            storage_read: steps,
            storage_write: steps,
        }
    }
}

/// What running a transaction costs beyond what its own code uses.
#[derive(Clone, Copy, Debug, PartialEq, Eq, Structural)]
pub struct OsResources {
    /// The steps that the system calls stand for.
    pub syscall_steps: SyscallSteps,
    /// What every declaration adds.
    pub declare_overhead: ExecutionResources,
    /// What every deployment of an account adds.
    pub deploy_account_overhead: ExecutionResources,
    /// What every invoke adds.
    pub invoke_overhead: ExecutionResources,
    /// The L1 gas of one word of data published for a changed contract or
    /// storage cell.
    pub gas_per_data_word: usize,
    /// The gas that Cairo 1 code pays for one system call.
    pub syscall_gas_cost: u128,
}

/// What a block gives the transactions that run in it.
#[derive(Clone, Copy, Debug, PartialEq, Eq)]
pub struct BlockContext {
    pub starknet_os_config: StarknetOsConfig,
    pub block_info: BlockInfo,
    pub invoke_tx_max_n_steps: u64,
    pub validate_max_n_steps: u64,
    pub cairo_resource_fee_weights: ResourceWeights,
    pub os_resources: OsResources,
}

impl BlockContext {
    /// The context of a block on the first test network in which nothing
    /// costs anything.
    pub fn default_context() -> (r: BlockContext)
        ensures
            r.starknet_os_config.chain_id@ == spec_test_net_chain_id(),
            r.starknet_os_config.fee_token_address@ == 0,
            r.starknet_os_config.gas_price == 0,
            r.block_info.block_number == 0,
            r.block_info.block_timestamp == 0,
            r.block_info.gas_price == 0,
            r.block_info.sequencer_address@ == 0,
            r.invoke_tx_max_n_steps == DEFAULT_INVOKE_TX_MAX_N_STEPS,
            r.validate_max_n_steps == DEFAULT_VALIDATE_MAX_N_STEPS,
            r.cairo_resource_fee_weights == ResourceWeights::zero(),
            forall|kind: SyscallKind| r.os_resources.syscall_steps.spec_of(kind) == 0,
            r.os_resources.gas_per_data_word == 0,
            r.os_resources.syscall_gas_cost == 0,
            r.os_resources.declare_overhead == ExecutionResources::zero(),
            r.os_resources.deploy_account_overhead == ExecutionResources::zero(),
            r.os_resources.invoke_overhead == ExecutionResources::zero(),
    {
        BlockContext {
            starknet_os_config: StarknetOsConfig {
                chain_id: test_net_chain_id(),
                fee_token_address: Address(Felt::zero()),
                gas_price: 0,
            },
            block_info: BlockInfo {
                block_number: 0,
                block_timestamp: 0,
                gas_price: 0,
                sequencer_address: Address(Felt::zero()),
            },
            invoke_tx_max_n_steps: DEFAULT_INVOKE_TX_MAX_N_STEPS,
            validate_max_n_steps: DEFAULT_VALIDATE_MAX_N_STEPS,
            cairo_resource_fee_weights: ResourceWeights::new(),
            os_resources: OsResources {
                syscall_steps: SyscallSteps::uniform(0),
                declare_overhead: ExecutionResources::new(),
                deploy_account_overhead: ExecutionResources::new(),
                invoke_overhead: ExecutionResources::new(),
                gas_per_data_word: 0,
                syscall_gas_cost: 0,
            },
        }
    }
}

} // verus!
