//! The hints of Cairo 0 code that the host carries out itself.
use vstd::prelude::*;

verus! {

pub const DEPLOY: &'static str = "syscall_handler.deploy(segments=segments, syscall_ptr=ids.syscall_ptr)";

pub const EMIT_EVENT_CODE: &'static str =
    "syscall_handler.emit_event(segments=segments, syscall_ptr=ids.syscall_ptr)";

pub const GET_SEQUENCER_ADDRESS: &'static str =
    "syscall_handler.get_sequencer_address(segments=segments, syscall_ptr=ids.syscall_ptr)";

pub const STORAGE_WRITE: &'static str =
    "syscall_handler.storage_write(segments=segments, syscall_ptr=ids.syscall_ptr)";

pub const STORAGE_READ: &'static str =
    "syscall_handler.storage_read(segments=segments, syscall_ptr=ids.syscall_ptr)";

pub const SEND_MESSAGE_TO_L1: &'static str =
    "syscall_handler.send_message_to_l1(segments=segments, syscall_ptr=ids.syscall_ptr)";

pub const LIBRARY_CALL_L1_HANDLER: &'static str =
    "syscall_handler.library_call_l1_handler(segments=segments, syscall_ptr=ids.syscall_ptr)";

pub const LIBRARY_CALL: &'static str =
    "syscall_handler.library_call(segments=segments, syscall_ptr=ids.syscall_ptr)";

pub const CALL_CONTRACT: &'static str =
    "syscall_handler.call_contract(segments=segments, syscall_ptr=ids.syscall_ptr)";

pub const GET_TX_SIGNATURE: &'static str =
    "syscall_handler.get_tx_signature(segments=segments, syscall_ptr=ids.syscall_ptr)";

pub const GET_TX_INFO: &'static str =
    "syscall_handler.get_tx_info(segments=segments, syscall_ptr=ids.syscall_ptr)";

pub const GET_CONTRACT_ADDRESS: &'static str =
    "syscall_handler.get_contract_address(segments=segments, syscall_ptr=ids.syscall_ptr)";

pub const GET_CALLER_ADDRESS: &'static str =
    "syscall_handler.get_caller_address(segments=segments, syscall_ptr=ids.syscall_ptr)";

pub const GET_BLOCK_TIMESTAMP: &'static str =
    "syscall_handler.get_block_timestamp(segments=segments, syscall_ptr=ids.syscall_ptr)";

pub const GET_BLOCK_NUMBER: &'static str =
    "syscall_handler.get_block_number(segments=segments, syscall_ptr=ids.syscall_ptr)";

pub const DELEGATE_CALL: &'static str =
    "syscall_handler.delegate_call(segments=segments, syscall_ptr=ids.syscall_ptr)";

pub const REPLACE_CLASS: &'static str =
    "syscall_handler.replace_class(segments=segments, syscall_ptr=ids.syscall_ptr)";

pub const ADDR_BOUND_PRIME: &'static str =
    "# Verify the assumptions on the relationship between 2**250, ADDR_BOUND and PRIME.\nADDR_BOUND = ids.ADDR_BOUND % PRIME\nassert (2**250 < ADDR_BOUND <= 2**251) and (2 * 2**250 < PRIME) and (\n        ADDR_BOUND * 2 > PRIME), \\\n    'normalize_address() cannot be used with the current constants.'\nids.is_small = 1 if ids.addr < ADDR_BOUND else 0";

pub const ADDR_IS_250: &'static str = "ids.is_250 = 1 if ids.addr < 2**250 else 0";

} // verus!
