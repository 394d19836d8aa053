//! Numbers that the protocol fixes.
use crate::felt::{be_value, Felt};
use vstd::prelude::*;

verus! {

/// The version of the transactions that this runtime builds by itself.
pub const TRANSACTION_VERSION: u64 = 1;

/// The version of the declarations that this runtime builds by itself.
pub const DECLARE_VERSION: u64 = 2;

/// The gas that a run starts with when its caller sets no other amount.
pub const INITIAL_GAS_COST: u128 = 10_000_000_000;

/// The steps that a validation run may take by default.
pub const DEFAULT_VALIDATE_MAX_N_STEPS: u64 = 1_000_000;

/// The steps that an invoke may take by default.
pub const DEFAULT_INVOKE_TX_MAX_N_STEPS: u64 = 1_000_000;

/// The selector of `__execute__`, the entry point that an account runs a transaction through.
pub open spec fn spec_execute_entry_point_selector() -> nat {
    0x15d40a3d6ca2ac30f4031e42be28da9b056fef9bb7357ac5e85627ee876e5adnat
}

/// The selector of `__execute__`, the entry point that an account runs a transaction through.
pub fn execute_entry_point_selector() -> (r: Felt)
    ensures
        r@ == spec_execute_entry_point_selector(),
{
    let bytes: [u8; 32] = [
        0x01, 0x5d, 0x40, 0xa3, 0xd6, 0xca, 0x2a, 0xc3,
        0x0f, 0x40, 0x31, 0xe4, 0x2b, 0xe2, 0x8d, 0xa9,
        0xb0, 0x56, 0xfe, 0xf9, 0xbb, 0x73, 0x57, 0xac,
        0x5e, 0x85, 0x62, 0x7e, 0xe8, 0x76, 0xe5, 0xad,
    ];
    proof {
        reveal_with_fuel(be_value, 33);
    }
    Felt::from_canonical_bytes(bytes)
}

/// The selector of `__validate__`, the entry point that checks an invoke.
pub open spec fn spec_validate_entry_point_selector() -> nat {
    0x162da33a4585851fe8d3af3c2a9c60b557814e221e0d4f30ff0b2189d9c7775nat
}

/// The selector of `__validate__`, the entry point that checks an invoke.
pub fn validate_entry_point_selector() -> (r: Felt)
    ensures
        r@ == spec_validate_entry_point_selector(),
{
    let bytes: [u8; 32] = [
        0x01, 0x62, 0xda, 0x33, 0xa4, 0x58, 0x58, 0x51,
        0xfe, 0x8d, 0x3a, 0xf3, 0xc2, 0xa9, 0xc6, 0x0b,
        0x55, 0x78, 0x14, 0xe2, 0x21, 0xe0, 0xd4, 0xf3,
        0x0f, 0xf0, 0xb2, 0x18, 0x9d, 0x9c, 0x77, 0x75,
    ];
    proof {
        reveal_with_fuel(be_value, 33);
    }
    Felt::from_canonical_bytes(bytes)
}

/// The selector of `__validate_declare__`, the entry point that checks a declare.
pub open spec fn spec_validate_declare_entry_point_selector() -> nat {
    0x289da278a8dc833409cabfdad1581e8e7d40e42dcaed693fa4008dcdb4963b3nat
}

/// The selector of `__validate_declare__`, the entry point that checks a declare.
pub fn validate_declare_entry_point_selector() -> (r: Felt)
    ensures
        r@ == spec_validate_declare_entry_point_selector(),
{
    let bytes: [u8; 32] = [
        0x02, 0x89, 0xda, 0x27, 0x8a, 0x8d, 0xc8, 0x33,
        0x40, 0x9c, 0xab, 0xfd, 0xad, 0x15, 0x81, 0xe8,
        0xe7, 0xd4, 0x0e, 0x42, 0xdc, 0xae, 0xd6, 0x93,
        0xfa, 0x40, 0x08, 0xdc, 0xdb, 0x49, 0x63, 0xb3,
    ];
    proof {
        reveal_with_fuel(be_value, 33);
    }
    Felt::from_canonical_bytes(bytes)
}

/// The selector of `__validate_deploy__`, the entry point that checks the deployment of an account.
pub open spec fn spec_validate_deploy_entry_point_selector() -> nat {
    0x36fcbf06cd96843058359e1a75928beacfac10727dab22a3972f0af8aa92895nat
}

/// The selector of `__validate_deploy__`, the entry point that checks the deployment of an account.
pub fn validate_deploy_entry_point_selector() -> (r: Felt)
    ensures
        r@ == spec_validate_deploy_entry_point_selector(),
{
    let bytes: [u8; 32] = [
        0x03, 0x6f, 0xcb, 0xf0, 0x6c, 0xd9, 0x68, 0x43,
        0x05, 0x83, 0x59, 0xe1, 0xa7, 0x59, 0x28, 0xbe,
        0xac, 0xfa, 0xc1, 0x07, 0x27, 0xda, 0xb2, 0x2a,
        0x39, 0x72, 0xf0, 0xaf, 0x8a, 0xa9, 0x28, 0x95,
    ];
    proof {
        reveal_with_fuel(be_value, 33);
    }
    Felt::from_canonical_bytes(bytes)
}

/// The selector of `constructor`.
pub open spec fn spec_constructor_entry_point_selector() -> nat {
    0x28ffe4ff0f226a9107253e17a904099aa4f63a02a5621de0576e5aa71bc5194nat
}

/// The selector of `constructor`.
pub fn constructor_entry_point_selector() -> (r: Felt)
    ensures
        r@ == spec_constructor_entry_point_selector(),
{
    let bytes: [u8; 32] = [
        0x02, 0x8f, 0xfe, 0x4f, 0xf0, 0xf2, 0x26, 0xa9,
        0x10, 0x72, 0x53, 0xe1, 0x7a, 0x90, 0x40, 0x99,
        0xaa, 0x4f, 0x63, 0xa0, 0x2a, 0x56, 0x21, 0xde,
        0x05, 0x76, 0xe5, 0xaa, 0x71, 0xbc, 0x51, 0x94,
    ];
    proof {
        reveal_with_fuel(be_value, 33);
    }
    Felt::from_canonical_bytes(bytes)
}

/// The selector of `transfer`, the entry point of the fee token that moves the fee.
pub open spec fn spec_transfer_entry_point_selector() -> nat {
    0x83afd3f4caedc6eebf44246fe54e38c95e3179a5ec9ea81740eca5b482d12enat
}

/// The selector of `transfer`, the entry point of the fee token that moves the fee.
pub fn transfer_entry_point_selector() -> (r: Felt)
    ensures
        r@ == spec_transfer_entry_point_selector(),
{
    let bytes: [u8; 32] = [
        0x00, 0x83, 0xaf, 0xd3, 0xf4, 0xca, 0xed, 0xc6,
        0xee, 0xbf, 0x44, 0x24, 0x6f, 0xe5, 0x4e, 0x38,
        0xc9, 0x5e, 0x31, 0x79, 0xa5, 0xec, 0x9e, 0xa8,
        0x17, 0x40, 0xec, 0xa5, 0xb4, 0x82, 0xd1, 0x2e,
    ];
    proof {
        reveal_with_fuel(be_value, 33);
    }
    Felt::from_canonical_bytes(bytes)
}

/// The text `STARKNET_CONTRACT_ADDRESS` read as a big-endian number; every contract address is hashed from it.
pub open spec fn spec_contract_address_prefix() -> nat {
    0x535441524b4e45545f434f4e54524143545f41444452455353nat
}

/// The text `STARKNET_CONTRACT_ADDRESS` read as a big-endian number; every contract address is hashed from it.
pub fn contract_address_prefix() -> (r: Felt)
    ensures
        r@ == spec_contract_address_prefix(),
{
    let bytes: [u8; 32] = [
        0x00, 0x00, 0x00, 0x00, 0x00, 0x00, 0x00, 0x53,
        0x54, 0x41, 0x52, 0x4b, 0x4e, 0x45, 0x54, 0x5f,
        0x43, 0x4f, 0x4e, 0x54, 0x52, 0x41, 0x43, 0x54,
        0x5f, 0x41, 0x44, 0x44, 0x52, 0x45, 0x53, 0x53,
    ];
    proof {
        reveal_with_fuel(be_value, 33);
    }
    Felt::from_canonical_bytes(bytes)
}

/// The bound `2^251 - 256` that every contract address lies under.
pub open spec fn spec_l2_address_upper_bound() -> nat {
    0x7ffffffffffffffffffffffffffffffffffffffffffffffffffffffffffff00nat
}

/// The bound `2^251 - 256` that every contract address lies under.
pub fn l2_address_upper_bound() -> (r: Felt)
    ensures
        r@ == spec_l2_address_upper_bound(),
{
    let bytes: [u8; 32] = [
        0x07, 0xff, 0xff, 0xff, 0xff, 0xff, 0xff, 0xff,
        0xff, 0xff, 0xff, 0xff, 0xff, 0xff, 0xff, 0xff,
        0xff, 0xff, 0xff, 0xff, 0xff, 0xff, 0xff, 0xff,
        0xff, 0xff, 0xff, 0xff, 0xff, 0xff, 0xff, 0x00,
    ];
    proof {
        reveal_with_fuel(be_value, 33);
    }
    Felt::from_canonical_bytes(bytes)
}

/// The text `declare` read as a big-endian number.
pub open spec fn spec_declare_hash_prefix() -> nat {
    0x6465636c617265nat
}

/// The text `declare` read as a big-endian number.
pub fn declare_hash_prefix() -> (r: Felt)
    ensures
        r@ == spec_declare_hash_prefix(),
{
    let bytes: [u8; 32] = [
        0x00, 0x00, 0x00, 0x00, 0x00, 0x00, 0x00, 0x00,
        0x00, 0x00, 0x00, 0x00, 0x00, 0x00, 0x00, 0x00,
        0x00, 0x00, 0x00, 0x00, 0x00, 0x00, 0x00, 0x00,
        0x00, 0x64, 0x65, 0x63, 0x6c, 0x61, 0x72, 0x65,
    ];
    proof {
        reveal_with_fuel(be_value, 33);
    }
    Felt::from_canonical_bytes(bytes)
}

/// The text `deploy` read as a big-endian number.
pub open spec fn spec_deploy_hash_prefix() -> nat {
    0x6465706c6f79nat
}

/// The text `deploy` read as a big-endian number.
pub fn deploy_hash_prefix() -> (r: Felt)
    ensures
        r@ == spec_deploy_hash_prefix(),
{
    let bytes: [u8; 32] = [
        0x00, 0x00, 0x00, 0x00, 0x00, 0x00, 0x00, 0x00,
        0x00, 0x00, 0x00, 0x00, 0x00, 0x00, 0x00, 0x00,
        0x00, 0x00, 0x00, 0x00, 0x00, 0x00, 0x00, 0x00,
        0x00, 0x00, 0x64, 0x65, 0x70, 0x6c, 0x6f, 0x79,
    ];
    proof {
        reveal_with_fuel(be_value, 33);
    }
    Felt::from_canonical_bytes(bytes)
}

/// The text `deploy_account` read as a big-endian number.
pub open spec fn spec_deploy_account_hash_prefix() -> nat {
    0x6465706c6f795f6163636f756e74nat
}

/// The text `deploy_account` read as a big-endian number.
pub fn deploy_account_hash_prefix() -> (r: Felt)
    ensures
        r@ == spec_deploy_account_hash_prefix(),
{
    let bytes: [u8; 32] = [
        0x00, 0x00, 0x00, 0x00, 0x00, 0x00, 0x00, 0x00,
        0x00, 0x00, 0x00, 0x00, 0x00, 0x00, 0x00, 0x00,
        0x00, 0x00, 0x64, 0x65, 0x70, 0x6c, 0x6f, 0x79,
        0x5f, 0x61, 0x63, 0x63, 0x6f, 0x75, 0x6e, 0x74,
    ];
    proof {
        reveal_with_fuel(be_value, 33);
    }
    Felt::from_canonical_bytes(bytes)
}

/// The text `invoke` read as a big-endian number.
pub open spec fn spec_invoke_hash_prefix() -> nat {
    0x696e766f6b65nat
}

/// The text `invoke` read as a big-endian number.
pub fn invoke_hash_prefix() -> (r: Felt)
    ensures
        r@ == spec_invoke_hash_prefix(),
{
    let bytes: [u8; 32] = [
        0x00, 0x00, 0x00, 0x00, 0x00, 0x00, 0x00, 0x00,
        0x00, 0x00, 0x00, 0x00, 0x00, 0x00, 0x00, 0x00,
        0x00, 0x00, 0x00, 0x00, 0x00, 0x00, 0x00, 0x00,
        0x00, 0x00, 0x69, 0x6e, 0x76, 0x6f, 0x6b, 0x65,
    ];
    proof {
        reveal_with_fuel(be_value, 33);
    }
    Felt::from_canonical_bytes(bytes)
}

/// The text `l1_handler` read as a big-endian number.
pub open spec fn spec_l1_handler_hash_prefix() -> nat {
    0x6c315f68616e646c6572nat
}

/// The text `l1_handler` read as a big-endian number.
pub fn l1_handler_hash_prefix() -> (r: Felt)
    ensures
        r@ == spec_l1_handler_hash_prefix(),
{
    let bytes: [u8; 32] = [
        0x00, 0x00, 0x00, 0x00, 0x00, 0x00, 0x00, 0x00,
        0x00, 0x00, 0x00, 0x00, 0x00, 0x00, 0x00, 0x00,
        0x00, 0x00, 0x00, 0x00, 0x00, 0x00, 0x6c, 0x31,
        0x5f, 0x68, 0x61, 0x6e, 0x64, 0x6c, 0x65, 0x72,
    ];
    proof {
        reveal_with_fuel(be_value, 33);
    }
    Felt::from_canonical_bytes(bytes)
}

/// The text `SN_MAIN` read as a big-endian number.
pub open spec fn spec_main_net_chain_id() -> nat {
    0x534e5f4d41494enat
}

/// The text `SN_MAIN` read as a big-endian number.
pub fn main_net_chain_id() -> (r: Felt)
    ensures
        r@ == spec_main_net_chain_id(),
{
    let bytes: [u8; 32] = [
        0x00, 0x00, 0x00, 0x00, 0x00, 0x00, 0x00, 0x00,
        0x00, 0x00, 0x00, 0x00, 0x00, 0x00, 0x00, 0x00,
        0x00, 0x00, 0x00, 0x00, 0x00, 0x00, 0x00, 0x00,
        0x00, 0x53, 0x4e, 0x5f, 0x4d, 0x41, 0x49, 0x4e,
    ];
    proof {
        reveal_with_fuel(be_value, 33);
    }
    Felt::from_canonical_bytes(bytes)
}

/// The text `SN_GOERLI` read as a big-endian number.
pub open spec fn spec_test_net_chain_id() -> nat {
    0x534e5f474f45524c49nat
}

/// The text `SN_GOERLI` read as a big-endian number.
pub fn test_net_chain_id() -> (r: Felt)
    ensures
        r@ == spec_test_net_chain_id(),
{
    let bytes: [u8; 32] = [
        0x00, 0x00, 0x00, 0x00, 0x00, 0x00, 0x00, 0x00,
        0x00, 0x00, 0x00, 0x00, 0x00, 0x00, 0x00, 0x00,
        0x00, 0x00, 0x00, 0x00, 0x00, 0x00, 0x00, 0x53,
        0x4e, 0x5f, 0x47, 0x4f, 0x45, 0x52, 0x4c, 0x49,
    ];
    proof {
        reveal_with_fuel(be_value, 33);
    }
    Felt::from_canonical_bytes(bytes)
}

/// The text `SN_GOERLI2` read as a big-endian number.
pub open spec fn spec_test_net2_chain_id() -> nat {
    0x534e5f474f45524c4932nat
}

/// The text `SN_GOERLI2` read as a big-endian number.
pub fn test_net2_chain_id() -> (r: Felt)
    ensures
        r@ == spec_test_net2_chain_id(),
{
    let bytes: [u8; 32] = [
        0x00, 0x00, 0x00, 0x00, 0x00, 0x00, 0x00, 0x00,
        0x00, 0x00, 0x00, 0x00, 0x00, 0x00, 0x00, 0x00,
        0x00, 0x00, 0x00, 0x00, 0x00, 0x00, 0x53, 0x4e,
        0x5f, 0x47, 0x4f, 0x45, 0x52, 0x4c, 0x49, 0x32,
    ];
    proof {
        reveal_with_fuel(be_value, 33);
    }
    Felt::from_canonical_bytes(bytes)
}

/// The text `Out of gas` read as a big-endian number.
pub open spec fn spec_out_of_gas_code() -> nat {
    0x4f7574206f6620676173nat
}

/// The text `Out of gas` read as a big-endian number.
pub fn out_of_gas_code() -> (r: Felt)
    ensures
        r@ == spec_out_of_gas_code(),
{
    let bytes: [u8; 32] = [
        0x00, 0x00, 0x00, 0x00, 0x00, 0x00, 0x00, 0x00,
        0x00, 0x00, 0x00, 0x00, 0x00, 0x00, 0x00, 0x00,
        0x00, 0x00, 0x00, 0x00, 0x00, 0x00, 0x4f, 0x75,
        0x74, 0x20, 0x6f, 0x66, 0x20, 0x67, 0x61, 0x73,
    ];
    proof {
        reveal_with_fuel(be_value, 33);
    }
    Felt::from_canonical_bytes(bytes)
}

/// The text `CLASS_HASH_NOT_FOUND` read as a big-endian number.
pub open spec fn spec_class_hash_not_found_code() -> nat {
    0x434c4153535f484153485f4e4f545f464f554e44nat
}

/// The text `CLASS_HASH_NOT_FOUND` read as a big-endian number.
pub fn class_hash_not_found_code() -> (r: Felt)
    ensures
        r@ == spec_class_hash_not_found_code(),
{
    let bytes: [u8; 32] = [
        0x00, 0x00, 0x00, 0x00, 0x00, 0x00, 0x00, 0x00,
        0x00, 0x00, 0x00, 0x00, 0x43, 0x4c, 0x41, 0x53,
        0x53, 0x5f, 0x48, 0x41, 0x53, 0x48, 0x5f, 0x4e,
        0x4f, 0x54, 0x5f, 0x46, 0x4f, 0x55, 0x4e, 0x44,
    ];
    proof {
        reveal_with_fuel(be_value, 33);
    }
    Felt::from_canonical_bytes(bytes)
}

/// The text `Unsupported address domain` read as a big-endian number.
pub open spec fn spec_unsupported_address_domain_code() -> nat {
    0x556e737570706f72746564206164647265737320646f6d61696enat
}

/// The text `Unsupported address domain` read as a big-endian number.
pub fn unsupported_address_domain_code() -> (r: Felt)
    ensures
        r@ == spec_unsupported_address_domain_code(),
{
    let bytes: [u8; 32] = [
        0x00, 0x00, 0x00, 0x00, 0x00, 0x00, 0x55, 0x6e,
        0x73, 0x75, 0x70, 0x70, 0x6f, 0x72, 0x74, 0x65,
        0x64, 0x20, 0x61, 0x64, 0x64, 0x72, 0x65, 0x73,
        0x73, 0x20, 0x64, 0x6f, 0x6d, 0x61, 0x69, 0x6e,
    ];
    proof {
        reveal_with_fuel(be_value, 33);
    }
    Felt::from_canonical_bytes(bytes)
}

/// The text `CONTRACT_ADDRESS_UNAVAILABLE` read as a big-endian number.
pub open spec fn spec_contract_address_unavailable_code() -> nat {
    0x434f4e54524143545f414444524553535f554e415641494c41424c45nat
}

/// The text `CONTRACT_ADDRESS_UNAVAILABLE` read as a big-endian number.
pub fn contract_address_unavailable_code() -> (r: Felt)
    ensures
        r@ == spec_contract_address_unavailable_code(),
{
    let bytes: [u8; 32] = [
        0x00, 0x00, 0x00, 0x00, 0x43, 0x4f, 0x4e, 0x54,
        0x52, 0x41, 0x43, 0x54, 0x5f, 0x41, 0x44, 0x44,
        0x52, 0x45, 0x53, 0x53, 0x5f, 0x55, 0x4e, 0x41,
        0x56, 0x41, 0x49, 0x4c, 0x41, 0x42, 0x4c, 0x45,
    ];
    proof {
        reveal_with_fuel(be_value, 33);
    }
    Felt::from_canonical_bytes(bytes)
}

/// The text `ENTRYPOINT_NOT_FOUND` read as a big-endian number.
pub open spec fn spec_entry_point_not_found_code() -> nat {
    0x454e545259504f494e545f4e4f545f464f554e44nat
}

/// The text `ENTRYPOINT_NOT_FOUND` read as a big-endian number.
pub fn entry_point_not_found_code() -> (r: Felt)
    ensures
        r@ == spec_entry_point_not_found_code(),
{
    let bytes: [u8; 32] = [
        0x00, 0x00, 0x00, 0x00, 0x00, 0x00, 0x00, 0x00,
        0x00, 0x00, 0x00, 0x00, 0x45, 0x4e, 0x54, 0x52,
        0x59, 0x50, 0x4f, 0x49, 0x4e, 0x54, 0x5f, 0x4e,
        0x4f, 0x54, 0x5f, 0x46, 0x4f, 0x55, 0x4e, 0x44,
    ];
    proof {
        reveal_with_fuel(be_value, 33);
    }
    Felt::from_canonical_bytes(bytes)
}

/// The text `ENTRYPOINT_FAILED` read as a big-endian number.
pub open spec fn spec_entry_point_failed_code() -> nat {
    0x454e545259504f494e545f4641494c4544nat
}

/// The text `ENTRYPOINT_FAILED` read as a big-endian number.
pub fn entry_point_failed_code() -> (r: Felt)
    ensures
        r@ == spec_entry_point_failed_code(),
{
    let bytes: [u8; 32] = [
        0x00, 0x00, 0x00, 0x00, 0x00, 0x00, 0x00, 0x00,
        0x00, 0x00, 0x00, 0x00, 0x00, 0x00, 0x00, 0x45,
        0x4e, 0x54, 0x52, 0x59, 0x50, 0x4f, 0x49, 0x4e,
        0x54, 0x5f, 0x46, 0x41, 0x49, 0x4c, 0x45, 0x44,
    ];
    proof {
        reveal_with_fuel(be_value, 33);
    }
    Felt::from_canonical_bytes(bytes)
}

/// The number `2^250`.
pub open spec fn spec_two_pow_250() -> nat {
    0x400000000000000000000000000000000000000000000000000000000000000nat
}

/// The number `2^250`.
pub fn two_pow_250() -> (r: Felt)
    ensures
        r@ == spec_two_pow_250(),
{
    let bytes: [u8; 32] = [
        0x04, 0x00, 0x00, 0x00, 0x00, 0x00, 0x00, 0x00,
        0x00, 0x00, 0x00, 0x00, 0x00, 0x00, 0x00, 0x00,
        0x00, 0x00, 0x00, 0x00, 0x00, 0x00, 0x00, 0x00,
        0x00, 0x00, 0x00, 0x00, 0x00, 0x00, 0x00, 0x00,
    ];
    proof {
        reveal_with_fuel(be_value, 33);
    }
    Felt::from_canonical_bytes(bytes)
}

/// The number `2^251`.
pub open spec fn spec_two_pow_251() -> nat {
    0x800000000000000000000000000000000000000000000000000000000000000nat
}

/// The number `2^251`.
pub fn two_pow_251() -> (r: Felt)
    ensures
        r@ == spec_two_pow_251(),
{
    let bytes: [u8; 32] = [
        0x08, 0x00, 0x00, 0x00, 0x00, 0x00, 0x00, 0x00,
        0x00, 0x00, 0x00, 0x00, 0x00, 0x00, 0x00, 0x00,
        0x00, 0x00, 0x00, 0x00, 0x00, 0x00, 0x00, 0x00,
        0x00, 0x00, 0x00, 0x00, 0x00, 0x00, 0x00, 0x00,
    ];
    proof {
        reveal_with_fuel(be_value, 33);
    }
    Felt::from_canonical_bytes(bytes)
}

/// The text `CallContract` read as a big-endian number: the word by which Cairo 1 code names the system call.
pub open spec fn spec_call_contract_word() -> nat {
    0x43616c6c436f6e7472616374nat
}

/// The text `CallContract` read as a big-endian number: the word by which Cairo 1 code names the system call.
pub fn call_contract_word() -> (r: Felt)
    ensures
        r@ == spec_call_contract_word(),
{
    let bytes: [u8; 32] = [
        0x00, 0x00, 0x00, 0x00, 0x00, 0x00, 0x00, 0x00,
        0x00, 0x00, 0x00, 0x00, 0x00, 0x00, 0x00, 0x00,
        0x00, 0x00, 0x00, 0x00, 0x43, 0x61, 0x6c, 0x6c,
        0x43, 0x6f, 0x6e, 0x74, 0x72, 0x61, 0x63, 0x74,
    ];
    proof {
        reveal_with_fuel(be_value, 33);
    }
    Felt::from_canonical_bytes(bytes)
}

/// The text `Deploy` read as a big-endian number: the word by which Cairo 1 code names the system call.
pub open spec fn spec_deploy_word() -> nat {
    0x4465706c6f79nat
}

/// The text `Deploy` read as a big-endian number: the word by which Cairo 1 code names the system call.
pub fn deploy_word() -> (r: Felt)
    ensures
        r@ == spec_deploy_word(),
{
    let bytes: [u8; 32] = [
        0x00, 0x00, 0x00, 0x00, 0x00, 0x00, 0x00, 0x00,
        0x00, 0x00, 0x00, 0x00, 0x00, 0x00, 0x00, 0x00,
        0x00, 0x00, 0x00, 0x00, 0x00, 0x00, 0x00, 0x00,
        0x00, 0x00, 0x44, 0x65, 0x70, 0x6c, 0x6f, 0x79,
    ];
    proof {
        reveal_with_fuel(be_value, 33);
    }
    Felt::from_canonical_bytes(bytes)
}

/// The text `EmitEvent` read as a big-endian number: the word by which Cairo 1 code names the system call.
pub open spec fn spec_emit_event_word() -> nat {
    0x456d69744576656e74nat
}

/// The text `EmitEvent` read as a big-endian number: the word by which Cairo 1 code names the system call.
pub fn emit_event_word() -> (r: Felt)
    ensures
        r@ == spec_emit_event_word(),
{
    let bytes: [u8; 32] = [
        0x00, 0x00, 0x00, 0x00, 0x00, 0x00, 0x00, 0x00,
        0x00, 0x00, 0x00, 0x00, 0x00, 0x00, 0x00, 0x00,
        0x00, 0x00, 0x00, 0x00, 0x00, 0x00, 0x00, 0x45,
        0x6d, 0x69, 0x74, 0x45, 0x76, 0x65, 0x6e, 0x74,
    ];
    proof {
        reveal_with_fuel(be_value, 33);
    }
    Felt::from_canonical_bytes(bytes)
}

/// The text `GetExecutionInfo` read as a big-endian number: the word by which Cairo 1 code names the system call.
pub open spec fn spec_get_execution_info_word() -> nat {
    0x476574457865637574696f6e496e666fnat
}

/// The text `GetExecutionInfo` read as a big-endian number: the word by which Cairo 1 code names the system call.
pub fn get_execution_info_word() -> (r: Felt)
    ensures
        r@ == spec_get_execution_info_word(),
{
    let bytes: [u8; 32] = [
        0x00, 0x00, 0x00, 0x00, 0x00, 0x00, 0x00, 0x00,
        0x00, 0x00, 0x00, 0x00, 0x00, 0x00, 0x00, 0x00,
        0x47, 0x65, 0x74, 0x45, 0x78, 0x65, 0x63, 0x75,
        0x74, 0x69, 0x6f, 0x6e, 0x49, 0x6e, 0x66, 0x6f,
    ];
    proof {
        reveal_with_fuel(be_value, 33);
    }
    Felt::from_canonical_bytes(bytes)
}

/// The text `LibraryCall` read as a big-endian number: the word by which Cairo 1 code names the system call.
pub open spec fn spec_library_call_word() -> nat {
    0x4c69627261727943616c6cnat
}

/// The text `LibraryCall` read as a big-endian number: the word by which Cairo 1 code names the system call.
pub fn library_call_word() -> (r: Felt)
    ensures
        r@ == spec_library_call_word(),
{
    let bytes: [u8; 32] = [
        0x00, 0x00, 0x00, 0x00, 0x00, 0x00, 0x00, 0x00,
        0x00, 0x00, 0x00, 0x00, 0x00, 0x00, 0x00, 0x00,
        0x00, 0x00, 0x00, 0x00, 0x00, 0x4c, 0x69, 0x62,
        0x72, 0x61, 0x72, 0x79, 0x43, 0x61, 0x6c, 0x6c,
    ];
    proof {
        reveal_with_fuel(be_value, 33);
    }
    Felt::from_canonical_bytes(bytes)
}

/// The text `ReplaceClass` read as a big-endian number: the word by which Cairo 1 code names the system call.
pub open spec fn spec_replace_class_word() -> nat {
    0x5265706c616365436c617373nat
}

/// The text `ReplaceClass` read as a big-endian number: the word by which Cairo 1 code names the system call.
pub fn replace_class_word() -> (r: Felt)
    ensures
        r@ == spec_replace_class_word(),
{
    let bytes: [u8; 32] = [
        0x00, 0x00, 0x00, 0x00, 0x00, 0x00, 0x00, 0x00,
        0x00, 0x00, 0x00, 0x00, 0x00, 0x00, 0x00, 0x00,
        0x00, 0x00, 0x00, 0x00, 0x52, 0x65, 0x70, 0x6c,
        0x61, 0x63, 0x65, 0x43, 0x6c, 0x61, 0x73, 0x73,
    ];
    proof {
        reveal_with_fuel(be_value, 33);
    }
    Felt::from_canonical_bytes(bytes)
}

/// The text `SendMessageToL1` read as a big-endian number: the word by which Cairo 1 code names the system call.
pub open spec fn spec_send_message_to_l1_word() -> nat {
    0x53656e644d657373616765546f4c31nat
}

/// The text `SendMessageToL1` read as a big-endian number: the word by which Cairo 1 code names the system call.
pub fn send_message_to_l1_word() -> (r: Felt)
    ensures
        r@ == spec_send_message_to_l1_word(),
{
    let bytes: [u8; 32] = [
        0x00, 0x00, 0x00, 0x00, 0x00, 0x00, 0x00, 0x00,
        0x00, 0x00, 0x00, 0x00, 0x00, 0x00, 0x00, 0x00,
        0x00, 0x53, 0x65, 0x6e, 0x64, 0x4d, 0x65, 0x73,
        0x73, 0x61, 0x67, 0x65, 0x54, 0x6f, 0x4c, 0x31,
    ];
    proof {
        reveal_with_fuel(be_value, 33);
    }
    Felt::from_canonical_bytes(bytes)
}

/// The text `StorageRead` read as a big-endian number: the word by which Cairo 1 code names the system call.
pub open spec fn spec_storage_read_word() -> nat {
    0x53746f7261676552656164nat
}

/// The text `StorageRead` read as a big-endian number: the word by which Cairo 1 code names the system call.
pub fn storage_read_word() -> (r: Felt)
    ensures
        r@ == spec_storage_read_word(),
{
    let bytes: [u8; 32] = [
        0x00, 0x00, 0x00, 0x00, 0x00, 0x00, 0x00, 0x00,
        0x00, 0x00, 0x00, 0x00, 0x00, 0x00, 0x00, 0x00,
        0x00, 0x00, 0x00, 0x00, 0x00, 0x53, 0x74, 0x6f,
        0x72, 0x61, 0x67, 0x65, 0x52, 0x65, 0x61, 0x64,
    ];
    proof {
        reveal_with_fuel(be_value, 33);
    }
    Felt::from_canonical_bytes(bytes)
}

/// The text `StorageWrite` read as a big-endian number: the word by which Cairo 1 code names the system call.
pub open spec fn spec_storage_write_word() -> nat {
    0x53746f726167655772697465nat
}

/// The text `StorageWrite` read as a big-endian number: the word by which Cairo 1 code names the system call.
pub fn storage_write_word() -> (r: Felt)
    ensures
        r@ == spec_storage_write_word(),
{
    let bytes: [u8; 32] = [
        0x00, 0x00, 0x00, 0x00, 0x00, 0x00, 0x00, 0x00,
        0x00, 0x00, 0x00, 0x00, 0x00, 0x00, 0x00, 0x00,
        0x00, 0x00, 0x00, 0x00, 0x53, 0x74, 0x6f, 0x72,
        0x61, 0x67, 0x65, 0x57, 0x72, 0x69, 0x74, 0x65,
    ];
    proof {
        reveal_with_fuel(be_value, 33);
    }
    Felt::from_canonical_bytes(bytes)
}

} // verus!
