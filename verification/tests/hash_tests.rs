use sha3::{Digest, Keccak256};
use starknet_in_rust::definitions::block_context::StarknetChainId;
use starknet_in_rust::definitions::constants::{
    constructor_entry_point_selector, contract_address_prefix, declare_hash_prefix,
    deploy_account_hash_prefix, deploy_hash_prefix, execute_entry_point_selector,
    invoke_hash_prefix, l1_handler_hash_prefix, l2_address_upper_bound, out_of_gas_code,
    transfer_entry_point_selector, validate_declare_entry_point_selector,
    validate_deploy_entry_point_selector, validate_entry_point_selector,
};
use starknet_in_rust::felt::Felt;
use starknet_in_rust::hash_utils::{
    calculate_contract_address, calculate_declare_transaction_hash,
    calculate_deploy_account_transaction_hash, calculate_deploy_transaction_hash,
    calculate_transaction_hash_common, compute_hash_on_elements, compute_pedersen,
    TransactionHashPrefix,
};
use starknet_in_rust::parser::parse_felt;
use starknet_in_rust::utils::Address;

fn hex(text: &str) -> Felt {
    parse_felt(&format!("0x{text}")).unwrap()
}

/// The selector of a name: the lower 250 bits of its Keccak hash.
fn sn_keccak(name: &str) -> Felt {
    let mut bytes: [u8; 32] = Keccak256::digest(name.as_bytes()).into();
    bytes[0] &= 0x03;
    Felt::from_bytes_be(&bytes)
}

fn text_as_felt(text: &str) -> Felt {
    let mut bytes = [0u8; 32];
    bytes[32 - text.len()..].copy_from_slice(text.as_bytes());
    Felt::from_bytes_be(&bytes)
}

#[test]
fn pedersen_of_known_inputs() {
    let a = hex("03d937c035c878245caf64531a5756109c53068da139362728feb561405371cb");
    let b = hex("0208a0a10250e382e1e4bbe2880906c2791bf6275695e02fbbc6aeff9cd8b31a");
    assert_eq!(
        compute_pedersen(&a, &b),
        hex("030e480bed5fe53fa909cc0f8c4d99b8f9f2c016be4c41e13a4848797979c662")
    );
    assert!(!compute_pedersen(&a, &b).equals(&a));
    assert!(!compute_pedersen(&a, &b).equals(&compute_pedersen(&b, &a)));
}

#[test]
fn hash_on_elements_of_one() {
    let h = compute_hash_on_elements(&vec![Felt::one()]);
    assert_eq!(
        h.to_decimal_string(),
        "3416122613774376552656914666405609308365843021349846777564025639164215424932"
    );
}

#[test]
fn hash_on_elements_is_the_chain_closed_with_the_length() {
    let zero = Felt::zero();
    assert_eq!(compute_hash_on_elements(&vec![]), compute_pedersen(&zero, &zero));
    let x = Felt::from_u64(7);
    let y = Felt::from_u64(9);
    let chain = compute_pedersen(&compute_pedersen(&zero, &x), &y);
    assert_eq!(
        compute_hash_on_elements(&vec![x, y]),
        compute_pedersen(&chain, &Felt::from_u64(2))
    );
}

#[test]
fn contract_address_of_deploy_from_contract() {
    let class_hash = Felt::from_bytes_be(&[2; 32]);
    let address = calculate_contract_address(
        &Felt::zero(),
        &class_hash,
        &vec![Felt::from_u64(100)],
        Address(Felt::from_u64(1111)),
    );
    assert_eq!(
        address.to_decimal_string(),
        "619464431559909356793718633071398796109800070568878623926447195121629120356"
    );
}

#[test]
fn contract_address_is_the_hash_under_the_bound() {
    let salt = Felt::from_u64(1);
    let class_hash = Felt::from_u64(2);
    let calldata = vec![Felt::from_u64(3), Felt::from_u64(4)];
    let deployer = Address(Felt::from_u64(5));
    let raw = compute_hash_on_elements(&vec![
        contract_address_prefix(),
        deployer.0,
        salt,
        class_hash,
        compute_hash_on_elements(&calldata),
    ]);
    let address = calculate_contract_address(&salt, &class_hash, &calldata, deployer);
    assert_eq!(address, raw.mod_floor(&l2_address_upper_bound()));
    assert!(address.lt(&l2_address_upper_bound()));
    // The same inputs give the same address, other inputs another.
    assert_eq!(
        address,
        calculate_contract_address(&salt, &class_hash, &calldata, deployer)
    );
    assert_ne!(
        address,
        calculate_contract_address(&class_hash, &salt, &calldata, deployer)
    );
}

#[test]
fn selectors_are_the_keccak_of_their_names() {
    assert_eq!(execute_entry_point_selector(), sn_keccak("__execute__"));
    assert_eq!(validate_entry_point_selector(), sn_keccak("__validate__"));
    assert_eq!(
        validate_declare_entry_point_selector(),
        sn_keccak("__validate_declare__")
    );
    assert_eq!(
        validate_deploy_entry_point_selector(),
        sn_keccak("__validate_deploy__")
    );
    assert_eq!(constructor_entry_point_selector(), sn_keccak("constructor"));
    assert_eq!(transfer_entry_point_selector(), sn_keccak("transfer"));
    assert_eq!(
        sn_keccak("fib"),
        hex("112e35f48499939272000bd72eb840e502ca4c3aefa8800992e8defb746e0c9")
    );
}

#[test]
fn prefixes_are_their_names_as_numbers() {
    assert_eq!(declare_hash_prefix(), hex("6465636c617265"));
    assert_eq!(deploy_hash_prefix(), hex("6465706c6f79"));
    assert_eq!(deploy_account_hash_prefix(), hex("6465706c6f795f6163636f756e74"));
    assert_eq!(invoke_hash_prefix(), hex("696e766f6b65"));
    assert_eq!(l1_handler_hash_prefix(), hex("6c315f68616e646c6572"));
    assert_eq!(TransactionHashPrefix::Invoke.get_prefix(), text_as_felt("invoke"));
    assert_eq!(TransactionHashPrefix::Declare.get_prefix(), text_as_felt("declare"));
    assert_eq!(TransactionHashPrefix::Deploy.get_prefix(), text_as_felt("deploy"));
    assert_eq!(
        TransactionHashPrefix::DeployAccount.get_prefix(),
        text_as_felt("deploy_account")
    );
    assert_eq!(
        TransactionHashPrefix::L1Handler.get_prefix(),
        text_as_felt("l1_handler")
    );
    assert_eq!(contract_address_prefix(), text_as_felt("STARKNET_CONTRACT_ADDRESS"));
    assert_eq!(
        contract_address_prefix().to_decimal_string(),
        "523065374597054866729014270389667305596563390979550329787219"
    );
    assert_eq!(out_of_gas_code(), text_as_felt("Out of gas"));
    assert_eq!(StarknetChainId::MainNet.to_felt(), text_as_felt("SN_MAIN"));
    assert_eq!(StarknetChainId::TestNet.to_felt(), text_as_felt("SN_GOERLI"));
    assert_eq!(StarknetChainId::TestNet2.to_felt(), text_as_felt("SN_GOERLI2"));
    assert_eq!(
        l2_address_upper_bound().plus(&Felt::from_u64(256)),
        hex("800000000000000000000000000000000000000000000000000000000000000")
    );
}

#[test]
fn transaction_hash_is_the_hash_of_its_fields() {
    let version = Felt::one();
    let address = Address(Felt::from_u64(1234));
    let selector = Felt::from_u64(77);
    let calldata = vec![Felt::from_u64(1), Felt::from_u64(2)];
    let chain_id = StarknetChainId::TestNet.to_felt();
    let additional = vec![Felt::from_u64(5)];
    let expected = compute_hash_on_elements(&vec![
        invoke_hash_prefix(),
        version,
        address.0,
        selector,
        compute_hash_on_elements(&calldata),
        Felt::from_u64(1000),
        chain_id,
        Felt::from_u64(5),
    ]);
    assert_eq!(
        calculate_transaction_hash_common(
            TransactionHashPrefix::Invoke,
            version,
            &address,
            selector,
            &calldata,
            1000,
            chain_id,
            &additional,
        ),
        expected
    );
}

#[test]
fn hashes_of_the_kinds_of_transaction() {
    let version = Felt::one();
    let address = Address(Felt::from_u64(1234));
    let class_hash = Felt::from_u64(99);
    let salt = Felt::from_u64(3);
    let nonce = Felt::from_u64(8);
    let calldata = vec![Felt::from_u64(10)];
    let chain_id = StarknetChainId::TestNet2.to_felt();
    assert_eq!(
        calculate_deploy_account_transaction_hash(
            version, &address, class_hash, &calldata, 7, nonce, salt, chain_id
        ),
        calculate_transaction_hash_common(
            TransactionHashPrefix::DeployAccount,
            version,
            &address,
            Felt::zero(),
            &vec![class_hash, salt, Felt::from_u64(10)],
            7,
            chain_id,
            &vec![nonce],
        )
    );
    assert_eq!(
        calculate_declare_transaction_hash(class_hash, chain_id, &address, 7, version, nonce),
        calculate_transaction_hash_common(
            TransactionHashPrefix::Declare,
            version,
            &address,
            Felt::zero(),
            &vec![class_hash],
            7,
            chain_id,
            &vec![nonce],
        )
    );
    assert_eq!(
        calculate_deploy_transaction_hash(version, &address, &calldata, chain_id),
        calculate_transaction_hash_common(
            TransactionHashPrefix::Deploy,
            version,
            &address,
            constructor_entry_point_selector(),
            &calldata,
            0,
            chain_id,
            &vec![],
        )
    );
}
