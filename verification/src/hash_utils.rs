//! Pedersen hashing of lists and the addresses and transaction hashes built on it.
use crate::definitions::constants::{
    constructor_entry_point_selector, contract_address_prefix, declare_hash_prefix,
    deploy_account_hash_prefix, deploy_hash_prefix, invoke_hash_prefix, l1_handler_hash_prefix,
    l2_address_upper_bound, spec_constructor_entry_point_selector, spec_contract_address_prefix,
    spec_declare_hash_prefix, spec_deploy_account_hash_prefix, spec_deploy_hash_prefix,
    spec_invoke_hash_prefix, spec_l1_handler_hash_prefix, spec_l2_address_upper_bound,
};
use crate::felt::{felts_view, Felt};
use crate::utils::Address;
use starknet_crypto::FieldElement;
use vstd::prelude::*;

verus! {

/// The Pedersen hash of two field elements, as the Stark curve defines it.
pub uninterp spec fn pedersen(a: nat, b: nat) -> nat;

/// Calls `starknet_crypto::pedersen_hash` on the two elements.
#[verifier::external_body]
fn pedersen_hash(a: &Felt, b: &Felt) -> (r: Felt)
    ensures
        r@ == pedersen(a@, b@),
{
    let x = FieldElement::from_bytes_be(&a.bytes).unwrap();
    let y = FieldElement::from_bytes_be(&b.bytes).unwrap();
    Felt { bytes: starknet_crypto::pedersen_hash(&x, &y).to_bytes_be() }
}

/// Folds the hash over a list from the left, starting from `init`.
pub open spec fn pedersen_chain(init: nat, s: Seq<nat>) -> nat
    decreases s.len(),
{
    if s.len() == 0 {
        init
    } else {
        pedersen(pedersen_chain(init, s.drop_last()), s.last())
    }
}

/// The hash of a list: the chain from zero over its elements, closed with
/// its length.
pub open spec fn hash_on_elements(s: Seq<nat>) -> nat {
    pedersen(pedersen_chain(0, s), s.len())
}

/// The address of a contract that `deployer` deploys.
pub open spec fn contract_address_of(
    salt: nat,
    class_hash: nat,
    constructor_calldata: Seq<nat>,
    deployer: nat,
) -> nat {
    hash_on_elements(
        seq![
            spec_contract_address_prefix(),
            deployer,
            salt,
            class_hash,
            hash_on_elements(constructor_calldata),
        ],
    ) % spec_l2_address_upper_bound()
}

/// Hashes two field elements.
pub fn compute_pedersen(a: &Felt, b: &Felt) -> (r: Felt)
    ensures
        r@ == pedersen(a@, b@),
{
    pedersen_hash(a, b)
}

/// Hashes a list of field elements.
pub fn compute_hash_on_elements(elements: &Vec<Felt>) -> (r: Felt)
    ensures
        r@ == hash_on_elements(felts_view(elements@)),
{
    let mut acc = Felt::zero();
    let mut i: usize = 0;
    while i < elements.len()
        invariant
            0 <= i <= elements.len(),
            acc@ == pedersen_chain(0, felts_view(elements@.subrange(0, i as int))),
        decreases elements.len() - i,
    {
        acc = pedersen_hash(&acc, &elements[i]);
        proof {
            let next = felts_view(elements@.subrange(0, i + 1));
            assert(next.drop_last() =~= felts_view(elements@.subrange(0, i as int)));
            assert(next.last() == elements@[i as int]@);
        }
        i += 1;
    }
    assert(elements@.subrange(0, elements.len() as int) =~= elements@);
    let len = Felt::from_u64(elements.len() as u64);
    pedersen_hash(&acc, &len)
}

/// Computes the address of a contract from what it is deployed with.
pub fn calculate_contract_address(
    salt: &Felt,
    class_hash: &Felt,
    constructor_calldata: &Vec<Felt>,
    deployer_address: Address,
) -> (r: Felt)
    ensures
        r@ == contract_address_of(
            salt@,
            class_hash@,
            felts_view(constructor_calldata@),
            deployer_address@,
        ),
{
    let constructor_calldata_hash = compute_hash_on_elements(constructor_calldata);
    let mut raw: Vec<Felt> = Vec::new();
    raw.push(contract_address_prefix());
    raw.push(deployer_address.0);
    raw.push(*salt);
    raw.push(*class_hash);
    raw.push(constructor_calldata_hash);
    assert(felts_view(raw@) =~= seq![
        spec_contract_address_prefix(),
        deployer_address@,
        salt@,
        class_hash@,
        hash_on_elements(felts_view(constructor_calldata@)),
    ]);
    let raw_address = compute_hash_on_elements(&raw);
    raw_address.mod_floor(&l2_address_upper_bound())
}

/// The kind of transaction that a hash is made for.
#[derive(Clone, Copy, Debug, PartialEq, Eq, Hash, Structural)]
pub enum TransactionHashPrefix {
    Declare,
    Deploy,
    DeployAccount,
    Invoke,
    L1Handler,
}

impl TransactionHashPrefix {
    /// The number that opens the hashed list.
    pub open spec fn spec_value(self) -> nat {
        match self {
            TransactionHashPrefix::Declare => spec_declare_hash_prefix(),
            TransactionHashPrefix::Deploy => spec_deploy_hash_prefix(),
            TransactionHashPrefix::DeployAccount => spec_deploy_account_hash_prefix(),
            TransactionHashPrefix::Invoke => spec_invoke_hash_prefix(),
            TransactionHashPrefix::L1Handler => spec_l1_handler_hash_prefix(),
        }
    }

    /// The number that opens the hashed list.
    pub fn get_prefix(&self) -> (r: Felt)
        ensures
            r@ == self.spec_value(),
    {
        match self {
            TransactionHashPrefix::Declare => declare_hash_prefix(),
            TransactionHashPrefix::Deploy => deploy_hash_prefix(),
            TransactionHashPrefix::DeployAccount => deploy_account_hash_prefix(),
            TransactionHashPrefix::Invoke => invoke_hash_prefix(),
            TransactionHashPrefix::L1Handler => l1_handler_hash_prefix(),
        }
    }
}

/// The hash of a transaction: the hash of the list of its prefix, version,
/// address, selector field, calldata hash, fee bound and chain, followed by
/// what its kind adds.
pub open spec fn transaction_hash_of(
    prefix: TransactionHashPrefix,
    version: nat,
    contract_address: nat,
    entry_point_selector: nat,
    calldata: Seq<nat>,
    max_fee: nat,
    chain_id: nat,
    additional_data: Seq<nat>,
) -> nat {
    hash_on_elements(
        seq![
            prefix.spec_value(),
            version,
            contract_address,
            entry_point_selector,
            hash_on_elements(calldata),
            max_fee,
            chain_id,
        ] + additional_data,
    )
}

/// Computes the hash that all kinds of transaction share the shape of.
pub fn calculate_transaction_hash_common(
    tx_hash_prefix: TransactionHashPrefix,
    version: Felt,
    contract_address: &Address,
    entry_point_selector: Felt,
    calldata: &Vec<Felt>,
    max_fee: u128,
    chain_id: Felt,
    additional_data: &Vec<Felt>,
) -> (r: Felt)
    ensures
        r@ == transaction_hash_of(
            tx_hash_prefix,
            version@,
            contract_address@,
            entry_point_selector@,
            felts_view(calldata@),
            max_fee as nat,
            chain_id@,
            felts_view(additional_data@),
        ),
{
    let calldata_hash = compute_hash_on_elements(calldata);
    let mut data: Vec<Felt> = Vec::new();
    data.push(tx_hash_prefix.get_prefix());
    data.push(version);
    data.push(contract_address.0);
    data.push(entry_point_selector);
    data.push(calldata_hash);
    data.push(Felt::from_u128(max_fee));
    data.push(chain_id);
    let ghost head = felts_view(data@);
    let mut i: usize = 0;
    while i < additional_data.len()
        invariant
            0 <= i <= additional_data.len(),
            felts_view(data@) == head + felts_view(additional_data@.subrange(0, i as int)),
        decreases additional_data.len() - i,
    {
        let ghost before = data@;
        data.push(additional_data[i]);
        assert(felts_view(data@) =~= felts_view(before).push(additional_data@[i as int]@));
        assert(felts_view(additional_data@.subrange(0, i + 1)) =~= felts_view(
            additional_data@.subrange(0, i as int),
        ).push(additional_data@[i as int]@));
        assert(felts_view(data@) =~= head + felts_view(
            additional_data@.subrange(0, i + 1),
        ));
        i += 1;
    }
    assert(additional_data@.subrange(0, additional_data.len() as int) =~= additional_data@);
    assert(head =~= seq![
        tx_hash_prefix.spec_value(),
        version@,
        contract_address@,
        entry_point_selector@,
        hash_on_elements(felts_view(calldata@)),
        max_fee as nat,
        chain_id@,
    ]);
    compute_hash_on_elements(&data)
}

/// The hash of the deployment of an account.
pub open spec fn deploy_account_hash_of(
    version: nat,
    contract_address: nat,
    class_hash: nat,
    constructor_calldata: Seq<nat>,
    max_fee: nat,
    nonce: nat,
    salt: nat,
    chain_id: nat,
) -> nat {
    transaction_hash_of(
        TransactionHashPrefix::DeployAccount,
        version,
        contract_address,
        0,
        seq![class_hash, salt] + constructor_calldata,
        max_fee,
        chain_id,
        seq![nonce],
    )
}

/// Computes the hash of the deployment of an account.
pub fn calculate_deploy_account_transaction_hash(
    version: Felt,
    contract_address: &Address,
    class_hash: Felt,
    constructor_calldata: &Vec<Felt>,
    max_fee: u128,
    nonce: Felt,
    salt: Felt,
    chain_id: Felt,
) -> (r: Felt)
    ensures
        r@ == deploy_account_hash_of(
            version@,
            contract_address@,
            class_hash@,
            felts_view(constructor_calldata@),
            max_fee as nat,
            nonce@,
            salt@,
            chain_id@,
        ),
{
    let calldata = prepend_two(class_hash, salt, constructor_calldata);
    let mut additional: Vec<Felt> = Vec::new();
    additional.push(nonce);
    assert(felts_view(additional@) =~= seq![nonce@]);
    calculate_transaction_hash_common(
        TransactionHashPrefix::DeployAccount,
        version,
        contract_address,
        Felt::zero(),
        &calldata,
        max_fee,
        chain_id,
        &additional,
    )
}

/// The list that starts with `first` and `second` and goes on with `rest`.
pub fn prepend_two(first: Felt, second: Felt, rest: &Vec<Felt>) -> (r: Vec<Felt>)
    ensures
        r@ == seq![first, second] + rest@,
        felts_view(r@) == seq![first@, second@] + felts_view(rest@),
{
    let mut r: Vec<Felt> = Vec::new();
    r.push(first);
    r.push(second);
    let mut i: usize = 0;
    while i < rest.len()
        invariant
            0 <= i <= rest.len(),
            r@ == seq![first, second] + rest@.subrange(0, i as int),
        decreases rest.len() - i,
    {
        r.push(rest[i]);
        assert(r@ =~= seq![first, second] + rest@.subrange(0, i + 1));
        i += 1;
    }
    assert(rest@.subrange(0, rest.len() as int) =~= rest@);
    assert(felts_view(r@) =~= seq![first@, second@] + felts_view(rest@));
    r
}

/// The hash of a declaration.
pub open spec fn declare_hash_of(
    class_hash: nat,
    chain_id: nat,
    sender_address: nat,
    max_fee: nat,
    version: nat,
    nonce: nat,
) -> nat {
    transaction_hash_of(
        TransactionHashPrefix::Declare,
        version,
        sender_address,
        0,
        seq![class_hash],
        max_fee,
        chain_id,
        seq![nonce],
    )
}

/// Computes the hash of a declaration.
pub fn calculate_declare_transaction_hash(
    class_hash: Felt,
    chain_id: Felt,
    sender_address: &Address,
    max_fee: u128,
    version: Felt,
    nonce: Felt,
) -> (r: Felt)
    ensures
        r@ == declare_hash_of(
            class_hash@,
            chain_id@,
            sender_address@,
            max_fee as nat,
            version@,
            nonce@,
        ),
{
    let mut calldata: Vec<Felt> = Vec::new();
    calldata.push(class_hash);
    assert(felts_view(calldata@) =~= seq![class_hash@]);
    let mut additional: Vec<Felt> = Vec::new();
    additional.push(nonce);
    assert(felts_view(additional@) =~= seq![nonce@]);
    calculate_transaction_hash_common(
        TransactionHashPrefix::Declare,
        version,
        sender_address,
        Felt::zero(),
        &calldata,
        max_fee,
        chain_id,
        &additional,
    )
}

/// The hash of a deployment that is no account's.
pub open spec fn deploy_hash_of(
    version: nat,
    contract_address: nat,
    constructor_calldata: Seq<nat>,
    chain_id: nat,
) -> nat {
    transaction_hash_of(
        TransactionHashPrefix::Deploy,
        version,
        contract_address,
        spec_constructor_entry_point_selector(),
        constructor_calldata,
        0,
        chain_id,
        Seq::empty(),
    )
}

/// Computes the hash of a deployment that is no account's.
pub fn calculate_deploy_transaction_hash(
    version: Felt,
    contract_address: &Address,
    constructor_calldata: &Vec<Felt>,
    chain_id: Felt,
) -> (r: Felt)
    ensures
        r@ == deploy_hash_of(
            version@,
            contract_address@,
            felts_view(constructor_calldata@),
            chain_id@,
        ),
{
    let additional: Vec<Felt> = Vec::new();
    assert(felts_view(additional@) =~= Seq::<nat>::empty());
    calculate_transaction_hash_common(
        TransactionHashPrefix::Deploy,
        version,
        contract_address,
        constructor_entry_point_selector(),
        constructor_calldata,
        0,
        chain_id,
        &additional,
    )
}

} // verus!
