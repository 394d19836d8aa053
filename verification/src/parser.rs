//! Making sense of what the command-line front end is asked.
use crate::contract_class::{
    CompiledClass, CompiledClassView, ContractClass, ContractClassView, ContractEntryPointView,
};
use crate::definitions::constants::{DECLARE_VERSION, TRANSACTION_VERSION};
use crate::error::{ParserError, StateError};
use crate::execution::{
    CallType, EntryPointType, ExecutionEntryPoint, ExecutionEntryPointView,
};
use crate::felt::{felts_view, hex_number, prime, Felt};
use crate::hash_utils::{
    calculate_contract_address, calculate_declare_transaction_hash,
    calculate_deploy_transaction_hash, calculate_transaction_hash_common, contract_address_of,
    declare_hash_of, deploy_hash_of, transaction_hash_of, TransactionHashPrefix,
};
use crate::state::cached_state::CachedState;
use crate::state::state_api::StateReader;
use crate::transaction::invoke_function::{InvokeFunction, InvokeFunctionView};
use crate::utils::Address;
use vstd::prelude::*;
use vstd::string::*;
use vstd::utf8::is_ascii_chars;

verus! {

/// The number that a text with a two-letter prefix denotes in base 16.
pub open spec fn prefixed_hex_number(text: Seq<char>) -> Option<nat> {
    if text.len() < 2 {
        None
    } else {
        hex_number(text.subrange(2, text.len() as int))
    }
}

/// Reads the field element that a text such as `0x1f` denotes: the first
/// two letters are passed over and the rest is read in base 16. A text that
/// is too short, not plain ASCII, or not a number is turned down.
pub fn parse_felt(text: &str) -> (r: Result<Felt, ParserError>)
    ensures
        match r {
            Ok(f) => is_ascii_chars(text@) && prefixed_hex_number(text@) == Some(f@),
            Err(e) => (!is_ascii_chars(text@) || prefixed_hex_number(text@).is_none()) && (
            e matches ParserError::ParseFelt(t) && t@ == text@),
        },
{
    if !text.is_ascii() {
        return Err(ParserError::ParseFelt(text.to_owned()));
    }
    let len = text.unicode_len();
    if len < 2 {
        return Err(ParserError::ParseFelt(text.to_owned()));
    }
    let digits = text.substring_ascii(2, len);
    match Felt::from_hex(digits) {
        Some(f) => Ok(f),
        None => Err(ParserError::ParseFelt(text.to_owned())),
    }
}

/// The numbers that the inputs of a request stand for.
pub open spec fn inputs_view(inputs: Seq<i32>) -> Seq<nat> {
    inputs.map_values(
        |x: i32|
            if x >= 0 {
                x as nat
            } else {
                (prime() + x) as nat
            },
    )
}

/// Turns the inputs of a request into calldata; no inputs give no calldata.
pub fn calldata_from_inputs(inputs: &Option<Vec<i32>>) -> (r: Vec<Felt>)
    ensures
        felts_view(r@) == (match inputs {
            Some(v) => inputs_view(v@),
            None => Seq::<nat>::empty(),
        }),
{
    let mut r: Vec<Felt> = Vec::new();
    match inputs {
        Some(v) => {
            let mut i: usize = 0;
            while i < v.len()
                invariant
                    0 <= i <= v.len(),
                    felts_view(r@) == inputs_view(v@.subrange(0, i as int)),
                decreases v.len() - i,
            {
                let ghost before = r@;
                r.push(Felt::from_i32(v[i]));
                assert(felts_view(r@) =~= felts_view(before).push(r@[i as int]@));
                assert(inputs_view(v@.subrange(0, i + 1)) =~= inputs_view(
                    v@.subrange(0, i as int),
                ).push(inputs_view(v@)[i as int]));
                i += 1;
            }
            assert(v@.subrange(0, v.len() as int) =~= v@);
        },
        None => {
            assert(felts_view(r@) =~= Seq::<nat>::empty());
        },
    }
    r
}

/// The table of one kind of entry point of a Cairo 0 class.
pub open spec fn table_of(class: ContractClassView, entry_point_type: EntryPointType) -> Option<
    Seq<ContractEntryPointView>,
> {
    match entry_point_type {
        EntryPointType::External => class.external,
        EntryPointType::L1Handler => class.l1_handler,
        EntryPointType::Constructor => class.constructor,
    }
}

/// Finds the selector of the entry point that an interface description
/// names by the kind of its table and its place in the table.
pub fn entry_point_selector_at(
    class: &ContractClass,
    entry_point_type: EntryPointType,
    entry_point_index: usize,
) -> (r: Result<Felt, ParserError>)
    ensures
        match table_of(class@, entry_point_type) {
            None => r == Err::<Felt, ParserError>(ParserError::EntryPointType(entry_point_type)),
            Some(table) => if entry_point_index < table.len() {
                r matches Ok(s) && s@ == table[entry_point_index as int].selector
            } else {
                r == Err::<Felt, ParserError>(ParserError::EntryPointIndex(entry_point_index))
            },
        },
{
    let table = match entry_point_type {
        EntryPointType::External => &class.external,
        EntryPointType::L1Handler => &class.l1_handler,
        EntryPointType::Constructor => &class.constructor,
    };
    match table {
        None => Err(ParserError::EntryPointType(entry_point_type)),
        Some(t) => if entry_point_index < t.len() {
            Ok(t[entry_point_index].selector)
        } else {
            Err(ParserError::EntryPointIndex(entry_point_index))
        },
    }
}


/// What is asked with a declaration: where the class is to be read from.
#[derive(Clone, Debug, PartialEq, Eq)]
pub struct DeclareArgs {
    pub contract: String,
}

/// What is asked with a deployment.
#[derive(Clone, Debug, PartialEq, Eq)]
pub struct DeployArgs {
    pub class_hash: String,
    pub salt: i32,
    pub inputs: Option<Vec<i32>>,
}

/// What is asked with an invoke.
#[derive(Clone, Debug, PartialEq, Eq)]
pub struct InvokeArgs {
    pub address: String,
    pub abi: String,
    pub function: String,
    pub inputs: Option<Vec<i32>>,
    pub hash: Option<String>,
}

/// What is asked with a call.
#[derive(Clone, Debug, PartialEq, Eq)]
pub struct CallArgs {
    pub address: String,
    pub abi: String,
    pub function: String,
    pub inputs: Option<Vec<i32>>,
}

/// Takes a declaration into a state: the class is put among the classes at
/// hand under its hash. Gives the hash of the class and the hash of the
/// transaction, which nobody sends and which pays nothing.
pub fn declare_parser<'a, T: StateReader>(
    cached_state: &mut CachedState<'a, T>,
    contract_class: &ContractClass,
    class_hash: Felt,
) -> (r: (Felt, Felt))
    ensures
        r.0 == class_hash,
        r.1@ == declare_hash_of(class_hash@, 0, 0, 0, DECLARE_VERSION as nat, 0),
        final(cached_state).state_reader == old(cached_state).state_reader,
        final(cached_state).cache == old(cached_state).cache,
        final(cached_state).contract_classes@ == old(cached_state).contract_classes@.insert(
            class_hash@,
            CompiledClassView::Deprecated(contract_class@),
        ),
{
    cached_state.set_contract_class(&class_hash, contract_class);
    let tx_hash = calculate_declare_transaction_hash(
        class_hash,
        Felt::zero(),
        &Address(Felt::zero()),
        0,
        Felt::from_u64(DECLARE_VERSION),
        Felt::zero(),
    );
    (class_hash, tx_hash)
}

/// What [`deploy_parser`] does.
pub open spec fn deployed<'a, T: StateReader>(
    pre: &CachedState<'a, T>,
    post: &CachedState<'a, T>,
    args: DeployArgs,
    r: Result<(Felt, Felt), ParserError>,
) -> bool {
    if !is_ascii_chars(args.class_hash@) || prefixed_hex_number(args.class_hash@).is_none() {
        &&& r matches Err(ParserError::ParseFelt(t))
        &&& t@ == args.class_hash@
        &&& *post == *pre
    } else {
        let class_hash = prefixed_hex_number(args.class_hash@)->0;
        let calldata = match args.inputs {
            Some(v) => inputs_view(v@),
            None => Seq::<nat>::empty(),
        };
        let salt: nat = if args.salt >= 0 {
            args.salt as nat
        } else {
            (prime() + args.salt) as nat
        };
        let address = contract_address_of(salt, class_hash, calldata, 0);
        if pre.class_hash_at(address) != 0 {
            &&& r matches Err(ParserError::State(StateError::ContractAddressUnavailable(a)))
            &&& a@ == address
            &&& post.read_step_of(pre)
        } else {
            &&& r matches Ok((a, h))
            &&& a@ == address
            &&& h@ == deploy_hash_of(0, address, calldata, 0)
            &&& post.class_hash_written(pre, address, class_hash)
        }
    }
}

/// Takes a deployment into a state: a contract of the class is put at the
/// address that its salt, its class and its inputs give it, with nobody as
/// the deployer. Gives the address and the hash of the transaction.
pub fn deploy_parser<'a, T: StateReader>(cached_state: &mut CachedState<'a, T>, args: &DeployArgs) -> (r:
    Result<(Felt, Felt), ParserError>)
    ensures
        deployed(old(cached_state), final(cached_state), *args, r),
{
    let constructor_calldata = calldata_from_inputs(&args.inputs);
    let class_hash = match parse_felt(args.class_hash.as_str()) {
        Ok(f) => f,
        Err(e) => {
            return Err(e);
        },
    };
    let address = calculate_contract_address(
        &Felt::from_i32(args.salt),
        &class_hash,
        &constructor_calldata,
        Address(Felt::zero()),
    );
    match cached_state.deploy_contract(Address(address), class_hash) {
        Ok(()) => {},
        Err(e) => {
            return Err(ParserError::State(e));
        },
    }
    let tx_hash = calculate_deploy_transaction_hash(
        Felt::zero(),
        &Address(address),
        &constructor_calldata,
        Felt::zero(),
    );
    Ok((address, tx_hash))
}

/// The selector of the function that a request names, in the class of the
/// contract that the request names: the contract must be there, its class
/// must be a Cairo 0 class, the interface description must know the
/// function, and the class must list it where the description says.
pub open spec fn named_selector<'a, T: StateReader>(
    state: &CachedState<'a, T>,
    contract_address: nat,
    entry: Option<(usize, EntryPointType)>,
) -> Result<nat, NamedSelectorFailure> {
    let class_hash = state.class_hash_at(contract_address);
    match state.contract_class(class_hash) {
        None => Err(NamedSelectorFailure::NoClass(class_hash)),
        Some(CompiledClassView::Casm(_)) => Err(NamedSelectorFailure::NotDeprecated(class_hash)),
        Some(CompiledClassView::Deprecated(class)) => match entry {
            None => Err(NamedSelectorFailure::UnknownFunction),
            Some((index, entry_point_type)) => match table_of(class, entry_point_type) {
                None => Err(NamedSelectorFailure::NoTable(entry_point_type)),
                Some(table) => if index < table.len() {
                    Ok(table[index as int].selector)
                } else {
                    Err(NamedSelectorFailure::NoEntry(index))
                },
            },
        },
    }
}

/// Why a request names no selector.
pub enum NamedSelectorFailure {
    NoClass(nat),
    NotDeprecated(nat),
    UnknownFunction,
    NoTable(EntryPointType),
    NoEntry(usize),
}

/// Whether an error is the one that a request that names no selector is
/// turned down with.
pub open spec fn turns_down(error: ParserError, why: NamedSelectorFailure, function: Seq<char>) -> bool {
    match why {
        NamedSelectorFailure::NoClass(h) => error matches ParserError::State(
            StateError::NoneContractClass(c),
        ) && c@ == h,
        NamedSelectorFailure::NotDeprecated(h) => error matches ParserError::State(
            StateError::WrongClassFormat(c),
        ) && c@ == h,
        NamedSelectorFailure::UnknownFunction => error matches ParserError::FunctionEntryPoint(f)
            && f@ == function,
        NamedSelectorFailure::NoTable(t) => error == ParserError::EntryPointType(t),
        NamedSelectorFailure::NoEntry(i) => error == ParserError::EntryPointIndex(i),
    }
}

/// Finds the selector of the function that a request names. `entry` is what
/// the interface description says of the function: its place in a table and
/// the kind of the table, or nothing where it does not know the function.
pub fn find_named_selector<'a, T: StateReader>(
    cached_state: &mut CachedState<'a, T>,
    contract_address: &Address,
    function: &String,
    entry: Option<(usize, EntryPointType)>,
) -> (r: Result<Felt, ParserError>)
    ensures
        match named_selector(old(cached_state), contract_address@, entry) {
            Ok(selector) => r matches Ok(s) && s@ == selector,
            Err(why) => r matches Err(e) && turns_down(e, why, function@),
        },
        final(cached_state).read_step_of(old(cached_state)),
{
    let class_hash = cached_state.get_class_hash_at(contract_address);
    let contract_class = match cached_state.get_contract_class(&class_hash) {
        Ok(CompiledClass::Deprecated(class)) => class,
        Ok(CompiledClass::Casm(_)) => {
            return Err(ParserError::State(StateError::WrongClassFormat(class_hash)));
        },
        Err(e) => {
            return Err(ParserError::State(e));
        },
    };
    match entry {
        None => Err(ParserError::FunctionEntryPoint(function.clone())),
        Some((index, entry_point_type)) => entry_point_selector_at(
            &contract_class,
            entry_point_type,
            index,
        ),
    }
}

/// What [`invoke_parser`] does.
pub open spec fn invoke_parsed<'a, T: StateReader>(
    state: &CachedState<'a, T>,
    args: InvokeArgs,
    entry: Option<(usize, EntryPointType)>,
    r: Result<(InvokeFunction, Felt), ParserError>,
) -> bool {
    if !is_ascii_chars(args.address@) || prefixed_hex_number(args.address@).is_none() {
        r matches Err(ParserError::ParseFelt(t)) && t@ == args.address@
    } else {
        let contract_address = prefixed_hex_number(args.address@)->0;
        match named_selector(state, contract_address, entry) {
            Err(why) => r matches Err(e) && turns_down(e, why, args.function@),
            Ok(selector) => match args.hash {
                Some(h) if hex_number(h@).is_none() => r matches Err(ParserError::ParseFelt(t))
                    && t@ == h@,
                _ => {
                    let calldata = match args.inputs {
                        Some(v) => inputs_view(v@),
                        None => Seq::<nat>::empty(),
                    };
                    &&& r matches Ok((tx, tx_hash))
                    &&& tx@ == (InvokeFunctionView {
                        contract_address,
                        entry_point_selector: selector,
                        entry_point_type: EntryPointType::External,
                        calldata,
                        tx_type: crate::definitions::transaction_type::TransactionType::InvokeFunction,
                        version: TRANSACTION_VERSION as nat,
                        validate_entry_point_selector: crate::definitions::constants::spec_validate_entry_point_selector(),
                        hash_value: match args.hash {
                            Some(h) => hex_number(h@)->0,
                            None => transaction_hash_of(
                                TransactionHashPrefix::Invoke,
                                TRANSACTION_VERSION as nat,
                                contract_address,
                                0,
                                calldata,
                                0,
                                0,
                                seq![0nat],
                            ),
                        },
                        signature: Seq::empty(),
                        max_fee: 0,
                        nonce: Some(0nat),
                    })
                    &&& tx_hash@ == transaction_hash_of(
                        TransactionHashPrefix::Invoke,
                        TRANSACTION_VERSION as nat,
                        contract_address,
                        selector,
                        calldata,
                        0,
                        0,
                        Seq::empty(),
                    )
                },
            },
        }
    }
}

/// Makes the invoke that a request asks for, and the hash that the request
/// is answered with. The invoke is of the version of this runtime, with
/// nonce zero, without a fee and without a signature.
pub fn invoke_parser<'a, T: StateReader>(
    cached_state: &mut CachedState<'a, T>,
    args: &InvokeArgs,
    entry: Option<(usize, EntryPointType)>,
) -> (r: Result<(InvokeFunction, Felt), ParserError>)
    ensures
        invoke_parsed(old(cached_state), *args, entry, r),
        final(cached_state).read_step_of(old(cached_state)),
{
    let contract_address = match parse_felt(args.address.as_str()) {
        Ok(f) => Address(f),
        Err(e) => {
            return Err(e);
        },
    };
    let entrypoint_selector = match find_named_selector(
        cached_state,
        &contract_address,
        &args.function,
        entry,
    ) {
        Ok(s) => s,
        Err(e) => {
            return Err(e);
        },
    };
    let transaction_hash = match &args.hash {
        Some(h) => match Felt::from_hex(h.as_str()) {
            Some(f) => Some(f),
            None => {
                return Err(ParserError::ParseFelt(h.clone()));
            },
        },
        None => None,
    };
    let calldata = calldata_from_inputs(&args.inputs);
    let tx_hash = calculate_transaction_hash_common(
        TransactionHashPrefix::Invoke,
        Felt::from_u64(TRANSACTION_VERSION),
        &contract_address,
        entrypoint_selector,
        &calldata,
        0,
        Felt::zero(),
        &Vec::new(),
    );
    let signature: Vec<Felt> = Vec::new();
    assert(felts_view(signature@) =~= Seq::<nat>::empty());
    match InvokeFunction::new(
        contract_address,
        entrypoint_selector,
        0,
        Felt::from_u64(TRANSACTION_VERSION),
        calldata,
        signature,
        Felt::zero(),
        Some(Felt::zero()),
        transaction_hash,
    ) {
        Ok(tx) => Ok((tx, tx_hash)),
        Err(e) => Err(ParserError::Transaction(e)),
    }
}

/// Makes the call that a request asks for: a call of the named function of
/// the named contract, on behalf of nobody.
pub fn call_parser<'a, T: StateReader>(
    cached_state: &mut CachedState<'a, T>,
    args: &CallArgs,
    entry: Option<(usize, EntryPointType)>,
) -> (r: Result<ExecutionEntryPoint, ParserError>)
    ensures
        if !is_ascii_chars(args.address@) || prefixed_hex_number(args.address@).is_none() {
            r matches Err(ParserError::ParseFelt(t)) && t@ == args.address@
        } else {
            match named_selector(
                old(cached_state),
                prefixed_hex_number(args.address@)->0,
                entry,
            ) {
                Err(why) => r matches Err(e) && turns_down(e, why, args.function@),
                Ok(selector) => r matches Ok(call) && call@ == (ExecutionEntryPointView {
                    call_type: CallType::Call,
                    contract_address: prefixed_hex_number(args.address@)->0,
                    code_address: None,
                    class_hash: None,
                    calldata: match args.inputs {
                        Some(v) => inputs_view(v@),
                        None => Seq::<nat>::empty(),
                    },
                    caller_address: 0,
                    entry_point_selector: selector,
                    entry_point_type: (entry->0).1,
                    initial_gas: 0,
                }),
            }
        },
        final(cached_state).read_step_of(old(cached_state)),
{
    let contract_address = match parse_felt(args.address.as_str()) {
        Ok(f) => Address(f),
        Err(e) => {
            return Err(e);
        },
    };
    let entrypoint_selector = match find_named_selector(
        cached_state,
        &contract_address,
        &args.function,
        entry,
    ) {
        Ok(s) => s,
        Err(e) => {
            return Err(e);
        },
    };
    let entry_point_type = match entry {
        Some((_, t)) => t,
        None => EntryPointType::External,
    };
    Ok(
        ExecutionEntryPoint::new(
            contract_address,
            calldata_from_inputs(&args.inputs),
            entrypoint_selector,
            Address(Felt::zero()),
            entry_point_type,
            None,
            None,
            0,
        ),
    )
}

} // verus!
