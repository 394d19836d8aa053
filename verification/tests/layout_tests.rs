use starknet_in_rust::class_hash::compute_deprecated_class_hash;
use starknet_in_rust::contract_class::{CasmContractClass, ContractClass, ContractEntryPoint};
use starknet_in_rust::definitions::block_context::{BlockContext, OsResources, SyscallSteps};
use starknet_in_rust::definitions::constants::{DECLARE_VERSION, TRANSACTION_VERSION};
use starknet_in_rust::definitions::transaction_type::TransactionType;
use starknet_in_rust::error::{ParserError, StateError, SyscallHandlerError, TransactionError};
use starknet_in_rust::execution::native_entrypoint::{function_id_by_selector, NativeEntryPoint};
use starknet_in_rust::execution::{
    CallInfo, CallType, EntryPointType, ExecutionEntryPoint, ExecutionResources, ResourceUsage,
};
use starknet_in_rust::felt::Felt;
use starknet_in_rust::hash_utils::{
    calculate_contract_address, calculate_declare_transaction_hash,
    calculate_deploy_transaction_hash, calculate_transaction_hash_common,
    compute_hash_on_elements, TransactionHashPrefix,
};
use starknet_in_rust::parser::{
    call_parser, declare_parser, deploy_parser, entry_point_selector_at, invoke_parser, CallArgs,
    DeployArgs, InvokeArgs,
};
use starknet_in_rust::state::cached_state::CachedState;
use starknet_in_rust::state::execution_resources_manager::ExecutionResourcesManager;
use starknet_in_rust::state::in_memory_state_reader::InMemoryStateReader;
use starknet_in_rust::state::list_map::{ListMap, StorageEntry};
use starknet_in_rust::state::state_api::State;
use starknet_in_rust::syscalls::deprecated_syscall_request::{MaybeRelocatable, Relocatable};
use starknet_in_rust::syscalls::syscall_layout::{
    block_info_cells, cairo1_response_cells, cairo1_tx_info_cells, execution_info_cells,
    get_body_size, read_syscall_body, read_syscall_head, syscall_kind_of, Cairo1SyscallRequest,
    Span,
};
use starknet_in_rust::syscalls::syscall_request::{
    ExecutionInfo, SyscallKind, SyscallRequest, SyscallResponse, TxInfo,
};
use starknet_in_rust::transaction::fee::{calculate_tx_fee, calculate_tx_resources};
use starknet_in_rust::transaction::invoke_function::{plan_fee_charge, FeeCharge};
use starknet_in_rust::utils::{scope, Address};

fn felt(n: u64) -> Felt {
    Felt::from_u64(n)
}

fn word(text: &str) -> Felt {
    let mut bytes = [0u8; 32];
    bytes[32 - text.len()..].copy_from_slice(text.as_bytes());
    Felt::from_bytes_be(&bytes)
}

fn number(n: u64) -> Option<MaybeRelocatable> {
    Some(MaybeRelocatable::Int(felt(n)))
}

fn place(segment_index: isize, offset: usize) -> Relocatable {
    Relocatable { segment_index, offset }
}

fn pointer(segment_index: isize, offset: usize) -> Option<MaybeRelocatable> {
    Some(MaybeRelocatable::RelocatableValue(place(segment_index, offset)))
}

// ---------------------------------------------------------------------------
// Requests and answers of Cairo 1 code.
// ---------------------------------------------------------------------------

#[test]
fn system_calls_are_named_by_words() {
    for (text, kind) in [
        ("CallContract", SyscallKind::CallContract),
        ("Deploy", SyscallKind::Deploy),
        ("EmitEvent", SyscallKind::EmitEvent),
        ("GetExecutionInfo", SyscallKind::GetExecutionInfo),
        ("LibraryCall", SyscallKind::LibraryCall),
        ("ReplaceClass", SyscallKind::ReplaceClass),
        ("SendMessageToL1", SyscallKind::SendMessageToL1),
        ("StorageRead", SyscallKind::StorageRead),
        ("StorageWrite", SyscallKind::StorageWrite),
    ] {
        assert_eq!(syscall_kind_of(&word(text)), Ok(kind));
    }
    assert_eq!(
        syscall_kind_of(&felt(77)),
        Err(SyscallHandlerError::UnknownSyscall("77".to_string()))
    );
}

#[test]
fn the_head_of_a_request_names_the_call_and_the_gas() {
    let head = vec![Some(MaybeRelocatable::Int(word("StorageRead"))), number(5000)];
    assert_eq!(read_syscall_head(&head), Ok((SyscallKind::StorageRead, 5000)));
    assert_eq!(
        read_syscall_head(&vec![number(1)]),
        Err(SyscallHandlerError::MissingCells)
    );
    assert_eq!(
        read_syscall_head(&vec![pointer(1, 1), number(1)]),
        Err(SyscallHandlerError::ExpectedInteger(0))
    );
    assert_eq!(
        read_syscall_head(&vec![number(1), number(1)]),
        Err(SyscallHandlerError::UnknownSyscall("1".to_string()))
    );
    assert_eq!(
        read_syscall_head(&vec![Some(MaybeRelocatable::Int(word("Deploy"))), None]),
        Err(SyscallHandlerError::MissingValue(1))
    );
    let too_much = Felt::from_u128(u128::MAX).plus(&felt(1));
    assert_eq!(
        read_syscall_head(&vec![
            Some(MaybeRelocatable::Int(word("Deploy"))),
            Some(MaybeRelocatable::Int(too_much))
        ]),
        Err(SyscallHandlerError::FeltToUsize(1))
    );
}

#[test]
fn the_body_of_a_request_is_read_by_its_kind() {
    assert_eq!(get_body_size(SyscallKind::Deploy), 5);
    assert_eq!(get_body_size(SyscallKind::GetExecutionInfo), 0);
    assert_eq!(
        read_syscall_body(
            SyscallKind::Deploy,
            &vec![number(9), number(8), pointer(3, 2), pointer(3, 4), number(1)]
        ),
        Ok(Cairo1SyscallRequest::Deploy {
            class_hash: felt(9),
            contract_address_salt: felt(8),
            calldata: Span { start: place(3, 2), end: place(3, 4) },
            deploy_from_zero: true,
        })
    );
    assert_eq!(
        read_syscall_body(
            SyscallKind::CallContract,
            &vec![number(9), number(8), pointer(3, 2), pointer(3, 4)]
        ),
        Ok(Cairo1SyscallRequest::CallContract {
            contract_address: Address(felt(9)),
            function_selector: felt(8),
            calldata: Span { start: place(3, 2), end: place(3, 4) },
        })
    );
    assert_eq!(
        read_syscall_body(
            SyscallKind::EmitEvent,
            &vec![pointer(3, 0), pointer(3, 1), pointer(4, 0), number(4)]
        ),
        Err(SyscallHandlerError::ExpectedRelocatable(3))
    );
    assert_eq!(
        read_syscall_body(SyscallKind::StorageWrite, &vec![number(0), number(8)]),
        Err(SyscallHandlerError::MissingCells)
    );
    assert_eq!(
        read_syscall_body(SyscallKind::StorageWrite, &vec![number(0), number(8), number(7)]),
        Ok(Cairo1SyscallRequest::StorageWrite {
            address_domain: felt(0),
            address: felt(8),
            value: felt(7)
        })
    );
    assert_eq!(
        read_syscall_body(SyscallKind::GetExecutionInfo, &vec![]),
        Ok(Cairo1SyscallRequest::GetExecutionInfo)
    );
    assert_eq!(
        read_syscall_body(SyscallKind::GetBlockNumber, &vec![]),
        Err(SyscallHandlerError::NoLayout)
    );
}

#[test]
fn arrays_lie_between_their_start_and_their_end() {
    assert_eq!(Span { start: place(3, 2), end: place(3, 6) }.len(), Some(4));
    assert_eq!(Span { start: place(3, 2), end: place(3, 2) }.len(), Some(0));
    assert_eq!(Span { start: place(3, 2), end: place(3, 1) }.len(), None);
    assert_eq!(Span { start: place(3, 2), end: place(4, 6) }.len(), None);
    let request = Cairo1SyscallRequest::EmitEvent {
        keys: Span { start: place(3, 0), end: place(3, 1) },
        data: Span { start: place(4, 0), end: place(4, 2) },
    };
    assert_eq!(
        request.arrays(),
        vec![
            Span { start: place(3, 0), end: place(3, 1) },
            Span { start: place(4, 0), end: place(4, 2) }
        ]
    );
    assert_eq!(
        request.complete(vec![vec![felt(1)], vec![felt(2), felt(3)]]),
        Ok(SyscallRequest::EmitEvent { keys: vec![felt(1)], data: vec![felt(2), felt(3)] })
    );
    assert_eq!(
        request.complete(vec![vec![felt(1)], vec![felt(2)]]),
        Err(SyscallHandlerError::WrongArrays)
    );
    let bad = Cairo1SyscallRequest::LibraryCall {
        class_hash: felt(1),
        function_selector: felt(2),
        calldata: Span { start: place(3, 2), end: place(3, 1) },
    };
    assert_eq!(bad.complete(vec![vec![]]), Err(SyscallHandlerError::WrongArrays));
    assert_eq!(
        Cairo1SyscallRequest::ReplaceClass { class_hash: felt(5) }.complete(vec![]),
        Ok(SyscallRequest::ReplaceClass { class_hash: felt(5) })
    );
}

fn cells(values: Vec<Option<MaybeRelocatable>>) -> Vec<MaybeRelocatable> {
    values.into_iter().map(|v| v.unwrap()).collect()
}

#[test]
fn answers_start_with_the_gas_and_the_flag() {
    assert_eq!(
        cairo1_response_cells(&SyscallResponse::Empty, 900, None),
        Ok(cells(vec![number(900), number(0)]))
    );
    assert_eq!(
        cairo1_response_cells(&SyscallResponse::StorageRead { value: felt(5) }, 900, None),
        Ok(cells(vec![number(900), number(0), number(5)]))
    );
    assert_eq!(
        cairo1_response_cells(
            &SyscallResponse::CallContract { retdata: vec![felt(5), felt(6)] },
            900,
            Some(place(7, 0))
        ),
        Ok(cells(vec![number(900), number(0), pointer(7, 0), pointer(7, 2)]))
    );
    assert_eq!(
        cairo1_response_cells(
            &SyscallResponse::Failure { retdata: vec![felt(5)] },
            900,
            Some(place(7, 3))
        ),
        Ok(cells(vec![number(900), number(1), pointer(7, 3), pointer(7, 4)]))
    );
    assert_eq!(
        cairo1_response_cells(
            &SyscallResponse::Deploy { contract_address: Address(felt(44)), retdata: vec![] },
            0,
            Some(place(7, 0))
        ),
        Ok(cells(vec![number(0), number(0), number(44), pointer(7, 0), pointer(7, 0)]))
    );
    assert_eq!(
        cairo1_response_cells(
            &SyscallResponse::CallContract { retdata: vec![felt(5)] },
            900,
            None
        ),
        Err(SyscallHandlerError::WrongArrays)
    );
    assert_eq!(
        cairo1_response_cells(
            &SyscallResponse::CallContract { retdata: vec![felt(5)] },
            900,
            Some(place(7, usize::MAX))
        ),
        Err(SyscallHandlerError::WrongArrays)
    );
    assert_eq!(
        cairo1_response_cells(&SyscallResponse::GetBlockNumber { block_number: 1 }, 900, None),
        Err(SyscallHandlerError::NoLayout)
    );
}

#[test]
fn execution_info_is_laid_out_in_three_records() {
    let info = ExecutionInfo {
        block_number: 1,
        block_timestamp: 2,
        sequencer_address: Address(felt(3)),
        tx_info: TxInfo {
            version: felt(4),
            account_contract_address: Address(felt(5)),
            max_fee: 6,
            signature: vec![felt(7), felt(8)],
            transaction_hash: felt(9),
            chain_id: felt(10),
            nonce: felt(11),
        },
        caller_address: Address(felt(12)),
        contract_address: Address(felt(13)),
        entry_point_selector: felt(14),
    };
    assert_eq!(block_info_cells(&info), cells(vec![number(1), number(2), number(3)]));
    assert_eq!(
        cairo1_tx_info_cells(&info.tx_info, place(5, 0)),
        Some(cells(vec![
            number(4),
            number(5),
            number(6),
            pointer(5, 0),
            pointer(5, 2),
            number(9),
            number(10),
            number(11)
        ]))
    );
    assert_eq!(cairo1_tx_info_cells(&info.tx_info, place(5, usize::MAX)), None);
    assert_eq!(
        execution_info_cells(&info, place(6, 0), place(7, 0)),
        cells(vec![pointer(6, 0), pointer(7, 0), number(12), number(13), number(14)])
    );
    assert_eq!(
        cairo1_response_cells(
            &SyscallResponse::GetExecutionInfo { execution_info: info },
            5,
            Some(place(8, 0))
        ),
        Ok(cells(vec![number(5), number(0), pointer(8, 0)]))
    );
}

// ---------------------------------------------------------------------------
// The hash of a class.
// ---------------------------------------------------------------------------

#[test]
fn the_class_hash_is_the_hash_of_its_parts() {
    let class = ContractClass {
        program: vec![],
        external: Some(vec![
            ContractEntryPoint::new(felt(5), 50),
            ContractEntryPoint::new(felt(6), 60),
        ]),
        l1_handler: None,
        constructor: Some(vec![]),
    };
    let builtins = vec![word("pedersen"), word("range_check")];
    let data = vec![felt(1), felt(2), felt(3)];
    let empty = compute_hash_on_elements(&vec![]);
    let expected = compute_hash_on_elements(&vec![
        felt(0),
        compute_hash_on_elements(&vec![felt(5), felt(50), felt(6), felt(60)]),
        empty,
        empty,
        compute_hash_on_elements(&builtins),
        felt(777),
        compute_hash_on_elements(&data),
    ]);
    let hash = compute_deprecated_class_hash(&class, &builtins, felt(777), &data);
    assert_eq!(hash, expected);
    assert_ne!(hash, compute_deprecated_class_hash(&class, &builtins, felt(778), &data));
    assert_ne!(hash, compute_deprecated_class_hash(&class, &vec![], felt(777), &data));
}

// ---------------------------------------------------------------------------
// What a transaction used and what it costs.
// ---------------------------------------------------------------------------

fn resources(n_steps: usize, pedersen: usize, range_check: usize) -> ExecutionResources {
    let mut r = ExecutionResources::new();
    r.n_steps = n_steps;
    r.pedersen_builtin = pedersen;
    r.range_check_builtin = range_check;
    r
}

#[test]
fn the_fee_is_the_weighted_usage_times_the_price() {
    let mut context = BlockContext::default_context();
    context.cairo_resource_fee_weights.l1_gas_usage = 2;
    context.cairo_resource_fee_weights.pedersen_builtin = 16;
    context.cairo_resource_fee_weights.range_check_builtin = 70;
    context.cairo_resource_fee_weights.n_steps = 1;
    let usage = ResourceUsage { l1_gas_usage: 100, cairo_usage: resources(50, 3, 20) };
    // 2 * 100 + 1 * 50 + 16 * 3 + 70 * 20 = 1698
    assert_eq!(calculate_tx_fee(&usage, 1, &context), Ok(1698));
    assert_eq!(calculate_tx_fee(&usage, 3, &context), Ok(5094));
    assert_eq!(calculate_tx_fee(&usage, 0, &context), Ok(0));
    assert_eq!(
        calculate_tx_fee(&usage, u128::MAX, &context),
        Err(TransactionError::ResourcesCalculation)
    );
    context.cairo_resource_fee_weights.output_builtin = u128::MAX;
    let mut with_output = usage;
    with_output.cairo_usage.output_builtin = 2;
    assert_eq!(
        calculate_tx_fee(&with_output, 1, &context),
        Err(TransactionError::ResourcesCalculation)
    );
    // Without a price nothing costs anything, whatever the weights.
    assert_eq!(calculate_tx_fee(&with_output, 0, &context), Ok(0));
    // A resource without a weight weighs nothing.
    let mut other = usage;
    other.cairo_usage.keccak_builtin = 1000;
    context.cairo_resource_fee_weights.output_builtin = 0;
    assert_eq!(calculate_tx_fee(&other, 1, &context), Ok(1698));
}

#[test]
fn the_fee_is_charged_within_its_bound() {
    let mut context = BlockContext::default_context();
    context.cairo_resource_fee_weights.range_check_builtin = 70;
    context.starknet_os_config.gas_price = 1;
    context.starknet_os_config.fee_token_address = Address(felt(4444));
    context.block_info.sequencer_address = Address(felt(321));
    let usage = ResourceUsage { l1_gas_usage: 0, cairo_usage: resources(0, 0, 20) };
    assert_eq!(
        plan_fee_charge(&usage, &context, 0, Address(felt(1))),
        Ok(FeeCharge::Nothing)
    );
    assert_eq!(
        plan_fee_charge(&usage, &context, 1399, Address(felt(1))),
        Err(TransactionError::FeeError("Actual fee exceeded max fee".to_string()))
    );
    match plan_fee_charge(&usage, &context, 1400, Address(felt(1))) {
        Ok(FeeCharge::Transfer { actual_fee, call }) => {
            assert_eq!(actual_fee, 1400);
            assert_eq!(call.entry_point.contract_address, Address(felt(4444)));
            assert_eq!(call.entry_point.caller_address, Address(felt(1)));
            assert_eq!(call.entry_point.calldata, vec![felt(321), felt(1400), felt(0)]);
            assert_eq!(call.entry_point.call_type, CallType::Call);
            assert!(!call.must_stay_in_contract);
            assert_eq!(call.n_steps, context.invoke_tx_max_n_steps);
        }
        other => panic!("the fee came to {other:?}"),
    }
    context.starknet_os_config.gas_price = u128::MAX;
    assert_eq!(
        plan_fee_charge(&usage, &context, 1400, Address(felt(1))),
        Err(TransactionError::ResourcesCalculation)
    );
}

#[test]
fn the_resources_of_a_transaction_are_added_up() {
    let mut manager = ExecutionResourcesManager::new();
    manager.cairo_usage = resources(100, 2, 3);
    assert!(manager.increment_syscall_counter(SyscallKind::StorageRead, 2));
    assert!(manager.increment_syscall_counter(SyscallKind::EmitEvent, 1));
    assert!(manager.increment_syscall_counter(SyscallKind::StorageRead, 1));
    assert_eq!(manager.get_syscall_counter(SyscallKind::StorageRead), 3);
    assert_eq!(manager.get_syscall_counter(SyscallKind::Deploy), 0);
    assert_eq!(manager.total_syscalls(), Some(4));
    let os = OsResources {
        syscall_steps: SyscallSteps::uniform(10),
        declare_overhead: resources(1000, 0, 0),
        deploy_account_overhead: resources(2000, 1, 0),
        invoke_overhead: resources(3000, 0, 1),
        gas_per_data_word: 5,
        syscall_gas_cost: 0,
    };
    assert_eq!(
        calculate_tx_resources(&manager, TransactionType::InvokeFunction, (2, 3), &os),
        Ok(ResourceUsage { l1_gas_usage: 50, cairo_usage: resources(3140, 2, 4) })
    );
    assert_eq!(
        calculate_tx_resources(&manager, TransactionType::DeployAccount, (0, 0), &os),
        Ok(ResourceUsage { l1_gas_usage: 0, cairo_usage: resources(2140, 3, 3) })
    );
    assert_eq!(
        calculate_tx_resources(&manager, TransactionType::L1Handler, (1, 0), &os),
        Ok(ResourceUsage { l1_gas_usage: 10, cairo_usage: resources(140, 2, 3) })
    );
    // Each kind of system call weighs what it is set to weigh.
    let mut uneven = os;
    uneven.syscall_steps.storage_read = 100;
    uneven.syscall_steps.emit_event = 7;
    uneven.syscall_steps.deploy = 1000;
    assert_eq!(manager.weighted_syscalls(&uneven.syscall_steps), Some(307));
    assert_eq!(
        calculate_tx_resources(&manager, TransactionType::L1Handler, (0, 0), &uneven),
        Ok(ResourceUsage { l1_gas_usage: 0, cairo_usage: resources(407, 2, 3) })
    );
    let mut greedy = os;
    greedy.syscall_steps.storage_read = usize::MAX;
    assert_eq!(
        calculate_tx_resources(&manager, TransactionType::Declare, (0, 0), &greedy),
        Err(TransactionError::ResourcesCalculation)
    );
    greedy = os;
    greedy.invoke_overhead.pedersen_builtin = usize::MAX;
    assert_eq!(
        calculate_tx_resources(&manager, TransactionType::InvokeFunction, (0, 0), &greedy),
        Err(TransactionError::ResourcesCalculation)
    );
    greedy = os;
    greedy.gas_per_data_word = usize::MAX;
    assert_eq!(
        calculate_tx_resources(&manager, TransactionType::InvokeFunction, (1, 1), &greedy),
        Err(TransactionError::ResourcesCalculation)
    );
    assert!(!manager.increment_syscall_counter(SyscallKind::StorageRead, u64::MAX));
    assert_eq!(manager.get_syscall_counter(SyscallKind::StorageRead), 3);
    assert!(manager.increment_syscall_counter(SyscallKind::Deploy, u64::MAX));
    assert_eq!(manager.total_syscalls(), None);
    assert_eq!(
        calculate_tx_resources(&manager, TransactionType::InvokeFunction, (0, 0), &os),
        Err(TransactionError::ResourcesCalculation)
    );
    assert_eq!(
        resources(1, 2, 3).checked_plus(&resources(10, 20, 30)),
        Some(resources(11, 22, 33))
    );
    assert_eq!(resources(usize::MAX, 0, 0).checked_plus(&resources(1, 0, 0)), None);
}

// ---------------------------------------------------------------------------
// The requests of the front end.
// ---------------------------------------------------------------------------

fn abi_class() -> ContractClass {
    ContractClass {
        program: vec![],
        external: Some(vec![
            ContractEntryPoint::new(felt(5), 50),
            ContractEntryPoint::new(felt(6), 60),
        ]),
        l1_handler: None,
        constructor: Some(vec![]),
    }
}

#[test]
fn entry_points_are_named_by_table_and_place() {
    let class = abi_class();
    assert_eq!(entry_point_selector_at(&class, EntryPointType::External, 1), Ok(felt(6)));
    assert_eq!(
        entry_point_selector_at(&class, EntryPointType::External, 2),
        Err(ParserError::EntryPointIndex(2))
    );
    assert_eq!(
        entry_point_selector_at(&class, EntryPointType::L1Handler, 0),
        Err(ParserError::EntryPointType(EntryPointType::L1Handler))
    );
    assert_eq!(
        entry_point_selector_at(&class, EntryPointType::Constructor, 0),
        Err(ParserError::EntryPointIndex(0))
    );
}

#[test]
fn a_declaration_registers_the_class() {
    let reader = InMemoryStateReader::new();
    let mut state = CachedState::new(&reader, ListMap::new());
    let class = abi_class();
    let (class_hash, tx_hash) = declare_parser(&mut state, &class, felt(900));
    assert_eq!(class_hash, felt(900));
    assert_eq!(
        tx_hash,
        calculate_declare_transaction_hash(
            felt(900),
            felt(0),
            &Address(felt(0)),
            0,
            felt(DECLARE_VERSION),
            felt(0)
        )
    );
    assert!(state.get_contract_class(&felt(900)).is_ok());
}

#[test]
fn a_deployment_puts_the_contract_at_its_address() {
    let reader = InMemoryStateReader::new();
    let mut state = CachedState::new(&reader, ListMap::new());
    let args = DeployArgs { class_hash: "0x384".to_string(), salt: 1111, inputs: Some(vec![3, 4]) };
    let (address, tx_hash) = deploy_parser(&mut state, &args).unwrap();
    let calldata = vec![felt(3), felt(4)];
    assert_eq!(
        address,
        calculate_contract_address(&felt(1111), &felt(900), &calldata, Address(felt(0)))
    );
    assert_eq!(
        tx_hash,
        calculate_deploy_transaction_hash(felt(0), &Address(address), &calldata, felt(0))
    );
    assert_eq!(state.get_class_hash_at(&Address(address)), felt(900));
    assert_eq!(
        deploy_parser(&mut state, &args),
        Err(ParserError::State(StateError::ContractAddressUnavailable(Address(address))))
    );
    // The first two letters are passed over, whatever they are.
    let bad = DeployArgs { class_hash: "0xg".to_string(), salt: 1, inputs: None };
    assert_eq!(
        deploy_parser(&mut state, &bad),
        Err(ParserError::ParseFelt("0xg".to_string()))
    );
    let negative = DeployArgs { class_hash: "0x384".to_string(), salt: -1, inputs: None };
    let (address, _) = deploy_parser(&mut state, &negative).unwrap();
    assert_eq!(
        address,
        calculate_contract_address(
            &Felt::zero().minus(&felt(1)),
            &felt(900),
            &vec![],
            Address(felt(0))
        )
    );
}

fn state_with_contract(reader: &InMemoryStateReader) -> CachedState<'_, InMemoryStateReader> {
    let mut state = CachedState::new(reader, ListMap::new());
    state.set_contract_class(&felt(900), &abi_class());
    state.deploy_contract(Address(felt(0x77)), felt(900)).unwrap();
    state.set_compiled_class(
        &felt(901),
        CasmContractClass {
            bytecode: vec![],
            hints: vec![],
            external: vec![],
            l1_handler: vec![],
            constructor: vec![],
        },
    );
    state.deploy_contract(Address(felt(0x78)), felt(901)).unwrap();
    state
}

#[test]
fn an_invoke_is_made_of_a_request() {
    let reader = InMemoryStateReader::new();
    let mut state = state_with_contract(&reader);
    let args = InvokeArgs {
        address: "0x77".to_string(),
        abi: "abi.json".to_string(),
        function: "second".to_string(),
        inputs: Some(vec![10]),
        hash: None,
    };
    let (tx, tx_hash) = invoke_parser(&mut state, &args, Some((1, EntryPointType::External))).unwrap();
    assert_eq!(tx.contract_address, Address(felt(0x77)));
    assert_eq!(tx.entry_point_selector, felt(6));
    assert_eq!(tx.calldata, vec![felt(10)]);
    assert_eq!(tx.version, felt(TRANSACTION_VERSION));
    assert_eq!(tx.nonce, Some(felt(0)));
    assert_eq!(tx.max_fee, 0);
    assert_eq!(
        tx_hash,
        calculate_transaction_hash_common(
            TransactionHashPrefix::Invoke,
            felt(TRANSACTION_VERSION),
            &Address(felt(0x77)),
            felt(6),
            &vec![felt(10)],
            0,
            felt(0),
            &vec![],
        )
    );
    let with_hash = InvokeArgs { hash: Some("ff".to_string()), ..args.clone() };
    let (tx, _) = invoke_parser(&mut state, &with_hash, Some((0, EntryPointType::External))).unwrap();
    assert_eq!(tx.hash_value, felt(255));
    assert_eq!(tx.entry_point_selector, felt(5));

    let fails = |state: &mut CachedState<'_, InMemoryStateReader>, args: &InvokeArgs, entry| {
        invoke_parser(state, args, entry).err().unwrap()
    };
    assert_eq!(
        fails(&mut state, &args, None),
        ParserError::FunctionEntryPoint("second".to_string())
    );
    assert_eq!(
        fails(&mut state, &args, Some((2, EntryPointType::External))),
        ParserError::EntryPointIndex(2)
    );
    assert_eq!(
        fails(&mut state, &args, Some((0, EntryPointType::L1Handler))),
        ParserError::EntryPointType(EntryPointType::L1Handler)
    );
    let bad_hash = InvokeArgs { hash: Some("xyz".to_string()), ..args.clone() };
    assert_eq!(
        fails(&mut state, &bad_hash, Some((0, EntryPointType::External))),
        ParserError::ParseFelt("xyz".to_string())
    );
    let bad_address = InvokeArgs { address: "0xzz".to_string(), ..args.clone() };
    assert_eq!(
        fails(&mut state, &bad_address, Some((0, EntryPointType::External))),
        ParserError::ParseFelt("0xzz".to_string())
    );
    let nowhere = InvokeArgs { address: "0x99".to_string(), ..args.clone() };
    assert_eq!(
        fails(&mut state, &nowhere, Some((0, EntryPointType::External))),
        ParserError::State(StateError::NoneContractClass(felt(0)))
    );
    let cairo1 = InvokeArgs { address: "0x78".to_string(), ..args };
    assert_eq!(
        fails(&mut state, &cairo1, Some((0, EntryPointType::External))),
        ParserError::State(StateError::WrongClassFormat(felt(901)))
    );
}

#[test]
fn a_call_is_made_of_a_request() {
    let reader = InMemoryStateReader::new();
    let mut state = state_with_contract(&reader);
    let args = CallArgs {
        address: "0x77".to_string(),
        abi: "abi.json".to_string(),
        function: "first".to_string(),
        inputs: None,
    };
    assert_eq!(
        call_parser(&mut state, &args, Some((0, EntryPointType::External))),
        Ok(ExecutionEntryPoint::new(
            Address(felt(0x77)),
            vec![],
            felt(5),
            Address(felt(0)),
            EntryPointType::External,
            None,
            None,
            0
        ))
    );
    assert_eq!(
        call_parser(&mut state, &args, None),
        Err(ParserError::FunctionEntryPoint("first".to_string()))
    );
}

// ---------------------------------------------------------------------------
// Small things.
// ---------------------------------------------------------------------------

fn write_through<S: State>(state: &mut S) -> (usize, usize) {
    state.set_storage_at(&StorageEntry(Address(felt(1)), felt(2)), felt(3));
    state.increment_nonce(&Address(felt(4)));
    state.set_class_hash_at(Address(felt(5)), felt(6));
    assert_eq!(
        state.deploy_contract(Address(felt(5)), felt(7)),
        Err(StateError::ContractAddressUnavailable(Address(felt(5))))
    );
    assert_eq!(state.deploy_contract(Address(felt(8)), felt(7)), Ok(()));
    state.set_compiled_class_hash(&felt(7), &felt(70));
    state.count_actual_storage_changes()
}

#[test]
fn a_state_can_be_written_through_its_trait() {
    let reader = InMemoryStateReader::new();
    let mut state = CachedState::new(&reader, ListMap::new());
    assert_eq!(write_through(&mut state), (4, 1));
    assert_eq!(state.get_storage_at(&StorageEntry(Address(felt(1)), felt(2))), felt(3));
    assert_eq!(state.get_nonce_at(&Address(felt(4))), felt(1));
    assert_eq!(state.get_class_hash_at(&Address(felt(5))), felt(6));
    assert_eq!(state.get_class_hash_at(&Address(felt(8))), felt(7));
    assert_eq!(state.get_compiled_class_hash(&felt(7)), felt(70));
}

#[test]
fn native_calls_are_named_and_recorded() {
    assert_eq!(
        function_id_by_selector(&felt(0)),
        Some("fib_contract::fib_contract::Fibonacci::fib".to_string())
    );
    assert_eq!(function_id_by_selector(&felt(1)), Some(String::new()));
    assert_eq!(function_id_by_selector(&felt(2)), None);
    let mut reader = InMemoryStateReader::new();
    reader.address_to_class_hash_mut().insert(Address(felt(9)), felt(90));
    let mut state = CachedState::new(&reader, ListMap::new());
    let entry_point =
        NativeEntryPoint::new(Address(felt(9)), vec![felt(10)], felt(0), Address(felt(1)), 9000);
    let (class_hash, function) = entry_point.prepare(&mut state);
    assert_eq!(class_hash, felt(90));
    assert_eq!(function, Some("fib_contract::fib_contract::Fibonacci::fib".to_string()));
    let call_info = entry_point.execute(class_hash, 55);
    let mut expected = CallInfo::empty(Address(felt(1)), Address(felt(9)));
    expected.class_hash = Some(felt(90));
    expected.entry_point_selector = Some(felt(0));
    expected.calldata = vec![felt(10)];
    expected.retdata = vec![felt(55)];
    assert_eq!(call_info, expected);
}

#[test]
fn scope_hands_on_what_the_work_gives() {
    assert_eq!(scope(|| 5 + 5), 10);
    let text = String::from("kept");
    assert_eq!(scope(move || text), "kept");
}
