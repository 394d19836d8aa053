use starknet_in_rust::contract_class::{
    CasmContractClass, CompiledClass, ContractClass, ContractEntryPoint,
};
use starknet_in_rust::definitions::block_context::{BlockContext, StarknetChainId};
use starknet_in_rust::definitions::constants::{
    constructor_entry_point_selector, execute_entry_point_selector, out_of_gas_code,
    transfer_entry_point_selector, validate_declare_entry_point_selector,
    validate_deploy_entry_point_selector, validate_entry_point_selector, INITIAL_GAS_COST,
    TRANSACTION_VERSION,
};
use starknet_in_rust::definitions::transaction_type::TransactionType;
use starknet_in_rust::error::{StateError, TransactionError};
use starknet_in_rust::execution::call_stack::{VmOutcome, VmRun};
use starknet_in_rust::execution::transaction_run::{RunStep, TransactionRun};
use starknet_in_rust::execution::{
    CallInfo, CallType, EntryPointType, ExecutionResources, TransactionExecutionInfo,
};
use starknet_in_rust::felt::Felt;
use starknet_in_rust::hash_utils::{
    calculate_contract_address, calculate_transaction_hash_common, TransactionHashPrefix,
};
use starknet_in_rust::parser::parse_felt;
use starknet_in_rust::state::cached_state::CachedState;
use starknet_in_rust::state::in_memory_state_reader::InMemoryStateReader;
use starknet_in_rust::state::list_map::{ListMap, StorageEntry};
use starknet_in_rust::state::state_api::StateReader;
use starknet_in_rust::syscalls::syscall_request::{SyscallRequest, SyscallResponse};
use starknet_in_rust::transaction::declare::Declare;
use starknet_in_rust::transaction::deploy_account::DeployAccount;
use starknet_in_rust::transaction::invoke_function::{
    preprocess_invoke_function_fields, settle_fee, verify_no_calls_to_other_contracts, FeeCharge,
    InvokeFunction,
};
use starknet_in_rust::utils::Address;

// ---------------------------------------------------------------------------
// A stand-in for the virtual machine: for every run it is asked for, it makes
// the system calls and gives the outcome that the test has scripted.
// ---------------------------------------------------------------------------

enum Act {
    Syscall(SyscallRequest),
    Return(Vec<Felt>),
    ReturnWith(VmOutcome),
}

struct Machine<F: FnMut(&VmRun) -> Vec<Act>> {
    script: F,
    runs: Vec<VmRun>,
    answers: Vec<SyscallResponse>,
}

fn machine<F: FnMut(&VmRun) -> Vec<Act>>(script: F) -> Machine<F> {
    Machine { script, runs: Vec::new(), answers: Vec::new() }
}

fn used(n_steps: usize, range_check_builtin: usize) -> ExecutionResources {
    let mut r = ExecutionResources::new();
    r.n_steps = n_steps;
    r.range_check_builtin = range_check_builtin;
    r
}

fn returned(retdata: Vec<Felt>) -> VmOutcome {
    VmOutcome::Returned {
        retdata,
        execution_resources: used(10, 0),
        gas_consumed: 0,
        failure_flag: false,
    }
}

impl<F: FnMut(&VmRun) -> Vec<Act>> Machine<F> {
    /// Runs one call and the calls that it makes, up to its return.
    fn run_frame<T: StateReader>(
        &mut self,
        run: &mut TransactionRun<T>,
        vm_run: VmRun,
    ) -> Result<RunStep, TransactionError> {
        let acts = (self.script)(&vm_run);
        let gas = vm_run.initial_gas;
        self.runs.push(vm_run);
        for act in acts {
            match act {
                Act::Syscall(request) => match run.on_syscall(request, gas)? {
                    RunStep::Resume(answer) => self.answers.push(answer),
                    RunStep::Run(child) => match self.run_frame(run, child)? {
                        RunStep::Resume(answer) => self.answers.push(answer),
                        other => panic!("a call ended with {other:?}"),
                    },
                    other => panic!("a system call came to {other:?}"),
                },
                Act::Return(retdata) => return run.on_return(returned(retdata)),
                Act::ReturnWith(outcome) => return run.on_return(outcome),
            }
        }
        panic!("the script of a run ends without a return")
    }

    /// Drives a run to its end.
    fn drive<T: StateReader>(
        &mut self,
        run: &mut TransactionRun<T>,
    ) -> Result<(), TransactionError> {
        loop {
            match run.next()? {
                RunStep::Run(vm_run) => match self.run_frame(run, vm_run)? {
                    RunStep::Again => {}
                    other => panic!("the bottom call ended with {other:?}"),
                },
                RunStep::Again => {}
                RunStep::Done => return Ok(()),
                other => panic!("the run asked for {other:?}"),
            }
        }
    }

    fn apply_invoke<'a, T: StateReader>(
        &mut self,
        tx: &InvokeFunction,
        state: &CachedState<'a, T>,
        context: &BlockContext,
    ) -> Result<TransactionRun<'a, T>, TransactionError> {
        let mut run = tx.apply(state, context)?;
        self.drive(&mut run)?;
        Ok(run)
    }

    fn charge<'a, T: StateReader>(
        &mut self,
        state: &mut CachedState<'a, T>,
        context: &BlockContext,
        info: TransactionExecutionInfo,
        charge: FeeCharge,
        tx_context: starknet_in_rust::execution::TransactionExecutionContext,
    ) -> Result<TransactionExecutionInfo, TransactionError> {
        let charge = match charge {
            FeeCharge::Nothing => None,
            FeeCharge::Transfer { actual_fee, call } => {
                let mut run = TransactionRun::new(state.duplicate(), *context, tx_context, vec![call]);
                let result = self.drive(&mut run).map(|_| run);
                Some((actual_fee, result))
            }
        };
        settle_fee(state, info, charge)
    }

    fn execute_invoke<'a, T: StateReader>(
        &mut self,
        tx: &InvokeFunction,
        state: &mut CachedState<'a, T>,
        context: &BlockContext,
    ) -> Result<TransactionExecutionInfo, TransactionError> {
        let applied = self.apply_invoke(tx, state, context);
        let (info, charge) = tx.execute(state, applied, context)?;
        let tx_context = tx.get_execution_context(context.invoke_tx_max_n_steps)?;
        self.charge(state, context, info, charge, tx_context)
    }

    fn execute_deploy_account<'a, T: StateReader>(
        &mut self,
        tx: &DeployAccount,
        state: &mut CachedState<'a, T>,
        context: &BlockContext,
    ) -> Result<TransactionExecutionInfo, TransactionError> {
        let applied = tx.apply(state, context).and_then(|mut run| {
            self.drive(&mut run)?;
            Ok(run)
        });
        let (info, charge) = tx.execute(state, applied, context)?;
        let tx_context = tx.get_execution_context(context.invoke_tx_max_n_steps);
        self.charge(state, context, info, charge, tx_context)
    }
}

// ---------------------------------------------------------------------------
// What the tests run on.
// ---------------------------------------------------------------------------

fn felt(n: u64) -> Felt {
    Felt::from_u64(n)
}

fn fib_selector() -> Felt {
    parse_felt("0x112e35f48499939272000bd72eb840e502ca4c3aefa8800992e8defb746e0c9").unwrap()
}

/// A class with one external entry point, `fib`, and no constructor.
fn fibonacci_class() -> ContractClass {
    ContractClass {
        program: b"fibonacci".to_vec(),
        external: Some(vec![ContractEntryPoint::new(fib_selector(), 42)]),
        l1_handler: Some(vec![]),
        constructor: Some(vec![]),
    }
}

/// A class without `fib` and without `__execute__`.
fn amm_class() -> ContractClass {
    ContractClass {
        program: b"amm".to_vec(),
        external: Some(vec![ContractEntryPoint::new(felt(1234), 7)]),
        l1_handler: Some(vec![]),
        constructor: Some(vec![]),
    }
}

/// An account class: it validates, executes and has a constructor.
fn account_class() -> ContractClass {
    ContractClass {
        program: b"account".to_vec(),
        external: Some(vec![
            ContractEntryPoint::new(validate_entry_point_selector(), 1),
            ContractEntryPoint::new(execute_entry_point_selector(), 2),
            ContractEntryPoint::new(validate_deploy_entry_point_selector(), 3),
            ContractEntryPoint::new(validate_declare_entry_point_selector(), 4),
        ]),
        l1_handler: Some(vec![]),
        constructor: Some(vec![ContractEntryPoint::new(constructor_entry_point_selector(), 5)]),
    }
}

fn class_hash() -> Felt {
    Felt::from_bytes_be(&[1; 32])
}

/// A reader with a contract of the class hash at address 0, with nonce 0.
fn reader() -> InMemoryStateReader {
    let mut state_reader = InMemoryStateReader::new();
    let contract_address = Address(felt(0));
    state_reader
        .address_to_class_hash_mut()
        .insert(contract_address, class_hash());
    state_reader
        .address_to_nonce_mut()
        .insert(contract_address, Felt::zero());
    state_reader
}

fn state_with<'a>(
    state_reader: &'a InMemoryStateReader,
    contract_class: &ContractClass,
) -> CachedState<'a, InMemoryStateReader> {
    let mut state = CachedState::new(state_reader, ListMap::new());
    state.set_contract_class(&class_hash(), contract_class);
    state
}

fn invoke(
    entry_point_selector: Felt,
    calldata: Vec<Felt>,
    version: u64,
    max_fee: u128,
    nonce: Option<Felt>,
) -> InvokeFunction {
    InvokeFunction {
        contract_address: Address(felt(0)),
        entry_point_selector,
        entry_point_type: EntryPointType::External,
        calldata,
        tx_type: TransactionType::InvokeFunction,
        version: felt(version),
        validate_entry_point_selector: felt(0),
        hash_value: felt(0),
        signature: Vec::new(),
        max_fee,
        nonce,
    }
}

fn fib_invoke(version: u64, max_fee: u128, nonce: Option<Felt>) -> InvokeFunction {
    invoke(fib_selector(), vec![felt(1), felt(1), felt(10)], version, max_fee, nonce)
}

/// The machine on which `fib` returns 144 and nothing else is called.
fn fib_script(vm_run: &VmRun) -> Vec<Act> {
    assert_eq!(vm_run.entry_point_offset, 42);
    assert_eq!(vm_run.calldata, vec![felt(1), felt(1), felt(10)]);
    assert!(!vm_run.is_cairo1);
    vec![Act::ReturnWith(VmOutcome::Returned {
        retdata: vec![felt(144)],
        execution_resources: used(94, 20),
        gas_consumed: 0,
        failure_flag: false,
    })]
}

fn check_fib_report(result: &TransactionExecutionInfo, tx: &InvokeFunction) {
    assert_eq!(result.tx_type, Some(TransactionType::InvokeFunction));
    assert_eq!(
        result.call_info.as_ref().unwrap().class_hash,
        Some(class_hash())
    );
    assert_eq!(
        result.call_info.as_ref().unwrap().entry_point_selector,
        Some(tx.entry_point_selector)
    );
    assert_eq!(result.call_info.as_ref().unwrap().calldata, tx.calldata);
    assert_eq!(result.call_info.as_ref().unwrap().retdata, vec![felt(144)]);
}

// ---------------------------------------------------------------------------
// Invoke.
// ---------------------------------------------------------------------------

#[test]
fn test_apply_specific_concurrent_changes() {
    let internal_invoke_function = fib_invoke(0, 0, Some(felt(0)));
    let state_reader = reader();
    let state = state_with(&state_reader, &fibonacci_class());

    let mut vm = machine(fib_script);
    let run = vm
        .apply_invoke(&internal_invoke_function, &state, &BlockContext::default_context())
        .ok()
        .unwrap();
    let (_, result) = internal_invoke_function.finish_apply(run).unwrap();

    check_fib_report(&result, &internal_invoke_function);
    assert_eq!(result.validate_info, None);
    assert_eq!(result.fee_transfer_info, None);
    assert_eq!(result.actual_fee, 0);
    assert_eq!(result.actual_resources.cairo_usage, used(94, 20));
    let call_info = result.call_info.unwrap();
    assert_eq!(call_info.caller_address, Address(felt(0)));
    assert_eq!(call_info.call_type, Some(CallType::Call));
    assert_eq!(call_info.entry_point_type, Some(EntryPointType::External));
    assert!(!call_info.failure_flag);
    assert_eq!(vm.runs.len(), 1);
}

#[test]
fn test_execute_specific_concurrent_changes() {
    let internal_invoke_function = fib_invoke(0, 0, Some(felt(0)));
    let state_reader = reader();
    let mut state = state_with(&state_reader, &fibonacci_class());

    let result = machine(fib_script)
        .execute_invoke(&internal_invoke_function, &mut state, &BlockContext::default_context())
        .unwrap();

    check_fib_report(&result, &internal_invoke_function);
    assert_eq!(result.actual_fee, 0);
    assert_eq!(result.fee_transfer_info, None);
    // A transaction of version 0 leaves the nonce alone.
    assert!(state.get_nonce_at(&Address(felt(0))).is_zero());
}

#[test]
fn test_apply_invoke_entrypoint_not_found_should_fail() {
    let internal_invoke_function =
        invoke(execute_entry_point_selector(), Vec::new(), 0, 0, Some(felt(0)));
    let state_reader = reader();
    let state = state_with(&state_reader, &amm_class());

    let expected_error = machine(|_: &VmRun| -> Vec<Act> { panic!("nothing is to be run") })
        .apply_invoke(&internal_invoke_function, &state, &BlockContext::default_context());

    assert!(expected_error.is_err());
    assert!(matches!(
        expected_error.err().unwrap(),
        TransactionError::EntryPointNotFound
    ));
}

#[test]
fn test_apply_v0_with_no_nonce() {
    let internal_invoke_function = fib_invoke(0, 0, None);
    let state_reader = reader();
    let state = state_with(&state_reader, &fibonacci_class());

    let run = machine(fib_script)
        .apply_invoke(&internal_invoke_function, &state, &BlockContext::default_context())
        .ok()
        .unwrap();
    let (_, result) = internal_invoke_function.finish_apply(run).unwrap();

    check_fib_report(&result, &internal_invoke_function);
}

#[test]
fn test_run_validate_entrypoint_nonce_is_none_should_fail() {
    let internal_invoke_function =
        invoke(execute_entry_point_selector(), Vec::new(), 1, 0, None);
    let state_reader = reader();
    let state = state_with(&state_reader, &amm_class());

    let expected_error = machine(|_: &VmRun| -> Vec<Act> { panic!("nothing is to be run") })
        .apply_invoke(&internal_invoke_function, &state, &BlockContext::default_context());

    assert!(expected_error.is_err());
    assert!(matches!(
        expected_error.err().unwrap(),
        TransactionError::MissingNonce
    ));
}

fn weighted_context() -> BlockContext {
    let mut config = BlockContext::default_context();
    config.cairo_resource_fee_weights.l1_gas_usage = 0;
    config.cairo_resource_fee_weights.pedersen_builtin = 16;
    config.cairo_resource_fee_weights.range_check_builtin = 70;
    config
}

#[test]
// The fee is computed, but the fee token has no entry point to move it with.
fn test_execute_invoke_fee_payment_to_sequencer_should_fail() {
    let internal_invoke_function = fib_invoke(1, 1000, Some(felt(0)));
    let state_reader = reader();
    let mut state = state_with(&state_reader, &fibonacci_class());
    let config = weighted_context();

    let expected_error =
        machine(fib_script).execute_invoke(&internal_invoke_function, &mut state, &config);
    let error_msg = "Fee transfer failure".to_string();
    assert!(expected_error.is_err());
    assert!(
        matches!(expected_error.unwrap_err(), TransactionError::FeeError(msg) if msg == error_msg)
    );
    // What the transaction did before its fee stays: the nonce is raised.
    assert_eq!(state.get_nonce_at(&Address(felt(0))), felt(1));
}

#[test]
fn test_execute_invoke_actual_fee_exceeded_max_fee_should_fail() {
    let internal_invoke_function = fib_invoke(1, 1000, Some(felt(0)));
    let state_reader = reader();
    let mut state = state_with(&state_reader, &fibonacci_class());
    let mut config = weighted_context();
    config.starknet_os_config.gas_price = 1;

    // The run uses 20 range checks: 70 * 20 = 1400 is more than 1000.
    let mut vm = machine(fib_script);
    let expected_error = vm.execute_invoke(&internal_invoke_function, &mut state, &config);
    let error_msg = "Actual fee exceeded max fee".to_string();
    assert!(expected_error.is_err());
    assert!(
        matches!(expected_error.unwrap_err(), TransactionError::FeeError(actual_error_msg) if actual_error_msg == error_msg)
    );
    // No transfer was tried, and the nonce stays raised.
    assert_eq!(vm.runs.len(), 1);
    assert_eq!(state.get_nonce_at(&Address(felt(0))), felt(1));
}

#[test]
fn test_execute_invoke_twice_should_fail() {
    let internal_invoke_function = fib_invoke(1, 0, Some(felt(0)));
    let state_reader = reader();
    let mut state = state_with(&state_reader, &fibonacci_class());

    machine(fib_script)
        .execute_invoke(&internal_invoke_function, &mut state, &BlockContext::default_context())
        .unwrap();

    let expected_error = machine(fib_script).execute_invoke(
        &internal_invoke_function,
        &mut state,
        &BlockContext::default_context(),
    );

    assert!(expected_error.is_err());
    assert_eq!(
        expected_error.unwrap_err(),
        TransactionError::InvalidTransactionNonce("1".to_string(), "0".to_string())
    );
    assert_eq!(state.get_nonce_at(&Address(felt(0))), felt(1));
}

#[test]
fn test_execute_inovoke_nonce_missing_should_fail() {
    let internal_invoke_function = fib_invoke(1, 0, None);
    let state_reader = reader();
    let mut state = state_with(&state_reader, &fibonacci_class());

    let expected_error = machine(fib_script).execute_invoke(
        &internal_invoke_function,
        &mut state,
        &BlockContext::default_context(),
    );

    assert!(expected_error.is_err());
    assert!(matches!(
        expected_error.unwrap_err(),
        TransactionError::MissingNonce
    ))
}

#[test]
fn invoke_version_zero_with_non_zero_nonce_should_fail() {
    let expected_error =
        preprocess_invoke_function_fields(fib_selector(), Some(felt(1)), felt(0)).unwrap_err();
    assert!(matches!(
        expected_error,
        TransactionError::InvokeFunctionZeroHasNonce
    ));
    assert_eq!(
        InvokeFunction::new(
            Address(felt(0)),
            fib_selector(),
            0,
            felt(0),
            vec![],
            vec![],
            felt(0),
            Some(felt(0)),
            None,
        ),
        Err(TransactionError::InvokeFunctionZeroHasNonce)
    );
}

#[test]
// the test should try to make verify_no_calls_to_other_contracts fail
fn verify_no_calls_to_other_contracts_should_fail() {
    let mut call_info = CallInfo::empty(Address(felt(0)), Address(felt(0)));
    let mut internal_calls = Vec::new();
    let internal_call = CallInfo::empty(Address(felt(0)), Address(felt(1)));
    internal_calls.push(internal_call);
    call_info.internal_calls = internal_calls;

    let expected_error = verify_no_calls_to_other_contracts(&call_info);

    assert!(expected_error.is_err());
    assert!(matches!(
        expected_error.unwrap_err(),
        TransactionError::UnauthorizedActionOnValidate
    ));
}

#[test]
fn verify_no_calls_to_other_contracts_looks_at_the_whole_tree() {
    let leaf = |address: u64| CallInfo::empty(Address(felt(0)), Address(felt(address)));
    let mut inner = leaf(5);
    inner.internal_calls = vec![leaf(5), leaf(5)];
    let mut root = leaf(5);
    root.internal_calls = vec![leaf(5), inner.clone()];
    assert_eq!(verify_no_calls_to_other_contracts(&root), Ok(()));
    assert_eq!(
        root.gen_call_topology(),
        vec![root.clone(), leaf(5), inner.clone(), leaf(5), leaf(5)]
    );
    inner.internal_calls = vec![leaf(5), leaf(6)];
    root.internal_calls = vec![leaf(5), inner];
    assert_eq!(
        verify_no_calls_to_other_contracts(&root),
        Err(TransactionError::UnauthorizedActionOnValidate)
    );
    assert_eq!(verify_no_calls_to_other_contracts(&leaf(7)), Ok(()));
}

#[test]
fn preprocess_invoke_function_fields_nonce_is_none() {
    let entry_point_selector = fib_selector();
    let result = preprocess_invoke_function_fields(entry_point_selector, None, felt(0));

    let expected_additional_data: Vec<Felt> = Vec::new();
    let expected_entry_point_selector_field = entry_point_selector;
    assert_eq!(
        result.unwrap(),
        (
            expected_entry_point_selector_field,
            expected_additional_data
        )
    )
}

#[test]
fn invoke_version_one_with_no_nonce_should_fail() {
    let expected_error = preprocess_invoke_function_fields(fib_selector(), None, felt(1));
    assert!(expected_error.is_err());
    assert!(matches!(
        expected_error.unwrap_err(),
        TransactionError::InvokeFunctionNonZeroMissingNonce
    ))
}

#[test]
fn preprocess_of_a_later_version_hashes_the_nonce() {
    assert_eq!(
        preprocess_invoke_function_fields(fib_selector(), Some(felt(3)), felt(1)),
        Ok((felt(0), vec![felt(3)]))
    );
}

#[test]
fn invoke_new_hashes_its_fields() {
    let address = Address(felt(77));
    let chain_id = StarknetChainId::TestNet.to_felt();
    let tx = InvokeFunction::new(
        address,
        fib_selector(),
        5,
        felt(TRANSACTION_VERSION),
        vec![felt(10)],
        vec![felt(1), felt(2)],
        chain_id,
        Some(felt(3)),
        None,
    )
    .unwrap();
    assert_eq!(
        *tx.hash_value(),
        calculate_transaction_hash_common(
            TransactionHashPrefix::Invoke,
            felt(1),
            &address,
            felt(0),
            &vec![felt(10)],
            5,
            chain_id,
            &vec![felt(3)],
        )
    );
    assert_eq!(*tx.contract_address(), address);
    assert_eq!(*tx.signature(), vec![felt(1), felt(2)]);
    assert_eq!(tx.validate_entry_point_selector, validate_entry_point_selector());
    let v0 = InvokeFunction::new(
        address,
        fib_selector(),
        5,
        felt(0),
        vec![felt(10)],
        vec![],
        chain_id,
        None,
        None,
    )
    .unwrap();
    assert_eq!(
        *v0.hash_value(),
        calculate_transaction_hash_common(
            TransactionHashPrefix::Invoke,
            felt(0),
            &address,
            fib_selector(),
            &vec![felt(10)],
            5,
            chain_id,
            &vec![],
        )
    );
    let given = InvokeFunction::new(
        address,
        fib_selector(),
        5,
        felt(0),
        vec![],
        vec![],
        chain_id,
        None,
        Some(felt(99)),
    )
    .unwrap();
    assert_eq!(*given.hash_value(), felt(99));
}

/// An account at address 0 whose `__execute__` is invoked with version 1.
fn account_invoke(nonce: u64, max_fee: u128) -> InvokeFunction {
    let mut tx = invoke(
        execute_entry_point_selector(),
        vec![felt(7)],
        1,
        max_fee,
        Some(felt(nonce)),
    );
    tx.validate_entry_point_selector = validate_entry_point_selector();
    tx
}

#[test]
fn invoke_validates_then_executes() {
    let tx = account_invoke(0, 0);
    let state_reader = reader();
    let mut state = state_with(&state_reader, &account_class());
    let context = BlockContext::default_context();
    let mut vm = machine(|vm_run: &VmRun| match vm_run.entry_point_offset {
        1 => vec![Act::Return(vec![])],
        2 => vec![
            Act::Syscall(SyscallRequest::StorageWrite {
                address_domain: felt(0),
                address: felt(5),
                value: felt(55),
            }),
            Act::Return(vec![felt(1)]),
        ],
        other => panic!("no run from {other}"),
    });
    let result = vm.execute_invoke(&tx, &mut state, &context).unwrap();
    assert_eq!(
        vm.runs.iter().map(|r| r.entry_point_offset).collect::<Vec<_>>(),
        vec![1, 2]
    );
    let validate_info = result.validate_info.unwrap();
    assert_eq!(
        validate_info.entry_point_selector,
        Some(validate_entry_point_selector())
    );
    assert_eq!(validate_info.calldata, vec![felt(7)]);
    let call_info = result.call_info.unwrap();
    assert_eq!(call_info.retdata, vec![felt(1)]);
    assert_eq!(call_info.accessed_storage_keys, vec![felt(5)]);
    assert_eq!(result.actual_resources.cairo_usage.n_steps, 20);
    assert_eq!(state.get_storage_at(&StorageEntry(Address(felt(0)), felt(5))), felt(55));
    assert_eq!(state.get_nonce_at(&Address(felt(0))), felt(1));
}

#[test]
fn a_validation_that_calls_another_contract_fails() {
    let tx = account_invoke(0, 0);
    let mut state_reader = reader();
    state_reader
        .address_to_class_hash_mut()
        .insert(Address(felt(9)), felt(900));
    let mut state = state_with(&state_reader, &account_class());
    state.set_contract_class(&felt(900), &amm_class());
    let context = BlockContext::default_context();
    let mut vm = machine(|vm_run: &VmRun| match vm_run.entry_point_offset {
        1 => vec![
            Act::Syscall(SyscallRequest::CallContract {
                contract_address: Address(felt(9)),
                function_selector: felt(1234),
                calldata: vec![],
            }),
            Act::Return(vec![]),
        ],
        7 => vec![
            Act::Syscall(SyscallRequest::StorageWrite {
                address_domain: felt(0),
                address: felt(5),
                value: felt(55),
            }),
            Act::Return(vec![felt(3)]),
        ],
        other => panic!("no run from {other}"),
    });
    let result = vm.execute_invoke(&tx, &mut state, &context);
    assert_eq!(result, Err(TransactionError::UnauthorizedActionOnValidate));
    assert_eq!(vm.answers[1], SyscallResponse::CallContract { retdata: vec![felt(3)] });
    // The state is as it was: neither the write of the callee nor the nonce is there.
    assert!(state.get_storage_at(&StorageEntry(Address(felt(9)), felt(5))).is_zero());
    assert!(state.get_nonce_at(&Address(felt(0))).is_zero());
    assert_eq!(state.cache.storage_writes.len(), 0);
}

#[test]
fn a_failed_run_leaves_the_state_alone() {
    let tx = fib_invoke(1, 0, Some(felt(0)));
    let state_reader = reader();
    let mut state = state_with(&state_reader, &fibonacci_class());
    let context = BlockContext::default_context();
    let mut vm = machine(|_: &VmRun| {
        vec![
            Act::Syscall(SyscallRequest::StorageWrite {
                address_domain: felt(0),
                address: felt(5),
                value: felt(55),
            }),
            Act::ReturnWith(VmOutcome::Failed { error: TransactionError::OutOfSteps }),
        ]
    });
    assert_eq!(
        vm.execute_invoke(&tx, &mut state, &context),
        Err(TransactionError::OutOfSteps)
    );
    assert_eq!(state.cache.storage_writes.len(), 0);
    assert_eq!(state.cache.nonce_writes.len(), 0);
    assert!(state.get_nonce_at(&Address(felt(0))).is_zero());
}

#[test]
fn the_fee_is_moved_by_the_fee_token() {
    let tx = fib_invoke(1, 2000, Some(felt(0)));
    let mut state_reader = reader();
    state_reader
        .address_to_class_hash_mut()
        .insert(Address(felt(4444)), felt(400));
    let mut state = state_with(&state_reader, &fibonacci_class());
    state.set_contract_class(
        &felt(400),
        &ContractClass {
            program: vec![],
            external: Some(vec![ContractEntryPoint::new(transfer_entry_point_selector(), 8)]),
            l1_handler: None,
            constructor: None,
        },
    );
    let mut context = weighted_context();
    context.starknet_os_config.gas_price = 1;
    context.starknet_os_config.fee_token_address = Address(felt(4444));
    context.block_info.sequencer_address = Address(felt(321));
    let mut vm = machine(|vm_run: &VmRun| match vm_run.entry_point_offset {
        42 => fib_script(vm_run),
        8 => {
            assert_eq!(vm_run.calldata, vec![felt(321), felt(1400), felt(0)]);
            vec![
                Act::Syscall(SyscallRequest::StorageWrite {
                    address_domain: felt(0),
                    address: felt(321),
                    value: felt(1400),
                }),
                Act::Return(vec![felt(1)]),
            ]
        }
        other => panic!("no run from {other}"),
    });
    let result = vm.execute_invoke(&tx, &mut state, &context).unwrap();
    assert_eq!(result.actual_fee, 1400);
    let transfer = result.fee_transfer_info.unwrap();
    assert_eq!(transfer.contract_address, Address(felt(4444)));
    assert_eq!(transfer.caller_address, Address(felt(0)));
    assert_eq!(transfer.retdata, vec![felt(1)]);
    assert_eq!(
        state.get_storage_at(&StorageEntry(Address(felt(4444)), felt(321))),
        felt(1400)
    );
    assert_eq!(state.get_nonce_at(&Address(felt(0))), felt(1));
}

#[test]
fn no_fee_is_charged_where_none_is_allowed() {
    let tx = fib_invoke(1, 0, Some(felt(0)));
    let state_reader = reader();
    let mut state = state_with(&state_reader, &fibonacci_class());
    let mut context = weighted_context();
    context.starknet_os_config.gas_price = 1;
    let mut vm = machine(fib_script);
    let result = vm.execute_invoke(&tx, &mut state, &context).unwrap();
    assert_eq!(result.actual_fee, 0);
    assert_eq!(result.fee_transfer_info, None);
    assert_eq!(vm.runs.len(), 1);
}

#[test]
fn a_call_to_an_empty_address_fails() {
    let mut tx = fib_invoke(0, 0, None);
    tx.contract_address = Address(felt(5));
    let state_reader = reader();
    let state = state_with(&state_reader, &fibonacci_class());
    let result = machine(fib_script).apply_invoke(&tx, &state, &BlockContext::default_context());
    assert_eq!(
        result.err().unwrap(),
        TransactionError::ClassHashNotFound(Address(felt(5)))
    );
}

// ---------------------------------------------------------------------------
// Deploy account.
// ---------------------------------------------------------------------------

fn deploy_account(class_hash: Felt, version: u64) -> DeployAccount {
    DeployAccount::new(
        class_hash,
        0,
        felt(version),
        felt(0),
        vec![felt(10)],
        Vec::new(),
        felt(0),
        StarknetChainId::TestNet2.to_felt(),
        None,
    )
    .unwrap()
}

#[test]
fn deploy_account_get_state_selector() {
    let class_hash = class_hash();
    let block_context = BlockContext::default_context();
    let internal_deploy = deploy_account(class_hash, 0);

    let state_selector = internal_deploy.get_state_selector(block_context);

    assert_eq!(
        state_selector.contract_addresses,
        vec![internal_deploy.contract_address]
    );
    assert_eq!(state_selector.class_hashes, vec![class_hash]);
}

#[test]
fn internal_deploy_account_get_state_selector() {
    let class_hash = Felt::from_bytes_be(&[3; 32]);
    let internal_deploy = deploy_account(class_hash, 0);
    let state_selector = internal_deploy.get_state_selector(BlockContext::default_context());
    assert_eq!(
        state_selector.contract_addresses,
        vec![*internal_deploy.contract_address()]
    );
    assert_eq!(state_selector.class_hashes, vec![class_hash]);
    assert_eq!(
        internal_deploy.contract_address().0,
        calculate_contract_address(&felt(0), &class_hash, &vec![felt(10)], Address(felt(0)))
    );
}

fn constructor_script(vm_run: &VmRun) -> Vec<Act> {
    match vm_run.entry_point_offset {
        5 => {
            assert_eq!(vm_run.entry_point_type, EntryPointType::Constructor);
            assert_eq!(vm_run.calldata, vec![felt(10)]);
            assert_eq!(vm_run.initial_gas, INITIAL_GAS_COST);
            vec![
                Act::Syscall(SyscallRequest::StorageWrite {
                    address_domain: felt(0),
                    address: felt(1),
                    value: felt(10),
                }),
                Act::Return(vec![]),
            ]
        }
        3 => vec![Act::Return(vec![])],
        other => panic!("no run from {other}"),
    }
}

#[test]
fn deploy_account_deploy_account_twice_should_fail() {
    let block_context = BlockContext::default_context();
    let state_reader = InMemoryStateReader::new();
    let mut state = CachedState::new(&state_reader, ListMap::new());
    let class_hash = class_hash();
    let internal_deploy = deploy_account(class_hash, 0);

    state.set_contract_class(&class_hash, &account_class());
    machine(constructor_script)
        .execute_deploy_account(&internal_deploy, &mut state, &block_context)
        .unwrap();
    assert_eq!(
        state.get_class_hash_at(internal_deploy.contract_address()),
        class_hash
    );
    assert_eq!(
        state.get_storage_at(&StorageEntry(*internal_deploy.contract_address(), felt(1))),
        felt(10)
    );
    assert!(matches!(
        machine(constructor_script)
            .execute_deploy_account(&internal_deploy, &mut state, &block_context)
            .unwrap_err(),
        TransactionError::State(StateError::ContractAddressUnavailable(..))
    ))
}

#[test]
fn internal_deploy_account_deploy_account_twice_should_fail() {
    let block_context = BlockContext::default_context();
    let state_reader = InMemoryStateReader::new();
    let mut state = CachedState::new(&state_reader, ListMap::new());
    let class_hash = class_hash();
    let internal_deploy = deploy_account(class_hash, 1);

    state.set_contract_class(&class_hash, &account_class());
    let mut vm = machine(constructor_script);
    let result = vm
        .execute_deploy_account(&internal_deploy, &mut state, &block_context)
        .unwrap();
    assert_eq!(
        vm.runs.iter().map(|r| r.entry_point_offset).collect::<Vec<_>>(),
        vec![5, 3]
    );
    assert_eq!(
        vm.runs[1].calldata,
        vec![class_hash, felt(0), felt(10)]
    );
    assert_eq!(result.tx_type, Some(TransactionType::DeployAccount));
    assert_eq!(
        result.call_info.unwrap().entry_point_type,
        Some(EntryPointType::Constructor)
    );
    assert_eq!(
        result.validate_info.unwrap().entry_point_selector,
        Some(validate_deploy_entry_point_selector())
    );
    assert_eq!(state.get_nonce_at(internal_deploy.contract_address()), felt(1));
    assert_eq!(
        machine(constructor_script)
            .execute_deploy_account(&internal_deploy, &mut state, &block_context)
            .unwrap_err(),
        TransactionError::State(StateError::ContractAddressUnavailable(
            *internal_deploy.contract_address()
        ))
    );
    assert_eq!(state.get_nonce_at(internal_deploy.contract_address()), felt(1));
}

#[test]
fn deploy_account_of_a_class_without_constructor() {
    let block_context = BlockContext::default_context();
    let state_reader = InMemoryStateReader::new();
    let mut state = CachedState::new(&state_reader, ListMap::new());
    state.set_contract_class(&class_hash(), &fibonacci_class());

    // Arguments for a constructor that is not there are an error.
    let with_arguments = deploy_account(class_hash(), 0);
    assert_eq!(
        with_arguments.apply(&state, &block_context).err().unwrap(),
        TransactionError::EmptyConstructorCalldata
    );

    let mut without = deploy_account(class_hash(), 0);
    without.constructor_calldata = vec![];
    let result = machine(|_: &VmRun| -> Vec<Act> { panic!("nothing is to be run") })
        .execute_deploy_account(&without, &mut state, &block_context)
        .unwrap();
    assert_eq!(
        result.call_info,
        Some(CallInfo::empty_constructor_call(
            without.contract_address,
            Address(felt(0)),
            Some(class_hash())
        ))
    );
    assert_eq!(result.validate_info, None);
    assert_eq!(state.get_class_hash_at(&without.contract_address), class_hash());
}

#[test]
fn deploy_account_of_an_unknown_class_fails() {
    let state_reader = InMemoryStateReader::new();
    let state = CachedState::new(&state_reader, ListMap::new());
    let tx = deploy_account(class_hash(), 0);
    assert_eq!(
        tx.apply(&state, &BlockContext::default_context()).err().unwrap(),
        TransactionError::State(StateError::NoneContractClass(class_hash()))
    );
}

// ---------------------------------------------------------------------------
// Declare.
// ---------------------------------------------------------------------------

#[test]
fn declare_registers_the_class_and_asks_the_sender() {
    let mut state_reader = reader();
    state_reader.address_to_nonce_mut().insert(Address(felt(0)), felt(4));
    let mut state = state_with(&state_reader, &account_class());
    let context = BlockContext::default_context();
    let declared = fibonacci_class();
    let tx = Declare::new(
        declared.clone(),
        felt(777),
        StarknetChainId::TestNet.to_felt(),
        Address(felt(0)),
        0,
        felt(1),
        vec![],
        felt(4),
        None,
    );
    let mut run = tx.apply(&state, &context);
    let mut vm = machine(|vm_run: &VmRun| {
        assert_eq!(vm_run.entry_point_offset, 4);
        assert_eq!(vm_run.calldata, vec![felt(777)]);
        vec![Act::Return(vec![])]
    });
    vm.drive(&mut run).unwrap();
    let (info, charge) = tx.execute(&mut state, Ok(run), &context).unwrap();
    assert_eq!(charge, FeeCharge::Nothing);
    assert_eq!(info.tx_type, Some(TransactionType::Declare));
    assert_eq!(info.call_info, None);
    assert_eq!(
        info.validate_info.unwrap().entry_point_selector,
        Some(validate_declare_entry_point_selector())
    );
    assert_eq!(
        state.get_contract_class(&felt(777)),
        Ok(CompiledClass::Deprecated(declared))
    );
    assert_eq!(state.get_nonce_at(&Address(felt(0))), felt(5));
}

#[test]
fn declare_of_version_zero_runs_nothing() {
    let state_reader = reader();
    let mut state = state_with(&state_reader, &account_class());
    let context = BlockContext::default_context();
    let tx = Declare::new(
        fibonacci_class(),
        felt(777),
        StarknetChainId::TestNet.to_felt(),
        Address(felt(0)),
        0,
        felt(0),
        vec![],
        felt(0),
        Some(felt(12)),
    );
    assert_eq!(tx.hash_value, felt(12));
    let mut run = tx.apply(&state, &context);
    assert_eq!(run.next(), Ok(RunStep::Done));
    let (info, _) = tx.execute(&mut state, Ok(run), &context).unwrap();
    assert_eq!(info.validate_info, None);
    assert!(state.get_nonce_at(&Address(felt(0))).is_zero());
    assert!(state.get_contract_class(&felt(777)).is_ok());
}

// ---------------------------------------------------------------------------
// Cairo 1 frames.
// ---------------------------------------------------------------------------

#[test]
fn test_out_of_gas_failure() {
    let state_reader = reader();
    let mut state = CachedState::new(&state_reader, ListMap::new());
    state.set_compiled_class(
        &class_hash(),
        CasmContractClass {
            bytecode: vec![felt(1), felt(2), felt(3)],
            hints: vec![],
            external: vec![ContractEntryPoint::new(felt(50), 1)],
            l1_handler: vec![],
            constructor: vec![],
        },
    );
    let tx_context = starknet_in_rust::execution::TransactionExecutionContext::new(
        Address(felt(0)),
        Felt::zero(),
        Vec::new(),
        0,
        felt(10),
        1_000_000,
        felt(TRANSACTION_VERSION),
    );
    // Purposefully set initial gas to 0 so that the call fails.
    let exec_entry_point = starknet_in_rust::execution::ExecutionEntryPoint::new(
        Address(felt(0)),
        vec![],
        felt(50),
        Address(felt(0)),
        EntryPointType::External,
        Some(CallType::Delegate),
        Some(class_hash()),
        0,
    );
    let mut stack = starknet_in_rust::execution::call_stack::CallStack::new(
        state,
        BlockContext::default_context(),
        tx_context,
        starknet_in_rust::state::execution_resources_manager::ExecutionResourcesManager::new(),
    );
    let call_info = match stack.begin(exec_entry_point, false).unwrap() {
        starknet_in_rust::execution::call_stack::Begin::Finished(call_info) => call_info,
        other => panic!("the call came to {other:?}"),
    };
    assert_eq!(call_info.retdata, vec![out_of_gas_code()]);
    assert_eq!(
        call_info.retdata,
        vec![Felt::from_bytes_be(&{
            let mut bytes = [0u8; 32];
            bytes[22..].copy_from_slice("Out of gas".as_bytes());
            bytes
        })]
    );
    assert!(call_info.failure_flag);
    assert_eq!(stack.frames.len(), 0);
}
