use blocky::vm::gas::{BASE_TX_COST, DEFAULT_GAS_LIMIT};
use blocky::vm::host::{charge, checked_offset};
use blocky::vm::wasm::CallEnd;
use blocky::vm::{code_hash, finish_call, CallRequest};
use blocky::{
    address_from_name, CallEnvelope, ExecutionContext, HostError, StateError, Transaction, VmEngine, VmError,
    VmHostState, WorldState,
};

const EMPTY_MODULE: &[u8] = &[0x00, 0x61, 0x73, 0x6d, 0x01, 0x00, 0x00, 0x00];
const NOOP_MODULE: &[u8] = &[
    0x00, 0x61, 0x73, 0x6d, 0x01, 0x00, 0x00, 0x00, 0x01, 0x04, 0x01, 0x60, 0x00, 0x00, 0x03,
    0x02, 0x01, 0x00, 0x07, 0x08, 0x01, 0x04, 0x6e, 0x6f, 0x6f, 0x70, 0x00, 0x00, 0x0a, 0x04,
    0x01, 0x02, 0x00, 0x0b,
];

#[test]
fn checked_offset_rejects_negative_values() {
    assert_eq!(checked_offset(-1, 4).unwrap_err(), HostError::NegativeOffset);
    assert_eq!(checked_offset(0, -1).unwrap_err(), HostError::NegativeOffset);
}

#[test]
fn checked_offset_gives_the_byte_range() {
    assert_eq!(checked_offset(3, 4).unwrap(), 3..7);
    assert_eq!(checked_offset(0, 0).unwrap(), 0..0);
    assert_eq!(checked_offset(i32::MAX, i32::MAX).unwrap(), (i32::MAX as usize)..(2 * i32::MAX as usize));
}

#[test]
fn charging_gas_subtracts_or_fails() {
    assert_eq!(charge(10, 4).unwrap(), 6);
    assert_eq!(charge(4, 4).unwrap(), 0);
    assert!(matches!(charge(3, 4), Err(HostError::Gas(_))));
}

#[test]
fn execution_context_starts_non_reverted_with_no_logs() {
    let caller = address_from_name("alice");
    let contract = address_from_name("contract");
    let context = ExecutionContext::new(caller, contract, 7, vec![1, 2, 3]);

    assert!(!context.reverted);
    assert!(context.revert_message.is_none());
    assert!(context.logs.is_empty());
}

#[test]
fn host_state_can_store_context() {
    let caller = address_from_name("alice");
    let contract = address_from_name("contract");
    let state = VmHostState {
        context: Some(ExecutionContext::new(caller, contract, 7, vec![1, 2, 3])),
        ..VmHostState::default()
    };

    let context = state.context.as_ref().unwrap();
    assert_eq!(context.caller, caller);
    assert_eq!(context.contract, contract);
    assert_eq!(context.deposit, 7);
    assert_eq!(context.args, vec![1, 2, 3]);
}

#[test]
fn host_errors_have_messages() {
    assert_eq!(HostError::NegativeOffset.message(), "negative pointer or length");
    assert_eq!(HostError::OutOfBounds.message(), "guest memory access out of bounds");
    assert_eq!(HostError::Gas("out of fuel".into()).message(), "failed to charge gas: out of fuel");
}

#[test]
fn equal_code_bytes_hash_to_same_value() {
    let bytes_a = EMPTY_MODULE.to_vec();
    let bytes_b = EMPTY_MODULE.to_vec();

    assert_eq!(code_hash(&bytes_a), code_hash(&bytes_b));
}

#[test]
fn caches_modules_by_code_hash() {
    let mut vm = VmEngine::new().unwrap();

    let first = vm.cache_module(EMPTY_MODULE).unwrap();
    let second = vm.cache_module(EMPTY_MODULE).unwrap();

    assert_eq!(first, second);
    assert_eq!(vm.module_cache_len(), 1);
    assert!(vm.get_cached_module(&first).is_some());
}

#[test]
fn caching_distinct_code_adds_entries() {
    let mut vm = VmEngine::new().unwrap();
    let first = vm.cache_module(EMPTY_MODULE).unwrap();
    let second = vm.cache_module(NOOP_MODULE).unwrap();
    assert_ne!(first, second);
    assert_eq!(vm.module_cache_len(), 2);
    assert!(vm.get_cached_module(&[0; 32]).is_none());
    assert!(vm.cache_module(&[1, 2, 3]).is_err());
    assert_eq!(vm.module_cache_len(), 2);
}

#[test]
fn executes_exported_method() {
    let mut vm = VmEngine::new().unwrap();
    let caller = address_from_name("alice");
    let contract = address_from_name("contract");

    let (_, context, gas_report) = vm
        .execute_call_with_state(CallRequest {
            state: WorldState::new(),
            caller,
            contract,
            deposit: 0,
            method: "noop",
            args: &[],
            code: NOOP_MODULE,
            gas_limit: DEFAULT_GAS_LIMIT,
        })
        .unwrap();

    assert_eq!(context.caller, caller);
    assert_eq!(context.contract, contract);
    assert!(context.args.is_empty());
    assert!(context.logs.is_empty());
    assert!(gas_report.gas_used <= gas_report.gas_limit);
}

#[test]
fn missing_method_is_reported() {
    let mut vm = VmEngine::new().unwrap();
    let caller = address_from_name("alice");
    let result = vm.execute_call_with_state(CallRequest {
        state: WorldState::new(),
        caller,
        contract: caller,
        deposit: 0,
        method: "absent",
        args: &[],
        code: NOOP_MODULE,
        gas_limit: DEFAULT_GAS_LIMIT,
    });
    match result {
        Err(error) => assert_eq!(error.message(), "contract method not found: absent"),
        Ok(_) => panic!("call of a missing method succeeded"),
    }
}

#[test]
fn finishing_a_missing_export_reports_the_method() {
    let caller = address_from_name("alice");
    let outcome = finish_call(caller, caller, 0, "absent", &[], 1_000, CallEnd::Missing);
    match outcome {
        Err(error) => assert_eq!(error.message(), "contract method not found: absent"),
        Ok(_) => panic!("a missing export finished"),
    }
}

#[test]
fn finishing_a_clean_call_charges_the_fuel_consumed() {
    let caller = address_from_name("alice");
    let contract = address_from_name("contract");
    let mut context = ExecutionContext::new(caller, contract, 7, vec![1, 2]);
    context.logs.push("hello".to_string());
    let mut state = WorldState::new();
    state.set_balance(&contract, 7);
    let end = CallEnd::Finished {
        data: VmHostState { state, context: Some(context) },
        result: Ok(()),
        fuel_left: Ok(400),
    };
    let (state, context, gas) = finish_call(caller, contract, 7, "run", &[1, 2], 1_000, end).unwrap();
    assert_eq!(state.get_balance(&contract), 7);
    assert_eq!(context.caller, caller);
    assert_eq!(context.contract, contract);
    assert_eq!(context.deposit, 7);
    assert_eq!(context.args, vec![1, 2]);
    assert_eq!(context.logs, vec!["hello".to_string()]);
    assert!(!context.reverted);
    assert_eq!(gas.gas_limit, 1_000);
    assert_eq!(gas.gas_used, 600);
}

#[test]
fn finishing_a_reverted_call_aborts_with_its_message() {
    let caller = address_from_name("alice");
    let mut context = ExecutionContext::new(caller, caller, 0, Vec::new());
    context.reverted = true;
    context.revert_message = Some("no funds".to_string());
    let end = CallEnd::Finished {
        data: VmHostState { state: WorldState::new(), context: Some(context) },
        result: Ok(()),
        fuel_left: Ok(10),
    };
    match finish_call(caller, caller, 0, "run", &[], 100, end) {
        Err(error) => assert_eq!(error.message(), "contract execution aborted: no funds"),
        Ok(_) => panic!("a reverted call succeeded"),
    }
}

#[test]
fn finishing_without_a_context_is_a_host_error() {
    let caller = address_from_name("alice");
    let end = CallEnd::Finished {
        data: VmHostState { state: WorldState::new(), context: None },
        result: Ok(()),
        fuel_left: Ok(10),
    };
    assert!(matches!(
        finish_call(caller, caller, 0, "run", &[], 100, end),
        Err(VmError::Host(HostError::MissingContext))
    ));
}

#[test]
fn call_inputs_move_the_deposit_and_encode_the_envelope() {
    let alice = address_from_name("alice");
    let mut state = WorldState::new();
    state.set_balance(&alice, 10);
    let deploy = Transaction::new_deploy(alice, 0, NOOP_MODULE.to_vec());
    let contract = deploy.derived_contract_address();
    state.apply_transaction(&deploy).unwrap();

    let inputs = state.call_inputs(&alice, &contract, "noop", &[9], 4).unwrap();
    assert_eq!(inputs.state.get_balance(&alice), 6);
    assert_eq!(inputs.state.get_balance(&contract), 4);
    assert_eq!(state.get_balance(&alice), 10);
    assert_eq!(inputs.input, CallEnvelope::new("noop", vec![9]).encode().unwrap());
    assert_eq!(inputs.code, NOOP_MODULE.to_vec());
}

#[test]
fn call_inputs_check_code_then_funds() {
    let alice = address_from_name("alice");
    let nobody = address_from_name("nobody");
    let mut state = WorldState::new();
    state.set_balance(&alice, 1);
    assert!(matches!(
        state.call_inputs(&alice, &nobody, "noop", &[], 0),
        Err(StateError::ContractCodeMissing)
    ));
    let deploy = Transaction::new_deploy(alice, 0, NOOP_MODULE.to_vec());
    let contract = deploy.derived_contract_address();
    state.apply_transaction(&deploy).unwrap();
    assert!(matches!(
        state.call_inputs(&alice, &contract, "noop", &[], 5),
        Err(StateError::InsufficientBalance { available: 1, required: 5 })
    ));
}

#[test]
fn transfers_leave_the_engine_untouched() {
    let mut vm = VmEngine::new().unwrap();
    let alice = address_from_name("alice");
    let bob = address_from_name("bob");
    let mut state = WorldState::new();
    state.set_balance(&alice, 5);
    let (_, gas) = state
        .apply_transaction_with_vm(&Transaction::new_transfer(alice, 0, bob, 2), Some(&mut vm))
        .unwrap();
    assert_eq!(gas.gas_used, BASE_TX_COST);
    assert_eq!(vm.module_cache_len(), 0);
}

#[test]
fn calls_through_the_engine_cache_the_contract_code() {
    let mut vm = VmEngine::new().unwrap();
    let alice = address_from_name("alice");
    let mut state = WorldState::new();
    state.set_balance(&alice, 5);
    let deploy = Transaction::new_deploy(alice, 0, NOOP_MODULE.to_vec());
    let contract = deploy.derived_contract_address();
    state.apply_transaction_with_vm(&deploy, Some(&mut vm)).unwrap();
    assert_eq!(vm.module_cache_len(), 0);
    let (context, gas) = state
        .apply_transaction_with_vm(&Transaction::new_call(alice, 1, contract, "noop", vec![], 2), Some(&mut vm))
        .unwrap();
    assert_eq!(vm.module_cache_len(), 1);
    assert_eq!(context.caller, alice);
    assert_eq!(context.contract, contract);
    assert_eq!(context.deposit, 2);
    assert_eq!(context.args, CallEnvelope::new("noop", vec![]).encode().unwrap());
    assert!(gas.gas_used >= BASE_TX_COST && gas.gas_used <= DEFAULT_GAS_LIMIT);
    assert_eq!(state.get_balance(&contract), 2);
    assert_eq!(state.get_nonce(&alice), 2);
}

#[test]
fn cached_modules_are_found_by_their_code_hash() {
    let mut vm = VmEngine::new().unwrap();
    let empty = vm.cache_module(EMPTY_MODULE).unwrap();
    let noop = vm.cache_module(NOOP_MODULE).unwrap();
    let first = vm.get_cached_module(&empty).unwrap();
    let again = vm.get_cached_module(&empty).unwrap();
    let other = vm.get_cached_module(&noop).unwrap();
    assert!(std::sync::Arc::ptr_eq(&first, &again));
    assert!(!std::sync::Arc::ptr_eq(&first, &other));
    let prepared = vm.prepare_module(NOOP_MODULE).unwrap();
    assert!(std::sync::Arc::ptr_eq(&prepared, &other));
    assert_eq!(vm.module_cache_len(), 2);
}
