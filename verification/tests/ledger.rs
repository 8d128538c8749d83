use blocky::block::hash_meets_difficulty;
use blocky::call_abi::decode_checked;
use blocky::vm::gas::{deploy_cost, BASE_TX_COST, DEPLOY_COST_PER_BYTE};
use blocky::{
    address_from_name, address_to_hex, hash_to_hex, transaction_hash, Block, CallAbiError,
    CallEnvelope, Payload, Receipt, StateError, Transaction, WorldState,
};

#[test]
fn equal_blocks_hash_to_same_value() {
    let tx_a = Transaction::new_transfer(address_from_name("alice"), 0, address_from_name("bob"), 10);
    let tx_b = Transaction::new_transfer(address_from_name("alice"), 0, address_from_name("bob"), 10);
    let block_a = Block { timestamp: 2, prev_hash: [7; 32], nonce: 3, transactions: vec![tx_a] };
    let block_b = Block { timestamp: 2, prev_hash: [7; 32], nonce: 3, transactions: vec![tx_b] };

    assert_eq!(block_a.compute_hash().unwrap(), block_b.compute_hash().unwrap());
}

#[test]
fn mining_produces_valid_hash() {
    let mut block = Block {
        timestamp: 2,
        prev_hash: [0; 32],
        nonce: 0,
        transactions: vec![Transaction::new_transfer(
            address_from_name("alice"),
            0,
            address_from_name("bob"),
            10,
        )],
    };

    block.mine(8).unwrap();

    assert!(hash_meets_difficulty(&block.compute_hash().unwrap(), 8));
}

#[test]
fn mining_stops_at_the_first_good_nonce() {
    let mut block = Block { timestamp: 5, prev_hash: [1; 32], nonce: 0, transactions: Vec::new() };
    block.mine(6).unwrap();
    let found = block.nonce;
    for nonce in 0..found {
        let candidate = Block { timestamp: 5, prev_hash: [1; 32], nonce, transactions: Vec::new() };
        assert!(!hash_meets_difficulty(&candidate.compute_hash().unwrap(), 6));
    }
}

#[test]
fn difficulty_counts_leading_zero_bits() {
    let mut hash = [0xff_u8; 32];
    assert!(hash_meets_difficulty(&hash, 0));
    assert!(!hash_meets_difficulty(&hash, 1));
    hash[0] = 0x0f;
    assert!(hash_meets_difficulty(&hash, 4));
    assert!(!hash_meets_difficulty(&hash, 5));
    hash[0] = 0;
    hash[1] = 0x7f;
    assert!(hash_meets_difficulty(&hash, 9));
    assert!(!hash_meets_difficulty(&hash, 10));
    assert!(hash_meets_difficulty(&[0_u8; 32], 256));
    assert!(!hash_meets_difficulty(&[0_u8; 32], 257));
    assert!(!hash_meets_difficulty(&[0_u8; 32], 264));
}

#[test]
fn block_hash_changes_with_its_contents() {
    let block = Block { timestamp: 1, prev_hash: [0; 32], nonce: 0, transactions: Vec::new() };
    let other = Block { timestamp: 1, prev_hash: [0; 32], nonce: 1, transactions: Vec::new() };
    assert_ne!(block.compute_hash().unwrap(), other.compute_hash().unwrap());
    assert_eq!(hash_to_hex(&[0xab; 32]), "ab".repeat(32));
}

#[test]
fn round_trips_borsh_encoded_envelope() {
    let envelope = CallEnvelope::new("set", vec![1, 2, 3]);
    let encoded = envelope.encode().unwrap();

    let decoded = decode_checked(&encoded).unwrap();

    assert_eq!(decoded, envelope);
}

#[test]
fn rejects_empty_payload() {
    assert_eq!(decode_checked(&[]).unwrap_err(), CallAbiError::Empty);
}

#[test]
fn envelope_bytes_follow_borsh_layout() {
    let encoded = CallEnvelope::new("set", vec![9]).encode().unwrap();
    assert_eq!(encoded, vec![3, 0, 0, 0, b's', b'e', b't', 1, 0, 0, 0, 9]);
    assert!(matches!(decode_checked(&[1, 2]), Err(CallAbiError::Decode(_))));
    assert!(CallEnvelope::decode(&encoded[..encoded.len() - 1]).is_err());
}

#[test]
fn transaction_hash_matches_equal_transactions() {
    let tx_a = Transaction::new_transfer(address_from_name("alice"), 0, address_from_name("bob"), 5);
    let tx_b = Transaction::new_transfer(address_from_name("alice"), 0, address_from_name("bob"), 5);

    assert_eq!(transaction_hash(&tx_a).unwrap(), transaction_hash(&tx_b).unwrap());
}

#[test]
fn success_receipt_captures_logs() {
    let tx = Transaction::new_transfer(address_from_name("alice"), 0, address_from_name("bob"), 5);
    let receipt = Receipt::success(&tx, 77, vec!["hello".to_string()]).unwrap();

    assert!(receipt.success);
    assert_eq!(receipt.gas_used, 77);
    assert_eq!(receipt.logs, vec!["hello".to_string()]);
    assert!(receipt.error.is_none());
}

#[test]
fn failure_receipt_records_error() {
    let tx = Transaction::new_transfer(address_from_name("alice"), 0, address_from_name("bob"), 5);
    let receipt = Receipt::failure(&tx, 12, "boom".to_string()).unwrap();
    assert!(!receipt.success);
    assert_eq!(receipt.gas_used, 12);
    assert!(receipt.logs.is_empty());
    assert_eq!(receipt.error, Some("boom".to_string()));
    assert_eq!(receipt.tx_hash, transaction_hash(&tx).unwrap());
    let other = Transaction::new_transfer(address_from_name("alice"), 1, address_from_name("bob"), 5);
    assert_ne!(transaction_hash(&other).unwrap(), receipt.tx_hash);
}

#[test]
fn transfer_moves_balance() {
    let alice = address_from_name("alice");
    let bob = address_from_name("bob");
    let mut state = WorldState::new();
    state.set_balance(&alice, 50);

    state.transfer(&alice, &bob, 20).unwrap();

    assert_eq!(state.get_balance(&alice), 30);
    assert_eq!(state.get_balance(&bob), 20);
}

#[test]
fn transfer_errors_leave_balances_unchanged() {
    let alice = address_from_name("alice");
    let bob = address_from_name("bob");
    let mut state = WorldState::new();
    state.set_balance(&alice, 5);
    state.set_balance(&bob, u64::MAX);
    match state.transfer(&alice, &bob, 6) {
        Err(StateError::InsufficientBalance { available, required }) => {
            assert_eq!(available, 5);
            assert_eq!(required, 6);
        }
        other => panic!("unexpected result: {other:?}"),
    }
    assert!(matches!(state.transfer(&alice, &bob, 1), Err(StateError::BalanceOverflow)));
    assert_eq!(state.get_balance(&alice), 5);
    assert_eq!(state.get_balance(&bob), u64::MAX);
    state.transfer(&alice, &alice, 5).unwrap();
    assert_eq!(state.get_balance(&alice), 5);
}

#[test]
fn apply_transaction_checks_nonce() {
    let alice = address_from_name("alice");
    let bob = address_from_name("bob");
    let mut state = WorldState::new();
    state.set_balance(&alice, 50);

    let error = state
        .apply_transaction(&Transaction {
            sender: alice,
            nonce: 7,
            payload: Payload::Transfer { receiver: bob, amount: 10 },
            timestamp: 1,
        })
        .unwrap_err();

    assert!(matches!(error, StateError::InvalidNonce { expected: 0, got: 7 }));
}

#[test]
fn deploy_stores_contract_code() {
    let alice = address_from_name("alice");
    let mut state = WorldState::new();

    let tx = Transaction {
        sender: alice,
        nonce: 0,
        payload: Payload::Deploy { code: vec![0, 97, 115, 109] },
        timestamp: 1,
    };
    let contract = tx.derived_contract_address();

    state.apply_transaction(&tx).unwrap();

    assert_eq!(state.get_account(&contract).unwrap().code, Some(vec![0, 97, 115, 109]));
    assert_eq!(state.get_account(&alice).unwrap().nonce, 1);
}

#[test]
fn second_deploy_to_same_address_is_rejected() {
    let alice = address_from_name("alice");
    let mut state = WorldState::new();
    let tx = Transaction::new_deploy(alice, 0, vec![1]);
    state.apply_transaction(&tx).unwrap();
    state.set_nonce(&alice, 0);
    assert!(matches!(state.apply_transaction(&tx), Err(StateError::ContractAlreadyExists)));
}

#[test]
fn applying_a_transfer_advances_the_nonce() {
    let alice = address_from_name("alice");
    let bob = address_from_name("bob");
    let mut state = WorldState::new();
    state.set_balance(&alice, 9);
    state.apply_transaction(&Transaction::new_transfer(alice, 0, bob, 4)).unwrap();
    assert_eq!(state.get_nonce(&alice), 1);
    assert_eq!(state.get_balance(&alice), 5);
    assert_eq!(state.get_balance(&bob), 4);
    let block = Block {
        timestamp: 0,
        prev_hash: [0; 32],
        nonce: 0,
        transactions: vec![
            Transaction::new_transfer(alice, 1, bob, 1),
            Transaction::new_transfer(alice, 5, bob, 1),
        ],
    };
    assert!(state.apply_block(&block).is_err());
    assert_eq!(state.get_nonce(&alice), 2);
}

#[test]
fn derived_contract_address_is_deterministic() {
    let sender = address_from_name("alice");
    let tx = Transaction { sender, nonce: 3, payload: Payload::Deploy { code: vec![1, 2, 3] }, timestamp: 1 };

    assert_eq!(tx.derived_contract_address(), tx.derived_contract_address());
}

#[test]
fn different_names_map_to_different_addresses() {
    assert_ne!(address_from_name("alice"), address_from_name("bob"));
}

#[test]
fn call_payload_args_can_be_framed_with_envelope() {
    let tx = Transaction::new_call(
        address_from_name("alice"),
        0,
        address_from_name("contract"),
        "set",
        CallEnvelope::new("set", vec![1, 2, 3]).encode().unwrap(),
        0,
    );

    match tx.payload {
        Payload::Call { args, .. } => {
            let envelope = CallEnvelope::decode(&args).unwrap();
            assert_eq!(envelope.method, "set");
            assert_eq!(envelope.args, vec![1, 2, 3]);
        }
        payload => panic!("unexpected payload: {payload:?}"),
    }
}

#[test]
fn addresses_render_as_lowercase_hex() {
    let address = address_from_name("alice");
    let hex = address_to_hex(&address);
    assert_eq!(hex.len(), 64);
    assert!(hex.chars().all(|c| c.is_ascii_hexdigit() && !c.is_ascii_uppercase()));
    assert_eq!(
        hex,
        "2bd806c97f0e00af1a1fc3328fa763a9269723c8db8fac4f93af71db186d6e90"
    );
}

#[test]
fn deploy_cost_is_per_byte() {
    assert_eq!(deploy_cost(0), 0);
    assert_eq!(deploy_cost(7), 7 * DEPLOY_COST_PER_BYTE);
    assert_eq!(deploy_cost(usize::MAX), u64::MAX);
    assert_eq!(BASE_TX_COST, 1_000);
}

#[test]
fn decodes_envelope() {
    let envelope = CallEnvelope { method: "set".to_string(), args: borsh::to_vec(&7_u64).unwrap() };

    let decoded = CallEnvelope::decode(&envelope.encode().unwrap()).unwrap();

    assert_eq!(decoded.method, "set");
    assert_eq!(borsh::from_slice::<u64>(&decoded.args).unwrap(), 7);
}

#[test]
fn call_abi_errors_have_messages() {
    assert_eq!(CallAbiError::Empty.message(), "call envelope is empty");
    assert_eq!(
        CallAbiError::Decode("bad".to_string()).message(),
        "failed to decode call envelope: bad"
    );
}

#[test]
fn applying_two_blocks_equals_applying_them_as_one() {
    let alice = address_from_name("alice");
    let bob = address_from_name("bob");
    let first = vec![Transaction::new_transfer(alice, 0, bob, 3), Transaction::new_transfer(alice, 1, bob, 2)];
    let second = vec![Transaction::new_transfer(bob, 0, alice, 4)];
    let block = |txs: Vec<Transaction>| Block { timestamp: 0, prev_hash: [0; 32], nonce: 0, transactions: txs };

    let mut one_by_one = WorldState::new();
    one_by_one.set_balance(&alice, 10);
    one_by_one.apply_block(&block(first.clone())).unwrap();
    one_by_one.apply_block(&block(second.clone())).unwrap();

    let mut together = WorldState::new();
    together.set_balance(&alice, 10);
    let mut all = first;
    all.extend(second);
    together.apply_block(&block(all)).unwrap();

    for who in [alice, bob] {
        assert_eq!(one_by_one.get_balance(&who), together.get_balance(&who));
        assert_eq!(one_by_one.get_nonce(&who), together.get_nonce(&who));
    }
    assert_eq!(together.get_balance(&alice), 9);
    assert_eq!(together.get_balance(&bob), 1);
}

#[test]
fn a_block_stops_at_its_first_failing_transaction() {
    let alice = address_from_name("alice");
    let bob = address_from_name("bob");
    let mut state = WorldState::new();
    state.set_balance(&alice, 3);
    let block = Block {
        timestamp: 0,
        prev_hash: [0; 32],
        nonce: 0,
        transactions: vec![
            Transaction::new_transfer(alice, 0, bob, 2),
            Transaction::new_transfer(alice, 1, bob, 5),
            Transaction::new_transfer(alice, 2, bob, 1),
        ],
    };
    assert!(matches!(
        state.apply_block(&block),
        Err(StateError::InsufficientBalance { available: 1, required: 5 })
    ));
    assert_eq!(state.get_balance(&alice), 1);
    assert_eq!(state.get_balance(&bob), 2);
    assert_eq!(state.get_nonce(&alice), 1);
}

#[test]
fn apply_transaction_reports_which_check_failed() {
    let alice = address_from_name("alice");
    let bob = address_from_name("bob");
    let mut state = WorldState::new();
    state.set_balance(&alice, 1);
    assert!(matches!(
        state.apply_transaction(&Transaction::new_transfer(alice, 0, bob, 2)),
        Err(StateError::InsufficientBalance { available: 1, required: 2 })
    ));
    state.set_balance(&bob, u64::MAX);
    assert!(matches!(
        state.apply_transaction(&Transaction::new_transfer(alice, 0, bob, 1)),
        Err(StateError::BalanceOverflow)
    ));
    state.set_nonce(&alice, u64::MAX);
    assert!(matches!(
        state.apply_transaction(&Transaction::new_transfer(alice, u64::MAX, bob, 0)),
        Err(StateError::NonceOverflow)
    ));
}

#[test]
fn new_blocks_carry_the_current_time() {
    let block = Block::new(Vec::new(), [0; 32]);
    assert!(block.timestamp > 1_600_000_000);
    assert_eq!(block.nonce, 0);
}
