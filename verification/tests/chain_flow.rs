use blocky::vm::gas::BASE_TX_COST;
use blocky::{address_from_name, Blockchain, BlockyError, Payload, StateError, Transaction};

const EMPTY_MODULE: &[u8] = &[0x00, 0x61, 0x73, 0x6d, 0x01, 0x00, 0x00, 0x00];
const NOOP_MODULE: &[u8] = &[
    0x00, 0x61, 0x73, 0x6d, 0x01, 0x00, 0x00, 0x00, 0x01, 0x04, 0x01, 0x60, 0x00, 0x00, 0x03,
    0x02, 0x01, 0x00, 0x07, 0x08, 0x01, 0x04, 0x6e, 0x6f, 0x6f, 0x70, 0x00, 0x00, 0x0a, 0x04,
    0x01, 0x02, 0x00, 0x0b,
];

#[test]
fn genesis_block_has_zero_prev_hash() {
    let chain = Blockchain::try_new(4).unwrap();
    assert_eq!(chain.chain[0].prev_hash, [0_u8; 32]);
}

#[test]
fn valid_chain_stays_valid() {
    let mut chain = Blockchain::try_new(4).unwrap();
    let alice = address_from_name("alice");
    let bob = address_from_name("bob");
    chain.credit_balance(alice, 25);
    chain
        .add_transaction(Transaction::new_transfer(alice, 0, bob, 25))
        .unwrap();
    chain.mine_pending().unwrap();

    assert!(chain.is_valid().unwrap());
    assert_eq!(chain.state.get_balance(&alice), 0);
    assert_eq!(chain.state.get_balance(&bob), 25);
}

#[test]
fn rejects_transaction_when_balance_is_too_low() {
    let mut chain = Blockchain::try_new(4).unwrap();
    let alice = address_from_name("alice");
    let bob = address_from_name("bob");

    let error = chain
        .add_transaction(Transaction::new_transfer(alice, 0, bob, 25))
        .unwrap_err();

    assert!(matches!(error, BlockyError::InsufficientBalance { .. }));
}

#[test]
fn tampering_is_detected() {
    let mut chain = Blockchain::try_new(12).unwrap();
    let alice = address_from_name("alice");
    let bob = address_from_name("bob");
    chain.credit_balance(alice, 25);
    chain
        .add_transaction(Transaction::new_transfer(alice, 0, bob, 25))
        .unwrap();
    chain.mine_pending().unwrap();

    if let Payload::Transfer { amount, .. } = &mut chain.chain[1].transactions[0].payload {
        *amount = 999;
    }

    assert!(!chain.is_valid().unwrap());
}

#[test]
fn mine_pending_records_success_receipts() {
    let mut chain = Blockchain::try_new(4).unwrap();
    let alice = address_from_name("alice");
    let deploy = Transaction::new_deploy(alice, 0, NOOP_MODULE.to_vec());
    let contract = deploy.derived_contract_address();

    chain.credit_balance(alice, 2_000_000);
    chain.add_transaction(deploy).unwrap();
    chain
        .add_transaction(Transaction::new_call(alice, 1, contract, "noop", Vec::new(), 3))
        .unwrap();

    chain.mine_pending().unwrap();

    assert_eq!(chain.receipts.len(), 1);
    assert_eq!(chain.receipts[0].len(), 2);
    assert!(chain.receipts[0].iter().all(|receipt| receipt.success));
    assert!(chain.receipts[0].iter().all(|receipt| receipt.gas_used >= BASE_TX_COST));
    assert_eq!(chain.state.get_balance(&contract), 3);
}

#[test]
fn mine_pending_records_failure_receipt_for_vm_errors() {
    let mut chain = Blockchain::try_new(4).unwrap();
    let alice = address_from_name("alice");
    let deploy = Transaction::new_deploy(alice, 0, EMPTY_MODULE.to_vec());
    let contract = deploy.derived_contract_address();

    chain.credit_balance(alice, 2_000_000);
    chain.add_transaction(deploy.clone()).unwrap();
    let failing_call = Transaction {
        sender: alice,
        nonce: 1,
        payload: Payload::Call {
            contract,
            method: "missing".to_string(),
            args: Vec::new(),
            deposit: 2,
        },
        timestamp: 1,
    };
    chain.add_transaction(failing_call.clone()).unwrap();

    let error = chain.mine_pending().unwrap_err();

    assert!(matches!(error, BlockyError::State(StateError::Vm(_))));
    assert_eq!(chain.receipts.len(), 1);
    assert_eq!(chain.receipts[0].len(), 2);
    assert!(chain.receipts[0][0].success);
    assert!(!chain.receipts[0][1].success);
    assert_eq!(chain.chain.len(), 1);
    assert!(chain.state.get_account(&contract).is_none());
    assert_eq!(chain.pending_transactions, vec![deploy, failing_call]);
}

#[test]
fn mining_without_pending_transactions_fails() {
    let mut chain = Blockchain::try_new(2).unwrap();
    assert!(matches!(chain.mine_pending(), Err(BlockyError::NoPendingTransactions)));
    assert_eq!(chain.chain.len(), 1);
    assert!(chain.receipts.is_empty());
}

#[test]
fn queued_transactions_must_follow_the_sender_nonce() {
    let mut chain = Blockchain::try_new(2).unwrap();
    let alice = address_from_name("alice");
    let bob = address_from_name("bob");
    chain.credit_balance(alice, 10);
    match chain.add_transaction(Transaction::new_transfer(alice, 1, bob, 1)) {
        Err(BlockyError::InvalidNonce { expected, got }) => {
            assert_eq!(expected, 0);
            assert_eq!(got, 1);
        }
        other => panic!("unexpected result: {other:?}"),
    }
    chain.add_transaction(Transaction::new_transfer(alice, 0, bob, 4)).unwrap();
    chain.add_transaction(Transaction::new_transfer(alice, 1, bob, 6)).unwrap();
    match chain.add_transaction(Transaction::new_transfer(alice, 2, bob, 1)) {
        Err(BlockyError::InsufficientBalance { available, required }) => {
            assert_eq!(available, 0);
            assert_eq!(required, 1);
        }
        other => panic!("unexpected result: {other:?}"),
    }
    assert_eq!(chain.pending_transactions.len(), 2);
}

#[test]
fn mining_chains_blocks_by_hash_and_applies_transfers() {
    let mut chain = Blockchain::try_new(3).unwrap();
    let alice = address_from_name("alice");
    let bob = address_from_name("bob");
    chain.credit_balance(alice, 30);
    chain.add_transaction(Transaction::new_transfer(alice, 0, bob, 10)).unwrap();
    let first = chain.mine_pending().unwrap();
    chain.add_transaction(Transaction::new_transfer(alice, 1, bob, 5)).unwrap();
    let second = chain.mine_pending().unwrap();
    assert_eq!(first.prev_hash, chain.chain[0].compute_hash().unwrap());
    assert_eq!(second.prev_hash, first.compute_hash().unwrap());
    assert_eq!(chain.chain.len(), 3);
    assert_eq!(chain.receipts.len(), 2);
    assert_eq!(chain.state.get_balance(&alice), 15);
    assert_eq!(chain.state.get_balance(&bob), 15);
    assert_eq!(chain.state.get_nonce(&alice), 2);
    assert!(chain.is_valid().unwrap());
}

#[test]
fn credit_balance_saturates() {
    let mut chain = Blockchain::try_new(1).unwrap();
    let alice = address_from_name("alice");
    chain.credit_balance(alice, u64::MAX - 1);
    chain.credit_balance(alice, 5);
    assert_eq!(chain.state.get_balance(&alice), u64::MAX);
}

#[test]
fn error_messages_describe_the_failure() {
    assert_eq!(
        BlockyError::NoPendingTransactions.message(),
        "cannot mine a block without pending transactions"
    );
    assert_eq!(
        BlockyError::InsufficientBalance { available: 3, required: 7 }.message(),
        "sender has insufficient balance: available 3, required 7"
    );
    assert_eq!(
        BlockyError::InvalidNonce { expected: 1, got: 9 }.message(),
        "sender nonce mismatch: expected 1, got 9"
    );
    assert_eq!(
        BlockyError::State(StateError::ContractCodeMissing).message(),
        "contract call target has no code"
    );
}

#[test]
fn mining_at_difficulty_zero_succeeds_with_the_first_nonce() {
    let mut chain = Blockchain::try_new(0).unwrap();
    let alice = address_from_name("alice");
    let bob = address_from_name("bob");
    chain.credit_balance(alice, 10);
    chain.add_transaction(Transaction::new_transfer(alice, 0, bob, 4)).unwrap();
    let block = chain.mine_pending().unwrap();
    assert_eq!(block.nonce, 0);
    assert_eq!(chain.chain.len(), 2);
    assert_eq!(chain.state.get_balance(&bob), 4);
    assert_eq!(chain.receipts[0][0].gas_used, BASE_TX_COST);
    assert!(chain.receipts[0][0].logs.is_empty());
    assert!(chain.is_valid().unwrap());
}

#[test]
fn a_failed_attempt_records_the_error_message() {
    let mut chain = Blockchain::try_new(1).unwrap();
    let alice = address_from_name("alice");
    let deploy = Transaction::new_deploy(alice, 0, EMPTY_MODULE.to_vec());
    let contract = deploy.derived_contract_address();
    chain.credit_balance(alice, 2_000_000);
    chain.add_transaction(deploy).unwrap();
    chain
        .add_transaction(Transaction::new_call(alice, 1, contract, "missing", Vec::new(), 0))
        .unwrap();
    let error = chain.mine_pending().unwrap_err();
    assert_eq!(chain.receipts[0][1].error, Some(error.message()));
    assert_eq!(chain.receipts[0][1].gas_used, BASE_TX_COST);
    assert_eq!(chain.receipts[0][0].gas_used, BASE_TX_COST + 80);
}
