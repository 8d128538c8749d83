//! The blockchain: blocks, pending transactions, mining, receipts and
//! validation.

use crate::block::{block_hash, hash_meets_difficulty, meets_difficulty, with_block_nonce, Block, BlockView};
use crate::encoding::bytes32_equal;
use crate::receipt::{spec_transaction_hash, transaction_encodable, Receipt};
use crate::state::{
    apply_errors, call_committed, call_ready, engine_request_for, is_state_error_message, balance_of, nonce_of, nonce_ready, spec_apply,
    spec_apply_all, with_balance, with_nonce, AccountView, StateError, WorldState,
};
use crate::transaction::{
    clone_transactions, transactions_view, Address, Payload, PayloadView, Transaction,
    TransactionView,
};
use crate::vm::gas::{deploy_cost, spec_deploy_cost, BASE_TX_COST, DEFAULT_GAS_LIMIT};
use crate::text::{concat_text, decimal_chars, push_decimal_text};
use crate::vm::{is_vm_error_message, CallRequest, ExecutionContext, GasReport, VmEngine, VmError};
use vstd::prelude::*;

verus! {

/// Trusted declaration of `serde_json::Error`, the error of JSON serialization.
#[verifier::external_type_specification]
#[verifier::external_body]
pub struct ExJsonError(serde_json::Error);

/// Trusted declaration of `std::io::Error`, the error of Borsh serialization.
#[verifier::external_type_specification]
#[verifier::external_body]
pub struct ExIoError(std::io::Error);

/// Errors of blockchain operations.
#[derive(Debug)]
pub enum BlockyError {
    /// There is nothing to mine.
    NoPendingTransactions,
    /// Block transactions could not be serialized for hashing.
    BlockHashSerialization(serde_json::Error),
    /// A transaction could not be serialized for hashing.
    HashSerialization(std::io::Error),
    /// No nonce up to `u64::MAX` gives a hash that meets the difficulty.
    NonceExhausted,
    /// The sender cannot cover the transaction together with its pending ones.
    InsufficientBalance { available: u64, required: u64 },
    /// The transaction's nonce is not the sender's next nonce.
    InvalidNonce { expected: u64, got: u64 },
    /// Applying a transaction to the state failed.
    State(StateError),
    /// Contract execution failed.
    Vm(VmError),
}

/// Trusted: the `Display` text of a `serde_json::Error`. Nothing is stated of
/// the text.
#[verifier::external_body]
fn json_error_text(error: &serde_json::Error) -> String {
    error.to_string()
}

/// Trusted: the `Display` text of a `std::io::Error`. Nothing is stated of the
/// text.
#[verifier::external_body]
pub(crate) fn io_error_text(error: &std::io::Error) -> String {
    error.to_string()
}

/// `text` is the message of `error`.
pub open spec fn is_blocky_error_message(error: BlockyError, text: Seq<char>) -> bool {
    match error {
        BlockyError::NoPendingTransactions => text == "cannot mine a block without pending transactions"@,
        BlockyError::BlockHashSerialization(_) => exists|detail: Seq<char>|
            text == "failed to serialize block transactions while hashing: "@ + detail,
        BlockyError::HashSerialization(_) => exists|detail: Seq<char>|
            text == "failed to serialize transaction while hashing: "@ + detail,
        BlockyError::NonceExhausted => text == "no nonce up to u64::MAX gives a hash that meets the difficulty"@,
        BlockyError::InsufficientBalance { available, required } => text
            == "sender has insufficient balance: available "@ + decimal_chars(available as nat)
            + ", required "@ + decimal_chars(required as nat),
        BlockyError::InvalidNonce { expected, got } => text == "sender nonce mismatch: expected "@
            + decimal_chars(expected as nat) + ", got "@ + decimal_chars(got as nat),
        BlockyError::State(e) => is_state_error_message(e, text),
        BlockyError::Vm(e) => is_vm_error_message(e, text),
    }
}

impl BlockyError {
    /// Returns the human-readable message of this error.
    pub fn message(&self) -> (text: String)
        ensures
            is_blocky_error_message(*self, text@),
    {
        match self {
            BlockyError::NoPendingTransactions => String::from_str(
                "cannot mine a block without pending transactions",
            ),
            BlockyError::BlockHashSerialization(e) => {
                let detail = json_error_text(e);
                let text = concat_text(
                    "failed to serialize block transactions while hashing: ",
                    detail.as_str(),
                );
                assert(text@ == "failed to serialize block transactions while hashing: "@ + detail@);
                text
            },
            BlockyError::HashSerialization(e) => {
                let detail = io_error_text(e);
                let text = concat_text("failed to serialize transaction while hashing: ", detail.as_str());
                assert(text@ == "failed to serialize transaction while hashing: "@ + detail@);
                text
            },
            BlockyError::NonceExhausted => String::from_str(
                "no nonce up to u64::MAX gives a hash that meets the difficulty",
            ),
            BlockyError::InsufficientBalance { available, required } => {
                let mut text = String::from_str("sender has insufficient balance: available ");
                push_decimal_text(&mut text, *available);
                text.append(", required ");
                push_decimal_text(&mut text, *required);
                text
            },
            BlockyError::InvalidNonce { expected, got } => {
                let mut text = String::from_str("sender nonce mismatch: expected ");
                push_decimal_text(&mut text, *expected);
                text.append(", got ");
                push_decimal_text(&mut text, *got);
                text
            },
            BlockyError::State(e) => e.message(),
            BlockyError::Vm(e) => e.message(),
        }
    }
}

/// The blockchain: confirmed blocks, pending transactions, the world state,
/// the contract engine, and the receipts of mined blocks.
pub struct Blockchain {
    /// Confirmed blocks, genesis first.
    pub chain: Vec<Block>,
    /// Transactions waiting to be mined, in arrival order.
    pub pending_transactions: Vec<Transaction>,
    /// Leading zero bits required of every block hash.
    pub difficulty: u32,
    /// The world state after the confirmed blocks.
    pub state: WorldState,
    /// The contract engine.
    pub vm: VmEngine,
    /// One receipt list per mining attempt that applied transactions.
    pub receipts: Vec<Vec<Receipt>>,
}

/// The views of a list of blocks.
pub open spec fn blocks_view(blocks: Seq<Block>) -> Seq<BlockView> {
    blocks.map_values(|b: Block| b@)
}

/// A hash of all zero bytes.
pub open spec fn is_zero_hash(h: [u8; 32]) -> bool {
    forall|i: int| 0 <= i < 32 ==> h@[i] == 0
}

/// A chain is valid when it has a genesis block whose previous hash is zero,
/// every block's hash meets the difficulty, and every other block's previous
/// hash is the hash of the block before it.
pub open spec fn chain_valid(blocks: Seq<BlockView>, difficulty: u32) -> bool {
    &&& blocks.len() > 0
    &&& is_zero_hash(blocks[0].prev_hash)
    &&& forall|i: int| 0 <= i < blocks.len() ==> meets_difficulty(#[trigger] block_hash(blocks[i])@, difficulty)
    &&& forall|i: int| 1 <= i < blocks.len() ==> #[trigger] blocks[i].prev_hash == block_hash(blocks[i - 1])
}

/// The number of transactions in `pending` sent by `sender`.
pub open spec fn pending_count(pending: Seq<TransactionView>, sender: Address) -> nat
    decreases pending.len(),
{
    if pending.len() == 0 {
        0
    } else {
        pending_count(pending.drop_last(), sender) + if pending.last().sender == sender {
            1nat
        } else {
            0nat
        }
    }
}

/// `a + b`, capped at `u64::MAX`.
pub open spec fn sat_add(a: nat, b: nat) -> u64 {
    if a + b > u64::MAX {
        u64::MAX
    } else {
        (a + b) as u64
    }
}

/// The balance a transaction needs from its sender: a transfer's amount, a
/// deployment's code cost plus the base cost, a call's deposit plus the
/// default gas limit (each capped at `u64::MAX`).
pub open spec fn tx_cost(p: PayloadView) -> u64 {
    match p {
        PayloadView::Transfer { amount, .. } => amount,
        PayloadView::Deploy { code } => sat_add(spec_deploy_cost(code.len()) as nat, BASE_TX_COST as nat),
        PayloadView::Call { deposit, .. } => sat_add(deposit as nat, DEFAULT_GAS_LIMIT as nat),
    }
}

/// The total cost reserved by `sender`'s pending transactions.
pub open spec fn reserved_total(pending: Seq<TransactionView>, sender: Address) -> nat
    decreases pending.len(),
{
    if pending.len() == 0 {
        0
    } else {
        reserved_total(pending.drop_last(), sender) + if pending.last().sender == sender {
            tx_cost(pending.last().payload) as nat
        } else {
            0nat
        }
    }
}

/// The nonce the sender's next transaction must carry: its account nonce plus
/// its pending transactions.
pub open spec fn expected_nonce(state: Map<Address, AccountView>, pending: Seq<TransactionView>, sender: Address) -> nat {
    nonce_of(state, sender) as nat + pending_count(pending, sender)
}

/// The gas charged for a transaction before any contract code runs: the
/// base cost, plus the code's cost for a deployment (saturating).
pub open spec fn base_gas(p: PayloadView) -> u64 {
    match p {
        PayloadView::Deploy { code } => sat_add(BASE_TX_COST as nat, spec_deploy_cost(code.len()) as nat),
        _ => BASE_TX_COST,
    }
}

/// The transaction's cost to its sender.
fn transaction_cost(payload: &Payload) -> (cost: u64)
    ensures
        cost == tx_cost(payload@),
{
    match payload {
        Payload::Transfer { amount, .. } => *amount,
        Payload::Deploy { code } => deploy_cost(code.len()).saturating_add(BASE_TX_COST),
        Payload::Call { deposit, .. } => deposit.saturating_add(DEFAULT_GAS_LIMIT),
    }
}

/// Returns whether a hash is all zero bytes.
fn hash_is_zero(h: &[u8; 32]) -> (zero: bool)
    ensures
        zero == is_zero_hash(*h),
{
    let mut i: usize = 0;
    while i < 32
        invariant
            i <= 32,
            h@.len() == 32,
            forall|j: int| 0 <= j < i ==> h@[j] == 0,
        decreases 32 - i,
    {
        if h[i] != 0 {
            return false;
        }
        i = i + 1;
    }
    true
}

impl Blockchain {
    /// The blocks of the chain as values.
    pub open spec fn blocks(&self) -> Seq<BlockView> {
        blocks_view(self.chain@)
    }

    /// The pending transactions as values.
    pub open spec fn pending(&self) -> Seq<TransactionView> {
        transactions_view(self.pending_transactions@)
    }

    /// Creates a chain holding a mined genesis block with no transactions
    /// and a zero previous hash, an empty world state and no receipts.
    pub fn try_new(difficulty: u32) -> (blockchain: Result<Self, BlockyError>)
        ensures
            blockchain matches Ok(b) ==> {
                &&& b.chain@.len() == 1
                &&& is_zero_hash(b.chain@[0].prev_hash)
                &&& b.chain@[0].transactions@.len() == 0
                &&& chain_valid(b.blocks(), difficulty)
                &&& b.pending_transactions@.len() == 0
                &&& b.difficulty == difficulty
                &&& b.state@ == Map::<Address, AccountView>::empty()
                &&& b.receipts@.len() == 0
            },
            blockchain matches Err(e) ==> match e {
                BlockyError::NonceExhausted => exists|t: u64, p: [u8; 32]| #[trigger] no_nonce_meets(
                    t,
                    p,
                    Seq::<TransactionView>::empty(),
                    difficulty,
                ) && is_zero_hash(p),
                BlockyError::Vm(v) => v is EngineConfig,
                _ => false,
            },
            difficulty == 0 ==> (blockchain is Ok || blockchain matches Err(BlockyError::Vm(_))),
    {
        broadcast use vstd::array::group_array_axioms;

        let zero: [u8; 32] = [0u8; 32];
        assert(is_zero_hash(zero));
        let mut genesis = Block::new(Vec::new(), zero);
        let ghost start = genesis@;
        match genesis.mine(difficulty) {
            Ok(()) => {},
            Err(error) => {
                proof {
                    let empty = Seq::<TransactionView>::empty();
                    assert(start.transactions =~= empty);
                    assert(start == candidate_block(start.timestamp, zero, empty));
                    assert forall|n: u64| !meets_difficulty(
                        #[trigger] block_hash(with_block_nonce(candidate_block(start.timestamp, zero, empty), n))@,
                        difficulty,
                    ) by {
                        if n == u64::MAX {
                            assert(with_block_nonce(start, n) == genesis@);
                        }
                    }
                    assert(no_nonce_meets(start.timestamp, zero, empty, difficulty));
                }
                return Err(error);
            },
        }
        let vm = match VmEngine::new() {
            Ok(vm) => vm,
            Err(error) => return Err(BlockyError::Vm(error)),
        };
        let mut chain: Vec<Block> = Vec::new();
        chain.push(genesis);
        let blockchain = Blockchain {
            chain,
            pending_transactions: Vec::new(),
            difficulty,
            state: WorldState::new(),
            vm,
            receipts: Vec::new(),
        };
        assert(blockchain.blocks()[0] == blockchain.chain@[0]@);
        Ok(blockchain)
    }

    /// Adds `amount` to the balance of `address` (saturating).
    pub fn credit_balance(&mut self, address: Address, amount: u64)
        ensures
            final(self).state@ == with_balance(
                old(self).state@,
                address,
                sat_add(balance_of(old(self).state@, address) as nat, amount as nat),
            ),
            final(self).chain == old(self).chain,
            final(self).pending_transactions == old(self).pending_transactions,
            final(self).receipts == old(self).receipts,
            final(self).difficulty == old(self).difficulty,
    {
        let current = self.state.get_balance(&address);
        self.state.set_balance(&address, current.saturating_add(amount));
    }

    /// Counts the pending transactions of `sender` and the cost they reserve.
    pub(crate) fn pending_of(&self, sender: &Address) -> (totals: (u64, u64))
        ensures
            totals.0 == pending_count(self.pending(), *sender),
            totals.1 == sat_add(reserved_total(self.pending(), *sender), 0),
    {
        let ghost all = self.pending();
        let mut count: u64 = 0;
        let mut reserved: u64 = 0;
        let mut i: usize = 0;
        while i < self.pending_transactions.len()
            invariant
                i <= self.pending_transactions@.len(),
                all == self.pending(),
                count == pending_count(all.subrange(0, i as int), *sender),
                count <= i,
                reserved == sat_add(reserved_total(all.subrange(0, i as int), *sender), 0),
            decreases self.pending_transactions@.len() - i,
        {
            let tx = &self.pending_transactions[i];
            proof {
                let t = all.subrange(0, i + 1 as int);
                assert(t.drop_last() =~= all.subrange(0, i as int));
                assert(t.last() == tx@);
            }
            if bytes32_equal(&tx.sender, sender) {
                count = count + 1;
                reserved = reserved.saturating_add(transaction_cost(&tx.payload));
            }
            i = i + 1;
        }
        assert(all.subrange(0, i as int) =~= all);
        (count, reserved)
    }

    /// Queues a transaction after checking that its nonce follows the
    /// sender's account nonce and pending transactions, and that the sender's
    /// balance covers it together with the cost its pending transactions
    /// reserve. On error nothing changes.
    pub fn add_transaction(&mut self, tx: Transaction) -> (result: Result<(), BlockyError>)
        ensures
            final(self).chain == old(self).chain,
            final(self).state == old(self).state,
            final(self).receipts == old(self).receipts,
            final(self).difficulty == old(self).difficulty,
            ({
                let expected = expected_nonce(old(self).state@, old(self).pending(), tx.sender);
                let reserved = sat_add(reserved_total(old(self).pending(), tx.sender), 0);
                let required = tx_cost(tx.payload@);
                let available = balance_of(old(self).state@, tx.sender);
                if expected > u64::MAX || tx.nonce != expected {
                    &&& result matches Err(BlockyError::InvalidNonce { expected: e, got })
                    &&& e == (if expected > u64::MAX { u64::MAX } else { expected as u64 })
                    &&& got == tx.nonce
                    &&& final(self).pending_transactions == old(self).pending_transactions
                } else if available < sat_add(reserved as nat, required as nat) {
                    &&& result matches Err(BlockyError::InsufficientBalance { available: a, required: r })
                    &&& a == (if available >= reserved { available - reserved } else { 0 })
                    &&& r == required
                    &&& final(self).pending_transactions == old(self).pending_transactions
                } else {
                    &&& result is Ok
                    &&& final(self).pending_transactions@ == old(self).pending_transactions@.push(tx)
                }
            }),
    {
        let (count, reserved) = self.pending_of(&tx.sender);
        let nonce = self.state.get_nonce(&tx.sender);
        let expected: u64 = match nonce.checked_add(count) {
            Some(expected) => expected,
            None => {
                return Err(BlockyError::InvalidNonce { expected: u64::MAX, got: tx.nonce });
            },
        };
        if tx.nonce != expected {
            return Err(BlockyError::InvalidNonce { expected, got: tx.nonce });
        }
        let required = transaction_cost(&tx.payload);
        let available = self.state.get_balance(&tx.sender);
        if available < reserved.saturating_add(required) {
            return Err(
                BlockyError::InsufficientBalance {
                    available: available.saturating_sub(reserved),
                    required,
                },
            );
        }
        self.pending_transactions.push(tx);
        Ok(())
    }

    /// Checks the chain: a genesis block with a zero previous hash, every
    /// block's hash meeting the difficulty, and every block linked to the
    /// hash of the one before it.
    #[verifier::spinoff_prover]
    pub fn is_valid(&self) -> (valid: Result<bool, BlockyError>)
        ensures
            valid == Ok::<bool, BlockyError>(chain_valid(self.blocks(), self.difficulty)),
    {
        let ghost blocks = self.blocks();
        if self.chain.len() == 0 {
            return Ok(false);
        }
        assert(blocks[0] == self.chain@[0]@);
        if !hash_is_zero(&self.chain[0].prev_hash) {
            return Ok(false);
        }
        let mut prev_hash: [u8; 32] = [0u8; 32];
        let mut index: usize = 0;
        while index < self.chain.len()
            invariant
                index <= self.chain@.len(),
                blocks == self.blocks(),
                is_zero_hash(blocks[0].prev_hash),
                forall|i: int| 0 <= i < index ==> meets_difficulty(#[trigger] block_hash(blocks[i])@, self.difficulty),
                forall|i: int| 1 <= i < index ==> #[trigger] blocks[i].prev_hash == block_hash(blocks[i - 1]),
                index > 0 ==> prev_hash == block_hash(blocks[index - 1]),
            decreases self.chain@.len() - index,
        {
            let block = &self.chain[index];
            assert(blocks[index as int] == block@);
            let hash = match block.compute_hash() {
                Ok(hash) => hash,
                Err(error) => return Err(error),
            };
            if !hash_meets_difficulty(&hash, self.difficulty) {
                return Ok(false);
            }
            if index > 0 {
                if !bytes32_equal(&block.prev_hash, &prev_hash) {
                    return Ok(false);
                }
            }
            prev_hash = hash;
            index = index + 1;
        }
        Ok(true)
    }

    /// Mines the pending transactions into a new block and applies them, in
    /// order, to a copy of the world state, running contract calls on the
    /// engine. When every transaction applies, the copy becomes the state,
    /// the block is appended and returned, and one successful receipt per
    /// transaction is recorded. When one fails, the state, the chain and the
    /// pending transactions are left as they were, and the receipts of the
    /// attempt (successes, then the failure) are recorded.
    #[verifier::spinoff_prover]
    pub fn mine_pending(&mut self) -> (result: Result<Block, BlockyError>)
        ensures
            result matches Ok(block) ==> mined(*old(self), *final(self), block@),
            result matches Err(e) ==> mine_failed(*old(self), *final(self), e),
            old(self).pending_transactions@.len() > 0 && applies_cleanly(
                old(self).state@,
                old(self).pending(),
            ) ==> (result is Ok || result matches Err(BlockyError::NonceExhausted)),
            old(self).difficulty == 0 && old(self).pending_transactions@.len() > 0 && applies_cleanly(
                old(self).state@,
                old(self).pending(),
            ) ==> result is Ok,
    {
        broadcast use vstd::array::group_array_axioms;

        if self.pending_transactions.len() == 0 {
            return Err(BlockyError::NoPendingTransactions);
        }
        let prev_hash: [u8; 32] = if self.chain.len() > 0 {
            let last = &self.chain[self.chain.len() - 1];
            assert(self.blocks().last() == last@);
            match last.compute_hash() {
                Ok(hash) => hash,
                Err(error) => return Err(error),
            }
        } else {
            let zero: [u8; 32] = [0u8; 32];
            assert(is_zero_hash(zero));
            zero
        };
        assert(links_to_tip(*old(self), prev_hash));
        let mut transactions: Vec<Transaction> = Vec::new();
        std::mem::swap(&mut transactions, &mut self.pending_transactions);
        let ghost txs = transactions_view(transactions@);
        let mut block = Block::new(clone_transactions(&transactions), prev_hash);
        let ghost start = block@;
        match block.mine(self.difficulty) {
            Ok(()) => {},
            Err(error) => {
                proof {
                    let d = self.difficulty;
                    assert(start == candidate_block(start.timestamp, prev_hash, txs));
                    assert forall|n: u64| !meets_difficulty(
                        #[trigger] block_hash(with_block_nonce(candidate_block(start.timestamp, prev_hash, txs), n))@,
                        d,
                    ) by {
                        if n == u64::MAX {
                            assert(with_block_nonce(start, n) == block@);
                        }
                    }
                    assert(no_nonce_meets(start.timestamp, prev_hash, txs, d));
                }
                self.pending_transactions = transactions;
                proof {
                    assert(self.pending() == old(self).pending());
                    assert(self.receipts == old(self).receipts);
                    assert(links_to_tip(*old(self), prev_hash));
                    assert(mine_failed(*old(self), *self, BlockyError::NonceExhausted));
                }
                return Err(error);
            },
        }
        assert(block@.transactions == txs);
        match apply_pending(&mut self.vm, &self.state, &block.transactions) {
            Attempt::Unhashable(error) => {
                self.pending_transactions = transactions;
                Err(error)
            },
            Attempt::Failed { error, receipts } => {
                let ghost attempt = receipts@;
                self.receipts.push(receipts);
                self.pending_transactions = transactions;
                proof {
                    assert(self.receipts@.drop_last() =~= old(self).receipts@);
                    assert(self.receipts@.last()@ == attempt);
                    let k = attempt.len() - 1;
                    let w = choose|worlds: Seq<Map<Address, AccountView>>| #[trigger] applied_run(
                        old(self).state@,
                        txs.take(k),
                        worlds,
                        attempt.take(k),
                    ) && failed_step(worlds.last(), txs[k], error);
                    assert(applied_run(old(self).state@, txs.take(k), w, attempt.take(k)));
                    assert(mine_failed(*old(self), *self, BlockyError::State(error)));
                }
                Err(BlockyError::State(error))
            },
            Attempt::Applied { state, receipts } => {
                self.state = state;
                let confirmed = block.clone();
                let ghost old_blocks = self.blocks();
                self.chain.push(confirmed);
                assert(self.blocks() =~= old_blocks.push(block@));
                let ghost attempt = receipts@;
                self.receipts.push(receipts);
                proof {
                    assert(self.receipts@.drop_last() =~= old(self).receipts@);
                    assert(self.receipts@.last()@ == attempt);
                    if chain_valid(old_blocks, self.difficulty) {
                        lemma_chain_extends(old_blocks, block@, self.difficulty);
                    }
                    let w = choose|worlds: Seq<Map<Address, AccountView>>| #[trigger] applied_run(
                        old(self).state@,
                        txs,
                        worlds,
                        attempt,
                    ) && worlds.last() == self.state@;
                    assert(applied_run(old(self).state@, txs, w, attempt));
                    assert(mined(*old(self), *self, block@));
                }
                Ok(block)
            },
        }
    }
}

/// How applying a mining attempt's transactions ended.
enum Attempt {
    /// Every transaction applied, leaving `state`, with one receipt each.
    Applied { state: WorldState, receipts: Vec<Receipt> },
    /// A transaction failed with `error`; `receipts` ends with its failure.
    Failed { error: StateError, receipts: Vec<Receipt> },
    /// A receipt could not be made because a transaction cannot be hashed.
    Unhashable(BlockyError),
}

/// Applies `txs` in order to a copy of `start`, running contract calls on
/// `vm`, and makes a receipt for each, stopping at the first transaction
/// that fails.
fn apply_pending(vm: &mut VmEngine, start: &WorldState, txs: &Vec<Transaction>) -> (attempt: Attempt)
    ensures
        ({
            let t = transactions_view(txs@);
            match attempt {
                Attempt::Applied { state, receipts } => {
                    &&& successful_receipts(t, receipts@)
                    &&& exists|worlds: Seq<Map<Address, AccountView>>| #[trigger] applied_run(start@, t, worlds, receipts@)
                        && worlds.last() == state@
                    &&& no_calls(t) ==> spec_apply_all(start@, t) == (state@, true)
                },
                Attempt::Failed { error, receipts } => {
                    let k = receipts@.len() - 1;
                    &&& failed_attempt_receipts(t, receipts@)
                    &&& receipts@.last().error matches Some(m) && is_state_error_message(error, m@)
                    &&& exists|worlds: Seq<Map<Address, AccountView>>| #[trigger] applied_run(
                        start@,
                        t.take(k),
                        worlds,
                        receipts@.take(k),
                    ) && failed_step(worlds.last(), t[k], error)
                },
                Attempt::Unhashable(error) => {
                    &&& error is HashSerialization
                    &&& exists|j: int| 0 <= j < t.len() && !transaction_encodable(#[trigger] t[j])
                },
            }
        }),
        applies_cleanly(start@, transactions_view(txs@)) ==> attempt is Applied,
{
    let ghost t = transactions_view(txs@);
    let mut working_state = start.clone();
    let mut receipts: Vec<Receipt> = Vec::new();
    let ghost mut worlds: Seq<Map<Address, AccountView>> = seq![start@];
    let mut i: usize = 0;
    while i < txs.len()
        invariant
            i <= txs@.len(),
            t == transactions_view(txs@),
            receipts@.len() == i,
            forall|j: int| 0 <= j < i ==> receipt_succeeded(#[trigger] receipts@[j], t[j]),
            worlds.len() == i + 1,
            worlds[0] == start@,
            worlds.last() == working_state@,
            forall|j: int| #![trigger t[j]] 0 <= j < i ==> applied_step(worlds[j], t[j], worlds[j + 1], receipts@[j]),
            no_calls(t.subrange(0, i as int)) ==> spec_apply_all(start@, t.subrange(0, i as int))
                == (working_state@, true),
            applies_cleanly(start@, t) ==> spec_apply_all(start@, t.subrange(0, i as int))
                == (working_state@, true),
        decreases txs@.len() - i,
    {
        let tx = &txs[i];
        assert(t[i as int] == tx@);
        let ghost before = working_state@;
        proof {
            crate::state::lemma_apply_all_push(start@, t.subrange(0, i as int), tx@);
            assert(t.subrange(0, i + 1 as int) =~= t.subrange(0, i as int).push(tx@));
            if no_calls(t.subrange(0, i + 1 as int)) {
                assert(t.subrange(0, i + 1 as int)[i as int] == tx@);
                assert forall|j: int| 0 <= j < i implies !(t.subrange(0, i as int)[j].payload is Call) by {
                    assert(t.subrange(0, i as int)[j] == t.subrange(0, i + 1 as int)[j]);
                }
            }
        }
        match working_state.apply_transaction_with_vm(tx, Some(&mut *vm)) {
            Ok((context, gas_report)) => {
                let ghost ctx = context;
                let receipt = match Receipt::success(tx, gas_report.gas_used, context.logs) {
                    Ok(receipt) => receipt,
                    Err(error) => {
                        assert(!applies_cleanly(start@, t) || transaction_encodable(t[i as int]));
                        return Attempt::Unhashable(error);
                    },
                };
                let ghost old_receipts = receipts@;
                receipts.push(receipt);
                proof {
                    assert(applied_step(before, tx@, working_state@, receipts@[i as int])) by {
                        if tx@.payload is Call {
                            let (e, request, outcome) = choose|
                                e: &mut VmEngine,
                                request: CallRequest,
                                outcome: Result<(WorldState, ExecutionContext, GasReport), VmError>,
                            |
                                #[trigger] call_ensures(VmEngine::execute_call_with_state, (e, request), outcome)
                                    && engine_request_for(before, tx@, request) && call_committed(
                                    before,
                                    tx@,
                                    outcome,
                                    working_state@,
                                    Ok::<(ExecutionContext, GasReport), StateError>((ctx, gas_report)),
                                );
                            assert(call_ensures(VmEngine::execute_call_with_state, (e, request), outcome));
                        }
                    }
                    let next = worlds.push(working_state@);
                    assert forall|j: int| #![trigger t[j]] 0 <= j < i + 1 implies applied_step(next[j], t[j], next[j + 1], receipts@[j]) by {
                        if j < i {
                            assert(next[j] == worlds[j]);
                            assert(next[j + 1] == worlds[j + 1]);
                            assert(receipts@[j] == old_receipts[j]);
                        }
                    }
                    worlds = next;
                }
            },
            Err(error) => {
                proof {
                    if applies_cleanly(start@, t) {
                        assert(!(t[i as int].payload is Call));
                        crate::state::law_apply_all_stops_at_failure(start@, t, i as int);
                    }
                    assert(failed_step(before, tx@, error));
                }
                let gas_used = match &tx.payload {
                    Payload::Deploy { code } => BASE_TX_COST.saturating_add(deploy_cost(code.len())),
                    _ => BASE_TX_COST,
                };
                let message = error.message();
                let receipt = match Receipt::failure(tx, gas_used, message) {
                    Ok(receipt) => receipt,
                    Err(hash_error) => return Attempt::Unhashable(hash_error),
                };
                receipts.push(receipt);
                proof {
                    assert forall|j: int| 0 <= j < i implies receipt_succeeded(#[trigger] receipts@[j], t[j]) by {
                    }
                    assert(receipt_failed(receipts@[i as int], t[i as int]));
                    let prefix = t.take(i as int);
                    let done = receipts@.take(i as int);
                    assert forall|j: int| #![trigger prefix[j]] 0 <= j < prefix.len() implies applied_step(
                        worlds[j],
                        prefix[j],
                        worlds[j + 1],
                        done[j],
                    ) by {
                        assert(prefix[j] == t[j]);
                        assert(done[j] == receipts@[j]);
                    }
                    assert(applied_run(start@, prefix, worlds, done));
                }
                return Attempt::Failed { error, receipts };
            },
        }
        i = i + 1;
    }
    assert(t.subrange(0, t.len() as int) =~= t);
    assert(applied_run(start@, t, worlds, receipts@));
    Attempt::Applied { state: working_state, receipts }
}

/// Appending a block that meets the difficulty and links to the last block
/// keeps a valid chain valid.
proof fn lemma_chain_extends(blocks: Seq<BlockView>, block: BlockView, difficulty: u32)
    requires
        chain_valid(blocks, difficulty),
        meets_difficulty(block_hash(block)@, difficulty),
        block.prev_hash == block_hash(blocks.last()),
    ensures
        chain_valid(blocks.push(block), difficulty),
{
    let bs = blocks.push(block);
    assert forall|k: int| 0 <= k < bs.len() implies meets_difficulty(#[trigger] block_hash(bs[k])@, difficulty) by {
        if k < blocks.len() {
            assert(bs[k] == blocks[k]);
        }
    }
    assert forall|k: int| 1 <= k < bs.len() implies #[trigger] bs[k].prev_hash == block_hash(bs[k - 1]) by {
        if k < blocks.len() {
            assert(bs[k] == blocks[k]);
            assert(bs[k - 1] == blocks[k - 1]);
        } else {
            assert(bs[k - 1] == blocks.last());
        }
    }
    assert(bs[0] == blocks[0]);
}

/// Mining `txs` on `state` needs no contract code and cannot fail before
/// proof of work: no contract calls, every transaction can be hashed, and
/// all apply in order.
pub open spec fn applies_cleanly(state: Map<Address, AccountView>, txs: Seq<TransactionView>) -> bool {
    &&& no_calls(txs)
    &&& forall|j: int| 0 <= j < txs.len() ==> transaction_encodable(#[trigger] txs[j])
    &&& spec_apply_all(state, txs).1
}

/// No transaction in the list is a contract call.
pub open spec fn no_calls(txs: Seq<TransactionView>) -> bool {
    forall|j: int| 0 <= j < txs.len() ==> !(#[trigger] txs[j].payload is Call)
}

/// A successful receipt for `tx`. A transfer or a deployment is charged its
/// base gas and logs nothing; a contract call is charged at least the base
/// cost and at most the gas limit.
pub open spec fn receipt_succeeded(r: Receipt, tx: TransactionView) -> bool {
    &&& r.success
    &&& r.tx_hash == spec_transaction_hash(tx)
    &&& r.gas_used >= BASE_TX_COST
    &&& r.error is None
    &&& !(tx.payload is Call) ==> r.gas_used == base_gas(tx.payload) && r.logs@.len() == 0
    &&& tx.payload is Call ==> r.gas_used <= DEFAULT_GAS_LIMIT
}

/// A failed receipt for `tx`, charging its base gas.
pub open spec fn receipt_failed(r: Receipt, tx: TransactionView) -> bool {
    &&& !r.success
    &&& r.tx_hash == spec_transaction_hash(tx)
    &&& r.gas_used == base_gas(tx.payload)
    &&& r.logs@.len() == 0
    &&& r.error is Some
}

/// One successful receipt per transaction, in order.
pub open spec fn successful_receipts(txs: Seq<TransactionView>, receipts: Seq<Receipt>) -> bool {
    &&& receipts.len() == txs.len()
    &&& forall|j: int| 0 <= j < txs.len() ==> receipt_succeeded(#[trigger] receipts[j], txs[j])
}

/// The receipts of an attempt that failed at its last receipt's transaction:
/// successes for the transactions before it, then the failure.
pub open spec fn failed_attempt_receipts(txs: Seq<TransactionView>, receipts: Seq<Receipt>) -> bool {
    &&& 0 < receipts.len() <= txs.len()
    &&& forall|j: int| 0 <= j < receipts.len() - 1 ==> receipt_succeeded(#[trigger] receipts[j], txs[j])
    &&& receipt_failed(receipts.last(), txs[receipts.len() - 1])
}

/// `after` is the world once `tx` applied to `before` during mining, and
/// `r` its receipt. A transfer or a deployment changes the world as
/// `spec_apply` says. A contract call passed every check before its code
/// ran and was handed to the engine as `engine_request_for` says; the world
/// becomes the one the engine returned with the sender's nonce advanced, and
/// the receipt carries the logs of the engine's context and its gas plus
/// the base cost.
pub open spec fn applied_step(
    before: Map<Address, AccountView>,
    tx: TransactionView,
    after: Map<Address, AccountView>,
    r: Receipt,
) -> bool {
    if tx.payload is Call {
        &&& call_ready(before, tx)
        &&& exists|e: &mut VmEngine, request: CallRequest, state: WorldState, context: ExecutionContext, gas: GasReport|
            #[trigger] call_ensures(
                VmEngine::execute_call_with_state,
                (e, request),
                Ok::<(WorldState, ExecutionContext, GasReport), VmError>((state, context, gas)),
            ) && engine_request_for(before, tx, request) && after == with_nonce(
                state@,
                tx.sender,
                (tx.nonce + 1) as u64,
            ) && r.logs == context.logs && r.gas_used == sat_add(BASE_TX_COST as nat, gas.gas_used as nat)
    } else {
        spec_apply(before, tx) == Some(after)
    }
}

/// The worlds that applying `txs` in order passed through, with their
/// receipts: `worlds[0]` is `start` and each next world is the one after
/// the next transaction.
pub open spec fn applied_run(
    start: Map<Address, AccountView>,
    txs: Seq<TransactionView>,
    worlds: Seq<Map<Address, AccountView>>,
    receipts: Seq<Receipt>,
) -> bool {
    &&& worlds.len() == txs.len() + 1
    &&& receipts.len() == txs.len()
    &&& worlds[0] == start
    &&& forall|j: int| #![trigger txs[j]] 0 <= j < txs.len() ==> applied_step(worlds[j], txs[j], worlds[j + 1], receipts[j])
}

/// Applying `tx` to `before` failed with `error`: a transfer or a deployment
/// does not apply, and the error is the one its first failing check gives.
pub open spec fn failed_step(before: Map<Address, AccountView>, tx: TransactionView, error: StateError) -> bool {
    &&& !(tx.payload is Call) ==> spec_apply(before, tx) is None
    &&& tx.nonce != nonce_of(before, tx.sender) ==> error == (StateError::InvalidNonce {
        expected: nonce_of(before, tx.sender),
        got: tx.nonce,
    })
    &&& tx.nonce == nonce_of(before, tx.sender) && tx.nonce == u64::MAX ==> error is NonceOverflow
    &&& nonce_ready(before, tx) ==> apply_errors(before, tx, Err::<(), StateError>(error))
    &&& call_ready(before, tx) ==> error is Vm
}

/// The block a mining attempt looks for: stamped `timestamp`, linked to
/// `prev_hash`, holding `txs`, with nonce zero.
pub open spec fn candidate_block(timestamp: u64, prev_hash: [u8; 32], txs: Seq<TransactionView>) -> BlockView {
    BlockView { timestamp, prev_hash, nonce: 0, transactions: txs }
}

/// `prev_hash` is the hash a new block of `b` links to: the hash of the last
/// block, or zero for an empty chain.
pub open spec fn links_to_tip(b: Blockchain, prev_hash: [u8; 32]) -> bool {
    &&& b.chain@.len() > 0 ==> prev_hash == block_hash(b.blocks().last())
    &&& b.chain@.len() == 0 ==> is_zero_hash(prev_hash)
}

/// No nonce gives the candidate block a hash that meets `difficulty`.
pub open spec fn no_nonce_meets(timestamp: u64, prev_hash: [u8; 32], txs: Seq<TransactionView>, difficulty: u32) -> bool {
    forall|n: u64| !meets_difficulty(
        #[trigger] block_hash(with_block_nonce(candidate_block(timestamp, prev_hash, txs), n))@,
        difficulty,
    )
}

/// `b1` is `b0` after mining `block`: the pending transactions were applied
/// in order and mined into `block`, appended to the chain with one
/// successful receipt per transaction.
pub open spec fn mined(b0: Blockchain, b1: Blockchain, block: BlockView) -> bool {
    &&& b0.pending_transactions@.len() > 0
    &&& b1.difficulty == b0.difficulty
    &&& b1.blocks() == b0.blocks().push(block)
    &&& block.transactions == b0.pending()
    &&& links_to_tip(b0, block.prev_hash)
    &&& meets_difficulty(block_hash(block)@, b0.difficulty)
    &&& b1.pending_transactions@.len() == 0
    &&& b1.receipts@.len() == b0.receipts@.len() + 1
    &&& b1.receipts@.drop_last() == b0.receipts@
    &&& successful_receipts(b0.pending(), b1.receipts@.last()@)
    &&& exists|worlds: Seq<Map<Address, AccountView>>| #[trigger] applied_run(
        b0.state@,
        b0.pending(),
        worlds,
        b1.receipts@.last()@,
    ) && worlds.last() == b1.state@
    &&& no_calls(b0.pending()) ==> spec_apply_all(b0.state@, b0.pending()) == (b1.state@, true)
    &&& chain_valid(b0.blocks(), b0.difficulty) ==> chain_valid(b1.blocks(), b1.difficulty)
}

/// `b1` is `b0` after a mining attempt that failed with `error`. The state,
/// the blocks and the pending transactions are unchanged. With nothing
/// pending the error is `NoPendingTransactions`; when no nonce meets the
/// difficulty, `NonceExhausted`; when a transaction cannot be hashed,
/// `HashSerialization`. When a transaction fails to apply, the error is its
/// state error and the attempt's receipts are recorded: successes for the
/// transactions before it, then a failure carrying the error's message.
pub open spec fn mine_failed(b0: Blockchain, b1: Blockchain, error: BlockyError) -> bool {
    let txs = b0.pending();
    &&& b1.difficulty == b0.difficulty
    &&& b1.state@ == b0.state@
    &&& b1.blocks() == b0.blocks()
    &&& b1.pending() == b0.pending()
    &&& match error {
        BlockyError::NoPendingTransactions => {
            &&& txs.len() == 0
            &&& b1.receipts == b0.receipts
        },
        BlockyError::NonceExhausted => {
            &&& txs.len() > 0
            &&& b1.receipts == b0.receipts
            &&& exists|t: u64, p: [u8; 32]| #[trigger] no_nonce_meets(t, p, txs, b0.difficulty)
                && links_to_tip(b0, p)
        },
        BlockyError::HashSerialization(_) => {
            &&& txs.len() > 0
            &&& b1.receipts == b0.receipts
            &&& exists|j: int| 0 <= j < txs.len() && !transaction_encodable(#[trigger] txs[j])
        },
        BlockyError::State(e) => {
            let attempt = b1.receipts@.last()@;
            let k = attempt.len() - 1;
            &&& txs.len() > 0
            &&& b1.receipts@.len() == b0.receipts@.len() + 1
            &&& b1.receipts@.drop_last() == b0.receipts@
            &&& failed_attempt_receipts(txs, attempt)
            &&& attempt.last().error matches Some(m) && is_state_error_message(e, m@)
            &&& exists|worlds: Seq<Map<Address, AccountView>>| #[trigger] applied_run(
                b0.state@,
                txs.take(k),
                worlds,
                attempt.take(k),
            ) && failed_step(worlds.last(), txs[k], e)
        },
        _ => false,
    }
}

} // verus!
