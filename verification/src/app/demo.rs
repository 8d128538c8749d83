//! Building the demonstration chain and rendering a chain as text.

use crate::app::{short_address, short_hash, take_chars};
use crate::block::{block_hash, hash_to_hex, Block, BlockView};
use crate::chain::{chain_valid, sat_add, successful_receipts, Blockchain, BlockyError};
use crate::state::{balance_of, spec_apply_all, with_balance, AccountView};
use crate::transaction::{address_from_name, spec_address_from_name, Address};
use crate::crypto::hex_chars;
use crate::receipt::{spec_transaction_hash, transaction_encodable, transaction_hash, Receipt};
use crate::text::{decimal_chars, push_decimal_text};
use crate::transaction::{Payload, PayloadView, Transaction, TransactionView};
use vstd::prelude::*;

verus! {

/// `true` or `false`.
pub open spec fn bool_text(b: bool) -> Seq<char> {
    if b {
        "true"@
    } else {
        "false"@
    }
}

/// The short form of an address or hash: its first eight hexadecimal
/// characters.
pub open spec fn short_text(h: [u8; 32]) -> Seq<char> {
    take_chars(hex_chars(h@), 8)
}

/// The header of a block in a rendered chain.
pub open spec fn block_header_text(index: nat, b: BlockView) -> Seq<char> {
    "\nBlock #"@ + decimal_chars(index) + "\n"@ + "  Timestamp: "@ + decimal_chars(
        b.timestamp as nat,
    ) + "\n"@ + "  Prev hash: "@ + hex_chars(b.prev_hash@) + "\n"@ + "  Hash:      "@
        + hex_chars(block_hash(b)@) + "\n"@ + "  Nonce:     "@ + decimal_chars(b.nonce as nat)
        + "\n"@ + "  Transactions:\n"@
}

/// What a transaction does, in a rendered chain. A deployment shows the
/// full address of the contract it creates, which `call` takes.
pub open spec fn detail_text(tx: TransactionView) -> Seq<char> {
    let s = short_text(tx.sender);
    match tx.payload {
        PayloadView::Transfer { receiver, amount } => s + " -> "@ + short_text(receiver) + ": "@
            + decimal_chars(amount as nat),
        PayloadView::Deploy { code } => s + " deploy "@ + decimal_chars(code.len()) + " bytes to "@
            + hex_chars(crate::transaction::spec_contract_address(tx.sender, tx.nonce)@),
        PayloadView::Call { contract, method, deposit, .. } => s + " call "@ + short_text(contract)
            + "."@ + method + " deposit "@ + decimal_chars(deposit as nat),
    }
}

/// The line of a transaction in a rendered chain.
pub open spec fn tx_line_text(tx: TransactionView) -> Seq<char> {
    "    "@ + detail_text(tx) + " @ "@ + decimal_chars(tx.timestamp as nat) + "\n"@
}

/// One line per log, each under `prefix`.
pub open spec fn logs_text(logs: Seq<String>, prefix: Seq<char>) -> Seq<char>
    decreases logs.len(),
{
    if logs.len() == 0 {
        Seq::empty()
    } else {
        logs_text(logs.drop_last(), prefix) + prefix + logs.last()@ + "\n"@
    }
}

/// A receipt in a rendered chain: its short hash, outcome and gas, its logs,
/// and its error if any.
pub open spec fn receipt_text(r: Receipt) -> Seq<char> {
    "      receipt "@ + short_text(r.tx_hash) + " success="@ + bool_text(r.success) + " gas="@
        + decimal_chars(r.gas_used as nat) + "\n"@ + logs_text(r.logs@, "      log: "@)
        + match r.error {
        Some(e) => "      error: "@ + e@ + "\n"@,
        None => Seq::empty(),
    }
}

/// The receipt line of a transaction that has no receipt yet.
pub open spec fn pending_receipt_text(tx: TransactionView) -> Seq<char> {
    "      receipt "@ + short_text(spec_transaction_hash(tx)) + " pending\n"@
}

/// The `j`-th receipt of a list, if there is a list and it is that long.
pub open spec fn receipt_at(rs: Option<Seq<Receipt>>, j: int) -> Option<Receipt> {
    match rs {
        Some(s) => if 0 <= j < s.len() {
            Some(s[j])
        } else {
            None
        },
        None => None,
    }
}

/// A transaction and its receipt (or pending marker) in a rendered chain.
pub open spec fn tx_text(tx: TransactionView, r: Option<Receipt>) -> Seq<char> {
    tx_line_text(tx) + match r {
        Some(r) => receipt_text(r),
        None => pending_receipt_text(tx),
    }
}

/// The transactions of a block with their receipts.
pub open spec fn txs_text(txs: Seq<TransactionView>, rs: Option<Seq<Receipt>>) -> Seq<char>
    decreases txs.len(),
{
    if txs.len() == 0 {
        Seq::empty()
    } else {
        txs_text(txs.drop_last(), rs) + tx_text(txs.last(), receipt_at(rs, txs.len() - 1))
    }
}

/// Every transaction without a receipt can be hashed.
pub open spec fn pending_hashes_ok(txs: Seq<TransactionView>, rs: Option<Seq<Receipt>>) -> bool {
    forall|j: int|
        0 <= j < txs.len() && #[trigger] receipt_at(rs, j) is None ==> transaction_encodable(txs[j])
}

/// The receipt lists as values.
pub open spec fn receipt_lists(receipts: Seq<Vec<Receipt>>) -> Seq<Seq<Receipt>> {
    receipts.map_values(|v: Vec<Receipt>| v@)
}

/// The receipts shown under block `index`: those of the mining attempt
/// before it (the genesis block shares the first list).
pub open spec fn receipts_for(receipts: Seq<Seq<Receipt>>, index: nat) -> Option<Seq<Receipt>> {
    let k = if index == 0 {
        0
    } else {
        index - 1
    };
    if k < receipts.len() {
        Some(receipts[k])
    } else {
        None
    }
}

/// A block in a rendered chain.
pub open spec fn block_text(index: nat, b: BlockView, rs: Option<Seq<Receipt>>) -> Seq<char> {
    block_header_text(index, b) + if b.transactions.len() == 0 {
        "    (none)\n"@
    } else {
        txs_text(b.transactions, rs)
    }
}

/// The rendering of the first `blocks.len()` blocks of a chain.
pub open spec fn chain_text(blocks: Seq<BlockView>, receipts: Seq<Seq<Receipt>>) -> Seq<char>
    decreases blocks.len(),
{
    if blocks.len() == 0 {
        Seq::empty()
    } else {
        chain_text(blocks.drop_last(), receipts) + block_text(
            (blocks.len() - 1) as nat,
            blocks.last(),
            receipts_for(receipts, (blocks.len() - 1) as nat),
        )
    }
}

/// Every transaction shown as pending can be hashed.
pub open spec fn chain_renderable(blocks: Seq<BlockView>, receipts: Seq<Seq<Receipt>>) -> bool {
    forall|i: int|
        0 <= i < blocks.len() ==> pending_hashes_ok(
            #[trigger] blocks[i].transactions,
            receipts_for(receipts, i as nat),
        )
}

/// Appends the text of a boolean.
pub(crate) fn push_bool_text(out: &mut String, b: bool)
    ensures
        final(out)@ == old(out)@ + bool_text(b),
{
    if b {
        out.append("true");
    } else {
        out.append("false");
    }
}

/// Appends the logs of a receipt, one line each under `prefix`.
fn push_logs_text(out: &mut String, logs: &Vec<String>, prefix: &str)
    ensures
        final(out)@ == old(out)@ + logs_text(logs@, prefix@),
{
    let mut i: usize = 0;
    while i < logs.len()
        invariant
            i <= logs@.len(),
            out@ == old(out)@ + logs_text(logs@.take(i as int), prefix@),
        decreases logs@.len() - i,
    {
        assert(logs@.take(i + 1).drop_last() =~= logs@.take(i as int));
        out.append(prefix);
        out.append(logs[i].as_str());
        out.append("\n");
        i = i + 1;
    }
    assert(logs@.take(logs@.len() as int) =~= logs@);
}

/// Appends the text of a receipt.
fn push_receipt_text(out: &mut String, r: &Receipt)
    ensures
        final(out)@ == old(out)@ + receipt_text(*r),
{
    out.append("      receipt ");
    let short = short_hash(&r.tx_hash);
    out.append(short.as_str());
    out.append(" success=");
    push_bool_text(out, r.success);
    out.append(" gas=");
    push_decimal_text(out, r.gas_used);
    out.append("\n");
    push_logs_text(out, &r.logs, "      log: ");
    match &r.error {
        Some(e) => {
            out.append("      error: ");
            out.append(e.as_str());
            out.append("\n");
        },
        None => {},
    }
}

/// Appends what a transaction does.
fn push_detail_text(out: &mut String, tx: &Transaction)
    ensures
        final(out)@ == old(out)@ + detail_text(tx@),
{
    let sender = short_address(&tx.sender);
    out.append(sender.as_str());
    match &tx.payload {
        Payload::Transfer { receiver, amount } => {
            out.append(" -> ");
            let r = short_address(receiver);
            out.append(r.as_str());
            out.append(": ");
            push_decimal_text(out, *amount);
        },
        Payload::Deploy { code } => {
            out.append(" deploy ");
            push_decimal_text(out, code.len() as u64);
            out.append(" bytes to ");
            let contract = crate::transaction::address_to_hex(&tx.derived_contract_address());
            out.append(contract.as_str());
        },
        Payload::Call { contract, method, deposit, .. } => {
            out.append(" call ");
            let c = short_address(contract);
            out.append(c.as_str());
            out.append(".");
            out.append(method.as_str());
            out.append(" deposit ");
            push_decimal_text(out, *deposit);
        },
    }
}

/// Appends a transaction and its receipt, or its pending marker; hashing a
/// transaction without a receipt fails when it cannot be encoded.
fn push_tx_text(out: &mut String, tx: &Transaction, receipt: Option<&Receipt>) -> (result: Result<
    (),
    BlockyError,
>)
    ensures
        receipt is Some || transaction_encodable(tx@) ==> {
            &&& result is Ok
            &&& final(out)@ == old(out)@ + tx_text(
                tx@,
                match receipt {
                    Some(r) => Some(*r),
                    None => None,
                },
            )
        },
        receipt is None && !transaction_encodable(tx@) ==> result matches Err(
            BlockyError::HashSerialization(_),
        ),
{
    out.append("    ");
    push_detail_text(out, tx);
    out.append(" @ ");
    push_decimal_text(out, tx.timestamp);
    out.append("\n");
    match receipt {
        Some(r) => {
            push_receipt_text(out, r);
        },
        None => {
            let hash = match transaction_hash(tx) {
                Ok(hash) => hash,
                Err(error) => return Err(error),
            };
            out.append("      receipt ");
            let short = short_hash(&hash);
            out.append(short.as_str());
            out.append(" pending\n");
        },
    }
    Ok(())
}

/// Appends the header of a block.
fn push_block_header(out: &mut String, index: usize, block: &Block) -> (result: Result<(), BlockyError>)
    ensures
        result is Ok,
        final(out)@ == old(out)@ + block_header_text(index as nat, block@),
{
    let mut h = String::from_str("\nBlock #");
    push_decimal_text(&mut h, index as u64);
    h.append("\n");
    h.append("  Timestamp: ");
    push_decimal_text(&mut h, block.timestamp);
    h.append("\n");
    h.append("  Prev hash: ");
    let prev = hash_to_hex(&block.prev_hash);
    h.append(prev.as_str());
    h.append("\n");
    h.append("  Hash:      ");
    let hash = match block.compute_hash() {
        Ok(hash) => hash,
        Err(error) => return Err(error),
    };
    let hex = hash_to_hex(&hash);
    h.append(hex.as_str());
    h.append("\n");
    h.append("  Nonce:     ");
    push_decimal_text(&mut h, block.nonce);
    h.append("\n");
    h.append("  Transactions:\n");
    out.append(h.as_str());
    Ok(())
}

/// Appends the transactions of a block with their receipts.
fn push_txs_text(out: &mut String, txs: &Vec<Transaction>, receipts: Option<&Vec<Receipt>>) -> (result: Result<(), BlockyError>)
    ensures
        ({
            let rs = match receipts {
                Some(v) => Some(v@),
                None => None,
            };
            let tv = crate::transaction::transactions_view(txs@);
            &&& pending_hashes_ok(tv, rs) ==> result is Ok && final(out)@ == old(out)@ + txs_text(tv, rs)
            &&& !pending_hashes_ok(tv, rs) ==> result matches Err(BlockyError::HashSerialization(_))
        }),
{
    let ghost rs = match receipts {
        Some(v) => Some(v@),
        None => None,
    };
    let ghost tv = crate::transaction::transactions_view(txs@);
    let mut j: usize = 0;
    while j < txs.len()
        invariant
            j <= txs@.len(),
            tv == crate::transaction::transactions_view(txs@),
            tv.len() == txs@.len(),
            rs == (match receipts {
                Some(v) => Some(v@),
                None => None,
            }),
            out@ == old(out)@ + txs_text(tv.take(j as int), rs),
            forall|k: int| 0 <= k < j ==> (#[trigger] receipt_at(rs, k) is None ==> transaction_encodable(tv[k])),
        decreases txs@.len() - j,
    {
        let tx = &txs[j];
        assert(tv[j as int] == tx@);
        let receipt: Option<&Receipt> = match receipts {
            Some(v) => if j < v.len() {
                Some(&v[j])
            } else {
                None
            },
            None => None,
        };
        assert(receipt_at(rs, j as int) == match receipt {
            Some(r) => Some(*r),
            None => None::<Receipt>,
        });
        match push_tx_text(out, tx, receipt) {
            Ok(()) => {},
            Err(error) => {
                assert(!pending_hashes_ok(tv, rs));
                return Err(error);
            },
        }
        assert(tv.take(j + 1).drop_last() =~= tv.take(j as int));
        j = j + 1;
    }
    assert(tv.take(tv.len() as int) =~= tv);
    Ok(())
}

/// Appends a block: its header, then its transactions with their receipts.
fn push_block_text(out: &mut String, index: usize, block: &Block, receipts: Option<&Vec<Receipt>>) -> (result: Result<(), BlockyError>)
    ensures
        ({
            let rs = match receipts {
                Some(v) => Some(v@),
                None => None,
            };
            &&& pending_hashes_ok(block@.transactions, rs) ==> result is Ok && final(out)@ == old(out)@
                + block_text(index as nat, block@, rs)
            &&& !pending_hashes_ok(block@.transactions, rs) ==> result matches Err(
                BlockyError::HashSerialization(_),
            )
        }),
{
    match push_block_header(out, index, block) {
        Ok(()) => {},
        Err(error) => return Err(error),
    }
    if block.transactions.len() == 0 {
        out.append("    (none)\n");
        return Ok(());
    }
    push_txs_text(out, &block.transactions, receipts)
}

/// Renders a chain as text: for each block its header, then its
/// transactions with their receipts (from the mining attempt before the
/// block) or, when there is none, the transaction's hash marked pending.
pub fn render_chain(blockchain: &Blockchain) -> (text: Result<String, BlockyError>)
    ensures
        chain_renderable(blockchain.blocks(), receipt_lists(blockchain.receipts@)) ==> (text matches Ok(t)
            && t@ == chain_text(blockchain.blocks(), receipt_lists(blockchain.receipts@))),
        !chain_renderable(blockchain.blocks(), receipt_lists(blockchain.receipts@)) ==> text matches Err(
            BlockyError::HashSerialization(_),
        ),
{
    let ghost blocks = blockchain.blocks();
    let ghost lists = receipt_lists(blockchain.receipts@);
    let mut output = String::new();
    let mut index: usize = 0;
    while index < blockchain.chain.len()
        invariant
            index <= blockchain.chain@.len(),
            blocks == blockchain.blocks(),
            lists == receipt_lists(blockchain.receipts@),
            blocks.len() == blockchain.chain@.len(),
            output@ == chain_text(blocks.take(index as int), lists),
            forall|i: int| 0 <= i < index ==> pending_hashes_ok(#[trigger] blocks[i].transactions, receipts_for(lists, i as nat)),
        decreases blockchain.chain@.len() - index,
    {
        let block = &blockchain.chain[index];
        assert(blocks[index as int] == block@);
        let k: usize = if index == 0 {
            0
        } else {
            index - 1
        };
        let receipts: Option<&Vec<Receipt>> = if k < blockchain.receipts.len() {
            Some(&blockchain.receipts[k])
        } else {
            None
        };
        assert(receipts_for(lists, index as nat) == match receipts {
            Some(v) => Some(v@),
            None => None::<Seq<Receipt>>,
        });
        match push_block_text(&mut output, index, block, receipts) {
            Ok(()) => {},
            Err(error) => {
                assert(!chain_renderable(blocks, lists));
                return Err(error);
            },
        }
        assert(blocks.take(index + 1).drop_last() =~= blocks.take(index as int));
        index = index + 1;
    }
    assert(blocks.take(blocks.len() as int) =~= blocks);
    Ok(output)
}

/// The balances credited before the demo transfers: 25 to alice, 10 to bob
/// and 5 to carol, each added to what the account already holds.
pub open spec fn demo_credits(alice: Address, bob: Address, carol: Address) -> Map<Address, AccountView> {
    let m0 = Map::<Address, AccountView>::empty();
    let m1 = with_balance(m0, alice, sat_add(balance_of(m0, alice) as nat, 25));
    let m2 = with_balance(m1, bob, sat_add(balance_of(m1, bob) as nat, 10));
    with_balance(m2, carol, sat_add(balance_of(m2, carol) as nat, 5))
}

/// A first transfer (nonce 0, timestamp 0) between two accounts.
pub open spec fn demo_transfer(sender: Address, receiver: Address, amount: u64) -> TransactionView {
    TransactionView {
        sender,
        nonce: 0,
        payload: PayloadView::Transfer { receiver, amount },
        timestamp: 0,
    }
}

/// The demo's transfers: alice pays bob 25, bob pays carol 10, carol pays
/// dave 5.
pub open spec fn demo_transfers() -> Seq<TransactionView> {
    let alice = spec_address_from_name("alice"@);
    let bob = spec_address_from_name("bob"@);
    let carol = spec_address_from_name("carol"@);
    let dave = spec_address_from_name("dave"@);
    seq![
        demo_transfer(alice, bob, 25),
        demo_transfer(bob, carol, 10),
        demo_transfer(carol, dave, 5),
    ]
}

/// The demo's four accounts (alice, bob, carol, dave) have distinct
/// addresses.
pub open spec fn demo_accounts_distinct() -> bool {
    let alice = spec_address_from_name("alice"@);
    let bob = spec_address_from_name("bob"@);
    let carol = spec_address_from_name("carol"@);
    let dave = spec_address_from_name("dave"@);
    &&& alice != bob && alice != carol && alice != dave
    &&& bob != carol && bob != dave
    &&& carol != dave
}

/// Builds the demonstration chain: credits alice, bob and carol, queues the
/// demo transfers, and mines them into one block after the genesis block.
/// When the four accounts' addresses are distinct, every transfer is
/// accepted and applies, so the only failures left are proof of work finding
/// no nonce and the contract engine failing to start.
pub fn build_demo_blockchain(difficulty: u32) -> (result: Result<Blockchain, BlockyError>)
    ensures
        result matches Ok(b) ==> {
            let credits = demo_credits(
                spec_address_from_name("alice"@),
                spec_address_from_name("bob"@),
                spec_address_from_name("carol"@),
            );
            &&& b.blocks().len() == 2
            &&& b.blocks()[1].transactions == demo_transfers()
            &&& chain_valid(b.blocks(), difficulty)
            &&& b.difficulty == difficulty
            &&& b.pending_transactions@.len() == 0
            &&& b.receipts@.len() == 1
            &&& successful_receipts(demo_transfers(), b.receipts@[0]@)
            &&& spec_apply_all(credits, demo_transfers()) == (b.state@, true)
        },
        demo_accounts_distinct() ==> (result is Ok || result matches Err(BlockyError::NonceExhausted)
            || result matches Err(BlockyError::Vm(_))),
{
    let mut blockchain = match Blockchain::try_new(difficulty) {
        Ok(blockchain) => blockchain,
        Err(error) => return Err(error),
    };
    let alice = address_from_name("alice");
    let bob = address_from_name("bob");
    let carol = address_from_name("carol");
    let dave = address_from_name("dave");
    blockchain.credit_balance(alice, 25);
    blockchain.credit_balance(bob, 10);
    blockchain.credit_balance(carol, 5);
    let ghost credited = blockchain.state@;
    assert(credited == demo_credits(alice, bob, carol));
    let t1 = Transaction::new_transfer(alice, 0, bob, 25);
    let t2 = Transaction::new_transfer(bob, 0, carol, 10);
    let t3 = Transaction::new_transfer(carol, 0, dave, 5);
    let ghost txs = seq![t1@, t2@, t3@];
    assert(txs == demo_transfers());
    match blockchain.add_transaction(t1) {
        Ok(()) => {},
        Err(error) => return Err(error),
    }
    proof {
        let p = blockchain.pending();
        assert(p.drop_last() =~= Seq::<TransactionView>::empty());
        reveal_with_fuel(crate::chain::pending_count, 2);
        reveal_with_fuel(crate::chain::reserved_total, 2);
    }
    match blockchain.add_transaction(t2) {
        Ok(()) => {},
        Err(error) => return Err(error),
    }
    proof {
        let p = blockchain.pending();
        assert(p.drop_last().drop_last() =~= Seq::<TransactionView>::empty());
        reveal_with_fuel(crate::chain::pending_count, 3);
        reveal_with_fuel(crate::chain::reserved_total, 3);
    }
    match blockchain.add_transaction(t3) {
        Ok(()) => {},
        Err(error) => return Err(error),
    }
    assert(blockchain.pending() =~= txs);
    assert(crate::chain::no_calls(txs));
    proof {
        if demo_accounts_distinct() {
            let m1 = crate::state::spec_apply(credited, t1@).unwrap();
            assert(crate::state::spec_apply(credited, t1@) is Some);
            let m2 = crate::state::spec_apply(m1, t2@).unwrap();
            assert(crate::state::spec_apply(m1, t2@) is Some);
            assert(crate::state::spec_apply(m2, t3@) is Some);
            crate::state::lemma_apply_all_push(credited, Seq::empty(), t1@);
            crate::state::lemma_apply_all_push(credited, seq![t1@], t2@);
            crate::state::lemma_apply_all_push(credited, seq![t1@, t2@], t3@);
            assert(seq![t1@].push(t2@) =~= seq![t1@, t2@]);
            assert(seq![t1@, t2@].push(t3@) =~= txs);
            assert(Seq::<TransactionView>::empty().push(t1@) =~= seq![t1@]);
            assert(crate::chain::applies_cleanly(credited, txs));
        }
    }
    match blockchain.mine_pending() {
        Ok(_block) => {},
        Err(error) => return Err(error),
    }
    Ok(blockchain)
}

} // verus!
