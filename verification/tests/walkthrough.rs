use blocky::app::demo::{build_demo_blockchain, render_chain};
use blocky::app::lines::split_lines;
use blocky::app::{prefix_chars, short_address, short_hash};
use blocky::{address_from_name, address_to_hex, hash_to_hex, Payload};

#[test]
fn demo_chain_moves_balances_along() {
    let blockchain = build_demo_blockchain(4).unwrap();
    assert_eq!(blockchain.chain.len(), 2);
    assert_eq!(blockchain.chain[1].transactions.len(), 3);
    assert!(blockchain.pending_transactions.is_empty());
    assert!(blockchain.is_valid().unwrap());
    assert_eq!(blockchain.state.get_balance(&address_from_name("alice")), 0);
    assert_eq!(blockchain.state.get_balance(&address_from_name("bob")), 25);
    assert_eq!(blockchain.state.get_balance(&address_from_name("carol")), 10);
    assert_eq!(blockchain.state.get_balance(&address_from_name("dave")), 5);
    assert_eq!(blockchain.receipts.len(), 1);
    assert!(blockchain.receipts[0].iter().all(|receipt| receipt.success));
}

#[test]
fn tampered_demo_chain_is_invalid() {
    let mut blockchain = build_demo_blockchain(8).unwrap();
    if let Payload::Transfer { amount, .. } = &mut blockchain.chain[1].transactions[0].payload {
        *amount += 1;
    }
    assert!(!blockchain.is_valid().unwrap());
}

#[test]
fn rendered_chain_lists_blocks_and_receipts() {
    let blockchain = build_demo_blockchain(4).unwrap();
    let text = render_chain(&blockchain).unwrap();
    let lines: Vec<&str> = text.lines().collect();
    assert_eq!(lines[0], "");
    assert_eq!(lines[1], "Block #0");
    assert_eq!(lines[2], format!("  Timestamp: {}", blockchain.chain[0].timestamp));
    assert_eq!(lines[3], format!("  Prev hash: {}", "0".repeat(64)));
    assert_eq!(
        lines[4],
        format!("  Hash:      {}", hash_to_hex(&blockchain.chain[0].compute_hash().unwrap()))
    );
    assert_eq!(lines[5], format!("  Nonce:     {}", blockchain.chain[0].nonce));
    assert_eq!(lines[6], "  Transactions:");
    assert_eq!(lines[7], "    (none)");
    assert_eq!(lines[9], "Block #1");
    let alice = short_address(&address_from_name("alice"));
    let bob = short_address(&address_from_name("bob"));
    assert_eq!(lines[15], format!("    {alice} -> {bob}: 25 @ 0"));
    let receipt = &blockchain.receipts[0][0];
    assert_eq!(
        lines[16],
        format!("      receipt {} success=true gas=1000", short_hash(&receipt.tx_hash))
    );
    assert_eq!(lines.len(), 21);
}

#[test]
fn short_forms_are_hex_prefixes() {
    let address = address_from_name("carol");
    let short = short_address(&address);
    assert_eq!(short.len(), 8);
    assert!(address_to_hex(&address).starts_with(&short));
    assert_eq!(short_hash(&[0x1f; 32]), "1f1f1f1f");
    assert_eq!(prefix_chars("héllo", 2), "hé");
    assert_eq!(prefix_chars("ab", 8), "ab");
}

#[test]
fn lines_split_like_str_lines() {
    for text in ["", "a", "a\n", "a\r\nb", "\n\nx\r", "a\r\r\nb\n\n", "\r\n"] {
        let expected: Vec<String> = text.lines().map(|line| line.to_string()).collect();
        assert_eq!(split_lines(text), expected, "text {text:?}");
    }
}
