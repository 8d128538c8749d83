use blocky::address_from_name;
use blocky::app::repl::{
    parse_command, tokenize, KeyInput, Repl, ReplCommand, ReplError, MAX_HISTORY_ENTRIES,
    MAX_OUTPUT_LINES,
};

#[test]
fn parses_add_command() {
    let command = parse_command("add alice bob 42").unwrap();
    assert_eq!(
        command,
        ReplCommand::Add {
            sender: "alice".into(),
            receiver: "bob".into(),
            amount: 42,
        }
    );
}

#[test]
fn parses_quoted_add_command() {
    let command = parse_command("add \"alice smith\" \"bob jones\" 42").unwrap();
    assert_eq!(
        command,
        ReplCommand::Add {
            sender: "alice smith".into(),
            receiver: "bob jones".into(),
            amount: 42,
        }
    );
}

#[test]
fn rejects_invalid_add_command() {
    assert!(parse_command("add alice bob").is_err());
}

#[test]
fn detects_unterminated_quote() {
    assert!(parse_command("add \"alice bob 10").is_err());
}

#[test]
fn tokenizes_quoted_segments() {
    let tokens = tokenize("add \"alice smith\" bob 5").unwrap();
    assert_eq!(tokens, vec!["add", "alice smith", "bob", "5"]);
}

#[test]
fn repl_can_execute_happy_path() {
    let mut repl = Repl::try_new(4).unwrap();
    repl.blockchain.credit_balance(address_from_name("alice"), 5);

    assert!(!repl.execute_line("add alice bob 5").unwrap());
    assert!(!repl.execute_line("mine").unwrap());
    assert!(!repl.execute_line("validate").unwrap());
    assert!(repl.execute_line("quit").unwrap());
}

#[test]
fn parses_simple_commands() {
    assert_eq!(parse_command("mine").unwrap(), ReplCommand::Mine);
    assert_eq!(parse_command("  print  ").unwrap(), ReplCommand::Print);
    assert_eq!(parse_command("validate").unwrap(), ReplCommand::Validate);
    assert_eq!(parse_command("help").unwrap(), ReplCommand::Help);
    assert_eq!(parse_command("quit").unwrap(), ReplCommand::Quit);
    assert_eq!(parse_command("exit").unwrap(), ReplCommand::Quit);
}

#[test]
fn rejects_unknown_and_empty_commands() {
    match parse_command("fly away") {
        Err(ReplError::UnknownCommand(word)) => assert_eq!(word, "fly"),
        other => panic!("unexpected result: {other:?}"),
    }
    match parse_command("   ") {
        Err(ReplError::UnknownCommand(word)) => assert_eq!(word, ""),
        other => panic!("unexpected result: {other:?}"),
    }
    assert!(matches!(parse_command("add \"a"), Err(ReplError::UnterminatedQuote)));
    assert!(matches!(parse_command("add a b c d"), Err(ReplError::InvalidAddUsage)));
}

#[test]
fn parses_amounts_as_unsigned_numbers() {
    match parse_command("add a b +7").unwrap() {
        ReplCommand::Add { amount, .. } => assert_eq!(amount, 7),
        other => panic!("unexpected command: {other:?}"),
    }
    match parse_command("add a b 18446744073709551615").unwrap() {
        ReplCommand::Add { amount, .. } => assert_eq!(amount, u64::MAX),
        other => panic!("unexpected command: {other:?}"),
    }
    for text in ["-7", "18446744073709551616", "12x", "+", "1.5"] {
        let line = format!("add a b {text}");
        match parse_command(&line) {
            Err(ReplError::InvalidAmount(amount)) => assert_eq!(amount, text),
            other => panic!("unexpected result for {text}: {other:?}"),
        }
    }
}

#[test]
fn tokenizer_collapses_whitespace_and_joins_quotes() {
    assert_eq!(tokenize(" a \t b\n").unwrap(), vec!["a", "b"]);
    assert_eq!(tokenize("x\"y z\"w").unwrap(), vec!["xy zw"]);
    assert_eq!(tokenize("\"\"").unwrap(), Vec::<String>::new());
    assert!(matches!(tokenize("\""), Err(ReplError::UnterminatedQuote)));
}

#[test]
fn error_messages_match_the_console_texts() {
    assert_eq!(ReplError::UnknownCommand("fly".into()).message(), "unknown command: fly");
    assert_eq!(ReplError::InvalidAddUsage.message(), "usage: add <sender> <receiver> <amount>");
    assert_eq!(ReplError::InvalidAmount("x".into()).message(), "invalid amount: x");
    assert_eq!(ReplError::UnterminatedQuote.message(), "unterminated quoted string");
}

#[test]
fn new_console_greets_with_help() {
    let repl = Repl::try_new(2).unwrap();
    assert_eq!(repl.output, vec!["Welcome to Blocky REPL".to_string(), Repl::help_text().to_string()]);
    assert!(repl.input.is_empty());
    assert!(repl.history.is_empty());
    assert_eq!(repl.history_index, None);
    assert_eq!(repl.scroll_offset, 0);
    assert_eq!(
        Repl::help_text(),
        "Commands: add <sender> <receiver> <amount> | mine | print | validate | help | quit"
    );
}

#[test]
fn execute_line_echoes_and_reports() {
    let mut repl = Repl::try_new(2).unwrap();
    assert!(!repl.execute_line("validate").unwrap());
    let n = repl.output.len();
    assert_eq!(repl.output[n - 2], "> validate");
    assert_eq!(repl.output[n - 1], "Chain valid: true");

    assert!(!repl.execute_line("help").unwrap());
    assert_eq!(repl.output.last().unwrap(), Repl::help_text());

    assert!(repl.execute_line("nonsense").is_err());
    assert_eq!(repl.output.last().unwrap(), "> nonsense");
}

#[test]
fn add_reports_queued_transaction_and_rejects_unfunded_one() {
    let mut repl = Repl::try_new(2).unwrap();
    let alice = address_from_name("alice");
    repl.blockchain.credit_balance(alice, 10);

    assert!(!repl.execute_line("add alice bob 4").unwrap());
    assert_eq!(repl.output.last().unwrap(), "Transaction queued.");
    assert!(!repl.execute_line("add alice bob 6").unwrap());
    assert_eq!(repl.blockchain.pending_transactions.len(), 2);
    assert_eq!(repl.blockchain.pending_transactions[1].nonce, 1);

    match repl.execute_line("add alice bob 1") {
        Err(ReplError::Blocky(blocky::BlockyError::InsufficientBalance { available, required })) => {
            assert_eq!(available, 0);
            assert_eq!(required, 1);
        }
        other => panic!("unexpected result: {other:?}"),
    }
    assert_eq!(repl.blockchain.pending_transactions.len(), 2);
    assert_eq!(repl.output.last().unwrap(), "> add alice bob 1");
}

#[test]
fn mine_reports_block_and_receipts() {
    let mut repl = Repl::try_new(2).unwrap();
    repl.blockchain.credit_balance(address_from_name("alice"), 5);
    repl.execute_line("add alice bob 5").unwrap();
    repl.execute_line("mine").unwrap();
    let nonce = repl.blockchain.chain[1].nonce;
    let n = repl.output.len();
    assert_eq!(repl.output[n - 2], format!("Mined block with nonce {nonce}."));
    assert!(repl.output[n - 1].starts_with("Receipt "));
    assert!(repl.output[n - 1].ends_with(" success=true gas=1000"));
    assert_eq!(repl.blockchain.state.get_balance(&address_from_name("bob")), 5);

    assert!(matches!(
        repl.execute_line("mine"),
        Err(ReplError::Blocky(blocky::BlockyError::NoPendingTransactions))
    ));
}

#[test]
fn print_shows_rendered_chain() {
    let mut repl = Repl::try_new(2).unwrap();
    repl.execute_line("print").unwrap();
    assert!(repl.output.contains(&"Block #0".to_string()));
    assert!(repl.output.contains(&"    (none)".to_string()));
    assert!(repl.output.contains(&"  Transactions:".to_string()));
}

#[test]
fn output_keeps_the_newest_lines() {
    let mut repl = Repl::try_new(1).unwrap();
    for i in 0..600 {
        repl.execute_line(&format!("bogus{i}")).unwrap_err();
    }
    assert_eq!(repl.output.len(), MAX_OUTPUT_LINES);
    assert_eq!(repl.output.last().unwrap(), "> bogus599");
    assert_eq!(repl.output[0], "> bogus100");
}

#[test]
fn keys_edit_input_and_run_commands() {
    let mut repl = Repl::try_new(1).unwrap();
    for c in "helpx".chars() {
        assert!(!repl.handle_key(KeyInput::Char(c)));
    }
    assert!(!repl.handle_key(KeyInput::Backspace));
    assert_eq!(repl.input, "help");
    assert!(!repl.handle_key(KeyInput::Enter));
    assert!(repl.input.is_empty());
    assert_eq!(repl.history, vec!["help".to_string()]);
    assert_eq!(repl.output.last().unwrap(), Repl::help_text());

    for c in "oops".chars() {
        repl.handle_key(KeyInput::Char(c));
    }
    repl.handle_key(KeyInput::Enter);
    assert_eq!(repl.output.last().unwrap(), "Error: unknown command: oops");

    for c in " quit ".chars() {
        repl.handle_key(KeyInput::Char(c));
    }
    assert!(repl.handle_key(KeyInput::Enter));
    assert_eq!(repl.history.last().unwrap(), "quit");
}

#[test]
fn blank_enter_and_repeated_lines_leave_history_alone() {
    let mut repl = Repl::try_new(1).unwrap();
    for c in "   ".chars() {
        repl.handle_key(KeyInput::Char(c));
    }
    let before = repl.output.clone();
    assert!(!repl.handle_key(KeyInput::Enter));
    assert!(repl.history.is_empty());
    assert_eq!(repl.output, before);

    for _ in 0..2 {
        for c in "help".chars() {
            repl.handle_key(KeyInput::Char(c));
        }
        repl.handle_key(KeyInput::Enter);
    }
    assert_eq!(repl.history, vec!["help".to_string()]);
}

#[test]
fn history_is_browsed_with_arrows_when_typing() {
    let mut repl = Repl::try_new(1).unwrap();
    for line in ["help", "validate"] {
        for c in line.chars() {
            repl.handle_key(KeyInput::Char(c));
        }
        repl.handle_key(KeyInput::Enter);
    }
    repl.handle_key(KeyInput::Char('x'));
    repl.handle_key(KeyInput::Up);
    assert_eq!(repl.input, "validate");
    assert_eq!(repl.history_index, Some(1));
    repl.handle_key(KeyInput::Up);
    assert_eq!(repl.input, "help");
    assert_eq!(repl.history_index, Some(0));
    repl.handle_key(KeyInput::Up);
    assert_eq!(repl.input, "help");
    assert_eq!(repl.history_index, Some(0));
    repl.handle_key(KeyInput::Down);
    assert_eq!(repl.input, "validate");
    repl.handle_key(KeyInput::Down);
    assert!(repl.input.is_empty());
    assert_eq!(repl.history_index, None);
}

#[test]
fn arrows_scroll_when_input_is_empty() {
    let mut repl = Repl::try_new(1).unwrap();
    repl.handle_key(KeyInput::Up);
    repl.handle_key(KeyInput::Up);
    assert_eq!(repl.scroll_offset, 2);
    repl.handle_key(KeyInput::PageUp);
    assert_eq!(repl.scroll_offset, 12);
    repl.handle_key(KeyInput::Down);
    assert_eq!(repl.scroll_offset, 11);
    repl.handle_key(KeyInput::PageDown);
    repl.handle_key(KeyInput::PageDown);
    assert_eq!(repl.scroll_offset, 0);
    repl.scroll_offset = u16::MAX - 3;
    repl.handle_key(KeyInput::PageUp);
    assert_eq!(repl.scroll_offset, u16::MAX);
    assert!(!repl.handle_key(KeyInput::Other));
    assert!(repl.handle_key(KeyInput::Esc));
}

#[test]
fn history_keeps_the_newest_entries() {
    let mut repl = Repl::try_new(1).unwrap();
    for i in 0..(MAX_HISTORY_ENTRIES + 5) {
        for c in format!("cmd{i}").chars() {
            repl.handle_key(KeyInput::Char(c));
        }
        repl.handle_key(KeyInput::Enter);
    }
    assert_eq!(repl.history.len(), MAX_HISTORY_ENTRIES);
    assert_eq!(repl.history[0], "cmd5");
    assert_eq!(repl.history.last().unwrap(), &format!("cmd{}", MAX_HISTORY_ENTRIES + 4));
}

#[test]
fn side_panels_describe_the_chain() {
    let mut repl = Repl::try_new(1).unwrap();
    repl.blockchain.credit_balance(address_from_name("alice"), 9);
    assert_eq!(repl.pending_lines(), vec!["(none)".to_string()]);
    repl.execute_line("add alice bob 3").unwrap();
    let alice = blocky::app::short_address(&address_from_name("alice"));
    let bob = blocky::app::short_address(&address_from_name("bob"));
    assert_eq!(repl.pending_lines(), vec![format!("{alice} -> {bob}: 3")]);
    assert_eq!(
        repl.status_lines(),
        vec![
            "Blocks: 1".to_string(),
            "Pending: 1".to_string(),
            "Difficulty: 1".to_string(),
            "Valid: true".to_string(),
            "History: 0".to_string(),
            "Alice: 9".to_string(),
            "Bob: 0".to_string(),
        ]
    );
    assert_eq!(
        Repl::help_lines(),
        vec![
            "Enter: run command",
            "Up/Down: scroll or history",
            "PgUp/PgDn: fast scroll",
            "Quotes: add \"alice a\" bob 4",
            "Esc: quit",
        ]
    );
}

const NOOP_MODULE: &[u8] = &[
    0x00, 0x61, 0x73, 0x6d, 0x01, 0x00, 0x00, 0x00, 0x01, 0x04, 0x01, 0x60, 0x00, 0x00, 0x03,
    0x02, 0x01, 0x00, 0x07, 0x08, 0x01, 0x04, 0x6e, 0x6f, 0x6f, 0x70, 0x00, 0x00, 0x0a, 0x04,
    0x01, 0x02, 0x00, 0x0b,
];

#[test]
fn parses_contract_commands() {
    let contract = "ab".repeat(32);
    assert_eq!(
        parse_command("deploy alice /tmp/counter.wasm").unwrap(),
        ReplCommand::Deploy { sender: "alice".into(), path: "/tmp/counter.wasm".into() }
    );
    assert_eq!(
        parse_command(&format!("call alice {contract} get")).unwrap(),
        ReplCommand::Call { sender: "alice".into(), contract: [0xab; 32], method: "get".into(), args: Vec::new() }
    );
    assert_eq!(
        parse_command(&format!("call alice {} set abc", contract.to_uppercase())).unwrap(),
        ReplCommand::Call { sender: "alice".into(), contract: [0xab; 32], method: "set".into(), args: b"abc".to_vec() }
    );
    assert_eq!(
        parse_command(&format!("call alice {contract} set --hex 0aFF")).unwrap(),
        ReplCommand::Call { sender: "alice".into(), contract: [0xab; 32], method: "set".into(), args: vec![0x0a, 0xff] }
    );
    assert_eq!(
        parse_command(&format!("call alice {contract} set --json '[1,2]'")).unwrap_err().message(),
        "invalid json: '[1,2]'"
    );
    assert_eq!(
        parse_command(&format!("call alice {contract} set --json \"[1, 2]\"")).unwrap(),
        ReplCommand::Call { sender: "alice".into(), contract: [0xab; 32], method: "set".into(), args: b"[1, 2]".to_vec() }
    );
    assert_eq!(
        parse_command(&format!("balance {contract}")).unwrap(),
        ReplCommand::Balance { address: [0xab; 32] }
    );
}

#[test]
fn rejects_malformed_contract_commands() {
    let contract = "01".repeat(32);
    assert!(matches!(parse_command("deploy alice"), Err(ReplError::InvalidDeployUsage)));
    assert!(matches!(parse_command("call alice"), Err(ReplError::InvalidCallUsage)));
    assert!(matches!(
        parse_command(&format!("call alice {contract} m --hex")),
        Err(ReplError::InvalidCallUsage)
    ));
    assert!(matches!(
        parse_command(&format!("call alice {contract} m a b")),
        Err(ReplError::InvalidCallUsage)
    ));
    match parse_command(&format!("call alice {contract} m --hex abc")) {
        Err(ReplError::InvalidHex(text)) => assert_eq!(text, "abc"),
        other => panic!("unexpected result: {other:?}"),
    }
    match parse_command("call alice 0102 m") {
        Err(ReplError::InvalidAddress(text)) => assert_eq!(text, "0102"),
        other => panic!("unexpected result: {other:?}"),
    }
    assert!(matches!(parse_command("balance"), Err(ReplError::InvalidBalanceUsage)));
    assert!(matches!(parse_command("balance alice"), Err(ReplError::InvalidAddress(_))));
    assert_eq!(
        ReplError::InvalidCallUsage.message(),
        "usage: call <sender> <addr> <method> [args|--hex <hex>|--json <json>]"
    );
}

#[test]
fn deploy_call_and_balance_flow() {
    let mut repl = Repl::try_new(2).unwrap();
    let alice = address_from_name("alice");
    repl.blockchain.credit_balance(alice, 5_000_000);

    assert!(!repl.execute_line("deploy alice noop.wasm").unwrap());
    assert_eq!(repl.code_request, Some(("alice".to_string(), "noop.wasm".to_string())));
    let (sender, path) = repl.code_request.take().unwrap();
    repl.finish_deploy(&sender, &path, Ok(NOOP_MODULE.to_vec()));
    let deploy = &repl.blockchain.pending_transactions[0];
    let contract = deploy.derived_contract_address();
    let short = blocky::app::short_address(&contract);
    assert_eq!(repl.output.last().unwrap(), &format!("Deploy queued for {short} from alice."));

    let hex = blocky::address_to_hex(&contract);
    assert!(!repl.execute_line(&format!("call alice {hex} noop")).unwrap());
    assert_eq!(repl.output.last().unwrap(), &format!("Call queued for {short}.noop from alice."));
    assert_eq!(repl.blockchain.pending_transactions[1].nonce, 1);

    repl.execute_line("mine").unwrap();
    assert!(repl.blockchain.state.get_account(&contract).unwrap().code.is_some());

    repl.execute_line(&format!("balance {hex}")).unwrap();
    assert_eq!(repl.output.last().unwrap(), &format!("Balance of {short}: 0"));
}

#[test]
fn failed_code_read_is_reported() {
    let mut repl = Repl::try_new(1).unwrap();
    repl.finish_deploy(
        "alice",
        "missing.wasm",
        Err(std::io::Error::new(std::io::ErrorKind::NotFound, "no such file")),
    );
    assert_eq!(repl.output.last().unwrap(), "Error: failed to read missing.wasm: no such file");
    assert!(repl.blockchain.pending_transactions.is_empty());
    repl.finish_deploy("nobody", "x.wasm", Ok(vec![1, 2, 3]));
    assert!(repl.output.last().unwrap().starts_with("Error: sender has insufficient balance"));
}

#[test]
fn unicode_whitespace_separates_arguments() {
    let line = "add\u{00a0}alice\u{3000}bob\t42";
    let expected: Vec<&str> = line.split(char::is_whitespace).collect();
    assert_eq!(expected, vec!["add", "alice", "bob", "42"]);
    assert_eq!(
        parse_command(line).unwrap(),
        ReplCommand::Add { sender: "alice".into(), receiver: "bob".into(), amount: 42 }
    );
    assert!(parse_command("add alice\u{200b}bob 42").is_err());
}

#[test]
fn print_shows_the_full_address_of_a_deployed_contract() {
    let mut repl = Repl::try_new(1).unwrap();
    let alice = address_from_name("alice");
    repl.blockchain.credit_balance(alice, 5_000_000);
    repl.execute_line("deploy alice noop.wasm").unwrap();
    let (sender, path) = repl.code_request.take().unwrap();
    repl.finish_deploy(&sender, &path, Ok(NOOP_MODULE.to_vec()));
    let contract = repl.blockchain.pending_transactions[0].derived_contract_address();
    repl.execute_line("mine").unwrap();
    repl.execute_line("print").unwrap();
    let hex = blocky::address_to_hex(&contract);
    let line = repl.output.iter().find(|line| line.contains(" bytes")).unwrap().clone();
    assert!(line.contains(&format!("bytes to {hex}")));
    assert!(!repl.execute_line(&format!("call alice {hex} noop")).unwrap());
    repl.execute_line("mine").unwrap();
    assert_eq!(repl.blockchain.chain.len(), 3);
}

#[test]
fn a_console_beyond_its_bounds_is_cut_back() {
    let mut repl = Repl::try_new(1).unwrap();
    for i in 0..(MAX_OUTPUT_LINES + 5) {
        repl.output.push(format!("line {i}"));
    }
    for i in 0..(MAX_HISTORY_ENTRIES + 3) {
        repl.history.push(format!("cmd {i}"));
    }
    repl.history_index = Some(MAX_HISTORY_ENTRIES + 50);
    assert!(!repl.handle_key(KeyInput::Char('x')));
    assert_eq!(repl.output.len(), MAX_OUTPUT_LINES);
    assert_eq!(repl.output.last().unwrap(), &format!("line {}", MAX_OUTPUT_LINES + 4));
    assert_eq!(repl.history.len(), MAX_HISTORY_ENTRIES);
    assert_eq!(repl.history[0], "cmd 3");
    assert_eq!(repl.history_index, None);
    assert_eq!(repl.input, "x");
}
