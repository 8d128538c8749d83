//! The interactive console: its command language and its session state.

use crate::app::demo::{
    bool_text, chain_renderable, chain_text, push_bool_text, receipt_lists,
    render_chain, short_text,
};
use crate::app::lines::{split_lines, strings_view, text_lines};
use crate::app::{push_char, short_address, short_hash};
use crate::block::BlockView;
use crate::crypto::{hex_decode, hex_decoded};
use crate::chain::{
    io_error_text, is_blocky_error_message, chain_valid, expected_nonce, mine_failed, mined, reserved_total, sat_add,
    Blockchain, BlockyError,
};
use crate::receipt::Receipt;
use crate::state::{balance_of, spec_apply_all, AccountView};
use crate::text::{concat_text, decimal_chars, push_decimal_text};
use crate::chain::tx_cost;
use crate::transaction::{
    address_from_name, spec_address_from_name, Address, Payload, PayloadView, Transaction,
    TransactionView,
};
use vstd::prelude::*;
use vstd::utf8::encode_utf8;

verus! {

/// Characters with the Unicode `White_Space` property, which
/// `char::is_whitespace` tests.
pub open spec fn is_whitespace_char(c: char) -> bool {
    let u = c as u32;
    ||| 0x09 <= u <= 0x0d
    ||| u == 0x20
    ||| u == 0x85
    ||| u == 0xa0
    ||| u == 0x1680
    ||| 0x2000 <= u <= 0x200a
    ||| u == 0x2028
    ||| u == 0x2029
    ||| u == 0x202f
    ||| u == 0x205f
    ||| u == 0x3000
}

/// Whether `c` has the Unicode `White_Space` property, as
/// `char::is_whitespace` tests it.
fn char_is_whitespace(c: char) -> (ws: bool)
    ensures
        ws == is_whitespace_char(c),
{
    let u = c as u32;
    (0x09 <= u && u <= 0x0d) || u == 0x20 || u == 0x85 || u == 0xa0 || u == 0x1680 || (0x2000 <= u
        && u <= 0x200a) || u == 0x2028 || u == 0x2029 || u == 0x202f || u == 0x205f || u == 0x3000
}

/// The tokenizer's state: finished tokens, the token being read, and
/// whether a quote is open.
pub type TokenizerState = (Seq<Seq<char>>, Seq<char>, bool);

/// One step of the tokenizer: a double quote toggles quoting, whitespace
/// outside quotes ends the current token, any other character extends it.
pub open spec fn tokenize_step(st: TokenizerState, c: char) -> TokenizerState {
    if c == '"' {
        (st.0, st.1, !st.2)
    } else if is_whitespace_char(c) && !st.2 {
        if st.1.len() > 0 {
            (st.0.push(st.1), Seq::empty(), st.2)
        } else {
            st
        }
    } else {
        (st.0, st.1.push(c), st.2)
    }
}

/// The tokenizer's state after reading `s`.
pub open spec fn tokenize_run(s: Seq<char>) -> TokenizerState
    decreases s.len(),
{
    if s.len() == 0 {
        (Seq::empty(), Seq::empty(), false)
    } else {
        tokenize_step(tokenize_run(s.drop_last()), s.last())
    }
}

/// The tokens of a line, or `None` when a quote is left open.
pub open spec fn spec_tokenize(s: Seq<char>) -> Option<Seq<Seq<char>>> {
    let st = tokenize_run(s);
    if st.2 {
        None
    } else if st.1.len() > 0 {
        Some(st.0.push(st.1))
    } else {
        Some(st.0)
    }
}

/// Errors of the console.
#[derive(Debug)]
pub enum ReplError {
    /// Terminal input or output failed.
    Io(std::io::Error),
    /// A blockchain operation failed.
    Blocky(BlockyError),
    /// The command word is not known.
    UnknownCommand(String),
    /// `add` was not given a sender, a receiver and an amount.
    InvalidAddUsage,
    /// The amount of `add` is not an unsigned 64-bit number.
    InvalidAmount(String),
    /// A double quote was left open.
    UnterminatedQuote,
    /// `deploy` was not given a sender and a path.
    InvalidDeployUsage,
    /// `call` was not given a sender, an address, a method and at most one
    /// argument form.
    InvalidCallUsage,
    /// `balance` was not given one address.
    InvalidBalanceUsage,
    /// The text is not the hexadecimal form of a 32-byte address.
    InvalidAddress(String),
    /// The `--hex` argument is not hexadecimal text.
    InvalidHex(String),
    /// The `--json` argument is not a JSON document.
    InvalidJson(String),
}

/// `text` is the message of `error`.
pub open spec fn is_repl_error_message(error: ReplError, text: Seq<char>) -> bool {
    match error {
        ReplError::Io(_) => true,
        ReplError::Blocky(e) => is_blocky_error_message(e, text),
        ReplError::UnknownCommand(word) => text == "unknown command: "@ + word@,
        ReplError::InvalidAddUsage => text == "usage: add <sender> <receiver> <amount>"@,
        ReplError::InvalidAmount(amount) => text == "invalid amount: "@ + amount@,
        ReplError::UnterminatedQuote => text == "unterminated quoted string"@,
        ReplError::InvalidDeployUsage => text == "usage: deploy <sender> <path>"@,
        ReplError::InvalidCallUsage => text
            == "usage: call <sender> <addr> <method> [args|--hex <hex>|--json <json>]"@,
        ReplError::InvalidBalanceUsage => text == "usage: balance <addr>"@,
        ReplError::InvalidAddress(a) => text == "invalid address: "@ + a@,
        ReplError::InvalidHex(h) => text == "invalid hex: "@ + h@,
        ReplError::InvalidJson(j) => text == "invalid json: "@ + j@,
    }
}

impl ReplError {
    /// Returns the human-readable message of this error.
    pub fn message(&self) -> (text: String)
        ensures
            is_repl_error_message(*self, text@),
    {
        match self {
            ReplError::Io(e) => io_error_text(e),
            ReplError::Blocky(e) => e.message(),
            ReplError::UnknownCommand(word) => concat_text("unknown command: ", word.as_str()),
            ReplError::InvalidAddUsage => String::from_str("usage: add <sender> <receiver> <amount>"),
            ReplError::InvalidAmount(amount) => concat_text("invalid amount: ", amount.as_str()),
            ReplError::UnterminatedQuote => String::from_str("unterminated quoted string"),
            ReplError::InvalidDeployUsage => String::from_str("usage: deploy <sender> <path>"),
            ReplError::InvalidCallUsage => String::from_str(
                "usage: call <sender> <addr> <method> [args|--hex <hex>|--json <json>]",
            ),
            ReplError::InvalidBalanceUsage => String::from_str("usage: balance <addr>"),
            ReplError::InvalidAddress(a) => concat_text("invalid address: ", a.as_str()),
            ReplError::InvalidHex(h) => concat_text("invalid hex: ", h.as_str()),
            ReplError::InvalidJson(j) => concat_text("invalid json: ", j.as_str()),
        }
    }
}

/// Splits a line into whitespace-separated tokens; double quotes group
/// words (and are dropped). A quote left open is an error.
pub fn tokenize(line: &str) -> (tokens: Result<Vec<String>, ReplError>)
    ensures
        match spec_tokenize(line@) {
            Some(t) => tokens matches Ok(v) && strings_view(v@) == t,
            None => tokens matches Err(ReplError::UnterminatedQuote),
        },
{
    let mut tokens: Vec<String> = Vec::new();
    let mut current = String::new();
    let mut in_quotes = false;
    let ghost chars = line@;
    for c in it: line.chars()
        invariant
            chars == line@,
            it.seq() == chars,
            (strings_view(tokens@), current@, in_quotes) == tokenize_run(chars.take(it.index() as int)),
    {
        let ghost i = it.index();
        proof {
            assert(chars.take(i + 1).drop_last() =~= chars.take(i));
            assert(chars.take(i + 1).last() == c);
        }
        if c == '"' {
            in_quotes = !in_quotes;
        } else if char_is_whitespace(c) && !in_quotes {
            if current.as_str().unicode_len() > 0 {
                let mut finished = String::new();
                std::mem::swap(&mut finished, &mut current);
                let ghost before = tokens@;
                tokens.push(finished);
                assert(strings_view(tokens@) =~= strings_view(before).push(finished@));
            }
        } else {
            push_char(&mut current, c);
        }
    }
    assert(chars.take(chars.len() as int) =~= chars);
    if in_quotes {
        return Err(ReplError::UnterminatedQuote);
    }
    if current.as_str().unicode_len() > 0 {
        let ghost before = tokens@;
        let last = current;
        let ghost lv = last@;
        tokens.push(last);
        assert(strings_view(tokens@) =~= strings_view(before).push(lv));
    }
    Ok(tokens)
}

/// All characters are ASCII decimal digits.
pub open spec fn all_digits(s: Seq<char>) -> bool {
    forall|i: int| 0 <= i < s.len() ==> '0' <= #[trigger] s[i] <= '9'
}

/// The value of a string of decimal digits.
pub open spec fn digits_value(s: Seq<char>) -> nat
    decreases s.len(),
{
    if s.len() == 0 {
        0
    } else {
        digits_value(s.drop_last()) * 10 + ((s.last() as u32) - 48) as nat
    }
}

/// A number's text without its optional leading `+`.
pub open spec fn unsigned_digits(s: Seq<char>) -> Seq<char> {
    if s.len() > 0 && s[0] == '+' {
        s.drop_first()
    } else {
        s
    }
}

/// The `u64` that a text denotes: an optional `+` followed by one or more
/// decimal digits whose value fits in 64 bits; `None` for any other text.
pub open spec fn spec_parse_u64(s: Seq<char>) -> Option<u64> {
    let d = unsigned_digits(s);
    if d.len() > 0 && all_digits(d) && digits_value(d) <= u64::MAX {
        Some(digits_value(d) as u64)
    } else {
        None
    }
}

/// Trusted: `str::parse::<u64>`. Its documentation accepts exactly an
/// optional `+` followed by decimal digits whose value fits the type, which
/// the contract states.
#[verifier::external_body]
fn parse_u64(text: &str) -> (value: Option<u64>)
    ensures
        value == spec_parse_u64(text@),
{
    text.parse::<u64>().ok()
}

/// A console command.
#[derive(Debug, Clone, PartialEq, Eq)]
pub enum ReplCommand {
    /// Queue a transfer of `amount` from `sender` to `receiver` (by name).
    Add { sender: String, receiver: String, amount: u64 },
    /// Queue a deployment, by `sender`, of the Wasm code in the file at
    /// `path`.
    Deploy { sender: String, path: String },
    /// Queue a call, by `sender`, of `method` on `contract` with `args`.
    Call { sender: String, contract: Address, method: String, args: Vec<u8> },
    /// Show the balance of an address.
    Balance { address: Address },
    /// Mine the pending transactions.
    Mine,
    /// Show the chain.
    Print,
    /// Validate the chain.
    Validate,
    /// Show the command summary.
    Help,
    /// Leave the console.
    Quit,
}

/// A console command as a value.
pub enum CommandView {
    Add { sender: Seq<char>, receiver: Seq<char>, amount: u64 },
    Deploy { sender: Seq<char>, path: Seq<char> },
    Call { sender: Seq<char>, contract: Address, method: Seq<char>, args: Seq<u8> },
    Balance { address: Address },
    Mine,
    Print,
    Validate,
    Help,
    Quit,
}

impl View for ReplCommand {
    type V = CommandView;

    open spec fn view(&self) -> CommandView {
        match self {
            ReplCommand::Add { sender, receiver, amount } => CommandView::Add {
                sender: sender@,
                receiver: receiver@,
                amount: *amount,
            },
            ReplCommand::Deploy { sender, path } => CommandView::Deploy {
                sender: sender@,
                path: path@,
            },
            ReplCommand::Call { sender, contract, method, args } => CommandView::Call {
                sender: sender@,
                contract: *contract,
                method: method@,
                args: args@,
            },
            ReplCommand::Balance { address } => CommandView::Balance { address: *address },
            ReplCommand::Mine => CommandView::Mine,
            ReplCommand::Print => CommandView::Print,
            ReplCommand::Validate => CommandView::Validate,
            ReplCommand::Help => CommandView::Help,
            ReplCommand::Quit => CommandView::Quit,
        }
    }
}

/// Why a line is not a command.
pub enum ParseFailure {
    UnknownCommand(Seq<char>),
    InvalidAddUsage,
    InvalidAmount(Seq<char>),
    UnterminatedQuote,
    InvalidDeployUsage,
    InvalidCallUsage,
    InvalidBalanceUsage,
    InvalidAddress(Seq<char>),
    InvalidHex(Seq<char>),
    InvalidJson(Seq<char>),
}

/// `error` is the console error for `failure`.
pub open spec fn is_parse_failure(error: ReplError, failure: ParseFailure) -> bool {
    match failure {
        ParseFailure::UnknownCommand(word) => error matches ReplError::UnknownCommand(w) && w@ == word,
        ParseFailure::InvalidAddUsage => error is InvalidAddUsage,
        ParseFailure::InvalidAmount(text) => error matches ReplError::InvalidAmount(a) && a@ == text,
        ParseFailure::UnterminatedQuote => error is UnterminatedQuote,
        ParseFailure::InvalidDeployUsage => error is InvalidDeployUsage,
        ParseFailure::InvalidCallUsage => error is InvalidCallUsage,
        ParseFailure::InvalidBalanceUsage => error is InvalidBalanceUsage,
        ParseFailure::InvalidAddress(text) => error matches ReplError::InvalidAddress(a) && a@ == text,
        ParseFailure::InvalidHex(text) => error matches ReplError::InvalidHex(h) && h@ == text,
        ParseFailure::InvalidJson(text) => error matches ReplError::InvalidJson(j) && j@ == text,
    }
}

/// The address that a text denotes: 64 hexadecimal digits.
pub open spec fn address_of_text(t: Seq<char>) -> Option<Address> {
    match hex_decoded(encode_utf8(t)) {
        Some(b) => if b.len() == 32 {
            Some(choose|a: Address| a@ == b)
        } else {
            None
        },
        None => None,
    }
}

/// The arguments of a `call` with tokens `t` (four to six of them): none, a
/// text's UTF-8 bytes, `--hex` and the bytes its digits denote, or `--json`
/// and the UTF-8 bytes of a JSON document (`json_ok` tells whether the last
/// token is one).
pub open spec fn call_args_of(t: Seq<Seq<char>>, json_ok: bool) -> Result<Seq<u8>, ParseFailure> {
    if t.len() == 4 {
        Ok(Seq::empty())
    } else if t.len() == 5 {
        if t[4] == "--hex"@ || t[4] == "--json"@ {
            Err(ParseFailure::InvalidCallUsage)
        } else {
            Ok(encode_utf8(t[4]))
        }
    } else if t[4] == "--hex"@ {
        match hex_decoded(encode_utf8(t[5])) {
            Some(b) => Ok(b),
            None => Err(ParseFailure::InvalidHex(t[5])),
        }
    } else if t[4] == "--json"@ {
        if json_ok {
            Ok(encode_utf8(t[5]))
        } else {
            Err(ParseFailure::InvalidJson(t[5]))
        }
    } else {
        Err(ParseFailure::InvalidCallUsage)
    }
}

/// The command that a list of tokens denotes; `json_ok` tells whether the
/// sixth token is a JSON document.
pub open spec fn command_of(t: Seq<Seq<char>>, json_ok: bool) -> Result<CommandView, ParseFailure> {
    if t.len() == 0 {
        Err(ParseFailure::UnknownCommand(Seq::empty()))
    } else if t[0] == "add"@ {
        if t.len() != 4 {
            Err(ParseFailure::InvalidAddUsage)
        } else {
            match spec_parse_u64(t[3]) {
                Some(amount) => Ok(CommandView::Add { sender: t[1], receiver: t[2], amount }),
                None => Err(ParseFailure::InvalidAmount(t[3])),
            }
        }
    } else if t[0] == "deploy"@ {
        if t.len() != 3 {
            Err(ParseFailure::InvalidDeployUsage)
        } else {
            Ok(CommandView::Deploy { sender: t[1], path: t[2] })
        }
    } else if t[0] == "call"@ {
        if t.len() < 4 || t.len() > 6 {
            Err(ParseFailure::InvalidCallUsage)
        } else {
            match address_of_text(t[2]) {
                None => Err(ParseFailure::InvalidAddress(t[2])),
                Some(contract) => match call_args_of(t, json_ok) {
                    Ok(args) => Ok(
                        CommandView::Call { sender: t[1], contract, method: t[3], args },
                    ),
                    Err(f) => Err(f),
                },
            }
        }
    } else if t[0] == "balance"@ {
        if t.len() != 2 {
            Err(ParseFailure::InvalidBalanceUsage)
        } else {
            match address_of_text(t[1]) {
                Some(address) => Ok(CommandView::Balance { address }),
                None => Err(ParseFailure::InvalidAddress(t[1])),
            }
        }
    } else if t[0] == "mine"@ {
        Ok(CommandView::Mine)
    } else if t[0] == "print"@ {
        Ok(CommandView::Print)
    } else if t[0] == "validate"@ {
        Ok(CommandView::Validate)
    } else if t[0] == "help"@ {
        Ok(CommandView::Help)
    } else if t[0] == "quit"@ || t[0] == "exit"@ {
        Ok(CommandView::Quit)
    } else {
        Err(ParseFailure::UnknownCommand(t[0]))
    }
}

/// Whether `serde_json` accepts a text as a JSON document.
pub uninterp spec fn json_accepts(text: Seq<char>) -> bool;

/// Trusted: `serde_json::from_str::<serde_json::Value>`, telling whether the
/// text parses. The contract names the answer, which depends on the text
/// alone.
#[verifier::external_body]
fn parses_as_json(text: &str) -> (valid: bool)
    ensures
        valid == json_accepts(text@),
{
    match serde_json::from_str::<serde_json::Value>(text) {
        Ok(_) => true,
        Err(_) => false,
    }
}

/// The command that a line denotes.
pub open spec fn spec_parse_command(line: Seq<char>) -> Result<CommandView, ParseFailure> {
    match spec_tokenize(line) {
        None => Err(ParseFailure::UnterminatedQuote),
        Some(t) => command_of(t, t.len() == 6 && json_accepts(t[5])),
    }
}

/// Returns whether a string holds exactly the text of `word`.
fn is_word(s: &String, word: &str) -> (equal: bool)
    ensures
        equal == (s@ == word@),
{
    let w = word.to_owned();
    *s == w
}

/// The 32-byte address written as hexadecimal text.
fn parse_address(text: &String) -> (address: Option<Address>)
    ensures
        address == address_of_text(text@),
{
    broadcast use vstd::array::group_array_axioms;

    let bytes = match hex_decode(text.as_str().as_bytes()) {
        Some(bytes) => bytes,
        None => return None,
    };
    if bytes.len() != 32 {
        return None;
    }
    let mut address: Address = [0u8; 32];
    let mut i: usize = 0;
    while i < 32
        invariant
            i <= 32,
            bytes@.len() == 32,
            forall|j: int| 0 <= j < i ==> address@[j] == bytes@[j],
        decreases 32 - i,
    {
        address[i] = bytes[i];
        i = i + 1;
    }
    assert(address@ =~= bytes@);
    let ghost chosen = choose|a: Address| a@ == bytes@;
    assert(chosen@ == bytes@);
    assert(chosen =~= address);
    Some(address)
}

/// The arguments of a `call` with tokens `parts` (four to six of them);
/// `json_ok` tells whether the sixth token is a JSON document.
pub fn call_args(parts: &Vec<String>, json_ok: bool) -> (args: Result<Vec<u8>, ReplError>)
    requires
        4 <= parts@.len() <= 6,
    ensures
        match call_args_of(strings_view(parts@), json_ok) {
            Ok(a) => args matches Ok(v) && v@ == a,
            Err(f) => args matches Err(e) && is_parse_failure(e, f),
        },
{
    let ghost t = strings_view(parts@);
    if parts.len() == 4 {
        return Ok(Vec::new());
    }
    assert(t[4] == parts@[4]@);
    let flag = &parts[4];
    if parts.len() == 5 {
        if is_word(flag, "--hex") || is_word(flag, "--json") {
            return Err(ReplError::InvalidCallUsage);
        }
        return Ok(crate::encoding::copy_bytes_from_slice(flag.as_str().as_bytes()));
    }
    assert(t[5] == parts@[5]@);
    let value = &parts[5];
    if is_word(flag, "--hex") {
        match hex_decode(value.as_str().as_bytes()) {
            Some(bytes) => Ok(bytes),
            None => Err(ReplError::InvalidHex(value.clone())),
        }
    } else if is_word(flag, "--json") {
        if json_ok {
            Ok(crate::encoding::copy_bytes_from_slice(value.as_str().as_bytes()))
        } else {
            Err(ReplError::InvalidJson(value.clone()))
        }
    } else {
        Err(ReplError::InvalidCallUsage)
    }
}

/// The command that a list of tokens denotes; `json_ok` tells whether the
/// sixth token is a JSON document.
pub fn command_from_tokens(parts: &Vec<String>, json_ok: bool) -> (command: Result<ReplCommand, ReplError>)
    ensures
        match command_of(strings_view(parts@), json_ok) {
            Ok(c) => command matches Ok(cmd) && cmd@ == c,
            Err(f) => command matches Err(e) && is_parse_failure(e, f),
        },
{
    let ghost t = strings_view(parts@);
    if parts.len() == 0 {
        return Err(ReplError::UnknownCommand(String::new()));
    }
    assert(t[0] == parts@[0]@);
    let word = &parts[0];
    if is_word(word, "add") {
        if parts.len() != 4 {
            return Err(ReplError::InvalidAddUsage);
        }
        assert(t[1] == parts@[1]@ && t[2] == parts@[2]@ && t[3] == parts@[3]@);
        match parse_u64(parts[3].as_str()) {
            Some(amount) => Ok(
                ReplCommand::Add { sender: parts[1].clone(), receiver: parts[2].clone(), amount },
            ),
            None => Err(ReplError::InvalidAmount(parts[3].clone())),
        }
    } else if is_word(word, "deploy") {
        if parts.len() != 3 {
            return Err(ReplError::InvalidDeployUsage);
        }
        assert(t[1] == parts@[1]@ && t[2] == parts@[2]@);
        Ok(ReplCommand::Deploy { sender: parts[1].clone(), path: parts[2].clone() })
    } else if is_word(word, "call") {
        if parts.len() < 4 || parts.len() > 6 {
            return Err(ReplError::InvalidCallUsage);
        }
        assert(t[1] == parts@[1]@ && t[2] == parts@[2]@ && t[3] == parts@[3]@);
        let contract = match parse_address(&parts[2]) {
            Some(contract) => contract,
            None => return Err(ReplError::InvalidAddress(parts[2].clone())),
        };
        let args = match call_args(parts, json_ok) {
            Ok(args) => args,
            Err(error) => return Err(error),
        };
        Ok(
            ReplCommand::Call {
                sender: parts[1].clone(),
                contract,
                method: parts[3].clone(),
                args,
            },
        )
    } else if is_word(word, "balance") {
        if parts.len() != 2 {
            return Err(ReplError::InvalidBalanceUsage);
        }
        assert(t[1] == parts@[1]@);
        match parse_address(&parts[1]) {
            Some(address) => Ok(ReplCommand::Balance { address }),
            None => Err(ReplError::InvalidAddress(parts[1].clone())),
        }
    } else if is_word(word, "mine") {
        Ok(ReplCommand::Mine)
    } else if is_word(word, "print") {
        Ok(ReplCommand::Print)
    } else if is_word(word, "validate") {
        Ok(ReplCommand::Validate)
    } else if is_word(word, "help") {
        Ok(ReplCommand::Help)
    } else if is_word(word, "quit") || is_word(word, "exit") {
        Ok(ReplCommand::Quit)
    } else {
        Err(ReplError::UnknownCommand(word.clone()))
    }
}

/// Parses a console line into a command.
pub fn parse_command(line: &str) -> (command: Result<ReplCommand, ReplError>)
    ensures
        match spec_parse_command(line@) {
            Ok(c) => command matches Ok(cmd) && cmd@ == c,
            Err(f) => command matches Err(e) && is_parse_failure(e, f),
        },
{
    let parts = match tokenize(line) {
        Ok(parts) => parts,
        Err(error) => return Err(error),
    };
    let ghost t = strings_view(parts@);
    let json_ok = if parts.len() == 6 {
        assert(t[5] == parts@[5]@);
        parses_as_json(parts[5].as_str())
    } else {
        false
    };
    command_from_tokens(&parts, json_ok)
}

/// The most output lines the console keeps.
pub const MAX_OUTPUT_LINES: usize = 500;

/// The most history entries the console keeps.
pub const MAX_HISTORY_ENTRIES: usize = 100;

/// The last `n` entries of `s` (all of them when there are fewer).
pub open spec fn keep_last(s: Seq<Seq<char>>, n: nat) -> Seq<Seq<char>> {
    if s.len() > n {
        s.subrange(s.len() - n, s.len() as int)
    } else {
        s
    }
}

/// Appending to a bounded list and then bounding it again is bounding the
/// whole: the bound forgets nothing that a later bound would keep.
pub proof fn lemma_keep_last_push(s: Seq<Seq<char>>, x: Seq<char>, n: nat)
    ensures
        keep_last(keep_last(s, n).push(x), n) == keep_last(s.push(x), n),
{
    if s.len() > n {
        let k = keep_last(s, n);
        assert(k.len() == n);
        assert(keep_last(k.push(x), n) =~= keep_last(s.push(x), n));
    } else {
        assert(keep_last(s, n) == s);
    }
}

/// Bounding twice is bounding once.
pub proof fn lemma_keep_last_idempotent(s: Seq<Seq<char>>, n: nat)
    ensures
        keep_last(keep_last(s, n), n) == keep_last(s, n),
{
}

/// Appending lines to a bounded list and bounding again is bounding the
/// whole.
pub proof fn lemma_keep_last_concat(s: Seq<Seq<char>>, t: Seq<Seq<char>>, n: nat)
    ensures
        keep_last(keep_last(s, n) + t, n) == keep_last(s + t, n),
    decreases t.len(),
{
    if t.len() == 0 {
        assert(keep_last(s, n) + t =~= keep_last(s, n));
        assert(s + t =~= s);
        lemma_keep_last_idempotent(s, n);
    } else {
        let u = t.drop_last();
        let x = t.last();
        lemma_keep_last_concat(s, u, n);
        lemma_keep_last_push(keep_last(s, n) + u, x, n);
        lemma_keep_last_push(s + u, x, n);
        assert((keep_last(s, n) + u).push(x) =~= keep_last(s, n) + t);
        assert((s + u).push(x) =~= s + t);
    }
}

/// The console's command summary.
pub open spec fn help_text_spec() -> Seq<char> {
    "Commands: add <sender> <receiver> <amount> | mine | print | validate | help | quit"@
}

/// The line that echoes a command.
pub open spec fn echo_line(line: Seq<char>) -> Seq<char> {
    "> "@ + line
}

/// The output lines that report a receipt: its short hash, outcome and gas,
/// then one line per log, then its error if any.
pub open spec fn receipt_report(r: Receipt) -> Seq<Seq<char>> {
    seq![
        "Receipt "@ + short_text(r.tx_hash) + " success="@ + bool_text(r.success) + " gas="@
            + decimal_chars(r.gas_used as nat),
    ] + r.logs@.map_values(|l: String| "  log: "@ + l@) + match r.error {
        Some(e) => seq!["  error: "@ + e@],
        None => Seq::empty(),
    }
}

/// The reports of a list of receipts, in order.
pub open spec fn receipts_report(rs: Seq<Receipt>) -> Seq<Seq<char>>
    decreases rs.len(),
{
    if rs.len() == 0 {
        Seq::empty()
    } else {
        receipts_report(rs.drop_last()) + receipt_report(rs.last())
    }
}

/// The output lines that report a mined block: its nonce, then its receipts.
pub open spec fn mine_report(nonce: u64, rs: Seq<Receipt>) -> Seq<Seq<char>> {
    seq!["Mined block with nonce "@ + decimal_chars(nonce as nat) + "."@] + receipts_report(rs)
}

/// The nonce the console gives a queued transfer: the sender's next nonce,
/// or `u64::MAX` when that does not fit.
pub open spec fn queued_nonce(state: Map<Address, AccountView>, pending: Seq<TransactionView>, sender: Address) -> u64 {
    let e = expected_nonce(state, pending, sender);
    if e > u64::MAX {
        u64::MAX
    } else {
        e as u64
    }
}

/// The chain accepts a transaction costing `cost` from `sender`: its next
/// nonce fits, and its balance covers the cost with what its pending
/// transactions reserve.
pub open spec fn queue_accepted(
    state: Map<Address, AccountView>,
    pending: Seq<TransactionView>,
    sender: Address,
    cost: u64,
) -> bool {
    let reserved = sat_add(reserved_total(pending, sender), 0);
    &&& expected_nonce(state, pending, sender) <= u64::MAX
    &&& balance_of(state, sender) >= sat_add(reserved as nat, cost as nat)
}

/// The transaction the console queues for `sender`: the sender's next nonce
/// and timestamp 0.
pub open spec fn queued_tx(b: Blockchain, sender: Address, payload: PayloadView) -> TransactionView {
    TransactionView {
        sender,
        nonce: queued_nonce(b.state@, b.pending(), sender),
        payload,
        timestamp: 0,
    }
}

/// What queueing a transaction does: it adds the sender's transaction with
/// its next nonce to the pending ones and reports it, or fails with the
/// chain's error and changes nothing. `prior` is the output before the
/// report, `out` the output after it.
pub open spec fn queue_effect(
    b0: Blockchain,
    b1: Blockchain,
    sender: Address,
    payload: PayloadView,
    report: Seq<char>,
    result: Result<bool, ReplError>,
    prior: Seq<Seq<char>>,
    out: Seq<Seq<char>>,
) -> bool {
    let st = b0.state@;
    let p = b0.pending();
    &&& b1.chain == b0.chain
    &&& b1.state == b0.state
    &&& b1.receipts == b0.receipts
    &&& b1.difficulty == b0.difficulty
    &&& if queue_accepted(st, p, sender, tx_cost(payload)) {
        &&& result == Ok::<bool, ReplError>(false)
        &&& b1.pending() == p.push(queued_tx(b0, sender, payload))
        &&& out == keep_last(prior.push(report), MAX_OUTPUT_LINES as nat)
    } else {
        &&& (expected_nonce(st, p, sender) > u64::MAX ==> (result matches Err(
            ReplError::Blocky(BlockyError::InvalidNonce { .. }),
        )))
        &&& (expected_nonce(st, p, sender) <= u64::MAX ==> (result matches Err(
            ReplError::Blocky(BlockyError::InsufficientBalance { .. }),
        )))
        &&& b1.pending_transactions == b0.pending_transactions
        &&& out == keep_last(prior, MAX_OUTPUT_LINES as nat)
    }
}

/// The report of a queued call.
pub open spec fn call_report(sender: Seq<char>, contract: Address, method: Seq<char>) -> Seq<char> {
    "Call queued for "@ + short_text(contract) + "."@ + method + " from "@ + sender + "."@
}

/// The report of a queued deployment: the short address of the contract it
/// will create.
pub open spec fn deploy_report(sender: Seq<char>, contract: Address) -> Seq<char> {
    "Deploy queued for "@ + short_text(contract) + " from "@ + sender + "."@
}

/// The report of a balance.
pub open spec fn balance_report(b: Blockchain, address: Address) -> Seq<char> {
    "Balance of "@ + short_text(address) + ": "@ + decimal_chars(balance_of(b.state@, address) as nat)
}

/// What `mine` does: it mines the pending transactions into a new block,
/// applies them, and reports the block and its receipts; or fails with the
/// chain's error, leaving the state, the blocks and the pending
/// transactions as they were.
pub open spec fn mine_effect(
    b0: Blockchain,
    b1: Blockchain,
    result: Result<bool, ReplError>,
    prior: Seq<Seq<char>>,
    out: Seq<Seq<char>>,
) -> bool {
    &&& result is Err ==> {
        &&& result matches Err(ReplError::Blocky(e)) && mine_failed(b0, b1, e)
        &&& out == keep_last(prior, MAX_OUTPUT_LINES as nat)
    }
    &&& result is Ok ==> {
        let block: BlockView = b1.blocks().last();
        &&& result == Ok::<bool, ReplError>(false)
        &&& mined(b0, b1, block)
        &&& out == keep_last(
            prior + mine_report(block.nonce, b1.receipts@.last()@),
            MAX_OUTPUT_LINES as nat,
        )
    }
}

/// What `print` does: it shows the lines of the rendered chain, or fails
/// when a pending transaction cannot be hashed. The chain is unchanged.
pub open spec fn print_effect(
    b0: Blockchain,
    b1: Blockchain,
    result: Result<bool, ReplError>,
    prior: Seq<Seq<char>>,
    out: Seq<Seq<char>>,
) -> bool {
    let lists = receipt_lists(b0.receipts@);
    &&& b1 == b0
    &&& chain_renderable(b0.blocks(), lists) ==> {
        &&& result == Ok::<bool, ReplError>(false)
        &&& out == keep_last(
            prior + text_lines(chain_text(b0.blocks(), lists)),
            MAX_OUTPUT_LINES as nat,
        )
    }
    &&& !chain_renderable(b0.blocks(), lists) ==> {
        &&& result matches Err(ReplError::Blocky(BlockyError::HashSerialization(_)))
        &&& out == keep_last(prior, MAX_OUTPUT_LINES as nat)
    }
}

/// The line that reports whether a chain is valid.
pub open spec fn validate_line(b: Blockchain) -> Seq<char> {
    "Chain valid: "@ + bool_text(chain_valid(b.blocks(), b.difficulty))
}

/// The report lines of a mined block.
fn mine_report_lines(nonce: u64, receipts: &Vec<Receipt>) -> (lines: Vec<String>)
    ensures
        strings_view(lines@) == mine_report(nonce, receipts@),
{
    let mut lines: Vec<String> = Vec::new();
    let mut first = String::from_str("Mined block with nonce ");
    push_decimal_text(&mut first, nonce);
    first.append(".");
    lines.push(first);
    let ghost head = strings_view(lines@);
    let mut i: usize = 0;
    while i < receipts.len()
        invariant
            i <= receipts@.len(),
            head == seq!["Mined block with nonce "@ + decimal_chars(nonce as nat) + "."@],
            strings_view(lines@) == head + receipts_report(receipts@.take(i as int)),
        decreases receipts@.len() - i,
    {
        let r = &receipts[i];
        assert(receipts@.take(i + 1).drop_last() =~= receipts@.take(i as int));
        let ghost before = strings_view(lines@);
        let mut first = String::from_str("Receipt ");
        let short = short_hash(&r.tx_hash);
        first.append(short.as_str());
        first.append(" success=");
        push_bool_text(&mut first, r.success);
        first.append(" gas=");
        push_decimal_text(&mut first, r.gas_used);
        lines.push(first);
        let mut j: usize = 0;
        while j < r.logs.len()
            invariant
                j <= r.logs@.len(),
                strings_view(lines@) == before + seq![
                    "Receipt "@ + short_text(r.tx_hash) + " success="@ + bool_text(r.success)
                        + " gas="@ + decimal_chars(r.gas_used as nat),
                ] + r.logs@.take(j as int).map_values(|l: String| "  log: "@ + l@),
            decreases r.logs@.len() - j,
        {
            let ghost prev = strings_view(lines@);
            let line = concat_text("  log: ", r.logs[j].as_str());
            lines.push(line);
            assert(r.logs@.take(j + 1).map_values(|l: String| "  log: "@ + l@) =~= r.logs@.take(
                j as int,
            ).map_values(|l: String| "  log: "@ + l@).push("  log: "@ + r.logs@[j as int]@));
            assert(strings_view(lines@) =~= prev.push(line@));
            j = j + 1;
        }
        assert(r.logs@.take(r.logs@.len() as int) =~= r.logs@);
        match &r.error {
            Some(e) => {
                let ghost prev = strings_view(lines@);
                let line = concat_text("  error: ", e.as_str());
                lines.push(line);
                assert(strings_view(lines@) =~= prev.push(line@));
            },
            None => {},
        }
        assert(strings_view(lines@) =~= before + receipt_report(*r));
        i = i + 1;
    }
    assert(receipts@.take(receipts@.len() as int) =~= receipts@);
    lines
}


/// A text without its leading whitespace.
pub open spec fn trim_start_ws(s: Seq<char>) -> Seq<char>
    decreases s.len(),
{
    if s.len() > 0 && is_whitespace_char(s[0]) {
        trim_start_ws(s.drop_first())
    } else {
        s
    }
}

/// A text without its trailing whitespace.
pub open spec fn trim_end_ws(s: Seq<char>) -> Seq<char>
    decreases s.len(),
{
    if s.len() > 0 && is_whitespace_char(s.last()) {
        trim_end_ws(s.drop_last())
    } else {
        s
    }
}

/// A text without its leading and trailing whitespace.
pub open spec fn trim_ws(s: Seq<char>) -> Seq<char> {
    trim_end_ws(trim_start_ws(s))
}

/// Trusted: `str::trim`. Its documentation removes leading and trailing
/// characters with the Unicode `White_Space` property, which the contract
/// states.
#[verifier::external_body]
fn trim_text<'a>(text: &'a str) -> (trimmed: &'a str)
    ensures
        trimmed@ == trim_ws(text@),
{
    text.trim()
}

/// Trusted: `String::pop`, removing and returning the last character.
#[verifier::external_body]
fn pop_char(text: &mut String) -> (popped: Option<char>)
    ensures
        old(text)@.len() == 0 ==> popped is None && final(text)@ == old(text)@,
        old(text)@.len() > 0 ==> popped == Some(old(text)@.last()) && final(text)@ == old(
            text,
        )@.drop_last(),
{
    text.pop()
}

/// A key press the console reacts to.
#[derive(Debug, Clone, Copy, PartialEq, Eq)]
pub enum KeyInput {
    /// A character typed.
    Char(char),
    Backspace,
    Enter,
    Up,
    Down,
    PageUp,
    PageDown,
    Esc,
    /// Any other key.
    Other,
}

/// `a + b`, capped at `u16::MAX`.
pub open spec fn sat_add_u16(a: u16, b: u16) -> u16 {
    if a + b > u16::MAX {
        u16::MAX
    } else {
        (a + b) as u16
    }
}

/// `a - b`, floored at zero.
pub open spec fn sat_sub_u16(a: u16, b: u16) -> u16 {
    if a < b {
        0
    } else {
        (a - b) as u16
    }
}

/// The history entry that browsing back shows.
pub open spec fn older_index(index: Option<usize>, len: nat) -> int {
    match index {
        Some(i) => if i == 0 {
            0
        } else {
            i - 1
        },
        None => len - 1,
    }
}

/// The position that browsing forward moves to from `i`.
pub open spec fn newer_index(i: usize) -> int {
    if i == usize::MAX {
        i as int
    } else {
        i + 1
    }
}


/// The status panel: block count, pending count, difficulty, validity,
/// history size, and the balances of alice and bob.
pub open spec fn status_report(r: Repl) -> Seq<Seq<char>> {
    let st = r.blockchain.state@;
    seq![
        "Blocks: "@ + decimal_chars(r.blockchain.chain@.len()),
        "Pending: "@ + decimal_chars(r.blockchain.pending_transactions@.len()),
        "Difficulty: "@ + decimal_chars(r.blockchain.difficulty as nat),
        "Valid: "@ + bool_text(chain_valid(r.blockchain.blocks(), r.blockchain.difficulty)),
        "History: "@ + decimal_chars(r.history@.len()),
        "Alice: "@ + decimal_chars(balance_of(st, spec_address_from_name("alice"@)) as nat),
        "Bob: "@ + decimal_chars(balance_of(st, spec_address_from_name("bob"@)) as nat),
    ]
}

/// How the pending panel describes a transaction.
pub open spec fn pending_description(tx: TransactionView) -> Seq<char> {
    let s = short_text(tx.sender);
    match tx.payload {
        PayloadView::Transfer { receiver, amount } => s + " -> "@ + short_text(receiver) + ": "@
            + decimal_chars(amount as nat),
        PayloadView::Deploy { .. } => s + " deploy"@,
        PayloadView::Call { contract, method, deposit, .. } => s + " call "@ + short_text(contract)
            + "."@ + method + " ("@ + decimal_chars(deposit as nat) + ")"@,
    }
}

/// The pending panel: one description per pending transaction, or `(none)`.
pub open spec fn pending_report(pending: Seq<TransactionView>) -> Seq<Seq<char>> {
    if pending.len() == 0 {
        seq!["(none)"@]
    } else {
        pending.map_values(|tx: TransactionView| pending_description(tx))
    }
}

/// The key summary panel.
pub open spec fn help_report() -> Seq<Seq<char>> {
    seq![
        "Enter: run command"@,
        "Up/Down: scroll or history"@,
        "PgUp/PgDn: fast scroll"@,
        "Quotes: add \"alice a\" bob 4"@,
        "Esc: quit"@,
    ]
}

/// The message of the console error for a parse failure.
pub open spec fn failure_message(f: ParseFailure) -> Seq<char> {
    match f {
        ParseFailure::UnknownCommand(word) => "unknown command: "@ + word,
        ParseFailure::InvalidAddUsage => "usage: add <sender> <receiver> <amount>"@,
        ParseFailure::InvalidAmount(a) => "invalid amount: "@ + a,
        ParseFailure::UnterminatedQuote => "unterminated quoted string"@,
        ParseFailure::InvalidDeployUsage => "usage: deploy <sender> <path>"@,
        ParseFailure::InvalidCallUsage => "usage: call <sender> <addr> <method> [args|--hex <hex>|--json <json>]"@,
        ParseFailure::InvalidBalanceUsage => "usage: balance <addr>"@,
        ParseFailure::InvalidAddress(a) => "invalid address: "@ + a,
        ParseFailure::InvalidHex(h) => "invalid hex: "@ + h,
        ParseFailure::InvalidJson(j) => "invalid json: "@ + j,
    }
}

/// What running an entered line shows, for the lines that cannot fail once
/// parsed, and for those that do not parse: the echo, then the report or the
/// error line; the chain is unchanged.
pub open spec fn enter_report(
    b0: Blockchain,
    b1: Blockchain,
    line: Seq<char>,
    before: Seq<Seq<char>>,
    out: Seq<Seq<char>>,
) -> bool {
    let prior = before.push(echo_line(line));
    let n = MAX_OUTPUT_LINES as nat;
    match spec_parse_command(line) {
        Err(f) => b1 == b0 && out == keep_last(prior.push("Error: "@ + failure_message(f)), n),
        Ok(CommandView::Quit) => b1 == b0 && out == keep_last(prior, n),
        Ok(CommandView::Help) => b1 == b0 && out == keep_last(prior.push(help_text_spec()), n),
        Ok(CommandView::Validate) => b1 == b0 && out == keep_last(prior.push(validate_line(b0)), n),
        Ok(CommandView::Balance { address }) => b1 == b0 && out == keep_last(
            prior.push(balance_report(b0, address)),
            n,
        ),
        Ok(CommandView::Deploy { .. }) => b1 == b0 && out == keep_last(prior, n),
        _ => true,
    }
}

/// The interactive console: the chain it drives, the line being typed, the
/// output it shows, how far the output is scrolled, and the command history
/// with the position being browsed.
pub struct Repl {
    /// The chain the commands act on.
    pub blockchain: Blockchain,
    /// The line being typed.
    pub input: String,
    /// The output lines, oldest first.
    pub output: Vec<String>,
    /// How many lines the output is scrolled back.
    pub scroll_offset: u16,
    /// The commands entered, oldest first.
    pub history: Vec<String>,
    /// The history entry being browsed, if any.
    pub history_index: Option<usize>,
    /// A deployment waiting for its code: the sender's name and the path of
    /// the code file.
    pub code_request: Option<(String, String)>,
}

impl Repl {
    /// The output lines as texts.
    pub open spec fn output_lines(&self) -> Seq<Seq<char>> {
        strings_view(self.output@)
    }

    /// The history entries as texts.
    pub open spec fn history_lines(&self) -> Seq<Seq<char>> {
        strings_view(self.history@)
    }

    /// The bounds the console keeps: at most `MAX_OUTPUT_LINES` output lines,
    /// at most `MAX_HISTORY_ENTRIES` history entries, and a browsed position
    /// inside the history.
    pub open spec fn wf(&self) -> bool {
        &&& self.output@.len() <= MAX_OUTPUT_LINES
        &&& self.history@.len() <= MAX_HISTORY_ENTRIES
        &&& (self.history_index matches Some(i) ==> i < self.history@.len())
    }

    /// The console's command summary.
    pub fn help_text() -> (text: &'static str)
        ensures
            text@ == help_text_spec(),
    {
        "Commands: add <sender> <receiver> <amount> | mine | print | validate | help | quit"
    }

    /// Creates a console on a new chain of the given difficulty, greeting the
    /// user with the command summary.
    pub fn try_new(difficulty: u32) -> (repl: Result<Self, ReplError>)
        ensures
            repl matches Ok(r) ==> {
                &&& r.wf()
                &&& r.blockchain.chain@.len() == 1
                &&& chain_valid(r.blockchain.blocks(), difficulty)
                &&& r.blockchain.pending_transactions@.len() == 0
                &&& r.blockchain.difficulty == difficulty
                &&& r.blockchain.state@ == Map::<Address, AccountView>::empty()
                &&& r.blockchain.receipts@.len() == 0
                &&& r.input@.len() == 0
                &&& r.output_lines() == seq!["Welcome to Blocky REPL"@, help_text_spec()]
                &&& r.scroll_offset == 0
                &&& r.history@.len() == 0
                &&& r.history_index is None
                &&& r.code_request is None
            },
            repl is Err ==> repl matches Err(ReplError::Blocky(_)),
    {
        let blockchain = match Blockchain::try_new(difficulty) {
            Ok(blockchain) => blockchain,
            Err(error) => return Err(ReplError::Blocky(error)),
        };
        let mut output: Vec<String> = Vec::new();
        output.push(String::from_str("Welcome to Blocky REPL"));
        output.push(String::from_str(Self::help_text()));
        let repl = Repl {
            blockchain,
            input: String::new(),
            output,
            scroll_offset: 0,
            history: Vec::new(),
            history_index: None,
            code_request: None,
        };
        assert(repl.output_lines() =~= seq!["Welcome to Blocky REPL"@, help_text_spec()]);
        Ok(repl)
    }

    /// Cuts the output and the history to their bounds, keeping the newest
    /// entries, and drops a history position past the history's end. A
    /// console within its bounds is left as it is.
    fn restore_bounds(&mut self)
        ensures
            final(self).wf(),
            old(self).wf() ==> *final(self) == *old(self),
            final(self).blockchain == old(self).blockchain,
            final(self).input == old(self).input,
            final(self).code_request == old(self).code_request,
            final(self).scroll_offset == old(self).scroll_offset,
    {
        if self.output.len() > MAX_OUTPUT_LINES {
            let excess = self.output.len() - MAX_OUTPUT_LINES;
            let kept = self.output.split_off(excess);
            self.output = kept;
        }
        if self.history.len() > MAX_HISTORY_ENTRIES {
            let excess = self.history.len() - MAX_HISTORY_ENTRIES;
            let kept = self.history.split_off(excess);
            self.history = kept;
        }
        match self.history_index {
            Some(i) => {
                if i >= self.history.len() {
                    self.history_index = None;
                }
            },
            None => {},
        }
    }

    /// Appends an output line, keeping the last `MAX_OUTPUT_LINES`, and
    /// scrolls back to the newest line.
    fn push_output(&mut self, line: String)
        ensures
            final(self).output_lines() == keep_last(old(self).output_lines().push(line@), MAX_OUTPUT_LINES as nat),
            final(self).output@.len() <= MAX_OUTPUT_LINES,
            final(self).scroll_offset == 0,
            final(self).blockchain == old(self).blockchain,
            final(self).input == old(self).input,
            final(self).history == old(self).history,
            final(self).history_index == old(self).history_index,
            final(self).code_request == old(self).code_request,
    {
        let ghost full = old(self).output_lines().push(line@);
        let ghost lv = line@;
        self.output.push(line);
        assert(self.output_lines() =~= full);
        if self.output.len() > MAX_OUTPUT_LINES {
            let excess = self.output.len() - MAX_OUTPUT_LINES;
            let ghost before = self.output@;
            let kept = self.output.split_off(excess);
            self.output = kept;
            assert(self.output_lines() =~= full.subrange(excess as int, full.len() as int));
        }
        self.scroll_offset = 0;
    }

    /// Appends output lines in order, keeping the last `MAX_OUTPUT_LINES`.
    fn push_lines(&mut self, lines: Vec<String>)
        ensures
            lines@.len() > 0 ==> final(self).output_lines() == keep_last(
                old(self).output_lines() + strings_view(lines@),
                MAX_OUTPUT_LINES as nat,
            ),
            lines@.len() > 0 ==> final(self).scroll_offset == 0,
            lines@.len() > 0 ==> final(self).output@.len() <= MAX_OUTPUT_LINES,
            lines@.len() == 0 ==> final(self).output == old(self).output,
            lines@.len() == 0 ==> final(self).scroll_offset == old(self).scroll_offset,
            final(self).blockchain == old(self).blockchain,
            final(self).input == old(self).input,
            final(self).history == old(self).history,
            final(self).history_index == old(self).history_index,
            final(self).code_request == old(self).code_request,
    {
        let ghost start = old(self).output_lines();
        let ghost all = strings_view(lines@);
        let ghost n = MAX_OUTPUT_LINES as nat;
        let mut i: usize = 0;
        while i < lines.len()
            invariant
                i <= lines@.len(),
                all == strings_view(lines@),
                start == old(self).output_lines(),
                n == MAX_OUTPUT_LINES as nat,
                i == 0 ==> self.output == old(self).output,
                i == 0 ==> self.scroll_offset == old(self).scroll_offset,
                i > 0 ==> self.output_lines() == keep_last(start + all.take(i as int), n),
                i > 0 ==> self.scroll_offset == 0,
                i > 0 ==> self.output@.len() <= MAX_OUTPUT_LINES,
                self.blockchain == old(self).blockchain,
                self.input == old(self).input,
                self.history == old(self).history,
                self.history_index == old(self).history_index,
                self.code_request == old(self).code_request,
            decreases lines@.len() - i,
        {
            let line = lines[i].clone();
            let ghost before = self.output_lines();
            proof {
                assert(all[i as int] == line@);
                if i > 0 {
                    lemma_keep_last_push(start + all.take(i as int), line@, n);
                } else {
                    assert(start + all.take(0) =~= start);
                }
                assert((start + all.take(i as int)).push(line@) =~= start + all.take(i + 1));
            }
            self.push_output(line);
            i = i + 1;
        }
        assert(all.take(all.len() as int) =~= all);
    }

    /// Records an entered line in the history, unless it repeats the newest
    /// entry, keeping the last `MAX_HISTORY_ENTRIES`.
    fn record_history(&mut self, line: String)
        ensures
            old(self).history@.len() > 0 && old(self).history_lines().last() == line@ ==> final(self).history
                == old(self).history,
            !(old(self).history@.len() > 0 && old(self).history_lines().last() == line@)
                ==> final(self).history_lines() == keep_last(
                old(self).history_lines().push(line@),
                MAX_HISTORY_ENTRIES as nat,
            ),
            final(self).history@.len() <= MAX_HISTORY_ENTRIES || final(self).history == old(self).history,
            final(self).blockchain == old(self).blockchain,
            final(self).input == old(self).input,
            final(self).output == old(self).output,
            final(self).scroll_offset == old(self).scroll_offset,
            final(self).history_index == old(self).history_index,
            final(self).code_request == old(self).code_request,
    {
        let n = self.history.len();
        if n > 0 {
            assert(self.history_lines().last() == self.history@[n - 1]@);
            if self.history[n - 1] == line {
                return;
            }
        }
        let ghost full = old(self).history_lines().push(line@);
        self.history.push(line);
        assert(self.history_lines() =~= full);
        if self.history.len() > MAX_HISTORY_ENTRIES {
            let excess = self.history.len() - MAX_HISTORY_ENTRIES;
            let kept = self.history.split_off(excess);
            self.history = kept;
            assert(self.history_lines() =~= full.subrange(excess as int, full.len() as int));
        }
    }

    /// Shows the previous history entry: the one before the entry being
    /// browsed, or the newest when none is. Nothing happens on an empty
    /// history.
    pub fn navigate_history_older(&mut self)
        requires
            old(self).history_index matches Some(i) ==> i <= old(self).history@.len(),
        ensures
            old(self).history@.len() == 0 ==> *final(self) == *old(self),
            old(self).history@.len() > 0 ==> {
                let k: int = match old(self).history_index {
                    Some(i) => if i == 0 {
                        0
                    } else {
                        i - 1
                    },
                    None => old(self).history@.len() - 1,
                };
                &&& final(self).history_index == Some(k as usize)
                &&& final(self).input@ == old(self).history_lines()[k]
            },
            final(self).blockchain == old(self).blockchain,
            final(self).output == old(self).output,
            final(self).scroll_offset == old(self).scroll_offset,
            final(self).history == old(self).history,
            final(self).code_request == old(self).code_request,
    {
        if self.history.len() == 0 {
            return;
        }
        let next_index: usize = match self.history_index {
            Some(index) => index.saturating_sub(1),
            None => self.history.len() - 1,
        };
        self.history_index = Some(next_index);
        self.input = self.history[next_index].clone();
    }

    /// Shows the next history entry after the one being browsed; past the
    /// newest, stops browsing and clears the input. Nothing happens when no
    /// entry is being browsed.
    pub fn navigate_history_newer(&mut self)
        ensures
            old(self).history_index is None ==> *final(self) == *old(self),
            old(self).history_index matches Some(i) ==> {
                let next: int = if i == usize::MAX {
                    i as int
                } else {
                    i + 1
                };
                &&& next >= old(self).history@.len() ==> final(self).history_index is None
                    && final(self).input@.len() == 0
                &&& next < old(self).history@.len() ==> final(self).history_index == Some(
                    next as usize,
                ) && final(self).input@ == old(self).history_lines()[next]
            },
            final(self).blockchain == old(self).blockchain,
            final(self).output == old(self).output,
            final(self).scroll_offset == old(self).scroll_offset,
            final(self).history == old(self).history,
            final(self).code_request == old(self).code_request,
    {
        let current_index = match self.history_index {
            Some(index) => index,
            None => return,
        };
        let next_index = current_index.saturating_add(1);
        if next_index >= self.history.len() {
            self.history_index = None;
            self.input = String::new();
            return;
        }
        self.history_index = Some(next_index);
        self.input = self.history[next_index].clone();
    }

    /// The nonce the sender's next queued transaction carries: its account
    /// nonce plus its pending transactions (at most `u64::MAX`).
    fn next_nonce(&self, sender: &Address) -> (nonce: u64)
        ensures
            nonce == queued_nonce(self.blockchain.state@, self.blockchain.pending(), *sender),
    {
        let (count, _reserved) = self.blockchain.pending_of(sender);
        self.blockchain.state.get_nonce(sender).saturating_add(count)
    }

    /// Queues a transaction and, when the chain accepts it, reports it.
    fn exec_queue(&mut self, tx: Transaction, report: String) -> (result: Result<bool, ReplError>)
        requires
            old(self).output@.len() <= MAX_OUTPUT_LINES,
            tx.nonce == queued_nonce(old(self).blockchain.state@, old(self).blockchain.pending(), tx.sender),
            tx.timestamp == 0,
        ensures
            queue_effect(
                old(self).blockchain,
                final(self).blockchain,
                tx.sender,
                tx.payload@,
                report@,
                result,
                old(self).output_lines(),
                final(self).output_lines(),
            ),
            result is Ok ==> final(self).scroll_offset == 0,
            final(self).scroll_offset == 0 || final(self).scroll_offset == old(self).scroll_offset,
            final(self).output@.len() <= MAX_OUTPUT_LINES,
            final(self).input == old(self).input,
            final(self).history == old(self).history,
            final(self).history_index == old(self).history_index,
            final(self).code_request == old(self).code_request,
    {
        let ghost tv = tx@;
        match self.blockchain.add_transaction(tx) {
            Ok(()) => {},
            Err(error) => return Err(ReplError::Blocky(error)),
        }
        assert(self.blockchain.pending() =~= old(self).blockchain.pending().push(tv));
        self.push_output(report);
        Ok(false)
    }

    /// Reports the balance of an address.
    fn exec_balance(&mut self, address: &Address)
        ensures
            final(self).blockchain == old(self).blockchain,
            final(self).output_lines() == keep_last(
                old(self).output_lines().push(balance_report(old(self).blockchain, *address)),
                MAX_OUTPUT_LINES as nat,
            ),
            final(self).output@.len() <= MAX_OUTPUT_LINES,
            final(self).scroll_offset == 0,
            final(self).input == old(self).input,
            final(self).history == old(self).history,
            final(self).history_index == old(self).history_index,
            final(self).code_request == old(self).code_request,
    {
        let mut text = String::from_str("Balance of ");
        let short = short_address(address);
        text.append(short.as_str());
        text.append(": ");
        push_decimal_text(&mut text, self.blockchain.state.get_balance(address));
        self.push_output(text);
    }

    /// Mines the pending transactions and reports the block and its receipts.
    fn exec_mine(&mut self) -> (result: Result<bool, ReplError>)
        requires
            old(self).output@.len() <= MAX_OUTPUT_LINES,
        ensures
            mine_effect(
                old(self).blockchain,
                final(self).blockchain,
                result,
                old(self).output_lines(),
                final(self).output_lines(),
            ),
            final(self).scroll_offset == 0 || final(self).scroll_offset == old(self).scroll_offset,
            final(self).output@.len() <= MAX_OUTPUT_LINES,
            final(self).input == old(self).input,
            final(self).history == old(self).history,
            final(self).history_index == old(self).history_index,
            final(self).code_request == old(self).code_request,
    {
        let block = match self.blockchain.mine_pending() {
            Ok(block) => block,
            Err(error) => return Err(ReplError::Blocky(error)),
        };
        assert(self.blockchain.blocks().last() == block@);
        let k = self.blockchain.receipts.len() - 1;
        let report = mine_report_lines(block.nonce, &self.blockchain.receipts[k]);
        self.push_lines(report);
        Ok(false)
    }

    /// Shows the rendered chain, line by line.
    fn exec_print(&mut self) -> (result: Result<bool, ReplError>)
        requires
            old(self).output@.len() <= MAX_OUTPUT_LINES,
        ensures
            print_effect(
                old(self).blockchain,
                final(self).blockchain,
                result,
                old(self).output_lines(),
                final(self).output_lines(),
            ),
            final(self).scroll_offset == 0 || final(self).scroll_offset == old(self).scroll_offset,
            final(self).output@.len() <= MAX_OUTPUT_LINES,
            final(self).input == old(self).input,
            final(self).history == old(self).history,
            final(self).history_index == old(self).history_index,
            final(self).code_request == old(self).code_request,
    {
        let text = match render_chain(&self.blockchain) {
            Ok(text) => text,
            Err(error) => return Err(ReplError::Blocky(error)),
        };
        let lines = split_lines(text.as_str());
        let ghost prior = self.output_lines();
        self.push_lines(lines);
        assert(prior + Seq::<Seq<char>>::empty() =~= prior);
        Ok(false)
    }

    /// Reports whether the chain is valid.
    fn exec_validate(&mut self) -> (result: Result<bool, ReplError>)
        ensures
            result == Ok::<bool, ReplError>(false),
            final(self).blockchain == old(self).blockchain,
            final(self).output_lines() == keep_last(
                old(self).output_lines().push(validate_line(old(self).blockchain)),
                MAX_OUTPUT_LINES as nat,
            ),
            final(self).scroll_offset == 0,
            final(self).output@.len() <= MAX_OUTPUT_LINES,
            final(self).input == old(self).input,
            final(self).history == old(self).history,
            final(self).history_index == old(self).history_index,
            final(self).code_request == old(self).code_request,
    {
        let valid = match self.blockchain.is_valid() {
            Ok(valid) => valid,
            Err(error) => return Err(ReplError::Blocky(error)),
        };
        let mut text = String::from_str("Chain valid: ");
        push_bool_text(&mut text, valid);
        self.push_output(text);
        Ok(false)
    }

    /// Runs one console line: echoes it, parses it, and carries out the
    /// command. Returns whether the console should quit. A deployment only
    /// records which code file it needs; `finish_deploy` queues it once the
    /// code is read.
    pub fn execute_line(&mut self, line: &str) -> (result: Result<bool, ReplError>)
        ensures
            final(self).output@.len() <= MAX_OUTPUT_LINES,
            final(self).input == old(self).input,
            final(self).history == old(self).history,
            final(self).history_index == old(self).history_index,
            final(self).scroll_offset == 0,
            !(spec_parse_command(line@) matches Ok(CommandView::Deploy { .. }))
                ==> final(self).code_request == old(self).code_request,
            ({
                let prior = old(self).output_lines().push(echo_line(line@));
                let n = MAX_OUTPUT_LINES as nat;
                let b0 = old(self).blockchain;
                let b1 = final(self).blockchain;
                let out = final(self).output_lines();
                match spec_parse_command(line@) {
                    Err(f) => {
                        &&& result matches Err(e)
                        &&& is_parse_failure(e, f)
                        &&& b1 == b0
                        &&& out == keep_last(prior, n)
                    },
                    Ok(CommandView::Quit) => {
                        &&& result == Ok::<bool, ReplError>(true)
                        &&& b1 == b0
                        &&& out == keep_last(prior, n)
                    },
                    Ok(CommandView::Help) => {
                        &&& result == Ok::<bool, ReplError>(false)
                        &&& b1 == b0
                        &&& out == keep_last(prior.push(help_text_spec()), n)
                    },
                    Ok(CommandView::Validate) => {
                        &&& result == Ok::<bool, ReplError>(false)
                        &&& b1 == b0
                        &&& out == keep_last(prior.push(validate_line(b0)), n)
                    },
                    Ok(CommandView::Balance { address }) => {
                        &&& result == Ok::<bool, ReplError>(false)
                        &&& b1 == b0
                        &&& out == keep_last(prior.push(balance_report(b0, address)), n)
                    },
                    Ok(CommandView::Deploy { sender, path }) => {
                        &&& result == Ok::<bool, ReplError>(false)
                        &&& b1 == b0
                        &&& out == keep_last(prior, n)
                        &&& final(self).code_request matches Some(request) && request.0@ == sender
                            && request.1@ == path
                    },
                    Ok(CommandView::Print) => print_effect(b0, b1, result, prior, out),
                    Ok(CommandView::Mine) => mine_effect(b0, b1, result, prior, out),
                    Ok(CommandView::Add { sender, receiver, amount }) => queue_effect(
                        b0,
                        b1,
                        spec_address_from_name(sender),
                        PayloadView::Transfer { receiver: spec_address_from_name(receiver), amount },
                        "Transaction queued."@,
                        result,
                        prior,
                        out,
                    ),
                    Ok(CommandView::Call { sender, contract, method, args }) => queue_effect(
                        b0,
                        b1,
                        spec_address_from_name(sender),
                        PayloadView::Call { contract, method, args, deposit: 0 },
                        call_report(sender, contract, method),
                        result,
                        prior,
                        out,
                    ),
                }
            }),
    {
        let ghost prior = old(self).output_lines().push(echo_line(line@));
        let ghost n = MAX_OUTPUT_LINES as nat;
        let echo = concat_text("> ", line);
        self.push_output(echo);
        let ghost echoed = self.output_lines();
        assert(echoed == keep_last(prior, n));
        proof {
            lemma_keep_last_idempotent(prior, n);
        }
        let command = match parse_command(line) {
            Ok(command) => command,
            Err(error) => return Err(error),
        };
        match command {
            ReplCommand::Add { sender, receiver, amount } => {
                let sender_address = address_from_name(sender.as_str());
                let receiver_address = address_from_name(receiver.as_str());
                let nonce = self.next_nonce(&sender_address);
                let tx = Transaction::new_transfer(sender_address, nonce, receiver_address, amount);
                let result = self.exec_queue(tx, String::from_str("Transaction queued."));
                proof {
                    lemma_keep_last_push(prior, "Transaction queued."@, n);
                }
                result
            },
            ReplCommand::Call { sender, contract, method, args } => {
                let sender_address = address_from_name(sender.as_str());
                let nonce = self.next_nonce(&sender_address);
                let mut report = String::from_str("Call queued for ");
                let short = short_address(&contract);
                report.append(short.as_str());
                report.append(".");
                report.append(method.as_str());
                report.append(" from ");
                report.append(sender.as_str());
                report.append(".");
                let ghost report_text = report@;
                assert(report_text == call_report(sender@, contract, method@));
                let tx = Transaction::new_call(sender_address, nonce, contract, method.as_str(), args, 0);
                let result = self.exec_queue(tx, report);
                proof {
                    lemma_keep_last_push(prior, report_text, n);
                }
                result
            },
            ReplCommand::Deploy { sender, path } => {
                self.code_request = Some((sender, path));
                Ok(false)
            },
            ReplCommand::Balance { address } => {
                self.exec_balance(&address);
                proof {
                    lemma_keep_last_push(prior, balance_report(old(self).blockchain, address), n);
                }
                Ok(false)
            },
            ReplCommand::Mine => {
                let result = self.exec_mine();
                proof {
                    if result is Ok {
                        let report = mine_report(
                            self.blockchain.blocks().last().nonce,
                            self.blockchain.receipts@.last()@,
                        );
                        lemma_keep_last_concat(prior, report, n);
                    }
                }
                result
            },
            ReplCommand::Print => {
                let result = self.exec_print();
                proof {
                    let lists = receipt_lists(old(self).blockchain.receipts@);
                    let report = text_lines(chain_text(old(self).blockchain.blocks(), lists));
                    lemma_keep_last_concat(prior, report, n);
                }
                result
            },
            ReplCommand::Validate => {
                let result = self.exec_validate();
                proof {
                    let v = validate_line(old(self).blockchain);
                    lemma_keep_last_push(prior, v, n);
                }
                result
            },
            ReplCommand::Help => {
                self.push_output(String::from_str(Self::help_text()));
                proof {
                    lemma_keep_last_push(prior, help_text_spec(), n);
                }
                Ok(false)
            },
            ReplCommand::Quit => Ok(true),
        }
    }

    /// Queues the deployment that a `deploy` command asked for, once its code
    /// file has been read: by `sender`'s account, with its next nonce, and
    /// reports the address of the contract it will create. A failed read or a
    /// rejected transaction is reported as an error line instead. A console
    /// beyond its output or history bounds is first cut back to them.
    pub fn finish_deploy(&mut self, sender: &str, path: &str, code: Result<Vec<u8>, std::io::Error>)
        ensures
            final(self).wf(),
            old(self).wf() ==> {
                &&& final(self).input == old(self).input
                &&& final(self).history == old(self).history
                &&& final(self).history_index == old(self).history_index
                &&& final(self).code_request == old(self).code_request
                &&& final(self).scroll_offset == 0
                &&& final(self).output_lines().len() > 0
                &&& code is Err ==> {
                    &&& final(self).blockchain == old(self).blockchain
                    &&& final(self).output_lines() == keep_last(
                        old(self).output_lines().push(final(self).output_lines().last()),
                        MAX_OUTPUT_LINES as nat,
                    )
                    &&& final(self).output_lines().last().take(21) == "Error: failed to read"@
                }
                &&& code matches Ok(bytes) ==> {
                    let s = spec_address_from_name(sender@);
                    let b0 = old(self).blockchain;
                    let payload = PayloadView::Deploy { code: bytes@ };
                    let contract = crate::transaction::spec_contract_address(
                        s,
                        queued_nonce(b0.state@, b0.pending(), s),
                    );
                    if queue_accepted(b0.state@, b0.pending(), s, tx_cost(payload)) {
                        queue_effect(
                            b0,
                            final(self).blockchain,
                            s,
                            payload,
                            deploy_report(sender@, contract),
                            Ok(false),
                            old(self).output_lines(),
                            final(self).output_lines(),
                        )
                    } else {
                        &&& final(self).blockchain.pending_transactions == b0.pending_transactions
                        &&& final(self).blockchain.state == b0.state
                        &&& final(self).blockchain.chain == b0.chain
                        &&& final(self).output_lines() == keep_last(
                            old(self).output_lines().push(final(self).output_lines().last()),
                            MAX_OUTPUT_LINES as nat,
                        )
                        &&& final(self).output_lines().last().take(7) == "Error: "@
                    }
                }
            },
    {
        self.restore_bounds();
        let bytes = match code {
            Ok(bytes) => bytes,
            Err(error) => {
                let detail = io_error_text(&error);
                let mut text = String::from_str("Error: failed to read ");
                text.append(path);
                text.append(": ");
                text.append(detail.as_str());
                let ghost line = text@;
                proof {
                    reveal_strlit("Error: failed to read ");
                    reveal_strlit("Error: failed to read");
                    assert(line.take(21) =~= "Error: failed to read"@);
                }
                self.push_output(text);
                return;
            },
        };
        let sender_address = address_from_name(sender);
        let nonce = self.next_nonce(&sender_address);
        let tx = Transaction::new_deploy(sender_address, nonce, bytes);
        let contract = tx.derived_contract_address();
        let mut report = String::from_str("Deploy queued for ");
        let short = short_address(&contract);
        report.append(short.as_str());
        report.append(" from ");
        report.append(sender);
        report.append(".");
        match self.exec_queue(tx, report) {
            Ok(_) => {},
            Err(error) => {
                let message = error.message();
                let text = concat_text("Error: ", message.as_str());
                let ghost line = text@;
                proof {
                    reveal_strlit("Error: ");
                    assert(line.take(7) =~= "Error: "@);
                }
                self.push_output(text);
            },
        }
    }

    /// Reacts to one key press: typing edits the input, Enter runs the
    /// trimmed input (recording it in the history, and showing any error),
    /// Up and Down scroll the output when the input is empty and browse the
    /// history otherwise, Page Up and Page Down scroll by ten lines, and Esc
    /// quits. Returns whether the console should quit. A console beyond its
    /// output or history bounds is first cut back to them.
    pub fn handle_key(&mut self, key: KeyInput) -> (quit: bool)
        ensures
            final(self).wf(),
            old(self).wf() ==> (match key {
                KeyInput::Char(c) => {
                    &&& !quit
                    &&& final(self).input@ == old(self).input@.push(c)
                    &&& final(self).history_index is None
                    &&& final(self).blockchain == old(self).blockchain
                    &&& final(self).output == old(self).output
                    &&& final(self).history == old(self).history
                    &&& final(self).scroll_offset == old(self).scroll_offset
                },
                KeyInput::Backspace => {
                    &&& !quit
                    &&& final(self).input@ == (if old(self).input@.len() > 0 {
                        old(self).input@.drop_last()
                    } else {
                        old(self).input@
                    })
                    &&& final(self).history_index is None
                    &&& final(self).blockchain == old(self).blockchain
                    &&& final(self).output == old(self).output
                    &&& final(self).history == old(self).history
                    &&& final(self).scroll_offset == old(self).scroll_offset
                },
                KeyInput::Enter => {
                    let line = trim_ws(old(self).input@);
                    &&& final(self).input@.len() == 0
                    &&& final(self).history_index is None
                    &&& line.len() == 0 ==> {
                        &&& !quit
                        &&& final(self).blockchain == old(self).blockchain
                        &&& final(self).output == old(self).output
                        &&& final(self).history == old(self).history
                        &&& final(self).scroll_offset == old(self).scroll_offset
                    }
                    &&& line.len() > 0 ==> {
                        &&& quit == (spec_parse_command(line) == Ok::<CommandView, ParseFailure>(
                            CommandView::Quit,
                        ))
                        &&& old(self).history@.len() > 0 && old(self).history_lines().last() == line
                            ==> final(self).history == old(self).history
                        &&& !(old(self).history@.len() > 0 && old(self).history_lines().last() == line)
                            ==> final(self).history_lines() == keep_last(
                            old(self).history_lines().push(line),
                            MAX_HISTORY_ENTRIES as nat,
                        )
                        &&& final(self).scroll_offset == 0
                        &&& enter_report(
                            old(self).blockchain,
                            final(self).blockchain,
                            line,
                            old(self).output_lines(),
                            final(self).output_lines(),
                        )
                    }
                },
                KeyInput::Up => {
                    &&& !quit
                    &&& final(self).blockchain == old(self).blockchain
                    &&& final(self).output == old(self).output
                    &&& final(self).history == old(self).history
                    &&& old(self).input@.len() == 0 ==> {
                        &&& final(self).scroll_offset == sat_add_u16(old(self).scroll_offset, 1)
                        &&& final(self).input == old(self).input
                        &&& final(self).history_index == old(self).history_index
                    }
                    &&& old(self).input@.len() > 0 ==> {
                        &&& final(self).scroll_offset == old(self).scroll_offset
                        &&& old(self).history@.len() == 0 ==> final(self).input == old(self).input
                            && final(self).history_index == old(self).history_index
                        &&& old(self).history@.len() > 0 ==> {
                            let k = older_index(old(self).history_index, old(self).history@.len());
                            &&& final(self).history_index == Some(k as usize)
                            &&& final(self).input@ == old(self).history_lines()[k]
                        }
                    }
                },
                KeyInput::Down => {
                    &&& !quit
                    &&& final(self).blockchain == old(self).blockchain
                    &&& final(self).output == old(self).output
                    &&& final(self).history == old(self).history
                    &&& old(self).input@.len() == 0 ==> {
                        &&& final(self).scroll_offset == sat_sub_u16(old(self).scroll_offset, 1)
                        &&& final(self).input == old(self).input
                        &&& final(self).history_index == old(self).history_index
                    }
                    &&& old(self).input@.len() > 0 ==> {
                        &&& final(self).scroll_offset == old(self).scroll_offset
                        &&& old(self).history_index is None ==> final(self).input == old(self).input
                            && final(self).history_index is None
                        &&& old(self).history_index matches Some(i) ==> {
                            let next = newer_index(i);
                            &&& next >= old(self).history@.len() ==> final(self).history_index is None
                                && final(self).input@.len() == 0
                            &&& next < old(self).history@.len() ==> final(self).history_index == Some(
                                next as usize,
                            ) && final(self).input@ == old(self).history_lines()[next]
                        }
                    }
                },
                KeyInput::PageUp => {
                    &&& !quit
                    &&& final(self).scroll_offset == sat_add_u16(old(self).scroll_offset, 10)
                    &&& final(self).blockchain == old(self).blockchain
                    &&& final(self).input == old(self).input
                    &&& final(self).output == old(self).output
                    &&& final(self).history == old(self).history
                    &&& final(self).history_index == old(self).history_index
                },
                KeyInput::PageDown => {
                    &&& !quit
                    &&& final(self).scroll_offset == sat_sub_u16(old(self).scroll_offset, 10)
                    &&& final(self).blockchain == old(self).blockchain
                    &&& final(self).input == old(self).input
                    &&& final(self).output == old(self).output
                    &&& final(self).history == old(self).history
                    &&& final(self).history_index == old(self).history_index
                },
                KeyInput::Esc => quit && *final(self) == *old(self),
                KeyInput::Other => !quit && *final(self) == *old(self),
            }),
    {
        self.restore_bounds();
        match key {
            KeyInput::Char(c) => {
                push_char(&mut self.input, c);
                self.history_index = None;
                false
            },
            KeyInput::Backspace => {
                let _ = pop_char(&mut self.input);
                self.history_index = None;
                false
            },
            KeyInput::Enter => {
                let line = String::from_str(trim_text(self.input.as_str()));
                self.input = String::new();
                self.history_index = None;
                if line.as_str().unicode_len() == 0 {
                    return false;
                }
                self.record_history(line.clone());
                let ghost before = self.output_lines();
                let ghost prior = before.push(echo_line(line@));
                match self.execute_line(line.as_str()) {
                    Ok(quit) => quit,
                    Err(error) => {
                        let message = error.message();
                        let text = concat_text("Error: ", message.as_str());
                        proof {
                            lemma_keep_last_push(prior, text@, MAX_OUTPUT_LINES as nat);
                        }
                        self.push_output(text);
                        false
                    },
                }
            },
            KeyInput::Up => {
                if self.input.as_str().unicode_len() == 0 {
                    self.scroll_offset = self.scroll_offset.saturating_add(1);
                } else {
                    self.navigate_history_older();
                }
                false
            },
            KeyInput::Down => {
                if self.input.as_str().unicode_len() == 0 {
                    self.scroll_offset = self.scroll_offset.saturating_sub(1);
                } else {
                    self.navigate_history_newer();
                }
                false
            },
            KeyInput::PageUp => {
                self.scroll_offset = self.scroll_offset.saturating_add(10);
                false
            },
            KeyInput::PageDown => {
                self.scroll_offset = self.scroll_offset.saturating_sub(10);
                false
            },
            KeyInput::Esc => true,
            KeyInput::Other => false,
        }
    }

    /// The lines of the status panel.
    pub fn status_lines(&self) -> (lines: Vec<String>)
        ensures
            strings_view(lines@) == status_report(*self),
    {
        let mut lines: Vec<String> = Vec::new();
        let mut blocks = String::from_str("Blocks: ");
        push_decimal_text(&mut blocks, self.blockchain.chain.len() as u64);
        lines.push(blocks);
        let mut pending = String::from_str("Pending: ");
        push_decimal_text(&mut pending, self.blockchain.pending_transactions.len() as u64);
        lines.push(pending);
        let mut difficulty = String::from_str("Difficulty: ");
        push_decimal_text(&mut difficulty, self.blockchain.difficulty as u64);
        lines.push(difficulty);
        let valid = match self.blockchain.is_valid() {
            Ok(valid) => valid,
            Err(_) => false,
        };
        let mut validity = String::from_str("Valid: ");
        push_bool_text(&mut validity, valid);
        lines.push(validity);
        let mut history = String::from_str("History: ");
        push_decimal_text(&mut history, self.history.len() as u64);
        lines.push(history);
        let alice = self.blockchain.state.get_balance(&address_from_name("alice"));
        let mut alice_line = String::from_str("Alice: ");
        push_decimal_text(&mut alice_line, alice);
        lines.push(alice_line);
        let bob = self.blockchain.state.get_balance(&address_from_name("bob"));
        let mut bob_line = String::from_str("Bob: ");
        push_decimal_text(&mut bob_line, bob);
        lines.push(bob_line);
        assert(strings_view(lines@) =~= status_report(*self));
        lines
    }

    /// The lines of the pending-transactions panel.
    pub fn pending_lines(&self) -> (lines: Vec<String>)
        ensures
            strings_view(lines@) == pending_report(self.blockchain.pending()),
    {
        let mut lines: Vec<String> = Vec::new();
        let pending = &self.blockchain.pending_transactions;
        if pending.len() == 0 {
            lines.push(String::from_str("(none)"));
            assert(strings_view(lines@) =~= seq!["(none)"@]);
            return lines;
        }
        let ghost all = self.blockchain.pending();
        let mut i: usize = 0;
        while i < pending.len()
            invariant
                i <= pending@.len(),
                pending == &self.blockchain.pending_transactions,
                all == self.blockchain.pending(),
                all.len() == pending@.len(),
                strings_view(lines@) == all.take(i as int).map_values(
                    |tx: TransactionView| pending_description(tx),
                ),
            decreases pending@.len() - i,
        {
            let tx = &pending[i];
            assert(all[i as int] == tx@);
            let mut text = short_address(&tx.sender);
            match &tx.payload {
                Payload::Transfer { receiver, amount } => {
                    text.append(" -> ");
                    let r = short_address(receiver);
                    text.append(r.as_str());
                    text.append(": ");
                    push_decimal_text(&mut text, *amount);
                },
                Payload::Deploy { .. } => {
                    text.append(" deploy");
                },
                Payload::Call { contract, method, deposit, .. } => {
                    text.append(" call ");
                    let c = short_address(contract);
                    text.append(c.as_str());
                    text.append(".");
                    text.append(method.as_str());
                    text.append(" (");
                    push_decimal_text(&mut text, *deposit);
                    text.append(")");
                },
            }
            let ghost before = strings_view(lines@);
            lines.push(text);
            assert(strings_view(lines@) =~= before.push(text@));
            assert(all.take(i + 1).map_values(|tx: TransactionView| pending_description(tx))
                =~= all.take(i as int).map_values(|tx: TransactionView| pending_description(tx)).push(
                pending_description(all[i as int]),
            ));
            i = i + 1;
        }
        assert(all.take(all.len() as int) =~= all);
        lines
    }

    /// The lines of the key summary panel.
    pub fn help_lines() -> (lines: Vec<String>)
        ensures
            strings_view(lines@) == help_report(),
    {
        let mut lines: Vec<String> = Vec::new();
        lines.push(String::from_str("Enter: run command"));
        lines.push(String::from_str("Up/Down: scroll or history"));
        lines.push(String::from_str("PgUp/PgDn: fast scroll"));
        lines.push(String::from_str("Quotes: add \"alice a\" bob 4"));
        lines.push(String::from_str("Esc: quit"));
        assert(strings_view(lines@) =~= help_report());
        lines
    }
}

} // verus!
