//! Blocks: structure, hashing and proof-of-work mining.

use crate::chain::BlockyError;
use crate::crypto::{hex_chars, hex_encode, sha256_digest, sha256_spec};
use crate::encoding::{append_bytes, decimal, push_decimal};
use crate::transaction::{transactions_view, Payload, PayloadView, Transaction, TransactionView};
use vstd::prelude::*;
use vstd::utf8::encode_utf8;

verus! {

/// A 32-byte SHA-256 digest used for block and code hashes.
pub type Hash = [u8; 32];

/// A mined block containing transactions and proof-of-work metadata.
#[derive(Debug, PartialEq, Eq)]
pub struct Block {
    /// Unix timestamp captured when the block was created.
    pub timestamp: u64,
    /// Hash of the previous block, or all zeros for genesis.
    pub prev_hash: Hash,
    /// Nonce adjusted during mining until the hash meets difficulty.
    pub nonce: u64,
    /// Transactions included in this block.
    pub transactions: Vec<Transaction>,
}

/// Mathematical value of a [`Block`].
pub struct BlockView {
    pub timestamp: u64,
    pub prev_hash: Hash,
    pub nonce: u64,
    pub transactions: Seq<TransactionView>,
}

impl View for Block {
    type V = BlockView;

    open spec fn view(&self) -> BlockView {
        BlockView {
            timestamp: self.timestamp,
            prev_hash: self.prev_hash,
            nonce: self.nonce,
            transactions: transactions_view(self.transactions@),
        }
    }
}

/// `serde_json`'s escape of one character inside a JSON string.
pub open spec fn json_escape_char(c: char) -> Seq<char> {
    if c == '"' {
        seq!['\\', '"']
    } else if c == '\\' {
        seq!['\\', '\\']
    } else if c == '\u{8}' {
        seq!['\\', 'b']
    } else if c == '\u{c}' {
        seq!['\\', 'f']
    } else if c == '\n' {
        seq!['\\', 'n']
    } else if c == '\r' {
        seq!['\\', 'r']
    } else if c == '\t' {
        seq!['\\', 't']
    } else if (c as u32) < 0x20 {
        seq![
            '\\',
            'u',
            '0',
            '0',
            crate::crypto::hex_digit(((c as u32) / 16) as u8),
            crate::crypto::hex_digit(((c as u32) % 16) as u8),
        ]
    } else {
        seq![c]
    }
}

/// `serde_json`'s escape of the characters of a string.
pub open spec fn json_escape(s: Seq<char>) -> Seq<char>
    decreases s.len(),
{
    if s.len() == 0 {
        Seq::empty()
    } else {
        json_escape_char(s[0]) + json_escape(s.drop_first())
    }
}

/// A JSON string literal: the escaped characters between double quotes.
pub open spec fn json_string(s: Seq<char>) -> Seq<char> {
    seq!['"'] + json_escape(s) + seq!['"']
}

/// Trusted: `serde_json::to_string` on a string slice. Its source writes a
/// double quote, then each byte of the string with the escapes of its
/// `ESCAPE` table (`\"`, `\\`, `\b`, `\f`, `\n`, `\r`, `\t`, and `\u00xx`
/// with lowercase hex digits for the other control characters), then a
/// double quote; it writes into a `Vec<u8>`, whose writes cannot fail. The
/// contract states the text and that it succeeds.
#[verifier::external_body]
fn json_string_literal(s: &str) -> (json: Result<String, serde_json::Error>)
    ensures
        json is Ok,
        json matches Ok(text) ==> text@ == json_string(s@),
{
    serde_json::to_string(s)
}

/// Comma-separated decimal numbers, one per byte.
pub open spec fn json_number_list(b: Seq<u8>) -> Seq<u8>
    decreases b.len(),
{
    if b.len() == 0 {
        Seq::empty()
    } else if b.len() == 1 {
        decimal(b[0] as nat)
    } else {
        json_number_list(b.drop_last()) + seq![44u8] + decimal(b.last() as nat)
    }
}

/// A byte string as a JSON array of numbers.
pub open spec fn json_byte_array(b: Seq<u8>) -> Seq<u8> {
    seq![91u8] + json_number_list(b) + seq![93u8]
}

/// The JSON object for a payload, as `serde` writes an externally tagged enum.
pub open spec fn json_payload(p: PayloadView) -> Seq<u8> {
    match p {
        PayloadView::Transfer { receiver, amount } => encode_utf8("{\"Transfer\":{\"receiver\":"@)
            + json_byte_array(receiver@) + encode_utf8(",\"amount\":"@) + decimal(amount as nat)
            + encode_utf8("}}"@),
        PayloadView::Deploy { code } => encode_utf8("{\"Deploy\":{\"code\":"@) + json_byte_array(
            code,
        ) + encode_utf8("}}"@),
        PayloadView::Call { contract, method, args, deposit } => encode_utf8(
            "{\"Call\":{\"contract\":"@,
        ) + json_byte_array(contract@) + encode_utf8(",\"method\":"@) + encode_utf8(
            json_string(method),
        ) + encode_utf8(",\"args\":"@) + json_byte_array(args) + encode_utf8(",\"deposit\":"@)
            + decimal(deposit as nat) + encode_utf8("}}"@),
    }
}

/// The JSON object for a transaction, fields in declaration order.
pub open spec fn json_transaction(tx: TransactionView) -> Seq<u8> {
    encode_utf8("{\"sender\":"@) + json_byte_array(tx.sender@) + encode_utf8(",\"nonce\":"@)
        + decimal(tx.nonce as nat) + encode_utf8(",\"payload\":"@) + json_payload(tx.payload)
        + encode_utf8(",\"timestamp\":"@) + decimal(tx.timestamp as nat) + encode_utf8("}"@)
}

/// Comma-separated JSON objects, one per transaction.
pub open spec fn json_transaction_list(txs: Seq<TransactionView>) -> Seq<u8>
    decreases txs.len(),
{
    if txs.len() == 0 {
        Seq::empty()
    } else if txs.len() == 1 {
        json_transaction(txs[0])
    } else {
        json_transaction_list(txs.drop_last()) + seq![44u8] + json_transaction(txs.last())
    }
}

/// The JSON array of a block's transactions.
pub open spec fn json_transactions(txs: Seq<TransactionView>) -> Seq<u8> {
    seq![91u8] + json_transaction_list(txs) + seq![93u8]
}

/// The bytes hashed for a block: its timestamp in decimal, its previous hash
/// in lowercase hex, its nonce in decimal, then its transactions as JSON.
pub open spec fn block_preimage(b: BlockView) -> Seq<u8> {
    decimal(b.timestamp as nat) + encode_utf8(hex_chars(b.prev_hash@)) + decimal(b.nonce as nat)
        + json_transactions(b.transactions)
}

/// The hash of a block.
pub open spec fn block_hash(b: BlockView) -> Hash {
    sha256_spec(block_preimage(b))
}

/// A hash meets a difficulty of `d` leading zero bits: the hash has at
/// least `d` bits, its first `d / 8` bytes are zero and, when `d % 8` is not
/// zero, the top `d % 8` bits of the next byte are zero.
pub open spec fn meets_difficulty(h: Seq<u8>, d: u32) -> bool {
    let full = (d / 8) as int;
    let rem = d % 8;
    &&& d <= 8 * h.len()
    &&& forall|i: int| 0 <= i < full && i < h.len() ==> h[i] == 0
    &&& (rem == 0 || (full < h.len() && (h[full] >> ((8 - rem) as u8)) == 0))
}

/// The block with its nonce replaced.
pub open spec fn with_block_nonce(b: BlockView, nonce: u64) -> BlockView {
    BlockView { timestamp: b.timestamp, prev_hash: b.prev_hash, nonce, transactions: b.transactions }
}

/// Trusted declaration of `std::time::SystemTime`, a reading of the clock.
#[verifier::external_type_specification]
#[verifier::external_body]
pub struct ExSystemTime(std::time::SystemTime);

/// Trusted: `SystemTime::now`, the clock's current reading. Nothing is
/// stated of it.
#[verifier::external_body]
fn system_now() -> std::time::SystemTime {
    std::time::SystemTime::now()
}

/// Trusted: `SystemTime::duration_since(UNIX_EPOCH)`, in whole seconds, or
/// `None` for a time before the epoch (where the duration is an error).
/// Nothing else is stated of the result, which depends on the clock.
#[verifier::external_body]
fn seconds_since_epoch(time: &std::time::SystemTime) -> Option<u64> {
    match time.duration_since(std::time::UNIX_EPOCH) {
        Ok(duration) => Some(duration.as_secs()),
        Err(_) => None,
    }
}

/// Appends the JSON array of a byte string.
fn push_json_byte_array(out: &mut Vec<u8>, bytes: &[u8])
    ensures
        final(out)@ == old(out)@ + json_byte_array(bytes@),
{
    out.push(91u8);
    let mut i: usize = 0;
    while i < bytes.len()
        invariant
            i <= bytes@.len(),
            out@ == old(out)@ + seq![91u8] + json_number_list(bytes@.subrange(0, i as int)),
        decreases bytes@.len() - i,
    {
        let ghost before = out@;
        if i > 0 {
            out.push(44u8);
        }
        push_decimal(out, bytes[i] as u64);
        proof {
            let t = bytes@.subrange(0, i + 1 as int);
            assert(t.drop_last() =~= bytes@.subrange(0, i as int));
            assert(t.last() == bytes@[i as int]);
            if i == 0 {
                assert(bytes@.subrange(0, 0) =~= Seq::<u8>::empty());
            }
        }
        i = i + 1;
        assert(out@ =~= old(out)@ + seq![91u8] + json_number_list(bytes@.subrange(0, i as int)));
    }
    out.push(93u8);
    assert(bytes@.subrange(0, bytes@.len() as int) =~= bytes@);
    assert(out@ =~= old(out)@ + json_byte_array(bytes@));
}

/// Appends the UTF-8 bytes of a text.
fn push_text(out: &mut Vec<u8>, text: &str)
    ensures
        final(out)@ == old(out)@ + encode_utf8(text@),
{
    append_bytes(out, text.as_bytes());
}

/// Appends the JSON object of a payload.
fn push_json_payload(out: &mut Vec<u8>, payload: &Payload) -> (done: Result<(), serde_json::Error>)
    ensures
        done is Ok,
        final(out)@ == old(out)@ + json_payload(payload@),
{
    match payload {
        Payload::Transfer { receiver, amount } => {
            push_text(out, "{\"Transfer\":{\"receiver\":");
            push_json_byte_array(out, receiver.as_slice());
            push_text(out, ",\"amount\":");
            push_decimal(out, *amount);
            push_text(out, "}}");
        },
        Payload::Deploy { code } => {
            push_text(out, "{\"Deploy\":{\"code\":");
            push_json_byte_array(out, code.as_slice());
            push_text(out, "}}");
        },
        Payload::Call { contract, method, args, deposit } => {
            push_text(out, "{\"Call\":{\"contract\":");
            push_json_byte_array(out, contract.as_slice());
            push_text(out, ",\"method\":");
            let literal = match json_string_literal(method.as_str()) {
                Ok(text) => text,
                Err(error) => return Err(error),
            };
            push_text(out, literal.as_str());
            push_text(out, ",\"args\":");
            push_json_byte_array(out, args.as_slice());
            push_text(out, ",\"deposit\":");
            push_decimal(out, *deposit);
            push_text(out, "}}");
        },
    }
    assert(final(out)@ =~= old(out)@ + json_payload(payload@));
    Ok(())
}

/// Appends the JSON object of a transaction.
fn push_json_transaction(out: &mut Vec<u8>, tx: &Transaction) -> (done: Result<(), serde_json::Error>)
    ensures
        done is Ok,
        final(out)@ == old(out)@ + json_transaction(tx@),
{
    push_text(out, "{\"sender\":");
    push_json_byte_array(out, tx.sender.as_slice());
    push_text(out, ",\"nonce\":");
    push_decimal(out, tx.nonce);
    push_text(out, ",\"payload\":");
    match push_json_payload(out, &tx.payload) {
        Ok(()) => {},
        Err(error) => return Err(error),
    }
    push_text(out, ",\"timestamp\":");
    push_decimal(out, tx.timestamp);
    push_text(out, "}");
    assert(final(out)@ =~= old(out)@ + json_transaction(tx@));
    Ok(())
}

/// Appends the JSON array of a list of transactions.
fn push_json_transactions(out: &mut Vec<u8>, txs: &Vec<Transaction>) -> (done: Result<(), serde_json::Error>)
    ensures
        done is Ok,
        final(out)@ == old(out)@ + json_transactions(transactions_view(txs@)),
{
    let ghost all = transactions_view(txs@);
    out.push(91u8);
    let mut i: usize = 0;
    while i < txs.len()
        invariant
            i <= txs@.len(),
            all == transactions_view(txs@),
            out@ == old(out)@ + seq![91u8] + json_transaction_list(all.subrange(0, i as int)),
        decreases txs@.len() - i,
    {
        if i > 0 {
            out.push(44u8);
        }
        match push_json_transaction(out, &txs[i]) {
            Ok(()) => {},
            Err(error) => return Err(error),
        }
        proof {
            let t = all.subrange(0, i + 1 as int);
            assert(t.drop_last() =~= all.subrange(0, i as int));
            assert(t.last() == txs@[i as int]@);
            if i == 0 {
                assert(all.subrange(0, 0) =~= Seq::<TransactionView>::empty());
            }
        }
        i = i + 1;
        assert(out@ =~= old(out)@ + seq![91u8] + json_transaction_list(all.subrange(0, i as int)));
    }
    out.push(93u8);
    assert(all.subrange(0, all.len() as int) =~= all);
    assert(out@ =~= old(out)@ + json_transactions(all));
    Ok(())
}

impl Clone for Block {
    fn clone(&self) -> (copy: Self)
        ensures
            copy@ == self@,
    {
        let mut transactions: Vec<Transaction> = Vec::new();
        let mut i: usize = 0;
        while i < self.transactions.len()
            invariant
                i <= self.transactions@.len(),
                transactions_view(transactions@) == transactions_view(self.transactions@).subrange(
                    0,
                    i as int,
                ),
            decreases self.transactions@.len() - i,
        {
            let tx = self.transactions[i].clone();
            let ghost before = transactions@;
            let ghost tv = tx@;
            transactions.push(tx);
            assert(transactions_view(transactions@) =~= transactions_view(before).push(tv));
            i = i + 1;
            assert(transactions_view(transactions@) =~= transactions_view(
                self.transactions@,
            ).subrange(0, i as int));
        }
        assert(transactions_view(self.transactions@).subrange(0, i as int) =~= transactions_view(
            self.transactions@,
        ));
        Block {
            timestamp: self.timestamp,
            prev_hash: self.prev_hash,
            nonce: self.nonce,
            transactions,
        }
    }
}

impl Block {
    /// Creates a new block stamped with the current Unix time in seconds
    /// (zero when the clock reads a time before 1970) and a zero nonce.
    pub fn new(transactions: Vec<Transaction>, prev_hash: Hash) -> (block: Self)
        ensures
            block.prev_hash == prev_hash,
            block.nonce == 0,
            block.transactions == transactions,
    {
        let timestamp: u64 = match seconds_since_epoch(&system_now()) {
            Some(seconds) => seconds,
            None => 0,
        };
        Block { timestamp, prev_hash, nonce: 0, transactions }
    }

    /// Computes the block hash from its header fields and serialized transactions.
    pub fn compute_hash(&self) -> (hash: Result<Hash, BlockyError>)
        ensures
            hash == Ok::<Hash, BlockyError>(block_hash(self@)),
    {
        let mut input: Vec<u8> = Vec::new();
        push_decimal(&mut input, self.timestamp);
        let prev_hex = hex_encode(self.prev_hash.as_slice());
        push_text(&mut input, prev_hex.as_str());
        push_decimal(&mut input, self.nonce);
        match push_json_transactions(&mut input, &self.transactions) {
            Ok(()) => {},
            Err(error) => return Err(BlockyError::BlockHashSerialization(error)),
        }
        assert(input@ =~= block_preimage(self@));
        Ok(sha256_digest(input.as_slice()))
    }

    /// Increments the nonce until the block hash meets `difficulty`: on
    /// success the nonce is the first one, from the starting nonce on, whose
    /// hash meets it. When no nonce up to `u64::MAX` does, the block keeps
    /// nonce `u64::MAX` and the error is `NonceExhausted`.
    pub fn mine(&mut self, difficulty: u32) -> (result: Result<(), BlockyError>)
        ensures
            final(self).timestamp == old(self).timestamp,
            final(self).prev_hash == old(self).prev_hash,
            final(self).transactions == old(self).transactions,
            final(self).nonce >= old(self).nonce,
            forall|n: u64|
                old(self).nonce <= n < final(self).nonce ==> !meets_difficulty(
                    #[trigger] block_hash(with_block_nonce(old(self)@, n))@,
                    difficulty,
                ),
            result is Ok ==> meets_difficulty(block_hash(final(self)@)@, difficulty),
            result is Err ==> (result matches Err(BlockyError::NonceExhausted) && final(self).nonce
                == u64::MAX && !meets_difficulty(block_hash(final(self)@)@, difficulty)),
    {
        loop
            invariant
                self.timestamp == old(self).timestamp,
                self.prev_hash == old(self).prev_hash,
                self.transactions == old(self).transactions,
                self.nonce >= old(self).nonce,
                forall|n: u64|
                    old(self).nonce <= n < self.nonce ==> !meets_difficulty(
                        #[trigger] block_hash(with_block_nonce(old(self)@, n))@,
                        difficulty,
                    ),
            decreases u64::MAX - self.nonce,
        {
            let hash = match self.compute_hash() {
                Ok(hash) => hash,
                Err(error) => return Err(error),
            };
            if hash_meets_difficulty(&hash, difficulty) {
                return Ok(());
            }
            assert(self@ == with_block_nonce(old(self)@, self.nonce));
            if self.nonce == u64::MAX {
                return Err(BlockyError::NonceExhausted);
            }
            self.nonce = self.nonce + 1;
        }
    }
}

/// Returns whether a hash satisfies a leading-zero-bit proof-of-work target.
pub fn hash_meets_difficulty(hash: &Hash, difficulty: u32) -> (meets: bool)
    ensures
        meets == meets_difficulty(hash@, difficulty),
{
    broadcast use vstd::array::group_array_axioms;

    if difficulty > 256 {
        return false;
    }
    let full: u32 = difficulty / 8;
    let rem: u32 = difficulty % 8;
    let limit: usize = if full < 32 {
        full as usize
    } else {
        32
    };
    let mut i: usize = 0;
    while i < limit
        invariant
            i <= limit <= 32,
            full == difficulty / 8,
            limit == (if full < 32 { full as int } else { 32 }),
            hash@.len() == 32,
            forall|j: int| 0 <= j < i ==> hash@[j] == 0,
        decreases limit - i,
    {
        if hash[i] != 0 {
            assert(hash@[i as int] != 0);
            assert(!(forall|j: int|
                0 <= j < (difficulty / 8) as int && j < hash@.len() ==> hash@[j] == 0));
            return false;
        }
        i = i + 1;
    }
    if rem == 0 {
        return true;
    }
    if full >= 32 {
        return false;
    }
    let byte: u8 = hash[full as usize];
    let shift: u8 = (8 - rem) as u8;
    let mask: u8 = 0xFFu8 << shift;
    assert((byte & (0xFFu8 << shift)) == 0 <==> (byte >> shift) == 0) by (bit_vector)
        requires
            1 <= shift <= 7,
    ;
    (byte & mask) == 0
}

/// Encodes a hash as lowercase hexadecimal.
pub fn hash_to_hex(hash: &Hash) -> (text: String)
    ensures
        text@ == hex_chars(hash@),
{
    hex_encode(hash.as_slice())
}

} // verus!
