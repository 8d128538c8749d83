//! Receipts recorded for mined transactions, and transaction hashing.

use crate::call_abi::{borsh_bytes, fits_u32};
use crate::chain::BlockyError;
use crate::crypto::{sha256_digest, sha256_spec};
use crate::encoding::u64_le;
use crate::transaction::{Address, Payload, PayloadView, Transaction, TransactionView};
use vstd::prelude::*;
use vstd::utf8::encode_utf8;

verus! {

/// Outcome recorded for a mined transaction.
#[derive(Debug, PartialEq, Eq)]
pub struct Receipt {
    /// Deterministic hash of the transaction this receipt belongs to.
    pub tx_hash: [u8; 32],
    /// Whether the transaction completed successfully.
    pub success: bool,
    /// Total gas charged for the transaction.
    pub gas_used: u64,
    /// Log lines emitted during execution.
    pub logs: Vec<String>,
    /// Human-readable error message for failed transactions.
    pub error: Option<String>,
}

/// Borsh encoding of a payload: the variant's index as one byte, then its
/// fields in order.
pub open spec fn borsh_payload(p: PayloadView) -> Seq<u8> {
    match p {
        PayloadView::Transfer { receiver, amount } => seq![0u8] + receiver@ + u64_le(amount),
        PayloadView::Deploy { code } => seq![1u8] + borsh_bytes(code),
        PayloadView::Call { contract, method, args, deposit } => seq![2u8] + contract@
            + borsh_bytes(encode_utf8(method)) + borsh_bytes(args) + u64_le(deposit),
    }
}

/// Borsh encoding of a transaction: its fields in declaration order.
pub open spec fn borsh_transaction(tx: TransactionView) -> Seq<u8> {
    tx.sender@ + u64_le(tx.nonce) + borsh_payload(tx.payload) + u64_le(tx.timestamp)
}

/// Whether every byte string of the transaction fits Borsh's `u32` length.
pub open spec fn transaction_encodable(tx: TransactionView) -> bool {
    match tx.payload {
        PayloadView::Transfer { .. } => true,
        PayloadView::Deploy { code } => fits_u32(code),
        PayloadView::Call { method, args, .. } => fits_u32(encode_utf8(method)) && fits_u32(args),
    }
}

/// The hash of a transaction: SHA-256 of its Borsh encoding.
pub open spec fn spec_transaction_hash(tx: TransactionView) -> [u8; 32] {
    sha256_spec(borsh_transaction(tx))
}

/// Trusted: `borsh::to_vec` on the fields of a transfer transaction, laid out
/// as a tuple (sender, nonce, variant index 0, receiver, amount, timestamp).
/// Borsh's source writes fixed arrays as their bytes, `u8` as one byte and
/// `u64` as eight little-endian bytes, one field after another; this cannot
/// fail, which the contract states with the bytes.
#[verifier::external_body]
fn borsh_transfer(
    sender: &Address,
    nonce: u64,
    receiver: &Address,
    amount: u64,
    timestamp: u64,
) -> (encoded: Result<Vec<u8>, std::io::Error>)
    ensures
        encoded is Ok,
        encoded matches Ok(bytes) ==> bytes@ == sender@ + u64_le(nonce) + (seq![0u8] + receiver@
            + u64_le(amount)) + u64_le(timestamp),
{
    borsh::to_vec(&(sender, nonce, 0u8, receiver, amount, timestamp))
}

/// Trusted: `borsh::to_vec` on the fields of a deployment, laid out as a
/// tuple (sender, nonce, variant index 1, code, timestamp). Borsh's source
/// writes the code as a little-endian `u32` length and its bytes, failing
/// when the length does not fit in a `u32`; the contract states exactly that.
#[verifier::external_body]
fn borsh_deploy(
    sender: &Address,
    nonce: u64,
    code: &Vec<u8>,
    timestamp: u64,
) -> (encoded: Result<Vec<u8>, std::io::Error>)
    ensures
        encoded is Ok <==> fits_u32(code@),
        encoded matches Ok(bytes) ==> bytes@ == sender@ + u64_le(nonce) + (seq![1u8]
            + borsh_bytes(code@)) + u64_le(timestamp),
{
    borsh::to_vec(&(sender, nonce, 1u8, code, timestamp))
}

/// Trusted: `borsh::to_vec` on the fields of a call, laid out as a tuple
/// (sender, nonce, variant index 2, contract, method, args, deposit,
/// timestamp). Borsh's source writes the method's UTF-8 bytes and the
/// arguments each after a little-endian `u32` length, failing when a length
/// does not fit in a `u32`; the contract states exactly that.
#[verifier::external_body]
fn borsh_call(
    sender: &Address,
    nonce: u64,
    contract: &Address,
    method: &String,
    args: &Vec<u8>,
    deposit: u64,
    timestamp: u64,
) -> (encoded: Result<Vec<u8>, std::io::Error>)
    ensures
        encoded is Ok <==> (fits_u32(encode_utf8(method@)) && fits_u32(args@)),
        encoded matches Ok(bytes) ==> bytes@ == sender@ + u64_le(nonce) + borsh_payload(
            (PayloadView::Call { contract: *contract, method: method@, args: args@, deposit }))
            + u64_le(timestamp),
{
    borsh::to_vec(&(sender, nonce, 2u8, contract, method, args, deposit, timestamp))
}

/// Computes a deterministic hash for a transaction: SHA-256 of its Borsh
/// encoding.
pub fn transaction_hash(transaction: &Transaction) -> (hash: Result<[u8; 32], BlockyError>)
    ensures
        transaction_encodable(transaction@) ==> hash == Ok::<[u8; 32], BlockyError>(
            spec_transaction_hash(transaction@),
        ),
        !transaction_encodable(transaction@) ==> hash matches Err(BlockyError::HashSerialization(_)),
{
    let tx = transaction;
    let encoded = match &tx.payload {
        Payload::Transfer { receiver, amount } => borsh_transfer(
            &tx.sender,
            tx.nonce,
            receiver,
            *amount,
            tx.timestamp,
        ),
        Payload::Deploy { code } => borsh_deploy(&tx.sender, tx.nonce, code, tx.timestamp),
        Payload::Call { contract, method, args, deposit } => borsh_call(
            &tx.sender,
            tx.nonce,
            contract,
            method,
            args,
            *deposit,
            tx.timestamp,
        ),
    };
    match encoded {
        Ok(bytes) => {
            assert(bytes@ =~= borsh_transaction(tx@));
            Ok(sha256_digest(bytes.as_slice()))
        },
        Err(error) => Err(BlockyError::HashSerialization(error)),
    }
}

impl Receipt {
    /// Creates a successful receipt for a transaction.
    pub fn success(transaction: &Transaction, gas_used: u64, logs: Vec<String>) -> (receipt: Result<Self, BlockyError>)
        ensures
            transaction_encodable(transaction@) ==> (receipt matches Ok(r) && r.tx_hash
                == spec_transaction_hash(transaction@) && r.success && r.gas_used == gas_used
                && r.logs == logs && r.error is None),
            !transaction_encodable(transaction@) ==> receipt matches Err(
                BlockyError::HashSerialization(_),
            ),
    {
        let tx_hash = match transaction_hash(transaction) {
            Ok(hash) => hash,
            Err(error) => return Err(error),
        };
        Ok(Receipt { tx_hash, success: true, gas_used, logs, error: None })
    }

    /// Creates a failed receipt for a transaction.
    pub fn failure(transaction: &Transaction, gas_used: u64, error: String) -> (receipt: Result<Self, BlockyError>)
        ensures
            transaction_encodable(transaction@) ==> (receipt matches Ok(r) && r.tx_hash
                == spec_transaction_hash(transaction@) && !r.success && r.gas_used == gas_used
                && r.logs@.len() == 0 && r.error == Some(error)),
            !transaction_encodable(transaction@) ==> receipt matches Err(
                BlockyError::HashSerialization(_),
            ),
    {
        let tx_hash = match transaction_hash(transaction) {
            Ok(hash) => hash,
            Err(error) => return Err(error),
        };
        Ok(Receipt { tx_hash, success: false, gas_used, logs: Vec::new(), error: Some(error) })
    }
}

} // verus!
