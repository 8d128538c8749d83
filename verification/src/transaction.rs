//! Addresses, transactions and their payloads.

use crate::crypto::{hex_chars, hex_encode, sha256_digest, sha256_spec};
use crate::encoding::{copy_bytes, push_le_bytes, u64_le, append_bytes};
use crate::call_abi::{le_value, lemma_le_value_le_bytes, pow256};
use vstd::prelude::*;

verus! {

/// A 32-byte account or contract address.
pub type Address = [u8; 32];

/// A transaction submitted by an account.
#[derive(Debug, PartialEq, Eq)]
pub struct Transaction {
    /// Address paying for and authoring the transaction.
    pub sender: Address,
    /// Sender-local nonce used for replay protection and ordering.
    pub nonce: u64,
    /// Operation performed by this transaction.
    pub payload: Payload,
    /// Unix timestamp attached by the creator.
    pub timestamp: u64,
}

/// The operation carried by a transaction.
#[derive(Debug, PartialEq, Eq)]
pub enum Payload {
    /// Transfers native balance from the sender to another account.
    Transfer {
        /// Recipient of the transfer.
        receiver: Address,
        /// Amount of native balance to move.
        amount: u64,
    },
    /// Deploys Wasm code to the contract address derived from the sender and nonce.
    Deploy {
        /// Raw Wasm bytecode stored at the derived contract address.
        code: Vec<u8>,
    },
    /// Calls a method exported by a deployed Wasm contract.
    Call {
        /// Target contract address.
        contract: Address,
        /// Exported method name to invoke.
        method: String,
        /// Method arguments.
        args: Vec<u8>,
        /// Balance transferred to the contract before execution.
        deposit: u64,
    },
}

/// Mathematical value of a [`Payload`].
pub enum PayloadView {
    /// See [`Payload::Transfer`].
    Transfer { receiver: Address, amount: u64 },
    /// See [`Payload::Deploy`].
    Deploy { code: Seq<u8> },
    /// See [`Payload::Call`].
    Call { contract: Address, method: Seq<char>, args: Seq<u8>, deposit: u64 },
}

/// Mathematical value of a [`Transaction`].
pub struct TransactionView {
    pub sender: Address,
    pub nonce: u64,
    pub payload: PayloadView,
    pub timestamp: u64,
}

impl View for Payload {
    type V = PayloadView;

    open spec fn view(&self) -> PayloadView {
        match self {
            Payload::Transfer { receiver, amount } => PayloadView::Transfer {
                receiver: *receiver,
                amount: *amount,
            },
            Payload::Deploy { code } => PayloadView::Deploy { code: code@ },
            Payload::Call { contract, method, args, deposit } => PayloadView::Call {
                contract: *contract,
                method: method@,
                args: args@,
                deposit: *deposit,
            },
        }
    }
}

impl View for Transaction {
    type V = TransactionView;

    open spec fn view(&self) -> TransactionView {
        TransactionView {
            sender: self.sender,
            nonce: self.nonce,
            payload: self.payload@,
            timestamp: self.timestamp,
        }
    }
}

/// The views of a sequence of transactions.
pub open spec fn transactions_view(txs: Seq<Transaction>) -> Seq<TransactionView> {
    txs.map_values(|tx: Transaction| tx@)
}

/// The contract address derived from a deployment's sender and nonce: the
/// SHA-256 digest of the sender bytes followed by the little-endian nonce.
pub open spec fn spec_contract_address(sender: Address, nonce: u64) -> Address {
    sha256_spec(sender@ + u64_le(nonce))
}

/// The address derived from a human-readable name: the SHA-256 digest of its
/// UTF-8 bytes.
pub open spec fn spec_address_from_name(name: Seq<char>) -> Address {
    sha256_spec(vstd::utf8::encode_utf8(name))
}

impl Clone for Payload {
    fn clone(&self) -> (copy: Self)
        ensures
            copy@ == self@,
    {
        match self {
            Payload::Transfer { receiver, amount } => Payload::Transfer {
                receiver: *receiver,
                amount: *amount,
            },
            Payload::Deploy { code } => Payload::Deploy { code: copy_bytes(code) },
            Payload::Call { contract, method, args, deposit } => Payload::Call {
                contract: *contract,
                method: method.clone(),
                args: copy_bytes(args),
                deposit: *deposit,
            },
        }
    }
}

impl Clone for Transaction {
    fn clone(&self) -> (copy: Self)
        ensures
            copy@ == self@,
    {
        Transaction {
            sender: self.sender,
            nonce: self.nonce,
            payload: self.payload.clone(),
            timestamp: self.timestamp,
        }
    }
}

impl Transaction {
    /// Creates a transfer transaction with timestamp `0`.
    pub fn new_transfer(sender: Address, nonce: u64, receiver: Address, amount: u64) -> (tx: Self)
        ensures
            tx == (Transaction {
                sender,
                nonce,
                payload: Payload::Transfer { receiver, amount },
                timestamp: 0,
            }),
    {
        Self::new_transfer_at(sender, nonce, receiver, amount, 0)
    }

    /// Creates a transfer transaction with an explicit timestamp.
    pub fn new_transfer_at(
        sender: Address,
        nonce: u64,
        receiver: Address,
        amount: u64,
        timestamp: u64,
    ) -> (tx: Self)
        ensures
            tx == (Transaction {
                sender,
                nonce,
                payload: Payload::Transfer { receiver, amount },
                timestamp,
            }),
    {
        Transaction { sender, nonce, payload: Payload::Transfer { receiver, amount }, timestamp }
    }

    /// Creates a deployment transaction with timestamp `0`.
    pub fn new_deploy(sender: Address, nonce: u64, code: Vec<u8>) -> (tx: Self)
        ensures
            tx == (Transaction { sender, nonce, payload: Payload::Deploy { code }, timestamp: 0 }),
    {
        Self::new_deploy_at(sender, nonce, code, 0)
    }

    /// Creates a deployment transaction with an explicit timestamp.
    pub fn new_deploy_at(sender: Address, nonce: u64, code: Vec<u8>, timestamp: u64) -> (tx: Self)
        ensures
            tx == (Transaction { sender, nonce, payload: Payload::Deploy { code }, timestamp }),
    {
        Transaction { sender, nonce, payload: Payload::Deploy { code }, timestamp }
    }

    /// Creates a contract-call transaction with timestamp `0`.
    pub fn new_call(
        sender: Address,
        nonce: u64,
        contract: Address,
        method: &str,
        args: Vec<u8>,
        deposit: u64,
    ) -> (tx: Self)
        ensures
            tx@ == (TransactionView {
                sender,
                nonce,
                payload: PayloadView::Call { contract, method: method@, args: args@, deposit },
                timestamp: 0,
            }),
    {
        Self::new_call_at(sender, nonce, contract, method, args, deposit, 0)
    }

    /// Creates a contract-call transaction with an explicit timestamp.
    pub fn new_call_at(
        sender: Address,
        nonce: u64,
        contract: Address,
        method: &str,
        args: Vec<u8>,
        deposit: u64,
        timestamp: u64,
    ) -> (tx: Self)
        ensures
            tx@ == (TransactionView {
                sender,
                nonce,
                payload: PayloadView::Call { contract, method: method@, args: args@, deposit },
                timestamp,
            }),
    {
        Transaction {
            sender,
            nonce,
            payload: Payload::Call { contract, method: String::from_str(method), args, deposit },
            timestamp,
        }
    }

    /// Derives the deployment address for this transaction from its sender and nonce.
    pub fn derived_contract_address(&self) -> (address: Address)
        ensures
            address == spec_contract_address(self.sender, self.nonce),
    {
        let mut input: Vec<u8> = Vec::new();
        append_bytes(&mut input, self.sender.as_slice());
        push_le_bytes(&mut input, self.nonce, 8);
        sha256_digest(input.as_slice())
    }
}

/// Derives a deterministic address from a human-readable name using SHA-256.
pub fn address_from_name(name: &str) -> (address: Address)
    ensures
        address == spec_address_from_name(name@),
{
    sha256_digest(name.as_bytes())
}

/// Encodes an address as lowercase hexadecimal.
pub fn address_to_hex(address: &Address) -> (text: String)
    ensures
        text@ == hex_chars(address@),
{
    hex_encode(address.as_slice())
}

/// Copies a list of transactions, keeping their values.
pub fn clone_transactions(txs: &Vec<Transaction>) -> (copy: Vec<Transaction>)
    ensures
        transactions_view(copy@) == transactions_view(txs@),
{
    let mut copy: Vec<Transaction> = Vec::new();
    let mut i: usize = 0;
    while i < txs.len()
        invariant
            i <= txs@.len(),
            transactions_view(copy@) == transactions_view(txs@).subrange(0, i as int),
        decreases txs@.len() - i,
    {
        let tx = txs[i].clone();
        let ghost before = copy@;
        let ghost tv = tx@;
        copy.push(tx);
        assert(transactions_view(copy@) =~= transactions_view(before).push(tv));
        i = i + 1;
        assert(transactions_view(copy@) =~= transactions_view(txs@).subrange(0, i as int));
    }
    assert(transactions_view(txs@).subrange(0, i as int) =~= transactions_view(txs@));
    copy
}

/// A contract's address is the SHA-256 digest of its deployer's 32 bytes
/// followed by 8 bytes whose little-endian value is the deploying
/// transaction's nonce.
pub proof fn law_contract_address_commits_to_nonce(tx: &Transaction, address: Address)
    requires
        call_ensures(Transaction::derived_contract_address, (tx,), address),
    ensures
        exists|tail: Seq<u8>|
            #![trigger sha256_spec(tx.sender@ + tail)]
            tail.len() == 8 && le_value(tail) == tx.nonce && address == sha256_spec(tx.sender@ + tail),
{
    let tail = u64_le(tx.nonce);
    assert(pow256(8) == 0x1_0000_0000_0000_0000) by {
        reveal_with_fuel(pow256, 9);
    }
    crate::encoding::lemma_le_bytes_len(tx.nonce as nat, 8);
    lemma_le_value_le_bytes(tx.nonce as nat, 8);
    assert(address == sha256_spec(tx.sender@ + tail));
}

/// Two deployments by one sender at different nonces hash different
/// preimages: the bytes after the sender differ.
pub proof fn law_contract_address_preimages_differ(
    first: &Transaction,
    first_address: Address,
    second: &Transaction,
    second_address: Address,
)
    requires
        call_ensures(Transaction::derived_contract_address, (first,), first_address),
        call_ensures(Transaction::derived_contract_address, (second,), second_address),
        first.sender == second.sender,
        first.nonce != second.nonce,
    ensures
        exists|a: Seq<u8>, b: Seq<u8>|
            #![trigger sha256_spec(first.sender@ + a), sha256_spec(second.sender@ + b)]
            a.len() == 8 && b.len() == 8 && a != b && first_address == sha256_spec(first.sender@ + a)
                && second_address == sha256_spec(second.sender@ + b),
{
    law_contract_address_commits_to_nonce(first, first_address);
    law_contract_address_commits_to_nonce(second, second_address);
    let a = choose|tail: Seq<u8>|
        #![trigger sha256_spec(first.sender@ + tail)]
        tail.len() == 8 && le_value(tail) == first.nonce && first_address == sha256_spec(first.sender@ + tail);
    let b = choose|tail: Seq<u8>|
        #![trigger sha256_spec(second.sender@ + tail)]
        tail.len() == 8 && le_value(tail) == second.nonce && second_address == sha256_spec(second.sender@ + tail);
    assert(a != b);
    assert(sha256_spec(first.sender@ + a) == first_address);
    assert(sha256_spec(second.sender@ + b) == second_address);
}

} // verus!
