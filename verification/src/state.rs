//! The in-memory world state: balances, nonces, contract code and contract
//! storage of every account.

use crate::assoc::{
    assoc_view, is_first_index, key_absent, lemma_assoc_absent, lemma_assoc_found, lemma_assoc_push,
    lemma_assoc_update, lemma_assoc_without, lemma_first_index_exists, lemma_without_key_push,
    without_key,
};
use crate::encoding::{bytes32_equal, bytes_equal, copy_bytes};
use crate::text::{concat_text, decimal_chars, push_decimal_text};
use crate::transaction::{spec_contract_address, Address, Payload, PayloadView, Transaction, TransactionView};
use crate::block::Block;
use crate::call_abi::{envelope_bytes, envelope_fits, CallEnvelope};
use crate::vm::gas::{deploy_cost, spec_deploy_cost, BASE_TX_COST, DEFAULT_GAS_LIMIT};
use crate::vm::{cache_after, spec_code_hash, CallRequest, ExecutionContext, GasReport, VmEngine, VmError};
use crate::vm::is_vm_error_message;
use vstd::prelude::*;

verus! {

/// The key/value storage of one contract. Keys are unique: an insert for a
/// key that is present replaces its value. The entries are an association
/// list (see `assoc`): keys are byte strings, for which vstd's specification
/// of `BTreeMap` would let nothing be proved of a lookup.
#[derive(Debug, PartialEq, Eq)]
pub struct ContractStorage {
    entries: Vec<(Vec<u8>, Vec<u8>)>,
}

/// The entries of a storage as mathematical byte strings.
pub open spec fn storage_entries(entries: Seq<(Vec<u8>, Vec<u8>)>) -> Seq<(Seq<u8>, Seq<u8>)> {
    entries.map_values(|e: (Vec<u8>, Vec<u8>)| (e.0@, e.1@))
}

impl View for ContractStorage {
    type V = Map<Seq<u8>, Seq<u8>>;

    closed spec fn view(&self) -> Map<Seq<u8>, Seq<u8>> {
        assoc_view(storage_entries(self.entries@))
    }
}

impl ContractStorage {
    /// Creates an empty storage.
    pub fn new() -> (storage: Self)
        ensures
            storage@ == Map::<Seq<u8>, Seq<u8>>::empty(),
    {
        let storage = ContractStorage { entries: Vec::new() };
        assert(storage_entries(storage.entries@) =~= Seq::<(Seq<u8>, Seq<u8>)>::empty());
        storage
    }

    /// Returns whether the storage holds no key.
    pub fn is_empty(&self) -> (empty: bool)
        ensures
            empty == (self@ == Map::<Seq<u8>, Seq<u8>>::empty()),
    {
        let s = Ghost(storage_entries(self.entries@));
        if self.entries.len() == 0 {
            assert(s@ =~= Seq::<(Seq<u8>, Seq<u8>)>::empty());
            true
        } else {
            proof {
                lemma_first_index_exists(s@, s@[0].0, 0);
                let i = choose|i: int| is_first_index(s@, s@[0].0, i);
                lemma_assoc_found(s@, s@[0].0, i);
                assert(!Map::<Seq<u8>, Seq<u8>>::empty().contains_key(s@[0].0));
            }
            false
        }
    }

    /// Finds the index of `key`, if present.
    fn find(&self, key: &[u8]) -> (index: Option<usize>)
        ensures
            match index {
                Some(i) => is_first_index(storage_entries(self.entries@), key@, i as int),
                None => key_absent(storage_entries(self.entries@), key@),
            },
    {
        let ghost s = storage_entries(self.entries@);
        let mut i: usize = 0;
        while i < self.entries.len()
            invariant
                i <= self.entries@.len(),
                s == storage_entries(self.entries@),
                forall|j: int| 0 <= j < i ==> s[j].0 != key@,
            decreases self.entries@.len() - i,
        {
            if bytes_equal(self.entries[i].0.as_slice(), key) {
                return Some(i);
            }
            i = i + 1;
        }
        None
    }

    /// Returns the value stored under `key`, if any.
    pub fn get(&self, key: &[u8]) -> (value: Option<&Vec<u8>>)
        ensures
            match value {
                Some(v) => self@.contains_key(key@) && self@[key@] == v@,
                None => !self@.contains_key(key@),
            },
    {
        match self.find(key) {
            Some(i) => {
                proof {
                    lemma_assoc_found(storage_entries(self.entries@), key@, i as int);
                }
                Some(&self.entries[i].1)
            },
            None => {
                proof {
                    lemma_assoc_absent(storage_entries(self.entries@), key@);
                }
                None
            },
        }
    }

    /// Stores `value` under `key`, replacing any previous value.
    pub fn insert(&mut self, key: Vec<u8>, value: Vec<u8>)
        ensures
            final(self)@ == old(self)@.insert(key@, value@),
    {
        let ghost s = storage_entries(self.entries@);
        match self.find(key.as_slice()) {
            Some(i) => {
                let ghost k = key@;
                let ghost v = value@;
                self.entries.set(i, (key, value));
                proof {
                    lemma_assoc_update(s, k, i as int, v);
                    assert(storage_entries(self.entries@) =~= s.update(i as int, (k, v)));
                }
            },
            None => {
                let ghost k = key@;
                let ghost v = value@;
                self.entries.push((key, value));
                proof {
                    lemma_assoc_push(s, k, v);
                    assert(storage_entries(self.entries@) =~= s.push((k, v)));
                }
            },
        }
    }

    /// Removes `key`; returns whether it was present.
    pub fn remove(&mut self, key: &[u8]) -> (removed: bool)
        ensures
            removed == old(self)@.contains_key(key@),
            final(self)@ == old(self)@.remove(key@),
    {
        let ghost s = storage_entries(self.entries@);
        let found = self.find(key);
        proof {
            match found {
                Some(i) => lemma_assoc_found(s, key@, i as int),
                None => lemma_assoc_absent(s, key@),
            }
        }
        let mut kept: Vec<(Vec<u8>, Vec<u8>)> = Vec::new();
        let mut i: usize = 0;
        while i < self.entries.len()
            invariant
                i <= self.entries@.len(),
                s == storage_entries(self.entries@),
                storage_entries(kept@) == without_key(s.subrange(0, i as int), key@),
            decreases self.entries@.len() - i,
        {
            let ghost e = s[i as int];
            proof {
                assert(s.subrange(0, i + 1 as int) =~= s.subrange(0, i as int).push(e));
                lemma_without_key_push(s.subrange(0, i as int), e, key@);
            }
            if !bytes_equal(self.entries[i].0.as_slice(), key) {
                let k = copy_bytes(&self.entries[i].0);
                let v = copy_bytes(&self.entries[i].1);
                kept.push((k, v));
                assert(storage_entries(kept@) =~= without_key(s.subrange(0, i + 1 as int), key@));
            }
            i = i + 1;
        }
        proof {
            assert(s.subrange(0, s.len() as int) =~= s);
            lemma_assoc_without(s, key@);
        }
        self.entries = kept;
        found.is_some()
    }
}

impl Clone for ContractStorage {
    fn clone(&self) -> (copy: Self)
        ensures
            copy@ == self@,
    {
        let mut entries: Vec<(Vec<u8>, Vec<u8>)> = Vec::new();
        let mut i: usize = 0;
        while i < self.entries.len()
            invariant
                i <= self.entries@.len(),
                storage_entries(entries@) == storage_entries(self.entries@).subrange(0, i as int),
            decreases self.entries@.len() - i,
        {
            let k = copy_bytes(&self.entries[i].0);
            let v = copy_bytes(&self.entries[i].1);
            let ghost before = entries@;
            entries.push((k, v));
            assert(entries@ =~= before.push((k, v)));
            assert(storage_entries(entries@) =~= storage_entries(before).push((k@, v@)));
            i = i + 1;
            assert(storage_entries(entries@) =~= storage_entries(self.entries@).subrange(
                0,
                i as int,
            ));
        }
        assert(storage_entries(self.entries@).subrange(0, i as int) =~= storage_entries(
            self.entries@,
        ));
        ContractStorage { entries }
    }
}

/// The state of one account.
#[derive(Debug, PartialEq, Eq)]
pub struct AccountState {
    /// Native balance.
    pub balance: u64,
    /// Number of transactions the account has applied.
    pub nonce: u64,
    /// Contract code, for contract accounts.
    pub code: Option<Vec<u8>>,
    /// Contract storage.
    pub storage: ContractStorage,
}

/// Mathematical value of an [`AccountState`].
pub struct AccountView {
    pub balance: u64,
    pub nonce: u64,
    pub code: Option<Seq<u8>>,
    pub storage: Map<Seq<u8>, Seq<u8>>,
}

/// The view of optional bytes.
pub open spec fn opt_bytes_view(o: Option<Vec<u8>>) -> Option<Seq<u8>> {
    match o {
        Some(v) => Some(v@),
        None => None,
    }
}

impl View for AccountState {
    type V = AccountView;

    open spec fn view(&self) -> AccountView {
        AccountView {
            balance: self.balance,
            nonce: self.nonce,
            code: opt_bytes_view(self.code),
            storage: self.storage@,
        }
    }
}

/// A fresh account: no balance, nonce zero, no code, empty storage.
pub open spec fn default_account() -> AccountView {
    AccountView { balance: 0, nonce: 0, code: None, storage: Map::empty() }
}

impl Default for AccountState {
    fn default() -> (account: Self)
        ensures
            account@ == default_account(),
    {
        AccountState { balance: 0, nonce: 0, code: None, storage: ContractStorage::new() }
    }
}

impl Clone for AccountState {
    fn clone(&self) -> (copy: Self)
        ensures
            copy@ == self@,
    {
        let code = match &self.code {
            Some(c) => Some(copy_bytes(c)),
            None => None,
        };
        AccountState {
            balance: self.balance,
            nonce: self.nonce,
            code,
            storage: self.storage.clone(),
        }
    }
}

/// The account at `a`, or a fresh account where there is none.
pub open spec fn account_or_default(m: Map<Address, AccountView>, a: Address) -> AccountView {
    if m.contains_key(a) {
        m[a]
    } else {
        default_account()
    }
}

/// The balance of `a` (zero where there is no account).
pub open spec fn balance_of(m: Map<Address, AccountView>, a: Address) -> u64 {
    account_or_default(m, a).balance
}

/// The nonce of `a` (zero where there is no account).
pub open spec fn nonce_of(m: Map<Address, AccountView>, a: Address) -> u64 {
    account_or_default(m, a).nonce
}

/// `m` with the balance of `a` set to `b` (creating the account if needed).
pub open spec fn with_balance(m: Map<Address, AccountView>, a: Address, b: u64) -> Map<Address, AccountView> {
    let acct = account_or_default(m, a);
    m.insert(a, AccountView { balance: b, nonce: acct.nonce, code: acct.code, storage: acct.storage })
}

/// `m` with the nonce of `a` set to `n` (creating the account if needed).
pub open spec fn with_nonce(m: Map<Address, AccountView>, a: Address, n: u64) -> Map<Address, AccountView> {
    let acct = account_or_default(m, a);
    m.insert(a, AccountView { balance: acct.balance, nonce: n, code: acct.code, storage: acct.storage })
}

/// A transfer that changes nothing: to oneself, or of nothing.
pub open spec fn transfer_is_noop(from: Address, to: Address, amount: u64) -> bool {
    from == to || amount == 0
}

/// The world after moving `amount` from `from` to `to`, where that is possible.
pub open spec fn spec_transfer(m: Map<Address, AccountView>, from: Address, to: Address, amount: u64) -> Map<Address, AccountView> {
    if transfer_is_noop(from, to, amount) {
        m
    } else {
        let debited = with_balance(m, from, (balance_of(m, from) - amount) as u64);
        with_balance(debited, to, (balance_of(debited, to) + amount) as u64)
    }
}

/// The transfer fails for want of balance.
pub open spec fn transfer_lacks_funds(m: Map<Address, AccountView>, from: Address, to: Address, amount: u64) -> bool {
    !transfer_is_noop(from, to, amount) && balance_of(m, from) < amount
}

/// The transfer would push the receiver's balance past `u64::MAX`.
pub open spec fn transfer_overflows(m: Map<Address, AccountView>, from: Address, to: Address, amount: u64) -> bool {
    !transfer_is_noop(from, to, amount) && balance_of(m, from) >= amount && balance_of(m, to)
        + amount > u64::MAX
}

/// `text` is the message of `error`.
pub open spec fn is_state_error_message(error: StateError, text: Seq<char>) -> bool {
    match error {
        StateError::InsufficientBalance { available, required } => text
            == "insufficient balance: available "@ + decimal_chars(available as nat)
            + ", required "@ + decimal_chars(required as nat),
        StateError::InvalidNonce { expected, got } => text == "invalid nonce for account: expected "@
            + decimal_chars(expected as nat) + ", got "@ + decimal_chars(got as nat),
        StateError::ContractAlreadyExists => text
            == "contract deployment already exists at derived address"@,
        StateError::ContractCodeMissing => text == "contract call target has no code"@,
        StateError::BalanceOverflow => text == "receiver balance would exceed u64::MAX"@,
        StateError::NonceOverflow => text == "sender nonce cannot advance past u64::MAX"@,
        StateError::CallEncoding(m) => text == "failed to encode call envelope: "@ + m@,
        StateError::Vm(e) => is_vm_error_message(e, text),
    }
}

/// Errors produced while applying a transaction to the world state.
#[derive(Debug)]
pub enum StateError {
    /// The sender cannot pay.
    InsufficientBalance { available: u64, required: u64 },
    /// The transaction's nonce is not the sender's next nonce.
    InvalidNonce { expected: u64, got: u64 },
    /// A contract already exists at the derived address.
    ContractAlreadyExists,
    /// The call target has no code.
    ContractCodeMissing,
    /// The receiver's balance would exceed `u64::MAX`.
    BalanceOverflow,
    /// The sender's nonce is already `u64::MAX` and cannot advance.
    NonceOverflow,
    /// The call envelope could not be encoded.
    CallEncoding(String),
    /// Contract execution failed.
    Vm(crate::vm::VmError),
}

impl StateError {
    /// Returns the human-readable message of this error.
    pub fn message(&self) -> (text: String)
        ensures
            is_state_error_message(*self, text@),
    {
        match self {
            StateError::InsufficientBalance { available, required } => {
                let mut text = String::from_str("insufficient balance: available ");
                push_decimal_text(&mut text, *available);
                text.append(", required ");
                push_decimal_text(&mut text, *required);
                text
            },
            StateError::InvalidNonce { expected, got } => {
                let mut text = String::from_str("invalid nonce for account: expected ");
                push_decimal_text(&mut text, *expected);
                text.append(", got ");
                push_decimal_text(&mut text, *got);
                text
            },
            StateError::ContractAlreadyExists => String::from_str(
                "contract deployment already exists at derived address",
            ),
            StateError::ContractCodeMissing => String::from_str("contract call target has no code"),
            StateError::BalanceOverflow => String::from_str("receiver balance would exceed u64::MAX"),
            StateError::NonceOverflow => String::from_str("sender nonce cannot advance past u64::MAX"),
            StateError::CallEncoding(m) => concat_text("failed to encode call envelope: ", m.as_str()),
            StateError::Vm(e) => e.message(),
        }
    }
}

/// The world state: every account by address. The accounts are an
/// association list (see `assoc`): addresses are 32-byte arrays, for which
/// vstd's specification of `HashMap` would let nothing be proved of a
/// lookup.
#[derive(Debug)]
pub struct WorldState {
    accounts: Vec<(Address, AccountState)>,
}

/// The entries of the account list as mathematical values.
pub open spec fn account_entries(accounts: Seq<(Address, AccountState)>) -> Seq<(Address, AccountView)> {
    accounts.map_values(|e: (Address, AccountState)| (e.0, e.1@))
}

impl View for WorldState {
    type V = Map<Address, AccountView>;

    closed spec fn view(&self) -> Map<Address, AccountView> {
        assoc_view(account_entries(self.accounts@))
    }
}

impl Default for WorldState {
    fn default() -> (state: Self)
        ensures
            state@ == Map::<Address, AccountView>::empty(),
    {
        WorldState::new()
    }
}

impl Clone for WorldState {
    fn clone(&self) -> (copy: Self)
        ensures
            copy@ == self@,
    {
        let mut accounts: Vec<(Address, AccountState)> = Vec::new();
        let mut i: usize = 0;
        while i < self.accounts.len()
            invariant
                i <= self.accounts@.len(),
                account_entries(accounts@) == account_entries(self.accounts@).subrange(0, i as int),
            decreases self.accounts@.len() - i,
        {
            let a = self.accounts[i].0;
            let acct = self.accounts[i].1.clone();
            let ghost before = accounts@;
            let ghost av = acct@;
            accounts.push((a, acct));
            assert(account_entries(accounts@) =~= account_entries(before).push((a, av)));
            i = i + 1;
            assert(account_entries(accounts@) =~= account_entries(self.accounts@).subrange(
                0,
                i as int,
            ));
        }
        assert(account_entries(self.accounts@).subrange(0, i as int) =~= account_entries(
            self.accounts@,
        ));
        WorldState { accounts }
    }
}

/// Replacing one account in the list replaces its view in the entries.
proof fn lemma_account_entries_update(
    v: Seq<(Address, AccountState)>,
    i: int,
    a: Address,
    acct: AccountState,
)
    requires
        0 <= i < v.len(),
    ensures
        account_entries(v.update(i, (a, acct))) == account_entries(v).update(i, (a, acct@)),
{
    assert(account_entries(v.update(i, (a, acct))) =~= account_entries(v).update(i, (a, acct@)));
}

impl WorldState {
    /// Creates an empty world state.
    pub fn new() -> (state: Self)
        ensures
            state@ == Map::<Address, AccountView>::empty(),
    {
        let state = WorldState { accounts: Vec::new() };
        assert(account_entries(state.accounts@) =~= Seq::<(Address, AccountView)>::empty());
        state
    }

    /// Finds the index of the account at `addr`, if present.
    fn find(&self, addr: &Address) -> (index: Option<usize>)
        ensures
            match index {
                Some(i) => is_first_index(account_entries(self.accounts@), *addr, i as int),
                None => key_absent(account_entries(self.accounts@), *addr),
            },
    {
        let ghost s = account_entries(self.accounts@);
        let mut i: usize = 0;
        while i < self.accounts.len()
            invariant
                i <= self.accounts@.len(),
                s == account_entries(self.accounts@),
                forall|j: int| 0 <= j < i ==> s[j].0 != *addr,
            decreases self.accounts@.len() - i,
        {
            if bytes32_equal(&self.accounts[i].0, addr) {
                return Some(i);
            }
            i = i + 1;
        }
        None
    }

    /// Returns the account at `addr`, if one exists.
    pub fn get_account(&self, addr: &Address) -> (account: Option<&AccountState>)
        ensures
            match account {
                Some(a) => self@.contains_key(*addr) && self@[*addr] == a@,
                None => !self@.contains_key(*addr),
            },
    {
        match self.find(addr) {
            Some(i) => {
                proof {
                    lemma_assoc_found(account_entries(self.accounts@), *addr, i as int);
                }
                Some(&self.accounts[i].1)
            },
            None => {
                proof {
                    lemma_assoc_absent(account_entries(self.accounts@), *addr);
                }
                None
            },
        }
    }

    /// Returns the index of the account at `addr`, creating a fresh account
    /// there first if none exists.
    fn index_or_create(&mut self, addr: &Address) -> (index: usize)
        ensures
            final(self)@ == old(self)@.insert(*addr, account_or_default(old(self)@, *addr)),
            is_first_index(account_entries(final(self).accounts@), *addr, index as int),
    {
        let ghost s = account_entries(self.accounts@);
        match self.find(addr) {
            Some(i) => {
                proof {
                    lemma_assoc_found(s, *addr, i as int);
                    assert(old(self)@.insert(*addr, account_or_default(old(self)@, *addr))
                        =~= old(self)@);
                }
                i
            },
            None => {
                let fresh = AccountState::default();
                let ghost fv = fresh@;
                self.accounts.push((*addr, fresh));
                proof {
                    lemma_assoc_absent(s, *addr);
                    lemma_assoc_push(s, *addr, fv);
                    assert(account_entries(self.accounts@) =~= s.push((*addr, fv)));
                    assert(is_first_index(account_entries(self.accounts@), *addr, s.len() as int));
                }
                self.accounts.len() - 1
            },
        }
    }

    /// Replaces the account at index `i` (the first entry for its address).
    fn replace_at(&mut self, i: usize, account: AccountState)
        requires
            0 <= i < old(self).accounts@.len(),
            is_first_index(account_entries(old(self).accounts@), old(self).accounts@[i as int].0, i as int),
        ensures
            final(self)@ == old(self)@.insert(old(self).accounts@[i as int].0, account@),
            final(self).accounts@.len() == old(self).accounts@.len(),
            is_first_index(account_entries(final(self).accounts@), old(self).accounts@[i as int].0, i as int),
    {
        let ghost s = account_entries(self.accounts@);
        let addr = self.accounts[i].0;
        let ghost av = account@;
        self.accounts.set(i, (addr, account));
        proof {
            lemma_assoc_update(s, addr, i as int, av);
            assert(account_entries(self.accounts@) =~= s.update(i as int, (addr, av)));
        }
    }

    /// Returns the account at `addr`, creating a fresh account if none exists.
    pub fn get_or_create(&mut self, addr: &Address) -> (account: &mut AccountState)
        ensures
            account@ == account_or_default(old(self)@, *addr),
            final(self)@ == old(self)@.insert(*addr, final(account)@),
    {
        let i = self.index_or_create(addr);
        let ghost s = account_entries(self.accounts@);
        proof {
            lemma_assoc_found(s, *addr, i as int);
        }
        let ghost mid = self.accounts@;
        let account = &mut self.accounts[i].1;
        proof {
            lemma_assoc_update(s, *addr, i as int, final(account)@);
            lemma_account_entries_update(mid, i as int, *addr, *final(account));
        }
        account
    }

    /// Returns the balance of `addr` (zero where there is no account).
    pub fn get_balance(&self, addr: &Address) -> (balance: u64)
        ensures
            balance == balance_of(self@, *addr),
    {
        match self.get_account(addr) {
            Some(account) => account.balance,
            None => 0,
        }
    }

    /// Returns the nonce of `addr` (zero where there is no account).
    pub fn get_nonce(&self, addr: &Address) -> (nonce: u64)
        ensures
            nonce == nonce_of(self@, *addr),
    {
        match self.get_account(addr) {
            Some(account) => account.nonce,
            None => 0,
        }
    }

    /// Sets the balance of `addr`, creating the account if needed.
    pub fn set_balance(&mut self, addr: &Address, balance: u64)
        ensures
            final(self)@ == with_balance(old(self)@, *addr, balance),
    {
        let i = self.index_or_create(addr);
        proof {
            lemma_assoc_found(account_entries(self.accounts@), *addr, i as int);
        }
        let mut account = self.accounts[i].1.clone();
        account.balance = balance;
        self.replace_at(i, account);
        assert(final(self)@ =~= with_balance(old(self)@, *addr, balance));
    }

    /// Moves `amount` from `from` to `to`. A transfer to oneself or of zero
    /// changes nothing; a sender short of funds, or a receiver whose balance
    /// would overflow, is an error and changes nothing.
    pub fn transfer(&mut self, from: &Address, to: &Address, amount: u64) -> (result: Result<(), StateError>)
        ensures
            transfer_lacks_funds(old(self)@, *from, *to, amount) ==> (result matches Err(
                StateError::InsufficientBalance { available, required },
            ) && available == balance_of(old(self)@, *from) && required == amount),
            transfer_overflows(old(self)@, *from, *to, amount) ==> result matches Err(
                StateError::BalanceOverflow,
            ),
            result is Err ==> final(self)@ == old(self)@,
            !transfer_lacks_funds(old(self)@, *from, *to, amount) && !transfer_overflows(
                old(self)@,
                *from,
                *to,
                amount,
            ) ==> result is Ok && final(self)@ == spec_transfer(old(self)@, *from, *to, amount),
    {
        if bytes32_equal(from, to) || amount == 0 {
            return Ok(());
        }
        let available = self.get_balance(from);
        if available < amount {
            return Err(StateError::InsufficientBalance { available, required: amount });
        }
        let received = self.get_balance(to);
        if received > u64::MAX - amount {
            return Err(StateError::BalanceOverflow);
        }
        self.set_balance(from, available - amount);
        let received_now = self.get_balance(to);
        self.set_balance(to, received_now + amount);
        Ok(())
    }

    /// Sets the nonce of `addr`, creating the account if needed.
    pub fn set_nonce(&mut self, addr: &Address, nonce: u64)
        ensures
            final(self)@ == with_nonce(old(self)@, *addr, nonce),
    {
        let i = self.index_or_create(addr);
        proof {
            lemma_assoc_found(account_entries(self.accounts@), *addr, i as int);
        }
        let mut account = self.accounts[i].1.clone();
        account.nonce = nonce;
        self.replace_at(i, account);
        assert(final(self)@ =~= with_nonce(old(self)@, *addr, nonce));
    }

    /// Prepares a contract call for the engine: the contract's code, the
    /// encoded call envelope, and a copy of the world with the deposit moved
    /// from the caller to the contract. It fails, checking in this order,
    /// when the contract has no code, when the envelope cannot be encoded,
    /// and when the deposit cannot move.
    pub fn call_inputs(
        &self,
        caller: &Address,
        contract: &Address,
        method: &str,
        args: &[u8],
        deposit: u64,
    ) -> (inputs: Result<CallInputs, StateError>)
        ensures
            ({
                let target = account_or_default(self@, *contract);
                if target.code is None {
                    inputs matches Err(StateError::ContractCodeMissing)
                } else if !envelope_fits(method@, args@) {
                    inputs matches Err(StateError::CallEncoding(_))
                } else if transfer_lacks_funds(self@, *caller, *contract, deposit) {
                    &&& inputs matches Err(StateError::InsufficientBalance { available, required })
                    &&& available == balance_of(self@, *caller)
                    &&& required == deposit
                } else if transfer_overflows(self@, *caller, *contract, deposit) {
                    inputs matches Err(StateError::BalanceOverflow)
                } else {
                    &&& inputs matches Ok(p)
                    &&& p.state@ == spec_transfer(self@, *caller, *contract, deposit)
                    &&& p.input@ == envelope_bytes(method@, args@)
                    &&& Some(p.code@) == target.code
                }
            }),
    {
        let code = match self.get_account(contract) {
            Some(account) => match &account.code {
                Some(code) => copy_bytes(code),
                None => return Err(StateError::ContractCodeMissing),
            },
            None => return Err(StateError::ContractCodeMissing),
        };
        let envelope = CallEnvelope::new(method, crate::encoding::copy_bytes_from_slice(args));
        let input = match envelope.encode() {
            Ok(input) => input,
            Err(message) => return Err(StateError::CallEncoding(message)),
        };
        let mut state = self.clone();
        match state.transfer(caller, contract, deposit) {
            Ok(()) => {},
            Err(error) => return Err(error),
        }
        Ok(CallInputs { state, input, code })
    }

    /// Completes a contract call with the engine's outcome: on success the
    /// world becomes the state the call left, with the sender's nonce set to
    /// `next_nonce`, and the gas charged is the base cost plus the call's
    /// (saturating); on failure nothing changes and the engine's error is
    /// returned.
    pub fn commit_call_outcome(
        &mut self,
        sender: &Address,
        next_nonce: u64,
        outcome: Result<(WorldState, ExecutionContext, GasReport), VmError>,
    ) -> (result: Result<(ExecutionContext, GasReport), StateError>)
        ensures
            outcome matches Ok((state, context, gas)) ==> (result matches Ok((c, g)) && c == context
                && g == (GasReport {
                gas_limit: DEFAULT_GAS_LIMIT,
                gas_used: BASE_TX_COST.saturating_add(gas.gas_used),
            }) && final(self)@ == with_nonce(state@, *sender, next_nonce)),
            outcome matches Err(e) ==> (result matches Err(StateError::Vm(r)) && r == e
                && final(self)@ == old(self)@),
    {
        match outcome {
            Ok((state, context, gas)) => {
                *self = state;
                self.set_nonce(sender, next_nonce);
                Ok(
                    (
                        context,
                        GasReport {
                            gas_limit: DEFAULT_GAS_LIMIT,
                            gas_used: BASE_TX_COST.saturating_add(gas.gas_used),
                        },
                    ),
                )
            },
            Err(error) => Err(StateError::Vm(error)),
        }
    }

    /// Applies a transaction to the world state, running contract calls on
    /// `vm` when one is given. On any error the state is unchanged.
    pub fn apply_transaction_with_vm(
        &mut self,
        transaction: &Transaction,
        vm: Option<&mut VmEngine>,
    ) -> (result: Result<(ExecutionContext, GasReport), StateError>)
        ensures
            result is Err ==> final(self)@ == old(self)@,
            result matches Ok((_, gas)) ==> gas.gas_limit == DEFAULT_GAS_LIMIT && gas.gas_used
                >= BASE_TX_COST,
            transaction.nonce != nonce_of(old(self)@, transaction.sender) ==> (result matches Err(
                StateError::InvalidNonce { expected, got },
            ) && expected == nonce_of(old(self)@, transaction.sender) && got == transaction.nonce),
            transaction.nonce == nonce_of(old(self)@, transaction.sender) && transaction.nonce
                == u64::MAX ==> (result matches Err(StateError::NonceOverflow)),
            nonce_ready(old(self)@, transaction@) ==> apply_errors(
                old(self)@,
                transaction@,
                result,
            ),
            vm is None || !(transaction.payload is Call) ==> (result is Ok <==> spec_apply(
                old(self)@,
                transaction@,
            ) is Some),
            result is Ok && (vm is None || !(transaction.payload is Call)) ==> final(self)@
                == spec_apply(old(self)@, transaction@).unwrap(),
            vm is None || !(transaction.payload is Call) ==> (result matches Ok((context, gas))
                ==> simple_outcome(transaction@, context, gas)),
            vm is Some && transaction.payload is Call && call_ready(old(self)@, transaction@) ==> (
            result is Ok ==> nonce_of(final(self)@, transaction.sender) == transaction.nonce + 1)
                && (result is Err ==> result matches Err(StateError::Vm(_))),
            vm matches Some(engine) ==> (!call_ready(old(self)@, transaction@) ==> *final(engine) == *engine),
            vm matches Some(engine) ==> (call_ready(old(self)@, transaction@) ==> exists|
                e: &mut VmEngine,
                request: CallRequest,
                outcome: Result<(WorldState, ExecutionContext, GasReport), VmError>,
            |
                #[trigger] call_ensures(VmEngine::execute_call_with_state, (e, request), outcome) && *e
                    == *engine && *final(e) == *final(engine) && engine_request_for(
                    old(self)@,
                    transaction@,
                    request,
                ) && call_committed(old(self)@, transaction@, outcome, final(self)@, result)),
            vm matches Some(engine) ==> (call_ready(old(self)@, transaction@) ==> engine_call_outcome(
                old(self)@,
                transaction@,
                engine.cached_hashes(),
                final(engine).cached_hashes(),
                result,
            )),
    {
        let sender = transaction.sender;
        let expected_nonce = self.get_nonce(&sender);
        if transaction.nonce != expected_nonce {
            return Err(StateError::InvalidNonce { expected: expected_nonce, got: transaction.nonce });
        }
        if transaction.nonce == u64::MAX {
            return Err(StateError::NonceOverflow);
        }
        let next_nonce: u64 = transaction.nonce + 1;
        let mut gas_report = GasReport { gas_limit: DEFAULT_GAS_LIMIT, gas_used: BASE_TX_COST };
        let context;
        match &transaction.payload {
            Payload::Transfer { receiver, amount } => {
                match self.transfer(&sender, receiver, *amount) {
                    Ok(()) => {},
                    Err(error) => return Err(error),
                }
                context = ExecutionContext::new(sender, sender, 0, Vec::new());
            },
            Payload::Deploy { code } => {
                let contract = transaction.derived_contract_address();
                if self.get_account(&contract).is_some() {
                    return Err(StateError::ContractAlreadyExists);
                }
                let account = self.get_or_create(&contract);
                account.code = Some(crate::encoding::copy_bytes(code));
                gas_report.gas_used = gas_report.gas_used.saturating_add(deploy_cost(code.len()));
                context = ExecutionContext::new(sender, sender, 0, Vec::new());
            },
            Payload::Call { contract, method, args, deposit } => {
                let inputs = match self.call_inputs(&sender, contract, method.as_str(), args.as_slice(), *deposit) {
                    Ok(inputs) => inputs,
                    Err(error) => return Err(error),
                };
                let CallInputs { state: working_state, input, code } = inputs;
                match vm {
                    Some(vm) => {
                        let outcome = vm.execute_call_with_state(
                            CallRequest {
                                state: working_state,
                                caller: sender,
                                contract: *contract,
                                deposit: *deposit,
                                method: method.as_str(),
                                args: input.as_slice(),
                                code: code.as_slice(),
                                gas_limit: DEFAULT_GAS_LIMIT.saturating_sub(BASE_TX_COST),
                            },
                        );
                        return self.commit_call_outcome(&sender, next_nonce, outcome);
                    },
                    None => {
                        *self = working_state;
                        context = ExecutionContext::new(sender, *contract, *deposit, input);
                    },
                }
            },
        }
        self.set_nonce(&sender, next_nonce);
        Ok((context, gas_report))
    }

    /// Applies a transaction without a contract engine.
    pub fn apply_transaction(&mut self, transaction: &Transaction) -> (result: Result<(), StateError>)
        ensures
            transaction.nonce != nonce_of(old(self)@, transaction.sender) ==> (result matches Err(
                StateError::InvalidNonce { expected, got },
            ) && expected == nonce_of(old(self)@, transaction.sender) && got == transaction.nonce),
            transaction.nonce == nonce_of(old(self)@, transaction.sender) && transaction.nonce
                == u64::MAX ==> (result matches Err(StateError::NonceOverflow)),
            nonce_ready(old(self)@, transaction@) ==> apply_errors(old(self)@, transaction@, result),
            result is Ok <==> spec_apply(old(self)@, transaction@) is Some,
            result is Ok ==> final(self)@ == spec_apply(old(self)@, transaction@).unwrap(),
            result is Err ==> final(self)@ == old(self)@,
    {
        match self.apply_transaction_with_vm(transaction, None) {
            Ok(_) => Ok(()),
            Err(error) => Err(error),
        }
    }

    /// Applies the transactions of a block in order, without a contract
    /// engine, stopping at the first that fails; the transactions before it
    /// stay applied, and the error is the one that transaction fails with.
    #[verifier::spinoff_prover]
    pub fn apply_block(&mut self, block: &Block) -> (result: Result<(), StateError>)
        ensures
            result is Ok <==> spec_apply_all(old(self)@, transactions_of(block@)).1,
            final(self)@ == spec_apply_all(old(self)@, transactions_of(block@)).0,
            result matches Err(e) ==> exists|k: int|
                0 <= k < transactions_of(block@).len() && #[trigger] spec_apply_all(
                    old(self)@,
                    transactions_of(block@).take(k),
                ) == (final(self)@, true) && apply_failed_with(final(self)@, transactions_of(block@)[k], e),
    {
        let ghost txs = transactions_of(block@);
        let mut i: usize = 0;
        while i < block.transactions.len()
            invariant
                i <= block.transactions@.len(),
                txs == transactions_of(block@),
                spec_apply_all(old(self)@, txs.subrange(0, i as int)) == (self@, true),
            decreases block.transactions@.len() - i,
        {
            let ghost before = self@;
            proof {
                lemma_apply_all_push(old(self)@, txs.subrange(0, i as int), txs[i as int]);
                assert(txs.subrange(0, i + 1 as int) =~= txs.subrange(0, i as int).push(txs[i as int]));
            }
            match self.apply_transaction(&block.transactions[i]) {
                Ok(()) => {},
                Err(error) => {
                    proof {
                        law_apply_all_stops_at_failure(old(self)@, txs, i as int);
                        assert(txs.take(i as int) =~= txs.subrange(0, i as int));
                        assert(apply_failed_with(self@, txs[i as int], error));
                    }
                    return Err(error);
                },
            }
            i = i + 1;
        }
        assert(txs.subrange(0, txs.len() as int) =~= txs);
        Ok(())
    }
}

/// Applying `tx` to `m` without running contract code failed with `error`:
/// the transaction does not apply, and the error is the one its first
/// failing check gives.
pub open spec fn apply_failed_with(m: Map<Address, AccountView>, tx: TransactionView, error: StateError) -> bool {
    &&& spec_apply(m, tx) is None
    &&& tx.nonce != nonce_of(m, tx.sender) ==> error == (StateError::InvalidNonce {
        expected: nonce_of(m, tx.sender),
        got: tx.nonce,
    })
    &&& tx.nonce == nonce_of(m, tx.sender) && tx.nonce == u64::MAX ==> error is NonceOverflow
    &&& nonce_ready(m, tx) ==> apply_errors(m, tx, Err::<(), StateError>(error))
}

/// The transactions of a block, as values.
pub open spec fn transactions_of(b: crate::block::BlockView) -> Seq<TransactionView> {
    b.transactions
}

/// The account created by deploying `code`.
pub open spec fn deployed_account(code: Seq<u8>) -> AccountView {
    AccountView { balance: 0, nonce: 0, code: Some(code), storage: Map::empty() }
}

/// The sender's nonce matches and can still advance.
pub open spec fn nonce_ready(m: Map<Address, AccountView>, tx: TransactionView) -> bool {
    tx.nonce == nonce_of(m, tx.sender) && tx.nonce < u64::MAX
}

/// A call passes every check before contract code runs.
pub open spec fn call_ready(m: Map<Address, AccountView>, tx: TransactionView) -> bool {
    nonce_ready(m, tx) && match tx.payload {
        PayloadView::Call { contract, method, args, deposit } => {
            &&& account_or_default(m, contract).code is Some
            &&& envelope_fits(method, args)
            &&& !transfer_lacks_funds(m, tx.sender, contract, deposit)
            &&& !transfer_overflows(m, tx.sender, contract, deposit)
        },
        _ => false,
    }
}

/// The effect of a transaction's payload before the nonce advances, without
/// running contract code; `None` where it fails.
pub open spec fn spec_payload_effect(m: Map<Address, AccountView>, tx: TransactionView) -> Option<Map<Address, AccountView>> {
    let s = tx.sender;
    match tx.payload {
        PayloadView::Transfer { receiver, amount } => if transfer_lacks_funds(m, s, receiver, amount)
            || transfer_overflows(m, s, receiver, amount) {
            None
        } else {
            Some(spec_transfer(m, s, receiver, amount))
        },
        PayloadView::Deploy { code } => {
            let c = spec_contract_address(s, tx.nonce);
            if m.contains_key(c) {
                None
            } else {
                Some(m.insert(c, deployed_account(code)))
            }
        },
        PayloadView::Call { contract, method, args, deposit } => if account_or_default(
            m,
            contract,
        ).code is None || !envelope_fits(method, args) || transfer_lacks_funds(
            m,
            s,
            contract,
            deposit,
        ) || transfer_overflows(m, s, contract, deposit) {
            None
        } else {
            Some(spec_transfer(m, s, contract, deposit))
        },
    }
}

/// The world after applying a transaction without running contract code;
/// `None` where it fails.
pub open spec fn spec_apply(m: Map<Address, AccountView>, tx: TransactionView) -> Option<Map<Address, AccountView>> {
    if !nonce_ready(m, tx) {
        None
    } else {
        match spec_payload_effect(m, tx) {
            Some(m2) => Some(with_nonce(m2, tx.sender, (tx.nonce + 1) as u64)),
            None => None,
        }
    }
}

/// Applying transactions in order, stopping at the first failure: the world
/// reached and whether all succeeded.
pub open spec fn spec_apply_all(m: Map<Address, AccountView>, txs: Seq<TransactionView>) -> (Map<Address, AccountView>, bool)
    decreases txs.len(),
{
    if txs.len() == 0 {
        (m, true)
    } else {
        let (m1, ok) = spec_apply_all(m, txs.drop_last());
        if !ok {
            (m1, false)
        } else {
            match spec_apply(m1, txs.last()) {
                Some(m2) => (m2, true),
                None => (m1, false),
            }
        }
    }
}

/// Which error a failing transaction gets, once its nonce is ready.
pub open spec fn apply_errors<T>(
    m: Map<Address, AccountView>,
    tx: TransactionView,
    result: Result<T, StateError>,
) -> bool {
    let s = tx.sender;
    match tx.payload {
        PayloadView::Transfer { receiver, amount } => {
            &&& transfer_lacks_funds(m, s, receiver, amount) ==> (result matches Err(
                StateError::InsufficientBalance { available, required },
            ) && available == balance_of(m, s) && required == amount)
            &&& transfer_overflows(m, s, receiver, amount) ==> (result matches Err(
                StateError::BalanceOverflow,
            ))
        },
        PayloadView::Deploy { .. } => m.contains_key(spec_contract_address(s, tx.nonce)) ==> (
        result matches Err(StateError::ContractAlreadyExists)),
        PayloadView::Call { contract, method, args, deposit } => {
            &&& account_or_default(m, contract).code is None ==> (result matches Err(
                StateError::ContractCodeMissing,
            ))
            &&& account_or_default(m, contract).code is Some && !envelope_fits(method, args) ==> (
            result matches Err(StateError::CallEncoding(_)))
            &&& account_or_default(m, contract).code is Some && envelope_fits(method, args)
                && transfer_lacks_funds(m, s, contract, deposit) ==> (result matches Err(
                StateError::InsufficientBalance { available, required },
            ) && available == balance_of(m, s) && required == deposit)
            &&& account_or_default(m, contract).code is Some && envelope_fits(method, args)
                && transfer_overflows(m, s, contract, deposit) ==> (result matches Err(
                StateError::BalanceOverflow,
            ))
        },
    }
}

/// What a contract call hands the engine besides its header fields.
pub struct CallInputs {
    /// The world with the deposit already moved to the contract.
    pub state: WorldState,
    /// The Borsh-encoded call envelope.
    pub input: Vec<u8>,
    /// The contract's code.
    pub code: Vec<u8>,
}

/// `request` is what a ready contract call `tx` on world `m` hands the
/// engine: the world with the deposit moved to the contract, the sender as
/// caller, the call's contract, deposit and method, the encoded envelope as
/// input, the contract's code, and the gas limit less the base cost.
pub open spec fn engine_request_for(m: Map<Address, AccountView>, tx: TransactionView, request: CallRequest) -> bool {
    match tx.payload {
        PayloadView::Call { contract, method, args, deposit } => {
            &&& request.state@ == spec_transfer(m, tx.sender, contract, deposit)
            &&& request.caller == tx.sender
            &&& request.contract == contract
            &&& request.deposit == deposit
            &&& request.method@ == method
            &&& request.args@ == envelope_bytes(method, args)
            &&& Some(request.code@) == account_or_default(m, contract).code
            &&& request.gas_limit == DEFAULT_GAS_LIMIT - BASE_TX_COST
        },
        _ => false,
    }
}

/// How the engine's `outcome` for a call `tx` on world `m` is committed: on
/// success the world becomes the engine's world with the sender's nonce
/// advanced, and the result is the engine's context with the base cost
/// added to its gas; on failure the world is unchanged and the error is the
/// engine's.
pub open spec fn call_committed(
    m: Map<Address, AccountView>,
    tx: TransactionView,
    outcome: Result<(WorldState, ExecutionContext, GasReport), VmError>,
    after: Map<Address, AccountView>,
    result: Result<(ExecutionContext, GasReport), StateError>,
) -> bool {
    match outcome {
        Ok((state, context, gas)) => {
            &&& after == with_nonce(state@, tx.sender, (tx.nonce + 1) as u64)
            &&& result matches Ok((c, g)) && c == context && g == (GasReport {
                gas_limit: DEFAULT_GAS_LIMIT,
                gas_used: if BASE_TX_COST + gas.gas_used > u64::MAX {
                    u64::MAX
                } else {
                    (BASE_TX_COST + gas.gas_used) as u64
                },
            })
        },
        Err(e) => {
            &&& after == m
            &&& result matches Err(StateError::Vm(r)) && r == e
        },
    }
}

/// What is known of a contract call that ran on the engine: on success the
/// context is the sender's call of the contract with the deposit and the
/// encoded envelope as input, and the gas charged is the base cost plus at
/// most the rest of the gas limit; a failure is the engine's error, and a
/// missing method is reported by its name; the engine's cache is unchanged
/// or has gained the hash of the contract's code.
pub open spec fn engine_call_outcome(
    m: Map<Address, AccountView>,
    tx: TransactionView,
    cache_before: Seq<[u8; 32]>,
    cache_now: Seq<[u8; 32]>,
    result: Result<(ExecutionContext, GasReport), StateError>,
) -> bool {
    match tx.payload {
        PayloadView::Call { contract, method, args, deposit } => {
            &&& result matches Ok((c, g)) ==> {
                &&& c.caller == tx.sender
                &&& c.contract == contract
                &&& c.deposit == deposit
                &&& c.args@ == envelope_bytes(method, args)
                &&& !c.reverted
                &&& c.revert_message is None
                &&& g.gas_limit == DEFAULT_GAS_LIMIT
                &&& BASE_TX_COST <= g.gas_used <= DEFAULT_GAS_LIMIT
            }
            &&& result matches Err(e) ==> (e matches StateError::Vm(v) && (v matches VmError::MissingMethod(
                name,
            ) ==> name@ == method))
            &&& cache_now == cache_before || cache_now == cache_after(
                cache_before,
                spec_code_hash(account_or_default(m, contract).code.unwrap()),
            )
        },
        _ => true,
    }
}

/// The context and gas of a transaction applied without running contract
/// code: transfers and deployments run in the sender's own context with no
/// input; a call's context carries the encoded envelope. Gas is the base
/// cost, plus the code's cost for a deployment.
pub open spec fn simple_outcome(tx: TransactionView, context: ExecutionContext, gas: GasReport) -> bool {
    &&& gas.gas_limit == DEFAULT_GAS_LIMIT
    &&& !context.reverted
    &&& context.revert_message is None
    &&& context.logs@.len() == 0
    &&& context.caller == tx.sender
    &&& match tx.payload {
        PayloadView::Transfer { .. } => {
            &&& context.contract == tx.sender
            &&& context.deposit == 0
            &&& context.args@.len() == 0
            &&& gas.gas_used == BASE_TX_COST
        },
        PayloadView::Deploy { code } => {
            &&& context.contract == tx.sender
            &&& context.deposit == 0
            &&& context.args@.len() == 0
            &&& gas.gas_used == (if BASE_TX_COST + spec_deploy_cost(code.len()) > u64::MAX {
                u64::MAX
            } else {
                (BASE_TX_COST + spec_deploy_cost(code.len())) as u64
            })
        },
        PayloadView::Call { contract, method, args, deposit } => {
            &&& context.contract == contract
            &&& context.deposit == deposit
            &&& context.args@ == envelope_bytes(method, args)
            &&& gas.gas_used == BASE_TX_COST
        },
    }
}

/// Extending the list by one transaction applies it after the others.
pub proof fn lemma_apply_all_push(m: Map<Address, AccountView>, txs: Seq<TransactionView>, tx: TransactionView)
    ensures
        spec_apply_all(m, txs.push(tx)) == ({
            let (m1, ok) = spec_apply_all(m, txs);
            if !ok {
                (m1, false)
            } else {
                match spec_apply(m1, tx) {
                    Some(m2) => (m2, true),
                    None => (m1, false),
                }
            }
        }),
{
    assert(txs.push(tx).drop_last() =~= txs);
}

/// When the transactions before position `i` all apply and the one at `i`
/// fails, applying the whole list stops there: the world is the one the
/// transactions before `i` left, and the list did not apply.
pub proof fn law_apply_all_stops_at_failure(m: Map<Address, AccountView>, txs: Seq<TransactionView>, i: int)
    requires
        0 <= i < txs.len(),
        spec_apply_all(m, txs.subrange(0, i)).1,
        spec_apply(spec_apply_all(m, txs.subrange(0, i)).0, txs[i]) is None,
    ensures
        spec_apply_all(m, txs) == (spec_apply_all(m, txs.subrange(0, i)).0, false),
    decreases txs.len(),
{
    if i == txs.len() - 1 {
        assert(txs.drop_last() =~= txs.subrange(0, i));
    } else {
        let shorter = txs.drop_last();
        assert(shorter.subrange(0, i) =~= txs.subrange(0, i));
        assert(shorter[i] == txs[i]);
        law_apply_all_stops_at_failure(m, shorter, i);
    }
}


/// Applying the transactions of two blocks as one list is applying the
/// first block, then, if all of it applied, the second block from the world
/// it left; if the first block stopped at a failure, the second changes
/// nothing.
pub proof fn law_apply_all_concat(m: Map<Address, AccountView>, first: Seq<TransactionView>, second: Seq<TransactionView>)
    ensures
        spec_apply_all(m, first + second) == ({
            let (m1, ok) = spec_apply_all(m, first);
            if ok {
                spec_apply_all(m1, second)
            } else {
                (m1, false)
            }
        }),
    decreases second.len(),
{
    if second.len() == 0 {
        assert(first + second =~= first);
    } else {
        let shorter = second.drop_last();
        law_apply_all_concat(m, first, shorter);
        assert((first + second).drop_last() =~= first + shorter);
        assert((first + second).last() == second.last());
        let (m1, ok) = spec_apply_all(m, first);
        if !ok {
            lemma_apply_all_failed_stays(m, first + shorter, second.last());
        }
    }
}

/// Once a list has stopped at a failure, one more transaction changes
/// nothing.
proof fn lemma_apply_all_failed_stays(m: Map<Address, AccountView>, txs: Seq<TransactionView>, tx: TransactionView)
    requires
        !spec_apply_all(m, txs).1,
    ensures
        spec_apply_all(m, txs.push(tx)) == spec_apply_all(m, txs),
{
    lemma_apply_all_push(m, txs, tx);
}

/// A transfer that can go through conserves value: the sender's balance
/// drops by the amount, the receiver's rises by it, nothing else about the
/// two accounts changes, and every other account is left as it was. A
/// transfer to oneself, or of nothing, changes nothing.
pub proof fn law_transfer_conserves(m: Map<Address, AccountView>, from: Address, to: Address, amount: u64)
    requires
        !transfer_lacks_funds(m, from, to, amount),
        !transfer_overflows(m, from, to, amount),
    ensures
        transfer_is_noop(from, to, amount) ==> spec_transfer(m, from, to, amount) == m,
        !transfer_is_noop(from, to, amount) ==> {
            let after = spec_transfer(m, from, to, amount);
            &&& balance_of(after, from) == balance_of(m, from) - amount
            &&& balance_of(after, to) == balance_of(m, to) + amount
            &&& balance_of(after, from) + balance_of(after, to) == balance_of(m, from) + balance_of(m, to)
            &&& nonce_of(after, from) == nonce_of(m, from)
            &&& nonce_of(after, to) == nonce_of(m, to)
            &&& account_or_default(after, from).code == account_or_default(m, from).code
            &&& account_or_default(after, to).code == account_or_default(m, to).code
            &&& forall|a: Address| a != from && a != to ==> #[trigger] account_or_default(after, a)
                == account_or_default(m, a)
        },
{
}

} // verus!
