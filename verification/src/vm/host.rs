//! Host-side semantics of the functions a contract can import: the state
//! they read and change, independent of how guest memory is reached.

use crate::state::{
    account_or_default, balance_of, nonce_of, spec_transfer, transfer_lacks_funds, transfer_overflows,
    AccountView, WorldState,
};
use crate::text::concat_text;
use crate::vm::is_host_error_message;
use crate::transaction::Address;
use crate::encoding::copy_bytes;
use crate::vm::gas::{STORAGE_READ_COST, STORAGE_REMOVE_COST, STORAGE_WRITE_COST, TRANSFER_COST};
use crate::vm::wasm::{
    caller_data, caller_data_mut, caller_get_fuel, caller_read_memory, caller_set_fuel,
    caller_write_memory, error_msg, error_text, MemoryFault,
};
use vstd::prelude::*;
use wasmtime::{Caller, Linker};

verus! {

/// Runtime context captured for a contract execution.
#[derive(Debug)]
pub struct ExecutionContext {
    /// External account that initiated the call.
    pub caller: Address,
    /// Contract currently being executed.
    pub contract: Address,
    /// Balance transferred into the contract before execution.
    pub deposit: u64,
    /// Raw input bytes visible to the guest.
    pub args: Vec<u8>,
    /// Whether execution requested a revert/abort.
    pub reverted: bool,
    /// Optional revert message captured from the guest.
    pub revert_message: Option<String>,
    /// Log lines emitted by the guest.
    pub logs: Vec<String>,
}

impl ExecutionContext {
    /// Creates a fresh execution context: not reverted, no message, no logs.
    pub fn new(caller: Address, contract: Address, deposit: u64, args: Vec<u8>) -> (context: Self)
        ensures
            context.caller == caller,
            context.contract == contract,
            context.deposit == deposit,
            context.args == args,
            !context.reverted,
            context.revert_message is None,
            context.logs@.len() == 0,
    {
        ExecutionContext {
            caller,
            contract,
            deposit,
            args,
            reverted: false,
            revert_message: None,
            logs: Vec::new(),
        }
    }
}

/// Mutable host state stored inside the engine's store during execution.
#[derive(Debug)]
pub struct VmHostState {
    /// World state being mutated by the guest call.
    pub state: WorldState,
    /// Current execution context, if one has been initialized.
    pub context: Option<ExecutionContext>,
}

impl Default for VmHostState {
    fn default() -> (host: Self)
        ensures
            host.state@ == Map::<Address, AccountView>::empty(),
            host.context is None,
    {
        VmHostState { state: WorldState::new(), context: None }
    }
}

/// Errors raised by host functions when reaching guest memory or state.
#[derive(Debug, PartialEq, Eq)]
pub enum HostError {
    /// The guest exports no memory named `memory`.
    MissingMemory,
    /// A pointer or length was negative.
    NegativeOffset,
    /// A guest memory access fell outside the memory.
    OutOfBounds,
    /// No execution context is installed.
    MissingContext,
    /// A state operation failed; its message.
    State(String),
    /// Gas could not be charged; the reason.
    Gas(String),
}

impl HostError {
    /// Returns the human-readable message of this error.
    pub fn message(&self) -> (text: String)
        ensures
            match self {
                HostError::MissingMemory => text@ == "guest memory export \"memory\" is missing"@,
                HostError::NegativeOffset => text@ == "negative pointer or length"@,
                HostError::OutOfBounds => text@ == "guest memory access out of bounds"@,
                HostError::MissingContext => text@ == "execution context is missing"@,
                HostError::State(m) => text@ == "state operation failed: "@ + m@,
                HostError::Gas(m) => text@ == "failed to charge gas: "@ + m@,
            },
    {
        match self {
            HostError::MissingMemory => String::from_str("guest memory export \"memory\" is missing"),
            HostError::NegativeOffset => String::from_str("negative pointer or length"),
            HostError::OutOfBounds => String::from_str("guest memory access out of bounds"),
            HostError::MissingContext => String::from_str("execution context is missing"),
            HostError::State(m) => concat_text("state operation failed: ", m.as_str()),
            HostError::Gas(m) => concat_text("failed to charge gas: ", m.as_str()),
        }
    }
}

/// The range `[ptr, ptr + len)` of guest memory, when both are non-negative.
pub fn checked_offset(ptr: i32, len: i32) -> (range: Result<core::ops::Range<usize>, HostError>)
    ensures
        (ptr < 0 || len < 0) ==> range == Err::<core::ops::Range<usize>, HostError>(
            HostError::NegativeOffset,
        ),
        (ptr >= 0 && len >= 0) ==> (range matches Ok(r) && r.start == ptr && r.end == ptr + len),
{
    if ptr < 0 || len < 0 {
        return Err(HostError::NegativeOffset);
    }
    let start: usize = ptr as usize;
    let length: usize = len as usize;
    Ok(start..start + length)
}

/// The fuel left after charging `amount`, or a gas error if there is not
/// enough.
pub fn charge(fuel: u64, amount: u64) -> (left: Result<u64, HostError>)
    ensures
        fuel >= amount ==> left == Ok::<u64, HostError>((fuel - amount) as u64),
        fuel < amount ==> (left matches Err(HostError::Gas(m)) && m@ == "out of fuel"@),
{
    match fuel.checked_sub(amount) {
        Some(left) => Ok(left),
        None => Err(HostError::Gas(String::from_str("out of fuel"))),
    }
}

/// The value under `key` in the storage of contract `c`, if any.
pub open spec fn storage_value(m: Map<Address, AccountView>, c: Address, key: Seq<u8>) -> Option<Seq<u8>> {
    let storage = account_or_default(m, c).storage;
    if storage.contains_key(key) {
        Some(storage[key])
    } else {
        None
    }
}

/// `m` with the storage of contract `c` replaced by `storage`.
pub open spec fn with_storage(m: Map<Address, AccountView>, c: Address, storage: Map<Seq<u8>, Seq<u8>>) -> Map<Address, AccountView> {
    let acct = account_or_default(m, c);
    m.insert(c, AccountView { balance: acct.balance, nonce: acct.nonce, code: acct.code, storage })
}

/// A contract can change the world only through its own storage and by
/// paying out of its balance: writing or removing storage, and a transfer,
/// leave every account's nonce and code as they were.
pub proof fn law_host_effects_keep_nonces_and_code(
    m: Map<Address, AccountView>,
    contract: Address,
    storage: Map<Seq<u8>, Seq<u8>>,
    to: Address,
    amount: u64,
    a: Address,
)
    ensures
        nonce_of(with_storage(m, contract, storage), a) == nonce_of(m, a),
        account_or_default(with_storage(m, contract, storage), a).code == account_or_default(m, a).code,
        nonce_of(spec_transfer(m, contract, to, amount), a) == nonce_of(m, a),
        account_or_default(spec_transfer(m, contract, to, amount), a).code == account_or_default(m, a).code,
{
}

/// The host state is unchanged.
pub open spec fn host_unchanged(before: VmHostState, after: VmHostState) -> bool {
    after.state@ == before.state@ && after.context == before.context
}

/// Reads `key` from the executing contract's storage.
pub fn host_storage_read(data: &VmHostState, key: &[u8]) -> (value: Result<Option<Vec<u8>>, HostError>)
    ensures
        data.context is None ==> value == Err::<Option<Vec<u8>>, HostError>(HostError::MissingContext),
        data.context matches Some(ctx) ==> (value matches Ok(v) && match v {
            Some(bytes) => storage_value(data.state@, ctx.contract, key@) == Some(bytes@),
            None => storage_value(data.state@, ctx.contract, key@) is None,
        }),
{
    let contract = match &data.context {
        Some(ctx) => ctx.contract,
        None => return Err(HostError::MissingContext),
    };
    match data.state.get_account(&contract) {
        Some(account) => match account.storage.get(key) {
            Some(bytes) => Ok(Some(copy_bytes(bytes))),
            None => Ok(None),
        },
        None => Ok(None),
    }
}

/// Writes `value` under `key` in the executing contract's storage.
pub fn host_storage_write(data: &mut VmHostState, key: Vec<u8>, value: Vec<u8>) -> (done: Result<(), HostError>)
    ensures
        old(data).context is None ==> done == Err::<(), HostError>(HostError::MissingContext)
            && host_unchanged(*old(data), *final(data)),
        old(data).context matches Some(ctx) ==> done is Ok && final(data).context == old(data).context
            && final(data).state@ == with_storage(
            old(data).state@,
            ctx.contract,
            account_or_default(old(data).state@, ctx.contract).storage.insert(key@, value@),
        ),
{
    let contract = match &data.context {
        Some(ctx) => ctx.contract,
        None => return Err(HostError::MissingContext),
    };
    let account = data.state.get_or_create(&contract);
    account.storage.insert(key, value);
    Ok(())
}

/// Removes `key` from the executing contract's storage; reports whether it
/// was present.
pub fn host_storage_remove(data: &mut VmHostState, key: &[u8]) -> (removed: Result<bool, HostError>)
    ensures
        old(data).context is None ==> removed == Err::<bool, HostError>(HostError::MissingContext)
            && host_unchanged(*old(data), *final(data)),
        old(data).context matches Some(ctx) ==> removed == Ok::<bool, HostError>(
            account_or_default(old(data).state@, ctx.contract).storage.contains_key(key@),
        ) && final(data).context == old(data).context && final(data).state@ == with_storage(
            old(data).state@,
            ctx.contract,
            account_or_default(old(data).state@, ctx.contract).storage.remove(key@),
        ),
{
    let contract = match &data.context {
        Some(ctx) => ctx.contract,
        None => return Err(HostError::MissingContext),
    };
    let account = data.state.get_or_create(&contract);
    let removed = account.storage.remove(key);
    Ok(removed)
}

/// Returns the executing contract's balance.
pub fn host_get_balance(data: &VmHostState) -> (balance: Result<u64, HostError>)
    ensures
        data.context is None ==> balance == Err::<u64, HostError>(HostError::MissingContext),
        data.context matches Some(ctx) ==> balance == Ok::<u64, HostError>(
            balance_of(data.state@, ctx.contract),
        ),
{
    match &data.context {
        Some(ctx) => Ok(data.state.get_balance(&ctx.contract)),
        None => Err(HostError::MissingContext),
    }
}

/// Returns the external caller of the execution.
pub fn host_get_caller(data: &VmHostState) -> (caller: Result<Address, HostError>)
    ensures
        data.context is None ==> caller == Err::<Address, HostError>(HostError::MissingContext),
        data.context matches Some(ctx) ==> caller == Ok::<Address, HostError>(ctx.caller),
{
    match &data.context {
        Some(ctx) => Ok(ctx.caller),
        None => Err(HostError::MissingContext),
    }
}

/// Returns the deposit attached to the execution.
pub fn host_get_deposit(data: &VmHostState) -> (deposit: Result<u64, HostError>)
    ensures
        data.context is None ==> deposit == Err::<u64, HostError>(HostError::MissingContext),
        data.context matches Some(ctx) ==> deposit == Ok::<u64, HostError>(ctx.deposit),
{
    match &data.context {
        Some(ctx) => Ok(ctx.deposit),
        None => Err(HostError::MissingContext),
    }
}

/// Returns a copy of the call input.
pub fn host_input(data: &VmHostState) -> (input: Result<Vec<u8>, HostError>)
    ensures
        data.context is None ==> input matches Err(HostError::MissingContext),
        data.context matches Some(ctx) ==> (input matches Ok(bytes) && bytes@ == ctx.args@),
{
    match &data.context {
        Some(ctx) => Ok(copy_bytes(&ctx.args)),
        None => Err(HostError::MissingContext),
    }
}

/// Returns the length of the call input as an `i32`.
pub fn host_input_len(data: &VmHostState) -> (len: Result<i32, HostError>)
    ensures
        data.context is None ==> len == Err::<i32, HostError>(HostError::MissingContext),
        data.context matches Some(ctx) ==> (ctx.args@.len() <= i32::MAX ==> len == Ok::<
            i32,
            HostError,
        >(ctx.args@.len() as i32)) && (ctx.args@.len() > i32::MAX ==> len == Err::<
            i32,
            HostError,
        >(HostError::OutOfBounds)),
{
    match &data.context {
        Some(ctx) => {
            let n: usize = ctx.args.len();
            if n > 2147483647 {
                Err(HostError::OutOfBounds)
            } else {
                Ok(n as i32)
            }
        },
        None => Err(HostError::MissingContext),
    }
}

/// Transfers `amount` from the executing contract to `to`.
pub fn host_transfer(data: &mut VmHostState, to: &Address, amount: u64) -> (done: Result<(), HostError>)
    ensures
        old(data).context is None ==> done == Err::<(), HostError>(HostError::MissingContext)
            && host_unchanged(*old(data), *final(data)),
        old(data).context matches Some(ctx) ==> final(data).context == old(data).context && {
            if transfer_lacks_funds(old(data).state@, ctx.contract, *to, amount)
                || transfer_overflows(old(data).state@, ctx.contract, *to, amount) {
                done matches Err(HostError::State(_)) && final(data).state@ == old(data).state@
            } else {
                done is Ok && final(data).state@ == spec_transfer(
                    old(data).state@,
                    ctx.contract,
                    *to,
                    amount,
                )
            }
        },
{
    let from = match &data.context {
        Some(ctx) => ctx.contract,
        None => return Err(HostError::MissingContext),
    };
    match data.state.transfer(&from, to, amount) {
        Ok(()) => Ok(()),
        Err(error) => Err(HostError::State(error.message())),
    }
}

/// Appends a log line to the execution context.
pub fn host_log(data: &mut VmHostState, message: String) -> (done: Result<(), HostError>)
    ensures
        final(data).state@ == old(data).state@,
        old(data).context is None ==> done == Err::<(), HostError>(HostError::MissingContext)
            && final(data).context is None,
        old(data).context matches Some(ctx) ==> done is Ok && (final(data).context matches Some(c)
            && c.logs@ == ctx.logs@.push(message) && c.caller == ctx.caller && c.contract
            == ctx.contract && c.deposit == ctx.deposit && c.args == ctx.args && c.reverted
            == ctx.reverted && c.revert_message == ctx.revert_message),
{
    match &mut data.context {
        Some(ctx) => {
            ctx.logs.push(message);
            Ok(())
        },
        None => Err(HostError::MissingContext),
    }
}

/// Marks the execution as reverted with `message`, when a context exists.
pub fn host_abort(data: &mut VmHostState, message: String)
    ensures
        final(data).state@ == old(data).state@,
        old(data).context is None ==> final(data).context is None,
        old(data).context matches Some(ctx) ==> (final(data).context matches Some(c) && c.reverted
            && c.revert_message == Some(message) && c.logs == ctx.logs && c.caller == ctx.caller
            && c.contract == ctx.contract && c.deposit == ctx.deposit && c.args == ctx.args),
{
    match &mut data.context {
        Some(ctx) => {
            ctx.reverted = true;
            ctx.revert_message = Some(message);
        },
        None => {},
    }
}


/// Charges `amount` of fuel from the caller's store.
fn charge_gas(caller: &mut Caller<'_, VmHostState>, amount: u64) -> (done: Result<(), HostError>)
    ensures
        done is Err ==> done matches Err(HostError::Gas(_)),
        done is Ok ==> charged_fuel(amount),
{
    let read = caller_get_fuel(caller);
    let fuel = match read {
        Ok(fuel) => fuel,
        Err(error) => return Err(HostError::Gas(error_text(&error))),
    };
    let left = match charge(fuel, amount) {
        Ok(left) => left,
        Err(error) => return Err(error),
    };
    let set = caller_set_fuel(caller, left);
    match set {
        Ok(()) => {
            assert(charged_fuel(amount));
            Ok(())
        },
        Err(error) => Err(HostError::Gas(error_text(&error))),
    }
}

/// Reads `len` bytes of guest memory at `ptr`.
fn read_memory(caller: &mut Caller<'_, VmHostState>, ptr: i32, len: i32) -> (bytes: Result<Vec<u8>, HostError>)
    ensures
        (ptr < 0 || len < 0) ==> bytes == Err::<Vec<u8>, HostError>(HostError::NegativeOffset),
        bytes matches Ok(b) ==> b@.len() == len,
        bytes is Err ==> (bytes matches Err(HostError::NegativeOffset) || bytes matches Err(
            HostError::MissingMemory,
        ) || bytes matches Err(HostError::OutOfBounds)),
{
    let range = match checked_offset(ptr, len) {
        Ok(range) => range,
        Err(error) => return Err(error),
    };
    match caller_read_memory(caller, range.start, range.end - range.start) {
        Ok(bytes) => Ok(bytes),
        Err(MemoryFault::Missing) => Err(HostError::MissingMemory),
        Err(MemoryFault::OutOfBounds) => Err(HostError::OutOfBounds),
    }
}

/// Writes `bytes` into guest memory at `ptr`.
fn write_memory(caller: &mut Caller<'_, VmHostState>, ptr: i32, bytes: &[u8]) -> (done: Result<(), HostError>)
    ensures
        ptr < 0 ==> done == Err::<(), HostError>(HostError::NegativeOffset),
        bytes@.len() > i32::MAX ==> done is Err,
        done is Err ==> (done matches Err(HostError::NegativeOffset) || done matches Err(
            HostError::MissingMemory,
        ) || done matches Err(HostError::OutOfBounds)),
{
    if bytes.len() > 2147483647 {
        if ptr < 0 {
            return Err(HostError::NegativeOffset);
        }
        return Err(HostError::OutOfBounds);
    }
    let len: i32 = bytes.len() as i32;
    let range = match checked_offset(ptr, len) {
        Ok(range) => range,
        Err(error) => return Err(error),
    };
    match caller_write_memory(caller, range.start, bytes) {
        Ok(()) => Ok(()),
        Err(MemoryFault::Missing) => Err(HostError::MissingMemory),
        Err(MemoryFault::OutOfBounds) => Err(HostError::OutOfBounds),
    }
}

/// The address made of 32 bytes.
fn address_from_bytes(bytes: &Vec<u8>) -> (address: Address)
    requires
        bytes@.len() == 32,
    ensures
        address@ == bytes@,
{
    let mut address: Address = [0u8; 32];
    let mut i: usize = 0;
    while i < 32
        invariant
            i <= 32,
            bytes@.len() == 32,
            forall|j: int| 0 <= j < i ==> address@[j] == bytes@[j],
        decreases 32 - i,
    {
        address[i] = bytes[i];
        i = i + 1;
    }
    assert(address@ =~= bytes@);
    address
}

/// Reads a 32-byte address from guest memory at `ptr`.
fn read_address(caller: &mut Caller<'_, VmHostState>, ptr: i32) -> (address: Result<Address, HostError>)
    ensures
        ptr < 0 ==> address == Err::<Address, HostError>(HostError::NegativeOffset),
{
    let bytes = match read_memory(caller, ptr, 32) {
        Ok(bytes) => bytes,
        Err(error) => return Err(error),
    };
    Ok(address_from_bytes(&bytes))
}

/// `data` is the host data of a caller's store, as `Caller::data` lent it.
pub closed spec fn reads_host_data(data: &VmHostState) -> bool {
    exists|c: &Caller<'_, VmHostState>| #[trigger] call_ensures(caller_data, (c,), data)
}

/// `data` is the host data of a caller's store, as `Caller::data_mut` lent
/// it; `*final(data)` is what the store holds once the loan ends.
pub closed spec fn borrows_host_data(data: &mut VmHostState) -> bool {
    exists|c: &mut Caller<'_, VmHostState>| #[trigger] call_ensures(caller_data_mut, (c,), data)
}

/// `bytes` is what reading `len` bytes of the caller's guest memory at `ptr`
/// gave.
pub closed spec fn read_from_guest(ptr: i32, len: i32, bytes: Seq<u8>) -> bool {
    exists|c: &mut Caller<'_, VmHostState>, b: Vec<u8>|
        #[trigger] call_ensures(read_memory, (c, ptr, len), Ok::<Vec<u8>, HostError>(b)) && b@ == bytes
}

/// `bytes` was written to the caller's guest memory at `ptr`.
pub closed spec fn wrote_to_guest(ptr: i32, bytes: Seq<u8>) -> bool {
    exists|c: &mut Caller<'_, VmHostState>, b: &[u8], done: Result<(), HostError>|
        #[trigger] call_ensures(write_memory, (c, ptr, b), done) && done is Ok && b@ == bytes
}

/// `address` is the 32-byte address read from the caller's guest memory at
/// `ptr`.
pub closed spec fn address_from_guest(ptr: i32, address: Address) -> bool {
    exists|c: &mut Caller<'_, VmHostState>|
        #[trigger] call_ensures(read_address, (c, ptr), Ok::<Address, HostError>(address))
}

/// `amount` of fuel was charged: the fuel the caller's store held, less
/// `amount`, was set back as its fuel.
pub closed spec fn charged_fuel(amount: u64) -> bool {
    exists|
        c: &Caller<'_, VmHostState>,
        read: Result<u64, wasmtime::Error>,
        d: &mut Caller<'_, VmHostState>,
        left: u64,
        set: Result<(), wasmtime::Error>,
    |
        #![trigger call_ensures(caller_get_fuel, (c,), read), call_ensures(caller_set_fuel, (d, left), set)]
        call_ensures(caller_get_fuel, (c,), read) && call_ensures(caller_set_fuel, (d, left), set) && set is Ok
            && (read matches Ok(fuel) && fuel >= amount && left == fuel - amount)
}

/// `after` is `before` with the executing contract's storage mapping `key`
/// to `value`, the rest of the world and the context unchanged.
pub open spec fn stored(before: VmHostState, after: VmHostState, key: Seq<u8>, value: Seq<u8>) -> bool {
    &&& before.context matches Some(ctx)
    &&& after.context == before.context
    &&& after.state@ == with_storage(
        before.state@,
        ctx.contract,
        account_or_default(before.state@, ctx.contract).storage.insert(key, value),
    )
}

/// `balance` is what asking `data` for the executing contract's balance
/// gives: that contract's balance in the world, or an error without a
/// context.
pub open spec fn contract_balance_of(data: VmHostState, balance: Result<u64, HostError>) -> bool {
    match data.context {
        Some(ctx) => balance == Ok::<u64, HostError>(balance_of(data.state@, ctx.contract)),
        None => balance == Err::<u64, HostError>(HostError::MissingContext),
    }
}

/// `after` is `before` with `key` gone from the executing contract's
/// storage, and `present` tells whether it was there.
pub open spec fn unstored(before: VmHostState, after: VmHostState, key: Seq<u8>, present: bool) -> bool {
    &&& before.context matches Some(ctx)
    &&& after.context == before.context
    &&& present == account_or_default(before.state@, ctx.contract).storage.contains_key(key)
    &&& after.state@ == with_storage(
        before.state@,
        ctx.contract,
        account_or_default(before.state@, ctx.contract).storage.remove(key),
    )
}

/// `after` is `before` with `amount` moved from the executing contract to
/// `to`.
pub open spec fn paid(before: VmHostState, after: VmHostState, to: Address, amount: u64) -> bool {
    &&& before.context matches Some(ctx)
    &&& after.context == before.context
    &&& after.state@ == spec_transfer(before.state@, ctx.contract, to, amount)
}

/// Reads a contract storage value into guest memory; returns its length, or
/// `None` when the key is absent. On success it has charged the read's cost,
/// and the answer is the executing contract's storage under the key bytes
/// read at `key_ptr`: a present value was written at `val_ptr` and its
/// length returned.
pub fn storage_read(
    caller: &mut Caller<'_, VmHostState>,
    key_ptr: i32,
    key_len: i32,
    val_ptr: i32,
) -> (length: Result<Option<usize>, HostError>)
    ensures
        length matches Ok(Some(n)) ==> n <= i32::MAX,
        key_ptr < 0 || key_len < 0 ==> length is Err,
        length is Ok ==> charged_fuel(STORAGE_READ_COST),
        length matches Ok(found) ==> exists|key: Seq<u8>, data: &VmHostState|
            #![trigger read_from_guest(key_ptr, key_len, key), reads_host_data(data)]
            read_from_guest(key_ptr, key_len, key) && reads_host_data(data) && (data.context matches Some(
                ctx,
            ) && match storage_value(data.state@, ctx.contract, key) {
                Some(v) => found == Some(v.len() as usize) && wrote_to_guest(val_ptr, v),
                None => found is None,
            }),
{
    match charge_gas(caller, STORAGE_READ_COST) {
        Ok(()) => {},
        Err(error) => return Err(error),
    }
    let key = match read_memory(caller, key_ptr, key_len) {
        Ok(key) => key,
        Err(error) => return Err(error),
    };
    assert(read_from_guest(key_ptr, key_len, key@));
    let data = caller_data(caller);
    assert(reads_host_data(data));
    let value = match host_storage_read(data, key.as_slice()) {
        Ok(value) => value,
        Err(error) => return Err(error),
    };
    match value {
        Some(bytes) => {
            match write_memory(caller, val_ptr, bytes.as_slice()) {
                Ok(()) => {},
                Err(error) => return Err(error),
            }
            assert(wrote_to_guest(val_ptr, bytes@));
            Ok(Some(bytes.len()))
        },
        None => Ok(None),
    }
}

/// Writes a contract storage value taken from guest memory: on success it
/// has charged the write's cost, and the executing contract's storage maps
/// the key bytes read at `key_ptr` to the value bytes read at `val_ptr`.
pub fn storage_write(
    caller: &mut Caller<'_, VmHostState>,
    key_ptr: i32,
    key_len: i32,
    val_ptr: i32,
    val_len: i32,
) -> (done: Result<(), HostError>)
    ensures
        done is Err ==> !(done matches Err(HostError::State(_))),
        key_ptr < 0 || key_len < 0 || val_ptr < 0 || val_len < 0 ==> done is Err,
        done is Ok ==> charged_fuel(STORAGE_WRITE_COST),
        done is Ok ==> exists|key: Seq<u8>, value: Seq<u8>, data: &mut VmHostState|
            #![trigger read_from_guest(key_ptr, key_len, key), read_from_guest(val_ptr, val_len, value), borrows_host_data(data)]
            read_from_guest(key_ptr, key_len, key) && read_from_guest(val_ptr, val_len, value)
                && borrows_host_data(data) && stored(*data, *final(data), key, value),
{
    match charge_gas(caller, STORAGE_WRITE_COST) {
        Ok(()) => {},
        Err(error) => return Err(error),
    }
    let key = match read_memory(caller, key_ptr, key_len) {
        Ok(key) => key,
        Err(error) => return Err(error),
    };
    let value = match read_memory(caller, val_ptr, val_len) {
        Ok(value) => value,
        Err(error) => return Err(error),
    };
    let ghost (k, v) = (key@, value@);
    let data = caller_data_mut(caller);
    assert(borrows_host_data(data));
    let done = host_storage_write(data, key, value);
    assert(read_from_guest(key_ptr, key_len, k));
    assert(read_from_guest(val_ptr, val_len, v));
    done
}

/// Removes a contract storage key named in guest memory; reports whether it
/// was present. On success it has charged the removal's cost, and the
/// executing contract's storage no longer maps the key bytes read at
/// `key_ptr`.
pub fn storage_remove(
    caller: &mut Caller<'_, VmHostState>,
    key_ptr: i32,
    key_len: i32,
) -> (removed: Result<bool, HostError>)
    ensures
        removed is Err ==> !(removed matches Err(HostError::State(_))),
        key_ptr < 0 || key_len < 0 ==> removed is Err,
        removed is Ok ==> charged_fuel(STORAGE_REMOVE_COST),
        removed matches Ok(present) ==> exists|key: Seq<u8>, data: &mut VmHostState|
            #![trigger read_from_guest(key_ptr, key_len, key), borrows_host_data(data)]
            read_from_guest(key_ptr, key_len, key) && borrows_host_data(data) && unstored(
                *data,
                *final(data),
                key,
                present,
            ),
{
    match charge_gas(caller, STORAGE_REMOVE_COST) {
        Ok(()) => {},
        Err(error) => return Err(error),
    }
    let key = match read_memory(caller, key_ptr, key_len) {
        Ok(key) => key,
        Err(error) => return Err(error),
    };
    assert(read_from_guest(key_ptr, key_len, key@));
    let data = caller_data_mut(caller);
    assert(borrows_host_data(data));
    host_storage_remove(data, key.as_slice())
}

/// Returns the executing contract's balance, read from the caller's host
/// data.
pub fn get_balance(caller: &Caller<'_, VmHostState>) -> (balance: Result<u64, HostError>)
    ensures
        balance is Err ==> balance == Err::<u64, HostError>(HostError::MissingContext),
        exists|data: &VmHostState| #[trigger] reads_host_data(data) && contract_balance_of(*data, balance),
{
    let data = caller_data(caller);
    let balance = host_get_balance(data);
    assert(reads_host_data(data));
    balance
}

/// Writes the external caller's address into guest memory: on success the
/// 32 bytes of the caller of the execution were written at `out_ptr`.
pub fn get_caller(caller: &mut Caller<'_, VmHostState>, out_ptr: i32) -> (done: Result<(), HostError>)
    ensures
        done is Err ==> !(done matches Err(HostError::State(_))),
        out_ptr < 0 ==> done is Err,
        done is Ok ==> exists|data: &VmHostState|
            #![trigger reads_host_data(data)]
            reads_host_data(data) && (data.context matches Some(ctx) && wrote_to_guest(out_ptr, ctx.caller@)),
{
    let data = caller_data(caller);
    assert(reads_host_data(data));
    let address = match host_get_caller(data) {
        Ok(address) => address,
        Err(error) => return Err(error),
    };
    match write_memory(caller, out_ptr, address.as_slice()) {
        Ok(()) => {},
        Err(error) => return Err(error),
    }
    assert(wrote_to_guest(out_ptr, address@));
    Ok(())
}

/// Returns the deposit transferred into the current call, read from the
/// caller's host data.
pub fn get_deposit(caller: &Caller<'_, VmHostState>) -> (deposit: Result<u64, HostError>)
    ensures
        deposit is Err ==> deposit == Err::<u64, HostError>(HostError::MissingContext),
        exists|data: &VmHostState|
            #![trigger reads_host_data(data)]
            reads_host_data(data) && match data.context {
                Some(ctx) => deposit == Ok::<u64, HostError>(ctx.deposit),
                None => deposit == Err::<u64, HostError>(HostError::MissingContext),
            },
{
    let data = caller_data(caller);
    assert(reads_host_data(data));
    host_get_deposit(data)
}

/// Transfers balance from the executing contract to an address read from
/// guest memory: on success it has charged the transfer's cost and moved
/// `amount` from the executing contract to the address read at `to_ptr`.
pub fn transfer(caller: &mut Caller<'_, VmHostState>, to_ptr: i32, amount: u64) -> (done: Result<(), HostError>)
    ensures
        to_ptr < 0 ==> done is Err,
        done is Ok ==> charged_fuel(TRANSFER_COST),
        done is Ok ==> exists|to: Address, data: &mut VmHostState|
            #![trigger address_from_guest(to_ptr, to), borrows_host_data(data)]
            address_from_guest(to_ptr, to) && borrows_host_data(data) && paid(*data, *final(data), to, amount),
{
    match charge_gas(caller, TRANSFER_COST) {
        Ok(()) => {},
        Err(error) => return Err(error),
    }
    let to = match read_address(caller, to_ptr) {
        Ok(to) => to,
        Err(error) => return Err(error),
    };
    assert(address_from_guest(to_ptr, to));
    let data = caller_data_mut(caller);
    assert(borrows_host_data(data));
    host_transfer(data, &to, amount)
}

/// Returns the length of the current call input, read from the caller's
/// host data.
pub fn input_len(caller: &Caller<'_, VmHostState>) -> (len: Result<i32, HostError>)
    ensures
        len matches Ok(n) ==> n >= 0,
        exists|data: &VmHostState|
            #![trigger reads_host_data(data)]
            reads_host_data(data) && match data.context {
                Some(ctx) => if ctx.args@.len() <= i32::MAX {
                    len == Ok::<i32, HostError>(ctx.args@.len() as i32)
                } else {
                    len == Err::<i32, HostError>(HostError::OutOfBounds)
                },
                None => len == Err::<i32, HostError>(HostError::MissingContext),
            },
{
    let data = caller_data(caller);
    assert(reads_host_data(data));
    host_input_len(data)
}

/// Writes the current call input into guest memory; returns its length. On
/// success the input bytes of the execution were written at `out_ptr`.
pub fn read_input(caller: &mut Caller<'_, VmHostState>, out_ptr: i32) -> (len: Result<usize, HostError>)
    ensures
        len matches Ok(n) ==> n <= i32::MAX,
        out_ptr < 0 ==> len is Err,
        len matches Ok(n) ==> exists|data: &VmHostState|
            #![trigger reads_host_data(data)]
            reads_host_data(data) && (data.context matches Some(ctx) && n == ctx.args@.len()
                && wrote_to_guest(out_ptr, ctx.args@)),
{
    let data = caller_data(caller);
    assert(reads_host_data(data));
    let args = match host_input(data) {
        Ok(args) => args,
        Err(error) => return Err(error),
    };
    match write_memory(caller, out_ptr, args.as_slice()) {
        Ok(()) => {},
        Err(error) => return Err(error),
    }
    assert(wrote_to_guest(out_ptr, args@));
    Ok(args.len())
}

/// The trap raised for a failing host function: its message.
fn host_trap(error: HostError) -> wasmtime::Error {
    error_msg(error.message())
}

/// The `storage_read` import: the value's length, or `-1` when absent.
fn import_storage_read(mut caller: Caller<'_, VmHostState>, key_ptr: i32, key_len: i32, val_ptr: i32) -> (result: Result<i32, wasmtime::Error>)
    ensures
        result matches Ok(v) ==> v >= -1,
        key_ptr < 0 || key_len < 0 ==> result is Err,
{
    match storage_read(&mut caller, key_ptr, key_len, val_ptr) {
        Ok(Some(length)) => Ok(length as i32),
        Ok(None) => Ok(-1),
        Err(error) => Err(host_trap(error)),
    }
}

/// The `storage_write` import.
fn import_storage_write(mut caller: Caller<'_, VmHostState>, key_ptr: i32, key_len: i32, val_ptr: i32, val_len: i32) -> (result: Result<(), wasmtime::Error>)
    ensures
        key_ptr < 0 || key_len < 0 || val_ptr < 0 || val_len < 0 ==> result is Err,
{
    match storage_write(&mut caller, key_ptr, key_len, val_ptr, val_len) {
        Ok(()) => Ok(()),
        Err(error) => Err(host_trap(error)),
    }
}

/// The `storage_remove` import: `1` when a value was removed, else `0`.
fn import_storage_remove(mut caller: Caller<'_, VmHostState>, key_ptr: i32, key_len: i32) -> (result: Result<i32, wasmtime::Error>)
    ensures
        result matches Ok(v) ==> v == 0 || v == 1,
        key_ptr < 0 || key_len < 0 ==> result is Err,
{
    match storage_remove(&mut caller, key_ptr, key_len) {
        Ok(true) => Ok(1),
        Ok(false) => Ok(0),
        Err(error) => Err(host_trap(error)),
    }
}

/// The `get_balance` import (the balance's bits as an `i64`).
fn import_get_balance(caller: Caller<'_, VmHostState>) -> Result<i64, wasmtime::Error> {
    match get_balance(&caller) {
        Ok(balance) => Ok(balance as i64),
        Err(error) => Err(host_trap(error)),
    }
}

/// The `get_caller` import.
fn import_get_caller(mut caller: Caller<'_, VmHostState>, out_ptr: i32) -> (result: Result<(), wasmtime::Error>)
    ensures
        out_ptr < 0 ==> result is Err,
{
    match get_caller(&mut caller, out_ptr) {
        Ok(()) => Ok(()),
        Err(error) => Err(host_trap(error)),
    }
}

/// The `get_deposit` import (the deposit's bits as an `i64`).
fn import_get_deposit(caller: Caller<'_, VmHostState>) -> Result<i64, wasmtime::Error> {
    match get_deposit(&caller) {
        Ok(deposit) => Ok(deposit as i64),
        Err(error) => Err(host_trap(error)),
    }
}

/// The `transfer` import: `0` on success; a negative amount traps.
fn import_transfer(mut caller: Caller<'_, VmHostState>, to_ptr: i32, amount: i64) -> (result: Result<i32, wasmtime::Error>)
    ensures
        result matches Ok(v) ==> v == 0,
        amount < 0 || to_ptr < 0 ==> result is Err,
{
    if amount < 0 {
        return Err(host_trap(HostError::State(String::from_str("transfer amount must be non-negative"))));
    }
    match transfer(&mut caller, to_ptr, amount as u64) {
        Ok(()) => Ok(0),
        Err(error) => Err(host_trap(error)),
    }
}

/// The `input_len` import.
fn import_input_len(caller: Caller<'_, VmHostState>) -> (result: Result<i32, wasmtime::Error>)
    ensures
        result matches Ok(n) ==> n >= 0,
{
    match input_len(&caller) {
        Ok(len) => Ok(len),
        Err(error) => Err(host_trap(error)),
    }
}

/// The `read_input` import: the number of bytes written.
fn import_read_input(mut caller: Caller<'_, VmHostState>, out_ptr: i32) -> (result: Result<i32, wasmtime::Error>)
    ensures
        result matches Ok(n) ==> n >= 0,
        out_ptr < 0 ==> result is Err,
{
    match read_input(&mut caller, out_ptr) {
        Ok(len) => Ok(len as i32),
        Err(error) => Err(host_trap(error)),
    }
}

/// The `log` import: appends the guest's message (decoded lossily as UTF-8)
/// to the execution's logs. On success the text made from the bytes read at
/// `msg_ptr` is the new last log line.
pub fn import_log(mut caller: Caller<'_, VmHostState>, msg_ptr: i32, msg_len: i32) -> (result: Result<(), wasmtime::Error>)
    ensures
        msg_ptr < 0 || msg_len < 0 ==> result is Err,
        result is Ok ==> exists|bytes: Seq<u8>, message: String, data: &mut VmHostState|
            #![trigger read_from_guest(msg_ptr, msg_len, bytes), lossy_text(bytes, message), borrows_host_data(data)]
            read_from_guest(msg_ptr, msg_len, bytes) && lossy_text(bytes, message) && borrows_host_data(data)
                && logged(*data, *final(data), message),
{
    let bytes = match read_memory(&mut caller, msg_ptr, msg_len) {
        Ok(bytes) => bytes,
        Err(error) => return Err(host_trap(error)),
    };
    assert(read_from_guest(msg_ptr, msg_len, bytes@));
    let message = utf8_lossy(bytes.as_slice());
    assert(lossy_text(bytes@, message));
    let data = caller_data_mut(&mut caller);
    assert(borrows_host_data(data));
    match host_log(data, message) {
        Ok(()) => Ok(()),
        Err(error) => Err(host_trap(error)),
    }
}

/// The `abort` import: records the guest's message as the revert message and
/// traps with it. The message is the text made from the bytes read at
/// `msg_ptr`, or the memory error's message when that read fails.
pub fn import_abort(mut caller: Caller<'_, VmHostState>, msg_ptr: i32, msg_len: i32) -> (result: Result<(), wasmtime::Error>)
    ensures
        result is Err,
        exists|message: String, data: &mut VmHostState|
            #![trigger abort_message(msg_ptr, msg_len, message), borrows_host_data(data)]
            abort_message(msg_ptr, msg_len, message) && borrows_host_data(data) && reverted_with(
                *data,
                *final(data),
                message,
            ),
{
    let read = read_memory(&mut caller, msg_ptr, msg_len);
    let message = match read {
        Ok(bytes) => {
            assert(read_from_guest(msg_ptr, msg_len, bytes@));
            let text = utf8_lossy(bytes.as_slice());
            assert(lossy_text(bytes@, text));
            text
        },
        Err(error) => error.message(),
    };
    assert(abort_message(msg_ptr, msg_len, message));
    let trap_message = message.clone();
    let data = caller_data_mut(&mut caller);
    assert(borrows_host_data(data));
    host_abort(data, message);
    Err(error_msg(trap_message))
}

/// `message` is the text `String::from_utf8_lossy` made of `bytes`.
pub closed spec fn lossy_text(bytes: Seq<u8>, message: String) -> bool {
    exists|b: &[u8]| #[trigger] call_ensures(utf8_lossy, (b,), message) && b@ == bytes
}

/// The message an abort records: the text made from the bytes read at
/// `ptr`, or the message of the error reading them.
pub closed spec fn abort_message(ptr: i32, len: i32, message: String) -> bool {
    ||| exists|bytes: Seq<u8>| #[trigger] read_from_guest(ptr, len, bytes) && lossy_text(bytes, message)
    ||| exists|c: &mut Caller<'_, VmHostState>, e: HostError|
        #[trigger] call_ensures(read_memory, (c, ptr, len), Err::<Vec<u8>, HostError>(e))
            && is_host_error_message(e, message@)
}

/// `after` is `before` with `message` appended to the execution's logs,
/// nothing else changed.
pub open spec fn logged(before: VmHostState, after: VmHostState, message: String) -> bool {
    &&& before.context matches Some(ctx)
    &&& after.state@ == before.state@
    &&& after.context matches Some(c)
    &&& c.logs@ == ctx.logs@.push(message)
    &&& c.caller == ctx.caller && c.contract == ctx.contract && c.deposit == ctx.deposit
    &&& c.args == ctx.args && c.reverted == ctx.reverted && c.revert_message == ctx.revert_message
}

/// `after` is `before` with the execution marked reverted with `message`,
/// when there is an execution; the world is unchanged.
pub open spec fn reverted_with(before: VmHostState, after: VmHostState, message: String) -> bool {
    &&& after.state@ == before.state@
    &&& before.context is None ==> after.context is None
    &&& before.context matches Some(ctx) ==> (after.context matches Some(c) && c.reverted
        && c.revert_message == Some(message) && c.logs == ctx.logs && c.caller == ctx.caller
        && c.contract == ctx.contract && c.deposit == ctx.deposit && c.args == ctx.args)
}

/// Trusted: `String::from_utf8_lossy`, replacing invalid sequences. Nothing
/// is stated of the text.
#[verifier::external_body]
fn utf8_lossy(bytes: &[u8]) -> String {
    String::from_utf8_lossy(bytes).into_owned()
}

/// The host functions a guest can import.
#[derive(Debug, Clone, Copy, PartialEq, Eq, Structural)]
pub enum HostImport {
    /// The `storage_read` import.
    StorageRead,
    /// The `storage_write` import.
    StorageWrite,
    /// The `storage_remove` import.
    StorageRemove,
    /// The `get_balance` import.
    GetBalance,
    /// The `get_caller` import.
    GetCaller,
    /// The `get_deposit` import.
    GetDeposit,
    /// The `transfer` import.
    Transfer,
    /// The `input_len` import.
    InputLen,
    /// The `read_input` import.
    ReadInput,
    /// The `log` import.
    Log,
    /// The `abort` import.
    Abort,
}

/// What a linker binds: each defined (module, name) import and the host
/// function it is bound to.
pub uninterp spec fn linker_bindings(linker: Linker<VmHostState>) -> Map<(Seq<char>, Seq<char>), HostImport>;

/// The imports a linker defines, as (module, name) pairs.
pub open spec fn linker_definitions(linker: Linker<VmHostState>) -> Set<(Seq<char>, Seq<char>)> {
    linker_bindings(linker).dom()
}

/// The host imports, by name, in the order they are defined.
pub open spec fn host_import_list() -> Seq<(Seq<char>, HostImport)> {
    seq![
        ("storage_read"@, HostImport::StorageRead),
        ("storage_write"@, HostImport::StorageWrite),
        ("storage_remove"@, HostImport::StorageRemove),
        ("get_balance"@, HostImport::GetBalance),
        ("get_caller"@, HostImport::GetCaller),
        ("get_deposit"@, HostImport::GetDeposit),
        ("transfer"@, HostImport::Transfer),
        ("input_len"@, HostImport::InputLen),
        ("read_input"@, HostImport::ReadInput),
        ("log"@, HostImport::Log),
        ("abort"@, HostImport::Abort),
    ]
}

/// The first `k` host imports, under the module `env`.
pub open spec fn host_bindings_upto(k: nat) -> Map<(Seq<char>, Seq<char>), HostImport>
    decreases k,
{
    if k == 0 {
        Map::empty()
    } else {
        host_bindings_upto((k - 1) as nat).insert(("env"@, host_import_list()[k - 1].0), host_import_list()[k - 1].1)
    }
}

/// All host imports under `env`, each bound to its host function.
pub open spec fn host_bindings() -> Map<(Seq<char>, Seq<char>), HostImport> {
    host_bindings_upto(11)
}

/// The `env` imports of all host functions.
pub open spec fn host_imports() -> Set<(Seq<char>, Seq<char>)> {
    host_bindings().dom()
}

/// The imports so far are among all of them.
proof fn lemma_host_imports_within(k: nat)
    requires
        k <= 11,
    ensures
        host_bindings_upto(k).dom().subset_of(host_imports()),
    decreases 11 - k,
{
    if k < 11 {
        lemma_host_imports_within(k + 1);
    }
}

/// One step of linking: binding the next host import either extends the
/// bindings made so far by it, keeping them apart from what the linker held
/// before, or fails and leaves them as they were.
proof fn lemma_bind_next(
    start: Map<(Seq<char>, Seq<char>), HostImport>,
    k: nat,
    before: Map<(Seq<char>, Seq<char>), HostImport>,
    after: Map<(Seq<char>, Seq<char>), HostImport>,
    bound: bool,
)
    requires
        k < 11,
        before == start.union_prefer_right(host_bindings_upto(k)),
        start.dom().disjoint(host_bindings_upto(k).dom()),
        bound ==> !before.dom().contains(("env"@, host_import_list()[k as int].0)),
        bound ==> after == before.insert(("env"@, host_import_list()[k as int].0), host_import_list()[k as int].1),
        !bound ==> after == before,
    ensures
        bound ==> after == start.union_prefer_right(host_bindings_upto(k + 1)),
        bound ==> start.dom().disjoint(host_bindings_upto(k + 1).dom()),
        !bound ==> start.submap_of(after) && after.dom().subset_of(start.dom().union(host_imports())),
{
    lemma_host_imports_within(k);
    if bound {
        assert(after =~= start.union_prefer_right(host_bindings_upto(k + 1)));
    }
}

/// Trusted: `Linker::func_wrap(module, name, ..)` binding the verified
/// `import_storage_read`. Its source defines the import when it is not yet defined
/// (shadowing is off) and fails when it is; it can also fail for want of
/// memory. A failure leaves the bindings as they were.
#[verifier::external_body]
fn bind_storage_read(linker: &mut Linker<VmHostState>, module: &str, name: &str) -> (result: Result<(), wasmtime::Error>)
    ensures
        linker_bindings(*old(linker)).contains_key((module@, name@)) ==> result is Err,
        result is Ok ==> linker_bindings(*final(linker)) == linker_bindings(*old(linker)).insert(
            (module@, name@),
            HostImport::StorageRead,
        ),
        result is Err ==> linker_bindings(*final(linker)) == linker_bindings(*old(linker)),
{
    match linker.func_wrap(module, name, |c: Caller<'_, VmHostState>, k: i32, l: i32, v: i32| import_storage_read(c, k, l, v)) {
        Ok(_) => Ok(()),
        Err(error) => Err(error),
    }
}

/// Trusted: `Linker::func_wrap(module, name, ..)` binding the verified
/// `import_storage_write`. Its source defines the import when it is not yet defined
/// (shadowing is off) and fails when it is; it can also fail for want of
/// memory. A failure leaves the bindings as they were.
#[verifier::external_body]
fn bind_storage_write(linker: &mut Linker<VmHostState>, module: &str, name: &str) -> (result: Result<(), wasmtime::Error>)
    ensures
        linker_bindings(*old(linker)).contains_key((module@, name@)) ==> result is Err,
        result is Ok ==> linker_bindings(*final(linker)) == linker_bindings(*old(linker)).insert(
            (module@, name@),
            HostImport::StorageWrite,
        ),
        result is Err ==> linker_bindings(*final(linker)) == linker_bindings(*old(linker)),
{
    match linker.func_wrap(module, name, |c: Caller<'_, VmHostState>, k: i32, l: i32, v: i32, n: i32| import_storage_write(c, k, l, v, n)) {
        Ok(_) => Ok(()),
        Err(error) => Err(error),
    }
}

/// Trusted: `Linker::func_wrap(module, name, ..)` binding the verified
/// `import_storage_remove`. Its source defines the import when it is not yet defined
/// (shadowing is off) and fails when it is; it can also fail for want of
/// memory. A failure leaves the bindings as they were.
#[verifier::external_body]
fn bind_storage_remove(linker: &mut Linker<VmHostState>, module: &str, name: &str) -> (result: Result<(), wasmtime::Error>)
    ensures
        linker_bindings(*old(linker)).contains_key((module@, name@)) ==> result is Err,
        result is Ok ==> linker_bindings(*final(linker)) == linker_bindings(*old(linker)).insert(
            (module@, name@),
            HostImport::StorageRemove,
        ),
        result is Err ==> linker_bindings(*final(linker)) == linker_bindings(*old(linker)),
{
    match linker.func_wrap(module, name, |c: Caller<'_, VmHostState>, k: i32, l: i32| import_storage_remove(c, k, l)) {
        Ok(_) => Ok(()),
        Err(error) => Err(error),
    }
}

/// Trusted: `Linker::func_wrap(module, name, ..)` binding the verified
/// `import_get_balance`. Its source defines the import when it is not yet defined
/// (shadowing is off) and fails when it is; it can also fail for want of
/// memory. A failure leaves the bindings as they were.
#[verifier::external_body]
fn bind_get_balance(linker: &mut Linker<VmHostState>, module: &str, name: &str) -> (result: Result<(), wasmtime::Error>)
    ensures
        linker_bindings(*old(linker)).contains_key((module@, name@)) ==> result is Err,
        result is Ok ==> linker_bindings(*final(linker)) == linker_bindings(*old(linker)).insert(
            (module@, name@),
            HostImport::GetBalance,
        ),
        result is Err ==> linker_bindings(*final(linker)) == linker_bindings(*old(linker)),
{
    match linker.func_wrap(module, name, |c: Caller<'_, VmHostState>| import_get_balance(c)) {
        Ok(_) => Ok(()),
        Err(error) => Err(error),
    }
}

/// Trusted: `Linker::func_wrap(module, name, ..)` binding the verified
/// `import_get_caller`. Its source defines the import when it is not yet defined
/// (shadowing is off) and fails when it is; it can also fail for want of
/// memory. A failure leaves the bindings as they were.
#[verifier::external_body]
fn bind_get_caller(linker: &mut Linker<VmHostState>, module: &str, name: &str) -> (result: Result<(), wasmtime::Error>)
    ensures
        linker_bindings(*old(linker)).contains_key((module@, name@)) ==> result is Err,
        result is Ok ==> linker_bindings(*final(linker)) == linker_bindings(*old(linker)).insert(
            (module@, name@),
            HostImport::GetCaller,
        ),
        result is Err ==> linker_bindings(*final(linker)) == linker_bindings(*old(linker)),
{
    match linker.func_wrap(module, name, |c: Caller<'_, VmHostState>, p: i32| import_get_caller(c, p)) {
        Ok(_) => Ok(()),
        Err(error) => Err(error),
    }
}

/// Trusted: `Linker::func_wrap(module, name, ..)` binding the verified
/// `import_get_deposit`. Its source defines the import when it is not yet defined
/// (shadowing is off) and fails when it is; it can also fail for want of
/// memory. A failure leaves the bindings as they were.
#[verifier::external_body]
fn bind_get_deposit(linker: &mut Linker<VmHostState>, module: &str, name: &str) -> (result: Result<(), wasmtime::Error>)
    ensures
        linker_bindings(*old(linker)).contains_key((module@, name@)) ==> result is Err,
        result is Ok ==> linker_bindings(*final(linker)) == linker_bindings(*old(linker)).insert(
            (module@, name@),
            HostImport::GetDeposit,
        ),
        result is Err ==> linker_bindings(*final(linker)) == linker_bindings(*old(linker)),
{
    match linker.func_wrap(module, name, |c: Caller<'_, VmHostState>| import_get_deposit(c)) {
        Ok(_) => Ok(()),
        Err(error) => Err(error),
    }
}

/// Trusted: `Linker::func_wrap(module, name, ..)` binding the verified
/// `import_transfer`. Its source defines the import when it is not yet defined
/// (shadowing is off) and fails when it is; it can also fail for want of
/// memory. A failure leaves the bindings as they were.
#[verifier::external_body]
fn bind_transfer(linker: &mut Linker<VmHostState>, module: &str, name: &str) -> (result: Result<(), wasmtime::Error>)
    ensures
        linker_bindings(*old(linker)).contains_key((module@, name@)) ==> result is Err,
        result is Ok ==> linker_bindings(*final(linker)) == linker_bindings(*old(linker)).insert(
            (module@, name@),
            HostImport::Transfer,
        ),
        result is Err ==> linker_bindings(*final(linker)) == linker_bindings(*old(linker)),
{
    match linker.func_wrap(module, name, |c: Caller<'_, VmHostState>, p: i32, a: i64| import_transfer(c, p, a)) {
        Ok(_) => Ok(()),
        Err(error) => Err(error),
    }
}

/// Trusted: `Linker::func_wrap(module, name, ..)` binding the verified
/// `import_input_len`. Its source defines the import when it is not yet defined
/// (shadowing is off) and fails when it is; it can also fail for want of
/// memory. A failure leaves the bindings as they were.
#[verifier::external_body]
fn bind_input_len(linker: &mut Linker<VmHostState>, module: &str, name: &str) -> (result: Result<(), wasmtime::Error>)
    ensures
        linker_bindings(*old(linker)).contains_key((module@, name@)) ==> result is Err,
        result is Ok ==> linker_bindings(*final(linker)) == linker_bindings(*old(linker)).insert(
            (module@, name@),
            HostImport::InputLen,
        ),
        result is Err ==> linker_bindings(*final(linker)) == linker_bindings(*old(linker)),
{
    match linker.func_wrap(module, name, |c: Caller<'_, VmHostState>| import_input_len(c)) {
        Ok(_) => Ok(()),
        Err(error) => Err(error),
    }
}

/// Trusted: `Linker::func_wrap(module, name, ..)` binding the verified
/// `import_read_input`. Its source defines the import when it is not yet defined
/// (shadowing is off) and fails when it is; it can also fail for want of
/// memory. A failure leaves the bindings as they were.
#[verifier::external_body]
fn bind_read_input(linker: &mut Linker<VmHostState>, module: &str, name: &str) -> (result: Result<(), wasmtime::Error>)
    ensures
        linker_bindings(*old(linker)).contains_key((module@, name@)) ==> result is Err,
        result is Ok ==> linker_bindings(*final(linker)) == linker_bindings(*old(linker)).insert(
            (module@, name@),
            HostImport::ReadInput,
        ),
        result is Err ==> linker_bindings(*final(linker)) == linker_bindings(*old(linker)),
{
    match linker.func_wrap(module, name, |c: Caller<'_, VmHostState>, p: i32| import_read_input(c, p)) {
        Ok(_) => Ok(()),
        Err(error) => Err(error),
    }
}

/// Trusted: `Linker::func_wrap(module, name, ..)` binding the verified
/// `import_log`. Its source defines the import when it is not yet defined
/// (shadowing is off) and fails when it is; it can also fail for want of
/// memory. A failure leaves the bindings as they were.
#[verifier::external_body]
fn bind_log(linker: &mut Linker<VmHostState>, module: &str, name: &str) -> (result: Result<(), wasmtime::Error>)
    ensures
        linker_bindings(*old(linker)).contains_key((module@, name@)) ==> result is Err,
        result is Ok ==> linker_bindings(*final(linker)) == linker_bindings(*old(linker)).insert(
            (module@, name@),
            HostImport::Log,
        ),
        result is Err ==> linker_bindings(*final(linker)) == linker_bindings(*old(linker)),
{
    match linker.func_wrap(module, name, |c: Caller<'_, VmHostState>, p: i32, l: i32| import_log(c, p, l)) {
        Ok(_) => Ok(()),
        Err(error) => Err(error),
    }
}

/// Trusted: `Linker::func_wrap(module, name, ..)` binding the verified
/// `import_abort`. Its source defines the import when it is not yet defined
/// (shadowing is off) and fails when it is; it can also fail for want of
/// memory. A failure leaves the bindings as they were.
#[verifier::external_body]
fn bind_abort(linker: &mut Linker<VmHostState>, module: &str, name: &str) -> (result: Result<(), wasmtime::Error>)
    ensures
        linker_bindings(*old(linker)).contains_key((module@, name@)) ==> result is Err,
        result is Ok ==> linker_bindings(*final(linker)) == linker_bindings(*old(linker)).insert(
            (module@, name@),
            HostImport::Abort,
        ),
        result is Err ==> linker_bindings(*final(linker)) == linker_bindings(*old(linker)),
{
    match linker.func_wrap(module, name, |c: Caller<'_, VmHostState>, p: i32, l: i32| import_abort(c, p, l)) {
        Ok(_) => Ok(()),
        Err(error) => Err(error),
    }
}

/// Registers the host functions a guest can import under `env`, each bound
/// to its import function. On success the linker binds exactly what it did
/// before plus the eleven host imports, none of which it defined before; a
/// failure (a name already defined, or want of memory) leaves some of them
/// bound and nothing else changed.
pub fn link_host_functions(linker: &mut Linker<VmHostState>) -> (result: Result<(), wasmtime::Error>)
    ensures
        result is Ok ==> linker_bindings(*final(linker)) == linker_bindings(*old(linker)).union_prefer_right(
            host_bindings(),
        ),
        result is Ok ==> linker_definitions(*old(linker)).disjoint(host_imports()),
        !linker_definitions(*old(linker)).disjoint(host_imports()) ==> result is Err,
        result is Err ==> linker_bindings(*old(linker)).submap_of(linker_bindings(*final(linker)))
            && linker_definitions(*final(linker)).subset_of(
            linker_definitions(*old(linker)).union(host_imports()),
        ),
{
    let ghost start = linker_bindings(*linker);
    assert(start =~= start.union_prefer_right(host_bindings_upto(0)));
    let ghost before = linker_bindings(*linker);
    let step = bind_storage_read(linker, "env", "storage_read");
    proof {
        lemma_bind_next(start, 0, before, linker_bindings(*linker), step is Ok);
    }
    if let Err(error) = step {
        return Err(error);
    }
    let ghost before = linker_bindings(*linker);
    let step = bind_storage_write(linker, "env", "storage_write");
    proof {
        lemma_bind_next(start, 1, before, linker_bindings(*linker), step is Ok);
    }
    if let Err(error) = step {
        return Err(error);
    }
    let ghost before = linker_bindings(*linker);
    let step = bind_storage_remove(linker, "env", "storage_remove");
    proof {
        lemma_bind_next(start, 2, before, linker_bindings(*linker), step is Ok);
    }
    if let Err(error) = step {
        return Err(error);
    }
    let ghost before = linker_bindings(*linker);
    let step = bind_get_balance(linker, "env", "get_balance");
    proof {
        lemma_bind_next(start, 3, before, linker_bindings(*linker), step is Ok);
    }
    if let Err(error) = step {
        return Err(error);
    }
    let ghost before = linker_bindings(*linker);
    let step = bind_get_caller(linker, "env", "get_caller");
    proof {
        lemma_bind_next(start, 4, before, linker_bindings(*linker), step is Ok);
    }
    if let Err(error) = step {
        return Err(error);
    }
    let ghost before = linker_bindings(*linker);
    let step = bind_get_deposit(linker, "env", "get_deposit");
    proof {
        lemma_bind_next(start, 5, before, linker_bindings(*linker), step is Ok);
    }
    if let Err(error) = step {
        return Err(error);
    }
    let ghost before = linker_bindings(*linker);
    let step = bind_transfer(linker, "env", "transfer");
    proof {
        lemma_bind_next(start, 6, before, linker_bindings(*linker), step is Ok);
    }
    if let Err(error) = step {
        return Err(error);
    }
    let ghost before = linker_bindings(*linker);
    let step = bind_input_len(linker, "env", "input_len");
    proof {
        lemma_bind_next(start, 7, before, linker_bindings(*linker), step is Ok);
    }
    if let Err(error) = step {
        return Err(error);
    }
    let ghost before = linker_bindings(*linker);
    let step = bind_read_input(linker, "env", "read_input");
    proof {
        lemma_bind_next(start, 8, before, linker_bindings(*linker), step is Ok);
    }
    if let Err(error) = step {
        return Err(error);
    }
    let ghost before = linker_bindings(*linker);
    let step = bind_log(linker, "env", "log");
    proof {
        lemma_bind_next(start, 9, before, linker_bindings(*linker), step is Ok);
    }
    if let Err(error) = step {
        return Err(error);
    }
    let ghost before = linker_bindings(*linker);
    let step = bind_abort(linker, "env", "abort");
    proof {
        lemma_bind_next(start, 10, before, linker_bindings(*linker), step is Ok);
    }
    if let Err(error) = step {
        return Err(error);
    }
    Ok(())
}

/// A successful `storage_write` charges the write's cost and leaves the
/// executing contract's storage mapping the key bytes read at `key_ptr` to
/// the value bytes read at `val_ptr`; nothing else in the world changes.
pub proof fn law_storage_write_stores_value_under_key(
    caller: &mut Caller<'_, VmHostState>,
    key_ptr: i32,
    key_len: i32,
    val_ptr: i32,
    val_len: i32,
    done: Result<(), HostError>,
)
    requires
        call_ensures(storage_write, (caller, key_ptr, key_len, val_ptr, val_len), done),
        done is Ok,
    ensures
        charged_fuel(STORAGE_WRITE_COST),
        exists|key: Seq<u8>, value: Seq<u8>, data: &mut VmHostState|
            #![trigger read_from_guest(key_ptr, key_len, key), read_from_guest(val_ptr, val_len, value), borrows_host_data(data)]
            read_from_guest(key_ptr, key_len, key) && read_from_guest(val_ptr, val_len, value)
                && borrows_host_data(data) && stored(*data, *final(data), key, value),
{
}

/// A successful `storage_read` charges the read's cost and answers with the
/// executing contract's storage under the key bytes read at `key_ptr`: a
/// present value is written to guest memory at `val_ptr` and its length
/// returned, an absent one gives `None`.
pub proof fn law_storage_read_answers_from_storage(
    caller: &mut Caller<'_, VmHostState>,
    key_ptr: i32,
    key_len: i32,
    val_ptr: i32,
    length: Result<Option<usize>, HostError>,
)
    requires
        call_ensures(storage_read, (caller, key_ptr, key_len, val_ptr), length),
        length is Ok,
    ensures
        charged_fuel(STORAGE_READ_COST),
        exists|key: Seq<u8>, data: &VmHostState|
            #![trigger read_from_guest(key_ptr, key_len, key), reads_host_data(data)]
            read_from_guest(key_ptr, key_len, key) && reads_host_data(data) && (data.context matches Some(
                ctx,
            ) && match storage_value(data.state@, ctx.contract, key) {
                Some(v) => length == Ok::<Option<usize>, HostError>(Some(v.len() as usize)) && wrote_to_guest(
                    val_ptr,
                    v,
                ),
                None => length == Ok::<Option<usize>, HostError>(None),
            }),
{
}

/// A successful `storage_remove` charges the removal's cost, removes the key
/// bytes read at `key_ptr` from the executing contract's storage, and tells
/// whether the key was there.
pub proof fn law_storage_remove_deletes_key(
    caller: &mut Caller<'_, VmHostState>,
    key_ptr: i32,
    key_len: i32,
    removed: Result<bool, HostError>,
)
    requires
        call_ensures(storage_remove, (caller, key_ptr, key_len), removed),
        removed is Ok,
    ensures
        charged_fuel(STORAGE_REMOVE_COST),
        exists|key: Seq<u8>, data: &mut VmHostState|
            #![trigger read_from_guest(key_ptr, key_len, key), borrows_host_data(data)]
            read_from_guest(key_ptr, key_len, key) && borrows_host_data(data) && unstored(
                *data,
                *final(data),
                key,
                removed == Ok::<bool, HostError>(true),
            ),
{
}

/// A successful `transfer` charges the transfer's cost and moves `amount`
/// from the executing contract to the address read from guest memory at
/// `to_ptr`.
pub proof fn law_transfer_pays_the_address_read(
    caller: &mut Caller<'_, VmHostState>,
    to_ptr: i32,
    amount: u64,
    done: Result<(), HostError>,
)
    requires
        call_ensures(transfer, (caller, to_ptr, amount), done),
        done is Ok,
    ensures
        charged_fuel(TRANSFER_COST),
        exists|to: Address, data: &mut VmHostState|
            #![trigger address_from_guest(to_ptr, to), borrows_host_data(data)]
            address_from_guest(to_ptr, to) && borrows_host_data(data) && paid(*data, *final(data), to, amount),
{
}

/// `get_balance` answers with the balance of the executing contract in the
/// caller's world, and fails only without an execution context.
pub proof fn law_get_balance_is_the_contract_balance(caller: &Caller<'_, VmHostState>, balance: Result<u64, HostError>)
    requires
        call_ensures(get_balance, (caller,), balance),
    ensures
        exists|data: &VmHostState| #[trigger] reads_host_data(data) && contract_balance_of(*data, balance),
{
}

/// `get_deposit` answers with the deposit of the current execution, and
/// fails only without an execution context.
pub proof fn law_get_deposit_is_the_call_deposit(caller: &Caller<'_, VmHostState>, deposit: Result<u64, HostError>)
    requires
        call_ensures(get_deposit, (caller,), deposit),
    ensures
        exists|data: &VmHostState|
            #![trigger reads_host_data(data)]
            reads_host_data(data) && match data.context {
                Some(ctx) => deposit == Ok::<u64, HostError>(ctx.deposit),
                None => deposit == Err::<u64, HostError>(HostError::MissingContext),
            },
{
}

/// A successful `get_caller` writes the 32 bytes of the execution's external
/// caller to guest memory at `out_ptr`.
pub proof fn law_get_caller_writes_the_caller(
    caller: &mut Caller<'_, VmHostState>,
    out_ptr: i32,
    done: Result<(), HostError>,
)
    requires
        call_ensures(get_caller, (caller, out_ptr), done),
        done is Ok,
    ensures
        exists|data: &VmHostState|
            #![trigger reads_host_data(data)]
            reads_host_data(data) && (data.context matches Some(ctx) && wrote_to_guest(out_ptr, ctx.caller@)),
{
}

/// A successful `read_input` writes the execution's input to guest memory at
/// `out_ptr` and returns its length; `input_len` gives that length.
pub proof fn law_input_is_the_call_input(
    caller: &mut Caller<'_, VmHostState>,
    out_ptr: i32,
    len: Result<usize, HostError>,
)
    requires
        call_ensures(read_input, (caller, out_ptr), len),
        len is Ok,
    ensures
        exists|data: &VmHostState|
            #![trigger reads_host_data(data)]
            reads_host_data(data) && (data.context matches Some(ctx) && len == Ok::<usize, HostError>(
                ctx.args@.len() as usize,
            ) && wrote_to_guest(out_ptr, ctx.args@)),
{
}

/// A successful `log` appends the text made from the bytes read at
/// `msg_ptr` to the execution's logs, changing nothing else.
pub proof fn law_log_appends_the_message(
    caller: Caller<'_, VmHostState>,
    msg_ptr: i32,
    msg_len: i32,
    result: Result<(), wasmtime::Error>,
)
    requires
        call_ensures(import_log, (caller, msg_ptr, msg_len), result),
        result is Ok,
    ensures
        exists|bytes: Seq<u8>, message: String, data: &mut VmHostState|
            #![trigger read_from_guest(msg_ptr, msg_len, bytes), lossy_text(bytes, message), borrows_host_data(data)]
            read_from_guest(msg_ptr, msg_len, bytes) && lossy_text(bytes, message) && borrows_host_data(data)
                && logged(*data, *final(data), message),
{
}

/// `abort` always traps, after marking the execution reverted with the text
/// made from the bytes read at `msg_ptr` (or the error reading them) as its
/// message.
pub proof fn law_abort_reverts_with_the_message(
    caller: Caller<'_, VmHostState>,
    msg_ptr: i32,
    msg_len: i32,
    result: Result<(), wasmtime::Error>,
)
    requires
        call_ensures(import_abort, (caller, msg_ptr, msg_len), result),
    ensures
        result is Err,
        exists|message: String, data: &mut VmHostState|
            #![trigger abort_message(msg_ptr, msg_len, message), borrows_host_data(data)]
            abort_message(msg_ptr, msg_len, message) && borrows_host_data(data) && reverted_with(
                *data,
                *final(data),
                message,
            ),
{
}

} // verus!
