//! Contract execution: gas schedule, host functions and the engine that runs
//! contract code.

pub mod gas;
pub mod host;
pub mod wasm;

pub use host::{ExecutionContext, HostError, VmHostState};

use crate::crypto::{sha256_digest, sha256_spec};
use crate::state::WorldState;
use crate::text::concat_text;
use crate::transaction::Address;
use crate::vm::wasm::{
    config_consume_fuel, config_cranelift_nan_canonicalization, config_new,
    config_wasm_bulk_memory, config_wasm_function_references, config_wasm_multi_memory,
    config_wasm_multi_value, config_wasm_reference_types, config_wasm_relaxed_simd,
    config_wasm_simd, config_wasm_tail_call, config_wasm_threads, engine_new, error_msg,
    error_text, guest_call, instantiate_guest, linker_new, module_new, module_share, CallEnd,
    Guest, Instantiated,
};
use std::sync::Arc;
use vstd::prelude::*;
use wasmtime::{Config, Engine, Linker, Module};

verus! {

/// Errors produced while preparing or executing a contract call.
#[derive(Debug)]
pub enum VmError {
    /// Engine setup, module compilation, instantiation, or execution failed.
    EngineConfig(wasmtime::Error),
    /// A host function failed while the guest was executing.
    Host(HostError),
    /// The requested exported guest method does not exist.
    MissingMethod(String),
    /// The guest aborted execution without a message.
    Aborted,
    /// The guest aborted execution and provided a message.
    AbortedWithMessage(String),
}

/// `text` is the message of `error`.
pub open spec fn is_vm_error_message(error: VmError, text: Seq<char>) -> bool {
    match error {
        VmError::EngineConfig(_) => exists|detail: Seq<char>|
            text == "failed to configure wasmtime engine: "@ + detail,
        VmError::Host(h) => is_host_error_message(h, text),
        VmError::MissingMethod(m) => text == "contract method not found: "@ + m@,
        VmError::Aborted => text == "contract execution aborted"@,
        VmError::AbortedWithMessage(m) => text == "contract execution aborted: "@ + m@,
    }
}

/// `text` is the message of `error`.
pub open spec fn is_host_error_message(error: HostError, text: Seq<char>) -> bool {
    match error {
        HostError::MissingMemory => text == "guest memory export \"memory\" is missing"@,
        HostError::NegativeOffset => text == "negative pointer or length"@,
        HostError::OutOfBounds => text == "guest memory access out of bounds"@,
        HostError::MissingContext => text == "execution context is missing"@,
        HostError::State(m) => text == "state operation failed: "@ + m@,
        HostError::Gas(m) => text == "failed to charge gas: "@ + m@,
    }
}

impl VmError {
    /// Returns the human-readable message of this error.
    pub fn message(&self) -> (text: String)
        ensures
            is_vm_error_message(*self, text@),
    {
        match self {
            VmError::EngineConfig(e) => {
                let detail = error_text(e);
                let text = concat_text("failed to configure wasmtime engine: ", detail.as_str());
                assert(text@ == "failed to configure wasmtime engine: "@ + detail@);
                text
            },
            VmError::Host(h) => h.message(),
            VmError::MissingMethod(m) => concat_text("contract method not found: ", m.as_str()),
            VmError::Aborted => String::from_str("contract execution aborted"),
            VmError::AbortedWithMessage(m) => concat_text("contract execution aborted: ", m.as_str()),
        }
    }
}


/// Gas accounting summary for a contract call.
#[derive(Debug, Clone, Copy, PartialEq, Eq)]
pub struct GasReport {
    /// Maximum gas made available to the call.
    pub gas_limit: u64,
    /// Gas actually consumed by the call.
    pub gas_used: u64,
}

/// All inputs required to execute a single contract call.
#[derive(Debug)]
pub struct CallRequest<'a> {
    /// World state snapshot to execute against.
    pub state: WorldState,
    /// External account that initiated the call.
    pub caller: Address,
    /// Contract address being executed.
    pub contract: Address,
    /// Balance transferred into the contract before execution.
    pub deposit: u64,
    /// Exported guest method to invoke.
    pub method: &'a str,
    /// Encoded input bytes passed to the guest.
    pub args: &'a [u8],
    /// Wasm bytecode for the target contract.
    pub code: &'a [u8],
    /// Maximum gas available to the call.
    pub gas_limit: u64,
}

/// Wasmtime-based execution engine with a cache of compiled contract modules.
/// Each cache entry holds a code hash, the module compiled from that code,
/// and (for proofs) the code itself. The cache is a list rather than a hash
/// map: its keys are 32-byte arrays, for which vstd's map specifications
/// would let nothing be proved of a lookup.
pub struct VmEngine {
    engine: Engine,
    linker: Linker<VmHostState>,
    module_cache: Vec<([u8; 32], Arc<Module>, Ghost<Seq<u8>>)>,
}

/// The hash under which code is cached: its SHA-256 digest.
pub open spec fn spec_code_hash(code: Seq<u8>) -> [u8; 32] {
    sha256_spec(code)
}

/// The cache after caching code with hash `h`: unchanged when `h` is cached,
/// else with `h` appended.
pub open spec fn cache_after(cached: Seq<[u8; 32]>, h: [u8; 32]) -> Seq<[u8; 32]> {
    if cached.contains(h) {
        cached
    } else {
        cached.push(h)
    }
}

impl VmEngine {
    /// The hashes of the cached modules, oldest first.
    pub closed spec fn cached_hashes(&self) -> Seq<[u8; 32]> {
        self.module_cache@.map_values(|e: ([u8; 32], Arc<Module>, Ghost<Seq<u8>>)| e.0)
    }

    /// The module cached under `h`, and the code it was compiled from
    /// (meaningful when `h` is cached).
    pub closed spec fn cached_entry(&self, h: [u8; 32]) -> (Arc<Module>, Seq<u8>) {
        let i = self.cached_index(h);
        (self.module_cache@[i].1, self.module_cache@[i].2@)
    }

    /// The index of the entry cached under `h`.
    closed spec fn cached_index(&self, h: [u8; 32]) -> int {
        choose|i: int| 0 <= i < self.module_cache@.len() && self.module_cache@[i].0 == h
    }

    /// Every cached module is filed under the hash of the code it was
    /// compiled from, and no hash is filed twice.
    #[verifier::type_invariant]
    closed spec fn cache_filed_by_hash(&self) -> bool {
        &&& self.cached_hashes().no_duplicates()
        &&& forall|i: int| 0 <= i < self.module_cache@.len() ==> #[trigger] self.module_cache@[i].0
            == spec_code_hash(self.module_cache@[i].2@)
    }

    /// The entry at index `i` is the one cached under its hash.
    proof fn lemma_entry_at(&self, i: int)
        requires
            self.cache_filed_by_hash(),
            0 <= i < self.module_cache@.len(),
        ensures
            self.cached_entry(self.module_cache@[i].0) == (self.module_cache@[i].1, self.module_cache@[i].2@),
            spec_code_hash(self.cached_entry(self.module_cache@[i].0).1) == self.module_cache@[i].0,
    {
        let h = self.module_cache@[i].0;
        assert(exists|k: int| 0 <= k < self.module_cache@.len() && self.module_cache@[k].0 == h) by {
            assert(0 <= i < self.module_cache@.len() && self.module_cache@[i].0 == h);
        }
        let j = self.cached_index(h);
        assert(0 <= j < self.module_cache@.len() && self.module_cache@[j].0 == h);
        assert(self.cached_hashes()[i] == h);
        assert(self.cached_hashes()[j] == h);
        if j != i {
            assert(self.cached_hashes()[i] != self.cached_hashes()[j]);
        }
        assert(j == i);
        assert(self.cached_entry(h) == (self.module_cache@[j].1, self.module_cache@[j].2@));
    }

    /// Creates an engine with deterministic settings, fuel metering and all
    /// host functions linked; its cache is empty.
    pub fn new() -> (vm: Result<Self, VmError>)
        ensures
            vm matches Ok(engine) ==> engine.cached_hashes().len() == 0,
            vm matches Ok(engine) ==> host::linker_bindings(engine.linker_value()) == host::host_bindings(),
            vm is Err ==> vm matches Err(VmError::EngineConfig(_)),
    {
        let config = match deterministic_config() {
            Ok(config) => config,
            Err(error) => return Err(VmError::EngineConfig(error)),
        };
        let engine = match engine_new(&config) {
            Ok(engine) => engine,
            Err(error) => return Err(VmError::EngineConfig(error)),
        };
        let mut linker = linker_new(&engine);
        match host::link_host_functions(&mut linker) {
            Ok(()) => {},
            Err(error) => return Err(VmError::EngineConfig(error)),
        }
        assert(host::linker_bindings(linker) =~= host::host_bindings());
        let vm = VmEngine { engine, linker, module_cache: Vec::new() };
        assert(vm.cached_hashes() =~= Seq::<[u8; 32]>::empty());
        Ok(vm)
    }

    /// The engine this `VmEngine` compiles and runs modules with.
    pub closed spec fn engine_value(&self) -> Engine {
        self.engine
    }

    /// The linker holding the host functions.
    pub closed spec fn linker_value(&self) -> Linker<VmHostState> {
        self.linker
    }

    /// Returns the underlying engine.
    pub fn engine(&self) -> (engine: &Engine)
        ensures
            *engine == self.engine_value(),
    {
        &self.engine
    }

    /// Returns the linker holding the host functions.
    pub fn linker(&self) -> (linker: &Linker<VmHostState>)
        ensures
            *linker == self.linker_value(),
    {
        &self.linker
    }

    /// Returns the number of compiled modules currently cached.
    pub fn module_cache_len(&self) -> (len: usize)
        ensures
            len == self.cached_hashes().len(),
    {
        self.module_cache.len()
    }

    /// Finds the cache index of `hash`.
    fn find_cached(&self, hash: &[u8; 32]) -> (index: Option<usize>)
        ensures
            match index {
                Some(i) => i < self.cached_hashes().len() && self.cached_hashes()[i as int]
                    == *hash,
                None => !self.cached_hashes().contains(*hash),
            },
    {
        let mut i: usize = 0;
        while i < self.module_cache.len()
            invariant
                i <= self.module_cache@.len(),
                forall|j: int| 0 <= j < i ==> self.cached_hashes()[j] != *hash,
            decreases self.module_cache@.len() - i,
        {
            if crate::encoding::bytes32_equal(&self.module_cache[i].0, hash) {
                assert(self.cached_hashes()[i as int] == self.module_cache@[i as int].0);
                return Some(i);
            }
            i = i + 1;
        }
        None
    }

    /// Compiles and caches a module unless its code is already cached;
    /// returns the code hash. A new entry holds the module compiled from
    /// `code`; the entries already cached stay as they were.
    pub fn cache_module(&mut self, code: &[u8]) -> (hash: Result<[u8; 32], VmError>)
        ensures
            hash matches Ok(h) ==> h == spec_code_hash(code@) && final(self).cached_hashes()
                == cache_after(old(self).cached_hashes(), h),
            hash matches Ok(h) ==> spec_code_hash(final(self).cached_entry(h).1) == h,
            final(self).linker_value() == old(self).linker_value(),
            final(self).engine_value() == old(self).engine_value(),
            hash matches Ok(h) ==> (!old(self).cached_hashes().contains(h) ==> final(self).cached_entry(h).1
                == code@),
            forall|g: [u8; 32]|
                old(self).cached_hashes().contains(g) ==> #[trigger] final(self).cached_entry(g)
                    == old(self).cached_entry(g),
            hash is Err ==> final(self).cached_hashes() == old(self).cached_hashes()
                && !old(self).cached_hashes().contains(spec_code_hash(code@)) && (hash matches Err(
                VmError::EngineConfig(_),
            )),
    {
        proof {
            use_type_invariant(&*self);
        }
        let hash = code_hash(code);
        match self.find_cached(&hash) {
            Some(i) => {
                proof {
                    self.lemma_entry_at(i as int);
                    assert(self.module_cache@[i as int].0 == self.cached_hashes()[i as int]);
                }
                return Ok(hash);
            },
            None => {},
        }
        let module = match module_new(&self.engine, code) {
            Ok(module) => module,
            Err(error) => return Err(VmError::EngineConfig(error)),
        };
        let ghost before = *self;
        proof {
            let hs = before.cached_hashes().push(hash);
            assert forall|a: int, b: int| 0 <= a < hs.len() && 0 <= b < hs.len() && a != b implies hs[a]
                != hs[b] by {
                if a == before.cached_hashes().len() {
                    assert(hs[b] == before.cached_hashes()[b]);
                } else if b == before.cached_hashes().len() {
                    assert(hs[a] == before.cached_hashes()[a]);
                } else {
                    assert(hs[a] == before.cached_hashes()[a]);
                    assert(hs[b] == before.cached_hashes()[b]);
                }
            }
        }
        let mut cache: Vec<([u8; 32], Arc<Module>, Ghost<Seq<u8>>)> = Vec::new();
        std::mem::swap(&mut cache, &mut self.module_cache);
        cache.push((hash, module, Ghost(code@)));
        assert(cache@.map_values(|e: ([u8; 32], Arc<Module>, Ghost<Seq<u8>>)| e.0) =~= before.cached_hashes().push(hash));
        assert forall|i: int| 0 <= i < cache@.len() implies #[trigger] cache@[i].0 == spec_code_hash(cache@[i].2@) by {
            if i < before.module_cache@.len() {
                assert(cache@[i] == before.module_cache@[i]);
            }
        }
        self.module_cache = cache;
        assert(self.cached_hashes() =~= before.cached_hashes().push(hash));
        proof {
            let n = before.module_cache@.len() as int;
            self.lemma_entry_at(n);
            assert forall|g: [u8; 32]| before.cached_hashes().contains(g) implies #[trigger] self.cached_entry(g)
                == before.cached_entry(g) by {
                let k = choose|k: int| 0 <= k < before.cached_hashes().len() && before.cached_hashes()[k] == g;
                assert(before.module_cache@[k].0 == g);
                assert(self.module_cache@[k] == before.module_cache@[k]);
                before.lemma_entry_at(k);
                self.lemma_entry_at(k);
            }
        }
        Ok(hash)
    }

    /// Returns the module cached under `code_hash`, if any.
    pub fn get_cached_module(&self, code_hash: &[u8; 32]) -> (module: Option<Arc<Module>>)
        ensures
            module is Some <==> self.cached_hashes().contains(*code_hash),
            module matches Some(m) ==> m == self.cached_entry(*code_hash).0,
            module is Some ==> spec_code_hash(self.cached_entry(*code_hash).1) == *code_hash,
    {
        proof {
            use_type_invariant(self);
        }
        match self.find_cached(code_hash) {
            Some(i) => {
                proof {
                    self.lemma_entry_at(i as int);
                    assert(self.module_cache@[i as int].0 == self.cached_hashes()[i as int]);
                }
                Some(module_share(&self.module_cache[i].1))
            },
            None => None,
        }
    }

    /// Ensures the module for `code` is cached and returns it: the module
    /// cached under the code's hash, compiled from code with that hash (from
    /// `code` itself when it was not cached before).
    pub fn prepare_module(&mut self, code: &[u8]) -> (module: Result<Arc<Module>, VmError>)
        ensures
            module is Ok ==> final(self).cached_hashes() == cache_after(
                old(self).cached_hashes(),
                spec_code_hash(code@),
            ),
            final(self).linker_value() == old(self).linker_value(),
            final(self).engine_value() == old(self).engine_value(),
            module matches Ok(m) ==> m == final(self).cached_entry(spec_code_hash(code@)).0
                && spec_code_hash(final(self).cached_entry(spec_code_hash(code@)).1) == spec_code_hash(code@),
            module is Ok && !old(self).cached_hashes().contains(spec_code_hash(code@))
                ==> final(self).cached_entry(spec_code_hash(code@)).1 == code@,
            module is Err ==> final(self).cached_hashes() == old(self).cached_hashes() && (
            module matches Err(VmError::EngineConfig(_))),
    {
        let ghost before = self.cached_hashes();
        let hash = match self.cache_module(code) {
            Ok(hash) => hash,
            Err(error) => return Err(error),
        };
        proof {
            if !before.contains(hash) {
                assert(self.cached_hashes()[before.len() as int] == hash);
            }
        }
        match self.get_cached_module(&hash) {
            Some(module) => Ok(module),
            None => {
                assert(false);
                Err(VmError::EngineConfig(error_msg(String::from_str("cached module missing"))))
            },
        }
    }

    /// Executes a contract call against the request's world state; returns
    /// the world state after the call, the execution context and the gas used.
    /// The context is the request's caller, contract, deposit and input, with
    /// the logs the guest emitted.
    pub fn execute_call_with_state(&mut self, request: CallRequest<'_>) -> (outcome: Result<
        (WorldState, ExecutionContext, GasReport),
        VmError,
    >)
        ensures
            outcome matches Ok((_, context, gas)) ==> {
                &&& gas.gas_limit == request.gas_limit
                &&& gas.gas_used <= request.gas_limit
                &&& !context.reverted
                &&& context.revert_message is None
                &&& context.caller == request.caller
                &&& context.contract == request.contract
                &&& context.deposit == request.deposit
                &&& context.args@ == request.args@
            },
            outcome matches Err(VmError::MissingMethod(m)) ==> m@ == request.method@,
            outcome matches Err(VmError::EngineConfig(_)) || exists|end: CallEnd| #[trigger] call_finished_as(
                request.caller,
                request.contract,
                request.deposit,
                request.method@,
                request.args@,
                request.gas_limit,
                end,
                outcome,
            ),
            final(self).cached_hashes() == old(self).cached_hashes() || final(self).cached_hashes()
                == cache_after(old(self).cached_hashes(), spec_code_hash(request.code@)),
            outcome matches Err(VmError::EngineConfig(_)) || exists|module: Module, data: VmHostState, end: CallEnd|
                #![trigger ran_guest(old(self).linker_value(), module, data, request.gas_limit, request.method@, end)]
                ran_guest(old(self).linker_value(), module, data, request.gas_limit, request.method@, end)
                    && module == *final(self).cached_entry(spec_code_hash(request.code@)).0
                    && spec_code_hash(final(self).cached_entry(spec_code_hash(request.code@)).1)
                    == spec_code_hash(request.code@) && starts_call(data, request) && call_finished_as(
                    request.caller,
                    request.contract,
                    request.deposit,
                    request.method@,
                    request.args@,
                    request.gas_limit,
                    end,
                    outcome,
                ),
    {
        let gas_limit = request.gas_limit;
        let code = request.code;
        let method = request.method;
        let caller = request.caller;
        let contract = request.contract;
        let deposit = request.deposit;
        let args = request.args;
        let host_state = self.prepare_call(request);
        let module = match self.prepare_module(code) {
            Ok(module) => module,
            Err(error) => return Err(error),
        };
        let ghost data = host_state;
        let guest = match instantiate_guest(&self.linker, &module, host_state, gas_limit) {
            Instantiated::Ready(guest) => guest,
            Instantiated::Failed(error) => return Err(VmError::EngineConfig(error)),
        };
        let ghost g = guest;
        let end = guest_call(guest, method);
        let ghost last = end;
        let outcome = finish_call(caller, contract, deposit, method, args, gas_limit, end);
        assert(ran_guest(self.linker_value(), *module, data, gas_limit, method@, last));
        outcome
    }

    /// The host data a call starts from: the request's state and a fresh
    /// execution context for its caller, contract, deposit and input.
    fn prepare_call(&self, request: CallRequest<'_>) -> (data: VmHostState)
        ensures
            data.state == request.state,
            data.context matches Some(c) && c.caller == request.caller && c.contract == request.contract
                && c.deposit == request.deposit && c.args@ == request.args@ && !c.reverted
                && c.revert_message is None && c.logs@.len() == 0,
    {
        let args = crate::encoding::copy_bytes_from_slice(request.args);
        VmHostState {
            state: request.state,
            context: Some(ExecutionContext::new(request.caller, request.contract, request.deposit, args)),
        }
    }
}

/// `outcome` is the result of a contract call by `caller` of `contract`,
/// with `deposit`, `method`, input `args` and `gas_limit`, whose guest
/// export ended as `end`. A missing export is `MissingMethod`; a trap is an
/// abort or an engine error, and carries the guest's revert message when it
/// set one; an unreadable fuel count is an engine error. Otherwise the
/// context the guest left decides: none is a host error, a reverted one an
/// abort, and a clean one succeeds with the world the guest left, the
/// caller's call of the contract with the guest's logs, and the fuel
/// consumed as the gas used.
pub open spec fn call_finished_as(
    caller: Address,
    contract: Address,
    deposit: u64,
    method: Seq<char>,
    args: Seq<u8>,
    gas_limit: u64,
    end: CallEnd,
    outcome: Result<(WorldState, ExecutionContext, GasReport), VmError>,
) -> bool {
    match end {
        CallEnd::Missing => outcome matches Err(VmError::MissingMethod(m)) && m@ == method,
        CallEnd::Finished { data, result, fuel_left } => match result {
            Err(_) => {
                &&& outcome matches Err(e) && (e is AbortedWithMessage || e is EngineConfig)
                &&& data.context matches Some(c) ==> (c.revert_message matches Some(m) ==> outcome
                    == Err::<(WorldState, ExecutionContext, GasReport), VmError>(
                    VmError::AbortedWithMessage(m),
                ))
            },
            Ok(()) => match fuel_left {
                Err(_) => outcome matches Err(VmError::EngineConfig(_)),
                Ok(fuel) => match data.context {
                    None => outcome matches Err(VmError::Host(HostError::MissingContext)),
                    Some(c) => if c.reverted {
                        match c.revert_message {
                            Some(m) => outcome matches Err(VmError::AbortedWithMessage(r)) && r == m,
                            None => outcome matches Err(VmError::Aborted),
                        }
                    } else {
                        &&& outcome matches Ok((state, context, gas))
                        &&& state == data.state
                        &&& context.caller == caller
                        &&& context.contract == contract
                        &&& context.deposit == deposit
                        &&& context.args@ == args
                        &&& !context.reverted
                        &&& context.revert_message is None
                        &&& context.logs == c.logs
                        &&& gas == (GasReport {
                            gas_limit,
                            gas_used: if fuel > gas_limit { 0 } else { (gas_limit - fuel) as u64 },
                        })
                    },
                },
            },
        },
    }
}

/// The result of a contract call from how the guest's export ended, as
/// `call_finished_as` describes it.
pub fn finish_call(
    caller: Address,
    contract: Address,
    deposit: u64,
    method: &str,
    args: &[u8],
    gas_limit: u64,
    end: CallEnd,
) -> (outcome: Result<(WorldState, ExecutionContext, GasReport), VmError>)
    ensures
        call_finished_as(caller, contract, deposit, method@, args@, gas_limit, end, outcome),
{
    let (data, result, fuel_left) = match end {
        CallEnd::Missing => return Err(VmError::MissingMethod(String::from_str(method))),
        CallEnd::Finished { data, result, fuel_left } => (data, result, fuel_left),
    };
    match result {
        Ok(()) => {},
        Err(error) => return Err(execution_error(&data, error)),
    }
    let remaining_fuel = match fuel_left {
        Ok(fuel) => fuel,
        Err(error) => return Err(VmError::EngineConfig(error)),
    };
    let finished = match finalize_context(data.context) {
        Ok(context) => context,
        Err(error) => return Err(error),
    };
    let context = ExecutionContext {
        caller,
        contract,
        deposit,
        args: crate::encoding::copy_bytes_from_slice(args),
        reverted: false,
        revert_message: None,
        logs: finished.logs,
    };
    let gas_report = GasReport { gas_limit, gas_used: gas_limit.saturating_sub(remaining_fuel) };
    Ok((data.state, context, gas_report))
}

/// The guest ran: `module` was instantiated through `linker` in a fresh
/// store holding `data` and given exactly `fuel` fuel, and its export named
/// `method` was called in that store, ending as `end`.
pub closed spec fn ran_guest(
    linker: Linker<VmHostState>,
    module: Module,
    data: VmHostState,
    fuel: u64,
    method: Seq<char>,
    end: CallEnd,
) -> bool {
    exists|l: &Linker<VmHostState>, m: &Module, started: Instantiated, g: Guest, name: &str|
        #![trigger call_ensures(instantiate_guest, (l, m, data, fuel), started), call_ensures(guest_call, (g, name), end)]
        *l == linker && *m == module && name@ == method && started == Instantiated::Ready(g) && call_ensures(
            instantiate_guest,
            (l, m, data, fuel),
            started,
        ) && call_ensures(guest_call, (g, name), end)
}

/// The guest's export returned with `fuel_left` readable, and `outcome`
/// reports the fuel consumed out of `gas_limit` as the gas used: the limit
/// less the fuel left, or zero if more was left.
pub open spec fn gas_is_fuel_consumed(
    end: CallEnd,
    gas_limit: u64,
    outcome: Result<(WorldState, ExecutionContext, GasReport), VmError>,
) -> bool {
    match end {
        CallEnd::Finished { result, fuel_left, .. } => match (fuel_left, outcome) {
            (Ok(left), Ok((_, _, gas))) => result is Ok && gas.gas_limit == gas_limit && gas.gas_used == (if left
                > gas_limit {
                0
            } else {
                gas_limit - left
            }),
            _ => false,
        },
        CallEnd::Missing => false,
    }
}

/// `data` is what a call for `request` starts from: the request's world and
/// a fresh context for its caller, contract, deposit and input.
pub open spec fn starts_call(data: VmHostState, request: CallRequest) -> bool {
    &&& data.state == request.state
    &&& data.context matches Some(c)
    &&& c.caller == request.caller && c.contract == request.contract && c.deposit == request.deposit
    &&& c.args@ == request.args@ && !c.reverted && c.revert_message is None && c.logs@.len() == 0
}

/// Turns the context left by a finished call into the call's result: a
/// missing context is a host error, a reverted one an abort.
pub fn finalize_context(context: Option<ExecutionContext>) -> (result: Result<ExecutionContext, VmError>)
    ensures
        context is None ==> result matches Err(VmError::Host(HostError::MissingContext)),
        context matches Some(c) ==> if c.reverted {
            match c.revert_message {
                Some(m) => result matches Err(VmError::AbortedWithMessage(r)) && r == m,
                None => result matches Err(VmError::Aborted),
            }
        } else {
            result == Ok::<ExecutionContext, VmError>(c)
        },
{
    let context = match context {
        Some(context) => context,
        None => return Err(VmError::Host(HostError::MissingContext)),
    };
    if context.reverted {
        return match context.revert_message {
            Some(message) => Err(VmError::AbortedWithMessage(message)),
            None => Err(VmError::Aborted),
        };
    }
    Ok(context)
}

/// The error for a trapped call: the guest's revert message if it set one,
/// else the trap's own text if it is not empty, as an abort; otherwise the
/// engine error itself.
fn execution_error(data: &VmHostState, error: wasmtime::Error) -> (vm_error: VmError)
    ensures
        vm_error matches VmError::AbortedWithMessage(_) || vm_error matches VmError::EngineConfig(_),
        data.context matches Some(c) ==> (c.revert_message matches Some(m) ==> vm_error
            == VmError::AbortedWithMessage(m)),
{
    let revert: Option<String> = match &data.context {
        Some(context) => match &context.revert_message {
            Some(message) => {
                let copy = message.clone();
                assert(copy == *message);
                Some(copy)
            },
            None => None,
        },
        None => None,
    };
    let message = match revert {
        Some(message) => Some(message),
        None => extract_error_message(&error),
    };
    match message {
        Some(message) => VmError::AbortedWithMessage(message),
        None => VmError::EngineConfig(error),
    }
}

/// The engine configuration: deterministic Wasm features and fuel metering.
fn deterministic_config() -> (config: Result<Config, wasmtime::Error>)
    ensures
        config is Ok,
{
    let mut config = config_new();
    config_wasm_multi_memory(&mut config, false);
    config_wasm_multi_value(&mut config, true);
    config_wasm_reference_types(&mut config, true);
    config_wasm_simd(&mut config, false);
    config_wasm_tail_call(&mut config, false);
    config_wasm_threads(&mut config, false);
    config_wasm_relaxed_simd(&mut config, false);
    config_wasm_bulk_memory(&mut config, true);
    config_wasm_function_references(&mut config, true);
    config_consume_fuel(&mut config, true);
    config_cranelift_nan_canonicalization(&mut config, true);
    Ok(config)
}

/// The text of an engine error, unless it is empty.
fn extract_error_message(error: &wasmtime::Error) -> (message: Option<String>)
    ensures
        message matches Some(m) ==> m@.len() > 0,
{
    let text = error_text(error);
    if text.as_str().is_empty() {
        None
    } else {
        Some(text)
    }
}

/// Computes the code hash used to cache compiled modules: SHA-256 of the code.
pub fn code_hash(code: &[u8]) -> (hash: [u8; 32])
    ensures
        hash == spec_code_hash(code@),
{
    sha256_digest(code)
}


/// The module cache is keyed by code hash: caching holds the hash
/// afterwards, never adds a hash twice, and caching the same code again
/// leaves the cache as it was.
pub proof fn law_cache_by_code_hash(cached: Seq<[u8; 32]>, h: [u8; 32])
    ensures
        cache_after(cached, h).contains(h),
        cache_after(cache_after(cached, h), h) == cache_after(cached, h),
        cached.no_duplicates() ==> cache_after(cached, h).no_duplicates(),
        cached.contains(h) ==> cache_after(cached, h) == cached,
        !cached.contains(h) ==> cache_after(cached, h) == cached.push(h),
{
    if !cached.contains(h) {
        let c = cached.push(h);
        assert(c[cached.len() as int] == h);
        assert forall|i: int, j: int| 0 <= i < c.len() && 0 <= j < c.len() && i != j && cached.no_duplicates()
            implies c[i] != c[j] by {
            if i == cached.len() {
                assert(c[j] == cached[j]);
            } else if j == cached.len() {
                assert(c[i] == cached[i]);
            }
        }
    }
}

/// A contract call that succeeds ran its guest in a fresh store holding the
/// request's world and a fresh context, given exactly the request's gas
/// limit as fuel, with the module compiled from the request's code; the gas
/// it reports is the fuel the guest consumed (the limit less the fuel left,
/// or zero if more was left than given).
pub proof fn law_call_runs_on_the_request_fuel(
    engine: &mut VmEngine,
    request: CallRequest,
    outcome: Result<(WorldState, ExecutionContext, GasReport), VmError>,
)
    requires
        call_ensures(VmEngine::execute_call_with_state, (engine, request), outcome),
        outcome is Ok,
    ensures
        exists|module: Module, data: VmHostState, end: CallEnd|
            #![trigger ran_guest(old(engine).linker_value(), module, data, request.gas_limit, request.method@, end)]
            ran_guest(old(engine).linker_value(), module, data, request.gas_limit, request.method@, end)
                && module == *final(engine).cached_entry(spec_code_hash(request.code@)).0
                && spec_code_hash(final(engine).cached_entry(spec_code_hash(request.code@)).1)
                == spec_code_hash(request.code@) && starts_call(data, request) && gas_is_fuel_consumed(
                end,
                request.gas_limit,
                outcome,
            ),
{
    let (module, data, end) = choose|module: Module, data: VmHostState, end: CallEnd|
        #![trigger ran_guest(old(engine).linker_value(), module, data, request.gas_limit, request.method@, end)]
        ran_guest(old(engine).linker_value(), module, data, request.gas_limit, request.method@, end)
            && module == *final(engine).cached_entry(spec_code_hash(request.code@)).0
            && spec_code_hash(final(engine).cached_entry(spec_code_hash(request.code@)).1)
            == spec_code_hash(request.code@) && starts_call(data, request) && call_finished_as(
            request.caller,
            request.contract,
            request.deposit,
            request.method@,
            request.args@,
            request.gas_limit,
            end,
            outcome,
        );
    assert(ran_guest(old(engine).linker_value(), module, data, request.gas_limit, request.method@, end));
}

} // verus!
