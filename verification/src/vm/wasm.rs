//! Declarations of the `wasmtime` types the engine uses, and the trusted
//! wrappers around the `wasmtime` functions it calls. Wasmtime values are
//! opaque here: the wrappers state only what `wasmtime`'s documentation and
//! source show of their results.

use crate::vm::host::{linker_bindings, VmHostState};
use std::sync::Arc;
use vstd::prelude::*;
use wasmtime::{Caller, Config, Engine, Instance, Linker, Module, Store};

verus! {

/// Trusted declaration of `wasmtime::Error`.
#[verifier::external_type_specification]
#[verifier::external_body]
pub struct ExWasmError(wasmtime::Error);

/// Trusted declaration of `wasmtime::Config`.
#[verifier::external_type_specification]
#[verifier::external_body]
pub struct ExConfig(Config);

/// Trusted declaration of `wasmtime::Engine`.
#[verifier::external_type_specification]
#[verifier::external_body]
pub struct ExEngine(Engine);

/// Trusted declaration of `wasmtime::Module`.
#[verifier::external_type_specification]
#[verifier::external_body]
pub struct ExModule(Module);

/// Trusted declaration of `wasmtime::Instance`.
#[verifier::external_type_specification]
#[verifier::external_body]
pub struct ExInstance(Instance);

/// Trusted declaration of `wasmtime::Linker`.
#[verifier::external_type_specification]
#[verifier::external_body]
#[verifier::reject_recursive_types(T)]
pub struct ExLinker<T>(Linker<T>);

/// Trusted declaration of `wasmtime::Store`.
#[verifier::external_type_specification]
#[verifier::external_body]
#[verifier::reject_recursive_types(T)]
pub struct ExStore<T: 'static>(Store<T>);

/// Trusted declaration of `wasmtime::Caller`.
#[verifier::external_type_specification]
#[verifier::external_body]
#[verifier::reject_recursive_types(T)]
pub struct ExCaller<'a, T: 'static>(Caller<'a, T>);

/// Trusted: `wasmtime::Config::new`. Nothing is stated of the configuration.
#[verifier::external_body]
pub(crate) fn config_new() -> Config {
    Config::new()
}

/// Trusted: `Config::wasm_multi_memory`. Nothing is stated.
#[verifier::external_body]
pub(crate) fn config_wasm_multi_memory(config: &mut Config, enable: bool) {
    config.wasm_multi_memory(enable);
}

/// Trusted: `Config::wasm_multi_value`. Nothing is stated.
#[verifier::external_body]
pub(crate) fn config_wasm_multi_value(config: &mut Config, enable: bool) {
    config.wasm_multi_value(enable);
}

/// Trusted: `Config::wasm_reference_types`. Nothing is stated.
#[verifier::external_body]
pub(crate) fn config_wasm_reference_types(config: &mut Config, enable: bool) {
    config.wasm_reference_types(enable);
}

/// Trusted: `Config::wasm_simd`. Nothing is stated.
#[verifier::external_body]
pub(crate) fn config_wasm_simd(config: &mut Config, enable: bool) {
    config.wasm_simd(enable);
}

/// Trusted: `Config::wasm_tail_call`. Nothing is stated.
#[verifier::external_body]
pub(crate) fn config_wasm_tail_call(config: &mut Config, enable: bool) {
    config.wasm_tail_call(enable);
}

/// Trusted: `Config::wasm_threads`. Nothing is stated.
#[verifier::external_body]
pub(crate) fn config_wasm_threads(config: &mut Config, enable: bool) {
    config.wasm_threads(enable);
}

/// Trusted: `Config::wasm_relaxed_simd`. Nothing is stated.
#[verifier::external_body]
pub(crate) fn config_wasm_relaxed_simd(config: &mut Config, enable: bool) {
    config.wasm_relaxed_simd(enable);
}

/// Trusted: `Config::wasm_bulk_memory`. Nothing is stated.
#[verifier::external_body]
pub(crate) fn config_wasm_bulk_memory(config: &mut Config, enable: bool) {
    config.wasm_bulk_memory(enable);
}

/// Trusted: `Config::wasm_function_references`. Nothing is stated.
#[verifier::external_body]
pub(crate) fn config_wasm_function_references(config: &mut Config, enable: bool) {
    config.wasm_function_references(enable);
}

/// Trusted: `Config::consume_fuel`. Nothing is stated.
#[verifier::external_body]
pub(crate) fn config_consume_fuel(config: &mut Config, enable: bool) {
    config.consume_fuel(enable);
}

/// Trusted: `Config::cranelift_nan_canonicalization`. Nothing is stated.
#[verifier::external_body]
pub(crate) fn config_cranelift_nan_canonicalization(config: &mut Config, enable: bool) {
    config.cranelift_nan_canonicalization(enable);
}

/// Trusted: `wasmtime::Engine::new`. Nothing is stated of the outcome.
#[verifier::external_body]
pub(crate) fn engine_new(config: &Config) -> Result<Engine, wasmtime::Error> {
    Engine::new(config)
}

/// Trusted: `wasmtime::Linker::new`. A new linker binds nothing (and does
/// not allow shadowing).
#[verifier::external_body]
pub(crate) fn linker_new(engine: &Engine) -> (linker: Linker<VmHostState>)
    ensures
        linker_bindings(linker).dom() == Set::<(Seq<char>, Seq<char>)>::empty(),
{
    Linker::new(engine)
}

/// Trusted: `wasmtime::Module::new`, compiling `code`. Nothing is stated of
/// the outcome.
#[verifier::external_body]
pub(crate) fn module_new(engine: &Engine, code: &[u8]) -> Result<Arc<Module>, wasmtime::Error> {
    match Module::new(engine, code) {
        Ok(module) => Ok(Arc::new(module)),
        Err(error) => Err(error),
    }
}

/// Trusted: `Arc::clone` on a compiled module: another pointer to the same
/// module, which the contract states.
#[verifier::external_body]
pub(crate) fn module_share(module: &Arc<Module>) -> (shared: Arc<Module>)
    ensures
        shared == *module,
{
    Arc::clone(module)
}

/// Trusted: `wasmtime::Error::msg`. Nothing is stated.
#[verifier::external_body]
pub(crate) fn error_msg(message: String) -> wasmtime::Error {
    wasmtime::Error::msg(message)
}

/// Trusted: the `Display` text of a `wasmtime::Error`. Nothing is stated.
#[verifier::external_body]
pub(crate) fn error_text(error: &wasmtime::Error) -> String {
    error.to_string()
}

/// Trusted: `Caller::data`. Nothing is stated of the data.
#[verifier::external_body]
pub(crate) fn caller_data<'a>(caller: &'a Caller<'_, VmHostState>) -> &'a VmHostState {
    caller.data()
}

/// Trusted: `Caller::data_mut`. Nothing is stated of the data.
#[verifier::external_body]
pub(crate) fn caller_data_mut<'a>(caller: &'a mut Caller<'_, VmHostState>) -> &'a mut VmHostState {
    caller.data_mut()
}

/// Trusted: `Caller::get_fuel`. Nothing is stated of the fuel.
#[verifier::external_body]
pub(crate) fn caller_get_fuel(caller: &Caller<'_, VmHostState>) -> Result<u64, wasmtime::Error> {
    caller.get_fuel()
}

/// Trusted: `Caller::set_fuel`. Nothing is stated of the outcome.
#[verifier::external_body]
pub(crate) fn caller_set_fuel(caller: &mut Caller<'_, VmHostState>, fuel: u64) -> Result<(), wasmtime::Error> {
    caller.set_fuel(fuel)
}

/// A guest instance together with the store that owns it. Its fields are
/// private to this module and only the wrappers below touch them, so the
/// instance is never used with another store.
pub struct Guest {
    store: Store<VmHostState>,
    instance: Instance,
}

/// How instantiating a guest ended.
pub enum Instantiated {
    /// The module was instantiated in a fresh store holding the host data.
    Ready(Guest),
    /// Setting the fuel or instantiating failed.
    Failed(wasmtime::Error),
}

/// How calling a guest export ended: the host data the store holds
/// afterwards, and the fuel left.
pub enum CallEnd {
    /// The guest exports no function of that name.
    Missing,
    /// The function ran; `result` is its outcome (a trap is an error).
    Finished { data: VmHostState, result: Result<(), wasmtime::Error>, fuel_left: Result<u64, wasmtime::Error> },
}

/// Trusted: `Store::new` on the linker's own engine holding `data`, then
/// `Store::set_fuel` and `Linker::instantiate`. The store is made from
/// `Linker::engine`, so the store and the linker share an engine (a mismatch
/// would panic); a module of another engine is an error. Nothing is stated of
/// the outcome.
#[verifier::external_body]
pub(crate) fn instantiate_guest(linker: &Linker<VmHostState>, module: &Module, data: VmHostState, fuel: u64) -> Instantiated {
    let mut store = Store::new(linker.engine(), data);
    if let Err(error) = store.set_fuel(fuel) {
        return Instantiated::Failed(error);
    }
    match linker.instantiate(&mut store, module) {
        Ok(instance) => Instantiated::Ready(Guest { store, instance }),
        Err(error) => Instantiated::Failed(error),
    }
}

/// Trusted: `Instance::get_func` and `Func::call` (no parameters, no
/// results) on the guest's own store, then `Store::get_fuel` and
/// `Store::into_data`. Nothing is stated of the outcome, which depends on the
/// guest code.
#[verifier::external_body]
pub(crate) fn guest_call(guest: Guest, name: &str) -> CallEnd {
    let Guest { mut store, instance } = guest;
    let Some(func) = instance.get_func(&mut store, name) else {
        return CallEnd::Missing;
    };
    let result = func.call(&mut store, &[], &mut []);
    let fuel_left = store.get_fuel();
    CallEnd::Finished { data: store.into_data(), result, fuel_left }
}

/// Why a guest memory access failed.
pub enum MemoryFault {
    /// The guest exports no memory named `memory`.
    Missing,
    /// The range lies outside the memory.
    OutOfBounds,
}

/// Trusted: `Caller::get_export("memory")`, `Extern::into_memory` and
/// `Memory::read` of `len` bytes at `offset`. The memory comes from the
/// caller's own instance, so it belongs to the caller's store. Its source
/// fills the whole buffer or fails; the contract states only the length of
/// what it read.
#[verifier::external_body]
pub(crate) fn caller_read_memory(caller: &mut Caller<'_, VmHostState>, offset: usize, len: usize) -> (bytes: Result<Vec<u8>, MemoryFault>)
    ensures
        bytes matches Ok(b) ==> b@.len() == len,
{
    let memory = match caller.get_export("memory") {
        Some(export) => export.into_memory(),
        None => None,
    };
    let Some(memory) = memory else {
        return Err(MemoryFault::Missing);
    };
    let mut buffer = vec![0u8; len];
    match memory.read(&*caller, offset, &mut buffer) {
        Ok(()) => Ok(buffer),
        Err(_) => Err(MemoryFault::OutOfBounds),
    }
}

/// Trusted: `Caller::get_export("memory")`, `Extern::into_memory` and
/// `Memory::write` of `bytes` at `offset`, on the caller's own memory.
/// Nothing is stated of the outcome.
#[verifier::external_body]
pub(crate) fn caller_write_memory(caller: &mut Caller<'_, VmHostState>, offset: usize, bytes: &[u8]) -> Result<(), MemoryFault> {
    let memory = match caller.get_export("memory") {
        Some(export) => export.into_memory(),
        None => None,
    };
    let Some(memory) = memory else {
        return Err(MemoryFault::Missing);
    };
    match memory.write(&mut *caller, offset, bytes) {
        Ok(()) => Ok(()),
        Err(_) => Err(MemoryFault::OutOfBounds),
    }
}

} // verus!
