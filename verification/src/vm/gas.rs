//! Gas schedule constants and helpers.

use vstd::prelude::*;

verus! {

/// Flat cost charged for every transaction.
pub const BASE_TX_COST: u64 = 1_000;

/// Cost of one storage read performed by a contract.
pub const STORAGE_READ_COST: u64 = 500;

/// Cost of one storage write performed by a contract.
pub const STORAGE_WRITE_COST: u64 = 2_000;

/// Cost of one storage removal performed by a contract.
pub const STORAGE_REMOVE_COST: u64 = 500;

/// Cost of one balance transfer performed by a contract.
pub const TRANSFER_COST: u64 = 1_000;

/// Cost charged per byte of deployed contract code.
pub const DEPLOY_COST_PER_BYTE: u64 = 10;

/// Gas made available to a transaction.
pub const DEFAULT_GAS_LIMIT: u64 = 1_000_000;

/// The deploy cost of `code_len` bytes: the per-byte price times the length,
/// capped at `u64::MAX`.
pub open spec fn spec_deploy_cost(code_len: nat) -> u64 {
    if code_len * (DEPLOY_COST_PER_BYTE as nat) > u64::MAX as nat {
        u64::MAX
    } else {
        (code_len * (DEPLOY_COST_PER_BYTE as nat)) as u64
    }
}

/// Returns the gas charged for deploying `code_len` bytes of code (saturating).
pub fn deploy_cost(code_len: usize) -> (cost: u64)
    ensures
        cost == spec_deploy_cost(code_len as nat),
{
    let len: u64 = code_len as u64;
    match len.checked_mul(DEPLOY_COST_PER_BYTE) {
        Some(cost) => cost,
        None => u64::MAX,
    }
}

} // verus!
