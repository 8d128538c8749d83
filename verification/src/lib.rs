//! Blocky: a compact blockchain runtime whose transaction, state, mining and
//! contract-call logic is specified and proved with Verus.
//!
//! - [`transaction`] defines addresses and transaction payloads.
//! - [`block`] defines mined blocks and proof-of-work hashing.
//! - [`state`] applies transactions to an in-memory world state.
//! - [`chain`] ties blocks, pending transactions, receipts and validation together.
//! - [`vm`] executes Wasm smart contracts against the world state.
//! - [`call_abi`] frames contract call input as a Borsh envelope.
//! - [`app`] holds the demo walkthrough and the interactive console's logic.

pub mod app;
pub mod assoc;
pub mod block;
pub mod call_abi;
pub mod chain;
pub mod crypto;
pub mod encoding;
pub mod receipt;
pub mod state;
pub mod text;
pub mod transaction;
pub mod vm;

pub use block::{hash_to_hex, Block};
pub use call_abi::{CallAbiError, CallEnvelope};
pub use chain::{Blockchain, BlockyError};
pub use receipt::{transaction_hash, Receipt};
pub use state::{AccountState, StateError, WorldState};
pub use transaction::{address_from_name, address_to_hex, Address, Payload, Transaction};
pub use vm::{ExecutionContext, HostError, VmEngine, VmError, VmHostState};
