# blocky

A compact proof-of-work blockchain with an in-memory world state and Wasm
smart contracts, whose logic is specified and proved with Verus.

## Layout

- `src/` — the verified library.
  - `transaction.rs`, `block.rs`, `receipt.rs` — transactions, blocks
    (hashing, mining, difficulty), receipts and transaction hashes.
  - `state.rs` — accounts, contract storage, transfers and the application of
    transactions and blocks, each against a map model (`WorldState@`).
  - `chain.rs` — the chain: admission of transactions, atomic mining with
    receipts, validation.
  - `call_abi.rs` — the Borsh call envelope, with its byte layout and a
    round-trip law.
  - `vm/` — gas schedule, host functions, and the Wasmtime engine with its
    module cache; Wasmtime itself is reached through trusted wrappers in
    `vm/wasm.rs`.
  - `app/` — the console's command language and session state (parsing, the
    key handler, output and history retention), the demo chain, and the text
    rendering of a chain.
  - `crypto.rs`, `encoding.rs`, `text.rs`, `assoc.rs` — SHA-256 and hex
    (trusted wrappers over `sha2` and `hex`), byte and text building, and the
    association-list model used for maps.
- `app/` — the executable: `blocky demo` runs the walkthrough, `blocky`
  starts the terminal console (ratatui/crossterm), reading deployment code
  files on the console's behalf.
- `tests/` — scenario tests run against the compiled library.
