[package]
name = "blocky"
version = "1.0.0"
edition = "2021"
publish = false

[dependencies]
borsh = "=1.8.1"
sha2 = "=0.10.9"
hex = "=0.4.3"
chrono = "=0.4.45"
serde_json = "=1.0.154"
wasmtime = "=45.0.3"
thiserror = "=2.0.21"
tracing = "=0.1.44"
tracing-subscriber = "=0.3.23"
ratatui = "=0.30.2"
crossterm = "=0.29.0"
