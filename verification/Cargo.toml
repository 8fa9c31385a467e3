[package]
name = "ledger"
version = "0.1.0"
edition = "2021"
publish = false

[dependencies]
rust_decimal = "1"
rusty-money = "0.4"
serde = { version = "1", features = ["derive"] }
csv = "1"
csv-async = "1"
clap = { version = "4", features = ["derive"] }
tokio = { version = "1", features = ["macros", "rt-multi-thread"] }
futures = "0.3"
futures-io = "0.3"
async-std = "1"
itertools = "0.12"
log = "0.4"
enum-display-derive = "0.1"
