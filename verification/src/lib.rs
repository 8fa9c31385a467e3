//! An in-memory ledger: exact decimal amounts, per-client accounts, the
//! dispute lifecycle of fund-moving transactions, and the processor that
//! applies a stream of transaction records to the right account.
//!
//! `model` states what applying a transaction means and proves what holds
//! of every ledger; `processor` is proved to do to its tables exactly what
//! the model says. `decimal` is the only module that is trusted rather than
//! proved: it holds the calls into `rust_decimal`.

pub mod account;
pub mod amount;
pub mod config;
pub mod decimal;
pub mod model;
pub mod processor;
pub mod transaction;
