//! A ledger of client accounts, kept by applying transactions one at a time.
//!
//! Deposits and withdrawals move funds; a dispute holds the funds of an earlier
//! transaction until a resolution releases them or a chargeback forfeits them and
//! freezes the account. Every transaction that is processed is recorded in the
//! history of its client, with what became of it.
//!
//! `handlers::execute_handler` holds the rules and `laws` what follows from them;
//! `decimal` holds what is taken on trust from the `rust_decimal` crate.

pub mod account;
pub mod amount;
pub mod client;
pub mod decimal;
pub mod engine;
pub mod handlers;
pub mod inputs;
pub mod laws;
pub mod output;
pub mod storage;
pub mod transactions;
