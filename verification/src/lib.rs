//! Custody of funds between an owner and a beneficiary under an arbiter.
//!
//! An escrow is created pending, funded by locking an amount, and ended by
//! releasing the funds to the beneficiary or by cancelling and refunding the
//! owner. The library decides every transition and proves what it decides;
//! the record store and the settlement ledger stay with the caller.
//!
//! - [`escrow`], [`policy`], [`error`]: the record, the roles, the errors.
//! - [`lifecycle`]: the state machine, one record at a time.
//! - [`coordinator`]: staged transactions, and commit or rollback by the
//!   outcome of the ledger.
//! - [`store`], [`service`]: the records in memory and the engine over them.
//! - [`laws`], [`history`]: what holds of every call and of every sequence of
//!   calls.
//! - [`trustbridge_contract`], [`trustbridge_escrow`], [`account`]: the
//!   escrows that live on the ledger itself.
//! - [`ledger`], [`config`], [`auth`], [`text`]: payments and settings, and
//!   what the service decides about tokens and text.

pub mod account;
pub mod auth;
pub mod config;
pub mod coordinator;
pub mod error;
pub mod escrow;
pub mod history;
pub mod laws;
pub mod ledger;
pub mod lifecycle;
pub mod policy;
pub mod service;
pub mod store;
pub mod text;
pub mod trustbridge_contract;
pub mod trustbridge_escrow;
