//! A poll ledger: creation of polls, voting with vote switching, closure, and
//! an escrowed creation fee that is refunded on closure.
//!
//! The ledger lives in the host's key-value store. [`store`] holds the access
//! to it, and is the one part that is relied on without proof. [`ledger`] is
//! the mathematical model that all contracts speak of, [`tally`] the rule by
//! which a vote changes the counts of a poll, and [`contract`] the
//! operations. [`laws`] states what holds of the ledger whatever is called.
pub mod contract;
pub mod error;
pub mod host;
pub mod laws;
pub mod ledger;
pub mod msg;
pub mod state;
pub mod store;
pub mod tally;

pub use crate::error::ContractError;
