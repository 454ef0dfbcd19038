//! A deterministic auction engine over a tokenized, fractionally-owned asset
//! vault.
//!
//! Bidders compete for exclusive rights to the vault's contents, fraction
//! holders are entitled to a pro-rata share of the winning payment, and a
//! facilitator receives a configurable fee.  Every operation is a
//! state-transition function over plain values: it either performs all of its
//! effects and returns `Ok`, or returns the first failing precondition as an
//! error and leaves every entity unchanged.  The host runtime that stores the
//! entities, serializes concurrent requests and performs the custodial vault
//! calls sits outside this crate; it hands the engine freshly read values
//! (balances, timestamps, observed gateway effects) and writes back the
//! results atomically.

pub mod admin;
pub mod bidding;
pub mod errors;
pub mod keys;
pub mod lemmas;
pub mod settlement;
pub mod state;
pub mod token;
pub mod utils;
pub mod vault;
