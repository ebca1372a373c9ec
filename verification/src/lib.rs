//! The core of a swap aggregator that takes a fee, hands the swap to an outside engine
//! and accepts the outcome only if a watched balance grew by the minimum asked for.
//!
//! The library decides; it does not touch the ledger. Every function takes what was
//! read from the ledger as plain values and answers with a plan: the actions that the
//! host carries out, in order, inside one unit of work that the ledger commits as a
//! whole or not at all. A swap is a sequence of such decisions; the functions in
//! `instructions` take the state a swap is in and what the ledger shows now, and give
//! the next state and its plan. `ledger` holds the model of the ledger over which
//! `laws` states what the plans achieve.

pub mod actions;
pub mod address;
pub mod constants;
pub mod delegate;
pub mod errors;
pub mod escrow;
pub mod fees;
pub mod floor;
pub mod instructions;
pub mod laws;
pub mod ledger;
pub mod token;
pub mod wrap;
