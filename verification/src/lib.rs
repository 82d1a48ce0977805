//! An escrow-style crowdfunding ledger.
//!
//! Creators register campaigns with a target amount and a deadline;
//! contributors deposit value that is held in escrow by the campaign.
//! The creator may withdraw the escrowed value once the goal is met or the
//! deadline has passed; if the deadline passes with the goal unmet, each
//! contributor may instead reclaim their own contribution.
//!
//! [`state`] holds the two persistent record types and the conditions that
//! govern them; [`instructions`] holds the four operations (create, fund,
//! withdraw, refund) over records and plain balances; [`ledger`] composes
//! them with a model of the host environment — account balances, keyed
//! record storage and a monotonic clock — and carries value conservation
//! and escrow soundness across every operation.

pub mod errors;
pub mod instructions;
pub mod ledger;
pub mod state;
