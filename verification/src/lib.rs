//! A crowdfunding ledger with donation matching.
//!
//! Donors contribute to a campaign and a pre-funded matching pool tops up
//! each donation according to a configured ratio, until the pool is
//! exhausted or the campaign goal is met. This crate holds the accounting
//! and authorization state machine: platform registration, campaign
//! creation, donation processing with matching-amount computation, the
//! campaign lifecycle (active, goal-reached, expired, paused), and
//! fee-bearing withdrawal settlement.
//!
//! The surrounding environment is responsible for authenticating callers,
//! physically moving funds between custody accounts, persisting records,
//! and delivering the emitted notification values to observers. Each
//! operation here is one atomic unit of work over plain values: it either
//! returns `Ok` with every ledger mutation applied, or an error with no
//! state changed at all. Time is taken as a snapshot argument, read once
//! per operation by the caller.

pub mod campaign;
pub mod donation;
pub mod errors;
pub mod escrow;
pub mod events;
pub mod ledger;
pub mod matching;
pub mod platform;
pub mod settlement;
