//! A tiered staking-reward ledger.
//!
//! Depositors lock funds against a tier, which fixes a minimum eligibility
//! holding, an annualized interest rate in basis points, and a lock duration.
//! Stakes accrue simple interest over time, subject to deposit fees,
//! early-withdrawal penalties, referral bonuses, and time-boxed whitelist
//! grants. This crate is the accounting engine: the arithmetic and the state
//! transitions over mine configuration, tiers, user stakes, referral balances
//! and the shared vault. Caller identity, persistent storage and the actual
//! movement of funds are collaborators outside this crate; every transition
//! here is a pure computation from the records it reads to the records it
//! writes and the transfers to issue.

pub mod errors;
pub mod ledger;
pub mod math;
pub mod stake;
pub mod states;
