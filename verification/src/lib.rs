//! A creditworthiness scoring library with a score-gated loan lifecycle.
//!
//! The library computes a bounded credit score from five behavioral
//! metrics, offers loan terms by score tier, and drives a loan state
//! machine (request, approve, reject) over an explicit model of the
//! persistent contract state.

use vstd::prelude::*;

pub mod contract;
pub mod records;
pub mod scoring;
pub mod tiers;

verus! {

/// Fixed-point scale: currency values are integers of value times 10^6.
pub const PRECISION: u32 = 1000000;

/// Ledger sequence numbers per day, roughly 24 hours of ticks.
pub const DAY_IN_LEDGERS: u32 = 17280;

/// Expiry window applied to every score write: about one year of ledger
/// ticks (365 * 17280).
pub const SCORE_TTL_LEDGERS: u64 = 6307200;

} // verus!
