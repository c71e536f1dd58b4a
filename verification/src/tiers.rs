//! The score tiers: fixed tables mapping a credit score onto a monthly
//! interest rate, a loan ceiling, and a menu of loan offers.
//!
//! The tier boundaries are closed-open at 700, 500 and 300: a score of
//! exactly 700 falls in the top tier, 699 in the next one down. Scores
//! below 300 are ineligible (ceiling 0, empty offer menu).

use vstd::prelude::*;
use crate::PRECISION;

verus! {

/// The monthly interest rate for a score, in percent times the
/// fixed-point scale: 2% at score 700 and above, 4% at 500, 6% at 300,
/// 10% below 300.
pub open spec fn spec_interest_rate(score: u32) -> u32 {
    if score >= 700 {
        (2 * PRECISION / 100) as u32
    } else if score >= 500 {
        (4 * PRECISION / 100) as u32
    } else if score >= 300 {
        (6 * PRECISION / 100) as u32
    } else {
        (10 * PRECISION / 100) as u32
    }
}

/// The loan ceiling for a score, in fixed point: 1000 units at score
/// 700 and above, 500 at 500, 200 at 300, none below 300.
pub open spec fn spec_max_loan_amount(score: u32) -> u32 {
    if score >= 700 {
        (1000 * PRECISION) as u32
    } else if score >= 500 {
        (500 * PRECISION) as u32
    } else if score >= 300 {
        (200 * PRECISION) as u32
    } else {
        0
    }
}

/// The fixed offer menu for a score: two (amount, monthly rate,
/// duration in months) triples per eligible tier, empty below 300.
pub open spec fn spec_loan_offers(score: u32) -> Seq<(u32, u32, u32)> {
    if score >= 700 {
        seq![
            ((1000 * PRECISION) as u32, (2 * PRECISION / 100) as u32, 12u32),
            ((500 * PRECISION) as u32, (2 * PRECISION / 100) as u32, 6u32),
        ]
    } else if score >= 500 {
        seq![
            ((500 * PRECISION) as u32, (4 * PRECISION / 100) as u32, 12u32),
            ((200 * PRECISION) as u32, (4 * PRECISION / 100) as u32, 6u32),
        ]
    } else if score >= 300 {
        seq![
            ((200 * PRECISION) as u32, (6 * PRECISION / 100) as u32, 6u32),
            ((100 * PRECISION) as u32, (6 * PRECISION / 100) as u32, 3u32),
        ]
    } else {
        Seq::empty()
    }
}

/// Every offered amount stays within the tier's loan ceiling, and the
/// offered rate is the tier's rate.
pub proof fn lemma_offers_match_tier(score: u32)
    ensures
        forall|i: int|
            0 <= i < spec_loan_offers(score).len() ==> {
                &&& (#[trigger] spec_loan_offers(score)[i]).0 <= spec_max_loan_amount(score)
                &&& spec_loan_offers(score)[i].1 == spec_interest_rate(score)
            },
{
}

} // verus!
