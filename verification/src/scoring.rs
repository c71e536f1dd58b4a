//! The scoring engine: pure functions mapping five raw behavioral
//! metrics to a single bounded score in `[0, 1000]`.
//!
//! Three raw metrics (transaction volume, usage frequency, average
//! balance) are first normalized onto a 0-100 scale by saturating
//! linear maps; payment punctuality and diversification are taken as
//! already 0-100. A weighted sum with fixed percent weights
//! `[20, 30, 15, 20, 15]` then yields a 0-10000 composite, which is
//! mapped onto `[0, 1000]` by truncating division by 100 followed by
//! multiplication by 10. Both truncations are part of the definition:
//! any two runs on the same inputs produce the same score.

use vstd::prelude::*;
use vstd::arithmetic::div_mod::lemma_div_is_ordered;

verus! {

/// Volume ceiling: contributions cap at 10000 currency units (fixed point).
pub const MAX_VOLUME: u64 = 10000 * 1000000;

/// Balance ceiling: contributions cap at 5000 currency units (fixed point).
pub const MAX_BALANCE: u64 = 5000 * 1000000;

/// Frequency ceiling: contributions cap at 50 transactions per period.
pub const MAX_FREQUENCY: u32 = 50;

/// Transaction volume normalized onto 0-100, saturating at `MAX_VOLUME`.
pub open spec fn spec_normalize_volume(volume: u64) -> int {
    if volume >= MAX_VOLUME {
        100
    } else {
        (volume * 100) / (MAX_VOLUME as int)
    }
}

/// Usage frequency normalized onto 0-100, saturating at `MAX_FREQUENCY`.
pub open spec fn spec_normalize_frequency(frequency: u32) -> int {
    if frequency >= MAX_FREQUENCY {
        100
    } else {
        (frequency * 100) / (MAX_FREQUENCY as int)
    }
}

/// Average balance normalized onto 0-100, saturating at `MAX_BALANCE`.
pub open spec fn spec_normalize_balance(balance: u64) -> int {
    if balance >= MAX_BALANCE {
        100
    } else {
        (balance * 100) / (MAX_BALANCE as int)
    }
}

/// The weighted composite of the five metrics, on a 0-10000 scale when
/// punctuality and diversification are within 0-100.
pub open spec fn spec_weighted_sum(
    volume: u64,
    punctuality: u32,
    frequency: u32,
    diversification: u32,
    balance: u64,
) -> int {
    spec_normalize_volume(volume) * 20
        + punctuality * 30
        + spec_normalize_frequency(frequency) * 15
        + diversification * 20
        + spec_normalize_balance(balance) * 15
}

/// The credit score: the weighted composite mapped onto `[0, 1000]` by
/// truncating division by 100 and multiplication by 10.
pub open spec fn spec_calculate_score(
    volume: u64,
    punctuality: u32,
    frequency: u32,
    diversification: u32,
    balance: u64,
) -> int {
    (spec_weighted_sum(volume, punctuality, frequency, diversification, balance) / 100) * 10
}

/// Each normalized metric lies in `[0, 100]`, for every raw input.
pub proof fn lemma_normalized_in_range(volume: u64, frequency: u32, balance: u64)
    ensures
        0 <= spec_normalize_volume(volume) <= 100,
        0 <= spec_normalize_frequency(frequency) <= 100,
        0 <= spec_normalize_balance(balance) <= 100,
{
    if volume < MAX_VOLUME {
        lemma_div_is_ordered(0, volume * 100, MAX_VOLUME as int);
        lemma_div_is_ordered(volume * 100, (MAX_VOLUME as int) * 100, MAX_VOLUME as int);
        assert(((MAX_VOLUME as int) * 100) / (MAX_VOLUME as int) == 100) by (nonlinear_arith);
    }
    if frequency < MAX_FREQUENCY {
        lemma_div_is_ordered(0, frequency * 100, MAX_FREQUENCY as int);
        lemma_div_is_ordered(frequency * 100, (MAX_FREQUENCY as int) * 100, MAX_FREQUENCY as int);
        assert(((MAX_FREQUENCY as int) * 100) / (MAX_FREQUENCY as int) == 100) by (nonlinear_arith);
    }
    if balance < MAX_BALANCE {
        lemma_div_is_ordered(0, balance * 100, MAX_BALANCE as int);
        lemma_div_is_ordered(balance * 100, (MAX_BALANCE as int) * 100, MAX_BALANCE as int);
        assert(((MAX_BALANCE as int) * 100) / (MAX_BALANCE as int) == 100) by (nonlinear_arith);
    }
}

/// The score never leaves `[0, 1000]` when punctuality and
/// diversification are within their documented 0-100 range.
pub proof fn lemma_score_in_range(
    volume: u64,
    punctuality: u32,
    frequency: u32,
    diversification: u32,
    balance: u64,
)
    requires
        punctuality <= 100,
        diversification <= 100,
    ensures
        0 <= spec_calculate_score(volume, punctuality, frequency, diversification, balance)
            <= 1000,
{
    lemma_normalized_in_range(volume, frequency, balance);
    let ws = spec_weighted_sum(volume, punctuality, frequency, diversification, balance);
    assert(0 <= ws <= 10000);
    lemma_div_is_ordered(0, ws, 100);
    lemma_div_is_ordered(ws, 10000, 100);
}

/// The score is a pure function of the five metrics: equal inputs give
/// equal scores, on every call.
pub proof fn lemma_score_deterministic(
    volume1: u64,
    punctuality1: u32,
    frequency1: u32,
    diversification1: u32,
    balance1: u64,
    volume2: u64,
    punctuality2: u32,
    frequency2: u32,
    diversification2: u32,
    balance2: u64,
)
    requires
        volume1 == volume2,
        punctuality1 == punctuality2,
        frequency1 == frequency2,
        diversification1 == diversification2,
        balance1 == balance2,
    ensures
        spec_calculate_score(volume1, punctuality1, frequency1, diversification1, balance1)
            == spec_calculate_score(volume2, punctuality2, frequency2, diversification2, balance2),
{
}

/// Raising any metric while holding the others fixed never lowers the
/// score, within the documented 0-100 range for punctuality and
/// diversification.
pub proof fn lemma_score_monotonic(
    volume1: u64,
    punctuality1: u32,
    frequency1: u32,
    diversification1: u32,
    balance1: u64,
    volume2: u64,
    punctuality2: u32,
    frequency2: u32,
    diversification2: u32,
    balance2: u64,
)
    requires
        volume1 <= volume2,
        punctuality1 <= punctuality2 <= 100,
        frequency1 <= frequency2,
        diversification1 <= diversification2 <= 100,
        balance1 <= balance2,
    ensures
        spec_calculate_score(volume1, punctuality1, frequency1, diversification1, balance1)
            <= spec_calculate_score(volume2, punctuality2, frequency2, diversification2, balance2),
{
    lemma_normalize_volume_monotonic(volume1, volume2);
    lemma_normalize_frequency_monotonic(frequency1, frequency2);
    lemma_normalize_balance_monotonic(balance1, balance2);
    let ws1 = spec_weighted_sum(volume1, punctuality1, frequency1, diversification1, balance1);
    let ws2 = spec_weighted_sum(volume2, punctuality2, frequency2, diversification2, balance2);
    assert(ws1 <= ws2);
    lemma_div_is_ordered(ws1, ws2, 100);
}

/// The volume normalization is monotone in the raw volume.
pub proof fn lemma_normalize_volume_monotonic(volume1: u64, volume2: u64)
    requires
        volume1 <= volume2,
    ensures
        spec_normalize_volume(volume1) <= spec_normalize_volume(volume2),
{
    lemma_normalized_in_range(volume1, 0, 0);
    lemma_normalized_in_range(volume2, 0, 0);
    if volume1 < MAX_VOLUME && volume2 < MAX_VOLUME {
        lemma_div_is_ordered(volume1 * 100, volume2 * 100, MAX_VOLUME as int);
    }
}

/// The frequency normalization is monotone in the raw frequency.
pub proof fn lemma_normalize_frequency_monotonic(frequency1: u32, frequency2: u32)
    requires
        frequency1 <= frequency2,
    ensures
        spec_normalize_frequency(frequency1) <= spec_normalize_frequency(frequency2),
{
    lemma_normalized_in_range(0, frequency1, 0);
    lemma_normalized_in_range(0, frequency2, 0);
    if frequency1 < MAX_FREQUENCY && frequency2 < MAX_FREQUENCY {
        lemma_div_is_ordered(frequency1 * 100, frequency2 * 100, MAX_FREQUENCY as int);
    }
}

/// The balance normalization is monotone in the raw balance.
pub proof fn lemma_normalize_balance_monotonic(balance1: u64, balance2: u64)
    requires
        balance1 <= balance2,
    ensures
        spec_normalize_balance(balance1) <= spec_normalize_balance(balance2),
{
    lemma_normalized_in_range(balance1, 0, 0);
    lemma_normalized_in_range(balance2, 0, 0);
    if balance1 < MAX_BALANCE && balance2 < MAX_BALANCE {
        lemma_div_is_ordered(balance1 * 100, balance2 * 100, MAX_BALANCE as int);
    }
}

} // verus!
