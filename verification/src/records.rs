//! The record classes held by the persistent store, and the closed set
//! of typed keys under which they live.
//!
//! Identities are plain numeric handles: the platform authenticates an
//! identity and hands the core its handle, so records key on integers.

use vstd::prelude::*;
use crate::SCORE_TTL_LEDGERS;
use crate::scoring::spec_calculate_score;
use crate::tiers::spec_interest_rate;
use crate::tiers::spec_max_loan_amount;

verus! {

/// The closed set of storage keys: one variant per record class. Keys
/// are only ever built through these variants, never from raw paths.
#[derive(Clone, Copy, Debug, PartialEq, Eq, Structural)]
pub enum DataKey {
    /// The credit score record of one identity.
    Score(u64),
    /// One loan record, by its numeric id.
    Loan(u32),
    /// The singleton loan counter.
    LoanCounter,
    /// The singleton administrator identity.
    AdminAddress,
}

/// The lifecycle state of a loan. `Completed` is a reachable terminal
/// state in the data model, reserved for an external repayment
/// tracker: no operation here drives a transition into it.
#[derive(Clone, Copy, Debug, PartialEq, Eq, Structural)]
pub enum LoanStatus {
    Pending,
    Approved,
    Rejected,
    Completed,
}

/// Why an operation was refused. Every failure aborts the whole
/// operation with no partial write.
#[derive(Clone, Copy, Debug, PartialEq, Eq, Structural)]
pub enum ContractError {
    /// The caller did not prove control of the identity the operation
    /// acts on.
    Unauthorized,
    /// The score or loan record the operation needs is absent.
    NotFound,
    /// A transition was attempted on a record whose state does not
    /// admit it.
    InvalidState,
    /// The requested amount exceeds the tier ceiling.
    LimitExceeded,
    /// The administrator identity has not been set.
    NotConfigured,
}

/// One identity's credit score record: the five raw metrics, the score
/// they determine, and the ledger sequence of the last write.
#[derive(Clone, Copy, Debug, PartialEq, Eq, Structural)]
pub struct CreditScore {
    /// The identity the record belongs to.
    pub address: u64,
    /// The score, always in `[0, 1000]`.
    pub score: u32,
    /// Ledger sequence number at the time of the write.
    pub last_updated: u32,
    /// Transaction volume over the lookback period, fixed point.
    pub transaction_volume: u64,
    /// Payment punctuality percentage, 0-100.
    pub payment_punctuality: u32,
    /// Transactions per period.
    pub usage_frequency: u32,
    /// Diversification score, 0-100.
    pub diversification: u32,
    /// Average balance, fixed point.
    pub avg_balance: u64,
}

impl CreditScore {
    /// A well-formed score record: the bounded inputs are in range and
    /// the stored score is exactly the scoring function of the five
    /// raw metrics — a record is never partially written.
    pub open spec fn wf(self) -> bool {
        &&& self.payment_punctuality <= 100
        &&& self.diversification <= 100
        &&& self.score as int == spec_calculate_score(
            self.transaction_volume,
            self.payment_punctuality,
            self.usage_frequency,
            self.diversification,
            self.avg_balance,
        )
    }

    /// Whether the record is still within its expiry window at the
    /// given ledger sequence: every write renews the window to
    /// `SCORE_TTL_LEDGERS` ticks past the write.
    pub open spec fn live_at(self, sequence: u32) -> bool {
        sequence as int <= self.last_updated as int + SCORE_TTL_LEDGERS as int
    }
}

/// The record one authorized score write persists: the five raw
/// inputs, the score they determine, and the write's ledger sequence.
pub open spec fn spec_score_record(
    address: u64,
    volume: u64,
    punctuality: u32,
    frequency: u32,
    diversification: u32,
    balance: u64,
    sequence: u32,
) -> CreditScore {
    CreditScore {
        address,
        score: spec_calculate_score(volume, punctuality, frequency, diversification, balance)
            as u32,
        last_updated: sequence,
        transaction_volume: volume,
        payment_punctuality: punctuality,
        usage_frequency: frequency,
        diversification,
        avg_balance: balance,
    }
}

/// One loan record: terms fixed at request time, a status that moves
/// at most once out of `Pending`, and an audit snapshot of the
/// borrower's score.
#[derive(Clone, Copy, Debug, PartialEq, Eq, Structural)]
pub struct LoanOffer {
    /// Numeric id, 1-based and monotonically assigned.
    pub id: u32,
    /// The borrowing identity.
    pub borrower: u64,
    /// Requested amount, fixed point.
    pub amount: u32,
    /// Monthly interest rate, percent times the fixed-point scale.
    pub interest_rate: u32,
    /// Requested duration in months.
    pub duration_months: u32,
    /// Lifecycle state, initially `Pending`.
    pub status: LoanStatus,
    /// Ledger sequence number at request time.
    pub created_at: u32,
    /// The borrower's score at request time.
    pub required_score: u32,
}

impl LoanOffer {
    /// A well-formed loan record: the rate is the tier rate of the
    /// score snapshot, and the amount never exceeds the tier ceiling
    /// that score implied at creation time.
    pub open spec fn wf(self) -> bool {
        &&& self.interest_rate == spec_interest_rate(self.required_score)
        &&& self.amount <= spec_max_loan_amount(self.required_score)
    }
}

} // verus!
