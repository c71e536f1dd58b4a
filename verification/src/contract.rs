//! The contract core: an explicit model of the persistent state (score
//! records, loan records, loan counter, administrator singleton) and
//! the operations that the platform exposes over it.
//!
//! The platform authenticates callers and persists the state between
//! invocations; every mutating operation here takes the authenticated
//! caller's identity handle and the current ledger sequence as plain
//! values, decides, and either mutates the state or leaves it exactly
//! as it was — failures never produce a partial write.

use vstd::prelude::*;
use crate::PRECISION;
use crate::SCORE_TTL_LEDGERS;
use crate::records::{
    CreditScore, DataKey, ContractError, LoanOffer, LoanStatus, spec_score_record,
};
use crate::scoring::{
    MAX_BALANCE, MAX_FREQUENCY, MAX_VOLUME, lemma_normalized_in_range, lemma_score_in_range,
    spec_calculate_score, spec_normalize_balance, spec_normalize_frequency, spec_normalize_volume,
    spec_weighted_sum,
};
use crate::tiers::{spec_interest_rate, spec_loan_offers, spec_max_loan_amount};

verus! {

/// The whole persistent state of the credit contract.
///
/// Loan ids are 1-based positions in `loans`: the record with id `n`
/// sits at index `n - 1`, and the counter always equals the number of
/// loans ever created.
pub struct StellarCreditContract {
    /// The administrator singleton, unset until initialization.
    pub admin: Option<u64>,
    /// Monotonic loan counter: the id of the newest loan, 0 when none.
    pub loan_counter: u32,
    /// One credit score record per identity.
    pub scores: Vec<CreditScore>,
    /// All loan records ever created, in id order; never deleted.
    pub loans: Vec<LoanOffer>,
}

impl StellarCreditContract {
    /// No two score records belong to the same identity.
    pub open spec fn scores_unique(self) -> bool {
        forall|i: int, j: int|
            0 <= i < j < self.scores@.len() ==> (#[trigger] self.scores@[i]).address != (
            #[trigger] self.scores@[j]).address
    }

    /// Well-formedness of the whole state: the counter counts the
    /// loans, loan ids are their 1-based positions, every record
    /// satisfies its own invariant, and score records key uniquely.
    pub open spec fn wf(self) -> bool {
        &&& self.loans@.len() == self.loan_counter as int
        &&& forall|i: int|
            0 <= i < self.loans@.len() ==> (#[trigger] self.loans@[i]).id as int == i + 1
        &&& forall|i: int| 0 <= i < self.loans@.len() ==> (#[trigger] self.loans@[i]).wf()
        &&& self.scores_unique()
        &&& forall|i: int| 0 <= i < self.scores@.len() ==> (#[trigger] self.scores@[i]).wf()
    }

    /// Whether some score record belongs to the identity.
    pub open spec fn spec_has_score(self, address: u64) -> bool {
        exists|i: int|
            0 <= i < self.scores@.len() && (#[trigger] self.scores@[i]).address == address
    }

    /// The index of the identity's score record, when one exists.
    pub open spec fn spec_score_index(self, address: u64) -> int {
        choose|i: int|
            0 <= i < self.scores@.len() && (#[trigger] self.scores@[i]).address == address
    }

    /// The identity's stored score record, expired or not.
    pub open spec fn spec_get_score(self, address: u64) -> Option<CreditScore> {
        if self.spec_has_score(address) {
            Some(self.scores@[self.spec_score_index(address)])
        } else {
            None
        }
    }

    /// The identity's score record as the store serves it at the given
    /// ledger sequence: a record whose expiry window has elapsed is
    /// absent.
    pub open spec fn spec_get_live_score(self, address: u64, sequence: u32) -> Option<
        CreditScore,
    > {
        match self.spec_get_score(address) {
            Some(record) => if record.live_at(sequence) {
                Some(record)
            } else {
                None
            },
            None => None,
        }
    }

    /// The loan record with the given id, when one exists.
    pub open spec fn spec_get_loan(self, loan_id: u32) -> Option<LoanOffer> {
        if 1 <= loan_id && loan_id as int <= self.loans@.len() {
            Some(self.loans@[loan_id as int - 1])
        } else {
            None
        }
    }

    /// Whether the store holds a record under the given key. The keys
    /// are the closed tagged set: an untyped lookup cannot be phrased.
    pub open spec fn spec_has_record(self, key: DataKey) -> bool {
        match key {
            DataKey::Score(address) => self.spec_has_score(address),
            DataKey::Loan(loan_id) => self.spec_get_loan(loan_id) is Some,
            DataKey::LoanCounter => true,
            DataKey::AdminAddress => self.admin is Some,
        }
    }

    /// An empty, unconfigured contract state.
    pub fn new() -> (s: Self)
        ensures
            s.wf(),
            s.admin is None,
            s.loan_counter == 0,
            s.scores@.len() == 0,
            s.loans@.len() == 0,
    {
        StellarCreditContract { admin: None, loan_counter: 0, scores: Vec::new(), loans: Vec::new() }
    }

    // === The scoring engine ===

    /// Transaction volume normalized onto 0-100, saturating at the
    /// 10000-unit ceiling.
    pub fn normalize_volume(volume: u64) -> (r: u32)
        ensures
            r as int == spec_normalize_volume(volume),
            r <= 100,
    {
        proof {
            lemma_normalized_in_range(volume, 0, 0);
        }
        if volume >= MAX_VOLUME {
            100
        } else {
            ((volume * 100) / MAX_VOLUME) as u32
        }
    }

    /// Usage frequency normalized onto 0-100, saturating at 50
    /// transactions per period.
    pub fn normalize_frequency(frequency: u32) -> (r: u32)
        ensures
            r as int == spec_normalize_frequency(frequency),
            r <= 100,
    {
        proof {
            lemma_normalized_in_range(0, frequency, 0);
        }
        if frequency >= MAX_FREQUENCY {
            100
        } else {
            (frequency * 100) / MAX_FREQUENCY
        }
    }

    /// Average balance normalized onto 0-100, saturating at the
    /// 5000-unit ceiling.
    pub fn normalize_balance(balance: u64) -> (r: u32)
        ensures
            r as int == spec_normalize_balance(balance),
            r <= 100,
    {
        proof {
            lemma_normalized_in_range(0, 0, balance);
        }
        if balance >= MAX_BALANCE {
            100
        } else {
            ((balance * 100) / MAX_BALANCE) as u32
        }
    }

    /// The credit score of the five metrics: normalized inputs,
    /// weighted by `[20, 30, 15, 20, 15]` percent, mapped onto
    /// `[0, 1000]` by truncating division by 100 and multiplication by
    /// 10. Punctuality and diversification are trusted pre-bounded to
    /// 0-100 by the caller.
    pub fn calculate_score(
        volume: u64,
        punctuality: u32,
        frequency: u32,
        diversification: u32,
        balance: u64,
    ) -> (score: u32)
        requires
            punctuality <= 100,
            diversification <= 100,
        ensures
            score as int == spec_calculate_score(
                volume,
                punctuality,
                frequency,
                diversification,
                balance,
            ),
            score <= 1000,
    {
        let normalized_volume = Self::normalize_volume(volume);
        let normalized_frequency = Self::normalize_frequency(frequency);
        let normalized_balance = Self::normalize_balance(balance);
        let weighted_sum = normalized_volume * 20 + punctuality * 30 + normalized_frequency * 15
            + diversification * 20 + normalized_balance * 15;
        proof {
            lemma_score_in_range(volume, punctuality, frequency, diversification, balance);
            assert(weighted_sum as int == spec_weighted_sum(
                volume,
                punctuality,
                frequency,
                diversification,
                balance,
            ));
        }
        (weighted_sum / 100) * 10
    }

    // === The tier tables ===

    /// The monthly interest rate the borrower's score earns.
    pub fn calculate_interest_rate(score: u32) -> (r: u32)
        ensures
            r == spec_interest_rate(score),
    {
        if score >= 700 {
            2 * PRECISION / 100
        } else if score >= 500 {
            4 * PRECISION / 100
        } else if score >= 300 {
            6 * PRECISION / 100
        } else {
            10 * PRECISION / 100
        }
    }

    /// The loan ceiling the borrower's score allows; 0 below 300.
    pub fn calculate_max_loan_amount(score: u32) -> (r: u32)
        ensures
            r == spec_max_loan_amount(score),
    {
        if score >= 700 {
            1000 * PRECISION
        } else if score >= 500 {
            500 * PRECISION
        } else if score >= 300 {
            200 * PRECISION
        } else {
            0
        }
    }

    /// The fixed menu of (amount, monthly rate, duration) offers the
    /// score can preview: two per eligible tier, none below 300. Pure:
    /// the catalog takes no state and touches no record.
    pub fn get_loan_offers(score: u32) -> (r: Vec<(u32, u32, u32)>)
        ensures
            r@ == spec_loan_offers(score),
            score >= 300 ==> r@.len() == 2,
            score < 300 ==> r@.len() == 0,
    {
        let mut offers: Vec<(u32, u32, u32)> = Vec::new();
        if score >= 700 {
            offers.push((1000 * PRECISION, 2 * PRECISION / 100, 12));
            offers.push((500 * PRECISION, 2 * PRECISION / 100, 6));
        } else if score >= 500 {
            offers.push((500 * PRECISION, 4 * PRECISION / 100, 12));
            offers.push((200 * PRECISION, 4 * PRECISION / 100, 6));
        } else if score >= 300 {
            offers.push((200 * PRECISION, 6 * PRECISION / 100, 6));
            offers.push((100 * PRECISION, 6 * PRECISION / 100, 3));
        }
        proof {
            assert(offers@ =~= spec_loan_offers(score));
        }
        offers
    }

    // === Lookups ===

    /// The index of the identity's score record in the vector.
    fn find_score_index(&self, address: u64) -> (r: Option<usize>)
        ensures
            match r {
                Some(i) => i < self.scores@.len() && self.scores@[i as int].address == address,
                None => !self.spec_has_score(address),
            },
    {
        let mut i: usize = 0;
        while i < self.scores.len()
            invariant
                i <= self.scores@.len(),
                forall|j: int| 0 <= j < i ==> (#[trigger] self.scores@[j]).address != address,
            decreases self.scores@.len() - i,
        {
            if self.scores[i].address == address {
                return Some(i);
            }
            i = i + 1;
        }
        None
    }

    /// The identity's score record, or nothing when none was ever
    /// written or the last write's expiry window has elapsed by the
    /// given ledger sequence. An unauthenticated read.
    pub fn get_score(&self, address: u64, sequence: u32) -> (r: Option<CreditScore>)
        requires
            self.wf(),
        ensures
            r == self.spec_get_live_score(address, sequence),
    {
        match self.find_score_index(address) {
            Some(i) => {
                let record = self.scores[i];
                proof {
                    self.lemma_get_score_at(address, i as int);
                }
                if sequence as u64 <= record.last_updated as u64 + SCORE_TTL_LEDGERS {
                    Some(record)
                } else {
                    None
                }
            },
            None => None,
        }
    }

    /// The loan record with the given id. An unauthenticated read.
    pub fn get_loan(&self, loan_id: u32) -> (r: Option<LoanOffer>)
        requires
            self.wf(),
        ensures
            r == self.spec_get_loan(loan_id),
    {
        if 1 <= loan_id && loan_id <= self.loan_counter {
            Some(self.loans[(loan_id - 1) as usize])
        } else {
            None
        }
    }

    /// Whether the store holds a record under the given key.
    pub fn has_record(&self, key: DataKey) -> (r: bool)
        requires
            self.wf(),
        ensures
            r == self.spec_has_record(key),
    {
        match key {
            DataKey::Score(address) => self.find_score_index(address).is_some(),
            DataKey::Loan(loan_id) => 1 <= loan_id && loan_id <= self.loan_counter,
            DataKey::LoanCounter => true,
            DataKey::AdminAddress => self.admin.is_some(),
        }
    }

    // === The operation semantics, as functions of the state ===

    /// The outcome initialization decides. The administrator singleton
    /// is set exactly once: a configured contract, or one that has
    /// already created loans, refuses re-initialization rather than
    /// silently overwriting the administrator.
    pub open spec fn spec_initialize_result(self, caller: u64, admin: u64) -> Result<
        (),
        ContractError,
    > {
        if caller != admin {
            Err(ContractError::Unauthorized)
        } else if self.admin is Some || self.loan_counter != 0 {
            Err(ContractError::InvalidState)
        } else {
            Ok(())
        }
    }

    /// The outcome a score write decides: only the identity itself may
    /// write, and the stored score is the scoring function of the five
    /// metrics.
    pub open spec fn spec_store_score_result(
        self,
        caller: u64,
        address: u64,
        volume: u64,
        punctuality: u32,
        frequency: u32,
        diversification: u32,
        balance: u64,
    ) -> Result<u32, ContractError> {
        if caller != address {
            Err(ContractError::Unauthorized)
        } else {
            Ok(spec_calculate_score(volume, punctuality, frequency, diversification, balance)
                as u32)
        }
    }

    /// The outcome a loan request decides: only the borrower may
    /// request; a borrower without a live score record is refused;
    /// an amount over the tier ceiling of the borrower's score is
    /// refused; otherwise the next id is granted.
    pub open spec fn spec_request_loan_result(
        self,
        caller: u64,
        borrower: u64,
        amount: u32,
        sequence: u32,
    ) -> Result<u32, ContractError> {
        if caller != borrower {
            Err(ContractError::Unauthorized)
        } else {
            match self.spec_get_live_score(borrower, sequence) {
                None => Err(ContractError::NotFound),
                Some(record) => if amount > spec_max_loan_amount(record.score) {
                    Err(ContractError::LimitExceeded)
                } else {
                    Ok((self.loan_counter + 1) as u32)
                },
            }
        }
    }

    /// The outcome an administrative status transition decides, shared
    /// by approval and rejection: the administrator must be configured
    /// and calling, the loan must exist, and its status must still be
    /// `Pending`.
    pub open spec fn spec_transition_result(self, caller: u64, loan_id: u32) -> Result<
        (),
        ContractError,
    > {
        match self.admin {
            None => Err(ContractError::NotConfigured),
            Some(admin_id) => if caller != admin_id {
                Err(ContractError::Unauthorized)
            } else {
                match self.spec_get_loan(loan_id) {
                    None => Err(ContractError::NotFound),
                    Some(loan) => if loan.status is Pending {
                        Ok(())
                    } else {
                        Err(ContractError::InvalidState)
                    },
                }
            },
        }
    }

    // === The mutating operations ===

    /// Sets the administrator singleton and the loan counter. The
    /// caller must prove control of the administrator identity; a
    /// contract that is already configured, or already holds loans,
    /// refuses with `InvalidState`.
    pub fn initialize(&mut self, caller: u64, admin: u64) -> (r: Result<(), ContractError>)
        requires
            old(self).wf(),
        ensures
            final(self).wf(),
            r == old(self).spec_initialize_result(caller, admin),
            r is Err ==> *final(self) == *old(self),
            r is Ok ==> ({
                &&& final(self).admin == Some(admin)
                &&& final(self).loan_counter == 0
                &&& final(self).scores@ == old(self).scores@
                &&& final(self).loans@ == old(self).loans@
            }),
    {
        if caller != admin {
            return Err(ContractError::Unauthorized);
        }
        if self.admin.is_some() || self.loan_counter != 0 {
            return Err(ContractError::InvalidState);
        }
        self.admin = Some(admin);
        self.loan_counter = 0;
        Ok(())
    }

    /// Writes or overwrites the identity's credit score record,
    /// renewing its expiry window. Only the identity itself may write.
    /// Punctuality and diversification are trusted pre-bounded to
    /// 0-100 by the caller. Returns the computed score.
    pub fn store_score(
        &mut self,
        caller: u64,
        address: u64,
        transaction_volume: u64,
        payment_punctuality: u32,
        usage_frequency: u32,
        diversification: u32,
        avg_balance: u64,
        sequence: u32,
    ) -> (r: Result<u32, ContractError>)
        requires
            old(self).wf(),
            payment_punctuality <= 100,
            diversification <= 100,
        ensures
            final(self).wf(),
            r == old(self).spec_store_score_result(
                caller,
                address,
                transaction_volume,
                payment_punctuality,
                usage_frequency,
                diversification,
                avg_balance,
            ),
            r is Err ==> *final(self) == *old(self),
            r is Ok ==> ({
                &&& final(self).spec_get_score(address) == Some(
                    spec_score_record(
                        address,
                        transaction_volume,
                        payment_punctuality,
                        usage_frequency,
                        diversification,
                        avg_balance,
                        sequence,
                    ),
                )
                &&& forall|a: u64|
                    a != address ==> final(self).spec_get_score(a) == old(self).spec_get_score(a)
                &&& final(self).admin == old(self).admin
                &&& final(self).loan_counter == old(self).loan_counter
                &&& final(self).loans@ == old(self).loans@
            }),
    {
        if caller != address {
            return Err(ContractError::Unauthorized);
        }
        let score: u32 = Self::calculate_score(
            transaction_volume,
            payment_punctuality,
            usage_frequency,
            diversification,
            avg_balance,
        );
        let record = CreditScore {
            address,
            score,
            last_updated: sequence,
            transaction_volume,
            payment_punctuality,
            usage_frequency,
            diversification,
            avg_balance,
        };
        proof {
            lemma_score_in_range(
                transaction_volume,
                payment_punctuality,
                usage_frequency,
                diversification,
                avg_balance,
            );
            assert(record == spec_score_record(
                address,
                transaction_volume,
                payment_punctuality,
                usage_frequency,
                diversification,
                avg_balance,
                sequence,
            ));
        }
        let ghost mut write_index: int = 0;
        match self.find_score_index(address) {
            Some(i) => {
                self.scores[i] = record;
                proof {
                    write_index = i as int;
                }
            },
            None => {
                self.scores.push(record);
                proof {
                    write_index = old(self).scores@.len() as int;
                }
            },
        }
        proof {
            Self::lemma_score_write_frame(*old(self), *self, write_index, record);
            assert forall|k: int| 0 <= k < self.scores@.len() implies (
            #[trigger] self.scores@[k]).wf() by {
                if k == write_index {
                    assert(self.scores@[k] == record);
                } else {
                    assert(self.scores@[k] == old(self).scores@[k]);
                    assert(old(self).scores@[k].wf());
                }
            }
        }
        Ok(score)
    }

    /// Requests a loan for the borrower: snapshots the borrower's live
    /// score, fixes the tier rate, refuses amounts over the tier
    /// ceiling, and persists a new `Pending` loan under the next id.
    pub fn request_loan(
        &mut self,
        caller: u64,
        borrower: u64,
        amount: u32,
        duration_months: u32,
        sequence: u32,
    ) -> (r: Result<u32, ContractError>)
        requires
            old(self).wf(),
            old(self).loan_counter < u32::MAX,
        ensures
            final(self).wf(),
            r == old(self).spec_request_loan_result(caller, borrower, amount, sequence),
            r is Err ==> *final(self) == *old(self),
            r matches Ok(loan_id) ==> ({
                &&& loan_id as int == old(self).loan_counter + 1
                &&& final(self).loan_counter == loan_id
                &&& final(self).admin == old(self).admin
                &&& final(self).scores@ == old(self).scores@
                &&& old(self).spec_get_live_score(borrower, sequence) matches Some(record)
                    && final(self).loans@ == old(self).loans@.push(
                    (LoanOffer {
                        id: loan_id,
                        borrower,
                        amount,
                        interest_rate: spec_interest_rate(record.score),
                        duration_months,
                        status: LoanStatus::Pending,
                        created_at: sequence,
                        required_score: record.score,
                    }),
                )
            }),
    {
        if caller != borrower {
            return Err(ContractError::Unauthorized);
        }
        let score_data = match self.get_score(borrower, sequence) {
            Some(data) => data,
            None => {
                return Err(ContractError::NotFound);
            },
        };
        let interest_rate: u32 = Self::calculate_interest_rate(score_data.score);
        let max_amount: u32 = Self::calculate_max_loan_amount(score_data.score);
        if amount > max_amount {
            return Err(ContractError::LimitExceeded);
        }
        let new_loan_id: u32 = self.loan_counter + 1;
        let loan = LoanOffer {
            id: new_loan_id,
            borrower,
            amount,
            interest_rate,
            duration_months,
            status: LoanStatus::Pending,
            created_at: sequence,
            required_score: score_data.score,
        };
        self.loans.push(loan);
        self.loan_counter = new_loan_id;
        proof {
            assert forall|i: int| 0 <= i < self.loans@.len() implies (
            #[trigger] self.loans@[i]).id as int == i + 1 by {
                if i < old(self).loans@.len() {
                    assert(old(self).loans@[i].id as int == i + 1);
                }
            }
            assert forall|i: int| 0 <= i < self.loans@.len() implies (
            #[trigger] self.loans@[i]).wf() by {
                if i < old(self).loans@.len() {
                    assert(old(self).loans@[i].wf());
                }
            }
        }
        Ok(new_loan_id)
    }

    /// Approves a `Pending` loan. Administrative: the configured
    /// administrator must be the caller.
    pub fn approve_loan(&mut self, caller: u64, loan_id: u32) -> (r: Result<(), ContractError>)
        requires
            old(self).wf(),
        ensures
            final(self).wf(),
            r == old(self).spec_transition_result(caller, loan_id),
            r is Err ==> *final(self) == *old(self),
            r is Ok ==> ({
                &&& old(self).spec_get_loan(loan_id) matches Some(loan) && final(self).loans@
                    == old(self).loans@.update(
                    loan_id as int - 1,
                    (LoanOffer { status: LoanStatus::Approved, ..loan }),
                )
                &&& final(self).scores@ == old(self).scores@
                &&& final(self).admin == old(self).admin
                &&& final(self).loan_counter == old(self).loan_counter
            }),
    {
        let admin_id: u64 = match self.admin {
            None => {
                return Err(ContractError::NotConfigured);
            },
            Some(a) => a,
        };
        if caller != admin_id {
            return Err(ContractError::Unauthorized);
        }
        if loan_id < 1 || loan_id > self.loan_counter {
            return Err(ContractError::NotFound);
        }
        let idx: usize = (loan_id - 1) as usize;
        let mut loan = self.loans[idx];
        if loan.status != LoanStatus::Pending {
            return Err(ContractError::InvalidState);
        }
        loan.status = LoanStatus::Approved;
        self.loans[idx] = loan;
        Ok(())
    }

    /// Rejects a `Pending` loan. Administrative: the configured
    /// administrator must be the caller.
    pub fn reject_loan(&mut self, caller: u64, loan_id: u32) -> (r: Result<(), ContractError>)
        requires
            old(self).wf(),
        ensures
            final(self).wf(),
            r == old(self).spec_transition_result(caller, loan_id),
            r is Err ==> *final(self) == *old(self),
            r is Ok ==> ({
                &&& old(self).spec_get_loan(loan_id) matches Some(loan) && final(self).loans@
                    == old(self).loans@.update(
                    loan_id as int - 1,
                    (LoanOffer { status: LoanStatus::Rejected, ..loan }),
                )
                &&& final(self).scores@ == old(self).scores@
                &&& final(self).admin == old(self).admin
                &&& final(self).loan_counter == old(self).loan_counter
            }),
    {
        let admin_id: u64 = match self.admin {
            None => {
                return Err(ContractError::NotConfigured);
            },
            Some(a) => a,
        };
        if caller != admin_id {
            return Err(ContractError::Unauthorized);
        }
        if loan_id < 1 || loan_id > self.loan_counter {
            return Err(ContractError::NotFound);
        }
        let idx: usize = (loan_id - 1) as usize;
        let mut loan = self.loans[idx];
        if loan.status != LoanStatus::Pending {
            return Err(ContractError::InvalidState);
        }
        loan.status = LoanStatus::Rejected;
        self.loans[idx] = loan;
        Ok(())
    }

    // === Laws of the loan lifecycle ===

    /// Loan ids are assigned strictly increasing by one, with no gaps:
    /// a request granted on the state a previous grant left behind
    /// receives the previous id plus one.
    pub proof fn lemma_loan_ids_consecutive(
        s0: Self,
        s1: Self,
        caller1: u64,
        borrower1: u64,
        amount1: u32,
        sequence1: u32,
        id1: u32,
        caller2: u64,
        borrower2: u64,
        amount2: u32,
        sequence2: u32,
        id2: u32,
    )
        requires
            s0.loan_counter < u32::MAX,
            id1 < u32::MAX,
            s0.spec_request_loan_result(caller1, borrower1, amount1, sequence1)
                == Ok::<u32, ContractError>(id1),
            s1.loan_counter == id1,
            s1.spec_request_loan_result(caller2, borrower2, amount2, sequence2)
                == Ok::<u32, ContractError>(id2),
        ensures
            id1 as int == s0.loan_counter + 1,
            id2 as int == id1 + 1,
    {
    }

    /// Loan ids are never reused: in a well-formed state all stored
    /// loans carry pairwise distinct ids.
    pub proof fn lemma_loan_ids_unique(s: Self)
        requires
            s.wf(),
        ensures
            forall|i: int, j: int|
                0 <= i < j < s.loans@.len() ==> (#[trigger] s.loans@[i]).id != (
                #[trigger] s.loans@[j]).id,
    {
    }

    /// A loan's status leaves `Pending` at most once: after a granted
    /// transition wrote a terminal status, every further transition
    /// attempt on that loan is refused — with `InvalidState` whenever
    /// the caller is the configured administrator.
    pub proof fn lemma_transition_at_most_once(
        s0: Self,
        s1: Self,
        caller: u64,
        loan_id: u32,
        status: LoanStatus,
        caller2: u64,
    )
        requires
            s0.wf(),
            s0.spec_transition_result(caller, loan_id) is Ok,
            !(status is Pending),
            s0.spec_get_loan(loan_id) matches Some(loan) && s1.loans@ == s0.loans@.update(
                loan_id as int - 1,
                (LoanOffer { status: status, ..loan }),
            ),
            s1.admin == s0.admin,
        ensures
            s1.spec_transition_result(caller2, loan_id) is Err,
            (s0.admin matches Some(admin_id) && caller2 == admin_id)
                ==> s1.spec_transition_result(caller2, loan_id) == Err::<(), ContractError>(
                ContractError::InvalidState,
            ),
    {
        assert(1 <= loan_id && loan_id as int <= s0.loans@.len());
        assert(s1.loans@.len() == s0.loans@.len());
        assert(s1.spec_get_loan(loan_id) matches Some(after) && !(after.status is Pending));
    }

    // === Proof helpers for the score store ===

    /// With unique addresses, an index holding the address pins the
    /// lookup down.
    proof fn lemma_get_score_at(self, address: u64, i: int)
        requires
            self.scores_unique(),
            0 <= i < self.scores@.len(),
            self.scores@[i].address == address,
        ensures
            self.spec_has_score(address),
            self.spec_score_index(address) == i,
            self.spec_get_score(address) == Some(self.scores@[i]),
    {
        assert(self.spec_has_score(address));
        let j = self.spec_score_index(address);
        assert(0 <= j < self.scores@.len() && self.scores@[j].address == address);
        if i < j {
            assert(self.scores@[i].address != self.scores@[j].address);
        } else if j < i {
            assert(self.scores@[j].address != self.scores@[i].address);
        }
    }

    /// Writing one identity's record (in place or appended) serves the
    /// new record under that identity and leaves every other lookup
    /// unchanged.
    proof fn lemma_score_write_frame(pre: Self, post: Self, i: int, record: CreditScore)
        requires
            pre.scores_unique(),
            0 <= i <= pre.scores@.len(),
            i < pre.scores@.len() ==> pre.scores@[i].address == record.address && post.scores@
                == pre.scores@.update(i, record),
            i == pre.scores@.len() ==> !pre.spec_has_score(record.address) && post.scores@
                == pre.scores@.push(record),
        ensures
            post.scores_unique(),
            post.spec_get_score(record.address) == Some(record),
            forall|a: u64|
                a != record.address ==> post.spec_get_score(a) == pre.spec_get_score(a),
    {
        assert forall|p: int, q: int| 0 <= p < q < post.scores@.len() implies (
        #[trigger] post.scores@[p]).address != (#[trigger] post.scores@[q]).address by {
            if p != i && q != i {
                assert(pre.scores@[p].address != pre.scores@[q].address);
            } else if p == i {
                assert(q < pre.scores@.len());
                if i < pre.scores@.len() {
                    assert(pre.scores@[p].address != pre.scores@[q].address);
                }
            } else {
                assert(p < pre.scores@.len());
                if i < pre.scores@.len() {
                    assert(pre.scores@[p].address != pre.scores@[q].address);
                } else {
                    if pre.scores@[p].address == record.address {
                        assert(pre.spec_has_score(record.address));
                    }
                }
            }
        }
        post.lemma_get_score_at(record.address, i);
        assert forall|a: u64| a != record.address implies post.spec_get_score(a)
            == pre.spec_get_score(a) by {
            if pre.spec_has_score(a) {
                let j = pre.spec_score_index(a);
                assert(0 <= j < pre.scores@.len() && pre.scores@[j].address == a);
                pre.lemma_get_score_at(a, j);
                assert(j != i);
                assert(post.scores@[j] == pre.scores@[j]);
                post.lemma_get_score_at(a, j);
            } else {
                if post.spec_has_score(a) {
                    let k = post.spec_score_index(a);
                    assert(0 <= k < post.scores@.len() && post.scores@[k].address == a);
                    assert(k != i);
                    assert(k < pre.scores@.len());
                    assert(post.scores@[k] == pre.scores@[k]);
                    assert(pre.spec_has_score(a));
                }
            }
        }
    }
}

} // verus!
