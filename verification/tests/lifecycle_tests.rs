use stellar_credit::{PRECISION, SCORE_TTL_LEDGERS};
use stellar_credit::contract::StellarCreditContract;
use stellar_credit::records::{ContractError, DataKey, LoanStatus};

/// A configured state with one borrower whose score is exactly 650.
fn state_with_borrower_650(admin: u64, user: u64) -> StellarCreditContract {
    let mut state = StellarCreditContract::new();
    state.initialize(admin, admin).unwrap();
    let score = state
        .store_score(user, user, 5000 * PRECISION as u64, 95, 25, 80, 1000 * PRECISION as u64, 10)
        .unwrap();
    assert_eq!(score, 650);
    state
}

#[test]
fn test_initialize_sets_admin_once() {
    let mut state = StellarCreditContract::new();
    assert_eq!(state.initialize(4, 5), Err(ContractError::Unauthorized));
    assert_eq!(state.initialize(5, 5), Ok(()));
    assert!(state.has_record(DataKey::AdminAddress));
    assert_eq!(state.initialize(6, 6), Err(ContractError::InvalidState));
}

#[test]
fn test_store_score_requires_own_identity() {
    let mut state = StellarCreditContract::new();
    let r = state.store_score(3, 4, 0, 50, 0, 50, 0, 1);
    assert_eq!(r, Err(ContractError::Unauthorized));
    assert!(state.get_score(4, 1).is_none());
}

#[test]
fn test_store_score_overwrites_and_renews() {
    let mut state = StellarCreditContract::new();
    let first = state.store_score(9, 9, 0, 100, 0, 100, 0, 5).unwrap();
    assert_eq!(first, 500); // only the two 0-100 metrics contribute: (100*30+100*20)/100*10
    let second = state
        .store_score(9, 9, 10000 * PRECISION as u64, 100, 50, 100, 5000 * PRECISION as u64, 8)
        .unwrap();
    assert_eq!(second, 1000);
    let stored = state.get_score(9, 8).unwrap();
    assert_eq!(stored.score, 1000);
    assert_eq!(stored.last_updated, 8);
}

#[test]
fn test_score_expiry_window() {
    let mut state = StellarCreditContract::new();
    state.store_score(2, 2, 0, 100, 0, 100, 0, 10).unwrap();
    let last_live = 10 + SCORE_TTL_LEDGERS as u32;
    assert!(state.get_score(2, last_live).is_some());
    assert!(state.get_score(2, last_live + 1).is_none());
    // An expired score record counts as absent for a loan request.
    let r = state.request_loan(2, 2, 100, 6, last_live + 1);
    assert_eq!(r, Err(ContractError::NotFound));
}

#[test]
fn test_request_loan_requires_score() {
    let mut state = StellarCreditContract::new();
    let r = state.request_loan(8, 8, 100, 6, 1);
    assert_eq!(r, Err(ContractError::NotFound));
}

#[test]
fn test_request_loan_requires_borrower_auth() {
    let mut state = state_with_borrower_650(1, 2);
    let r = state.request_loan(3, 2, 100, 6, 11);
    assert_eq!(r, Err(ContractError::Unauthorized));
}

#[test]
fn test_request_loan_tier_ceiling() {
    // Borrower score 650 sits in the >=500 tier: ceiling 500 units.
    let mut state = state_with_borrower_650(1, 2);
    let over = state.request_loan(2, 2, 600 * PRECISION, 6, 11);
    assert_eq!(over, Err(ContractError::LimitExceeded));
    let loan_id = state.request_loan(2, 2, 500 * PRECISION, 6, 11).unwrap();
    let loan = state.get_loan(loan_id).unwrap();
    assert_eq!(loan.amount, 500 * PRECISION);
    assert_eq!(loan.interest_rate, 4 * PRECISION / 100);
    assert_eq!(loan.required_score, 650);
    assert_eq!(loan.duration_months, 6);
    assert_eq!(loan.created_at, 11);
    assert_eq!(loan.status, LoanStatus::Pending);
}

#[test]
fn test_ineligible_borrower() {
    let mut state = StellarCreditContract::new();
    let score = state.store_score(6, 6, 0, 0, 0, 0, 0, 1).unwrap();
    assert_eq!(score, 0);
    let r = state.request_loan(6, 6, 1, 6, 1);
    assert_eq!(r, Err(ContractError::LimitExceeded));
}

#[test]
fn test_loan_ids_increment_by_one() {
    let mut state = state_with_borrower_650(1, 2);
    let first = state.request_loan(2, 2, 100, 3, 11).unwrap();
    let second = state.request_loan(2, 2, 200, 6, 12).unwrap();
    let third = state.request_loan(2, 2, 300, 12, 13).unwrap();
    assert_eq!(first, 1);
    assert_eq!(second, 2);
    assert_eq!(third, 3);
    assert!(state.get_loan(1).is_some());
    assert!(state.get_loan(2).is_some());
    assert!(state.get_loan(3).is_some());
    assert!(state.get_loan(4).is_none());
}

#[test]
fn test_approve_loan_flow() {
    let mut state = state_with_borrower_650(1, 2);
    let loan_id = state.request_loan(2, 2, 100, 6, 11).unwrap();
    assert_eq!(state.approve_loan(1, loan_id), Ok(()));
    assert_eq!(state.get_loan(loan_id).unwrap().status, LoanStatus::Approved);
}

#[test]
fn test_reject_loan_flow() {
    let mut state = state_with_borrower_650(1, 2);
    let loan_id = state.request_loan(2, 2, 100, 6, 11).unwrap();
    assert_eq!(state.reject_loan(1, loan_id), Ok(()));
    assert_eq!(state.get_loan(loan_id).unwrap().status, LoanStatus::Rejected);
}

#[test]
fn test_transition_happens_at_most_once() {
    let mut state = state_with_borrower_650(1, 2);
    let loan_id = state.request_loan(2, 2, 100, 6, 11).unwrap();
    assert_eq!(state.approve_loan(1, loan_id), Ok(()));
    assert_eq!(state.approve_loan(1, loan_id), Err(ContractError::InvalidState));
    assert_eq!(state.reject_loan(1, loan_id), Err(ContractError::InvalidState));
    assert_eq!(state.get_loan(loan_id).unwrap().status, LoanStatus::Approved);
}

#[test]
fn test_transition_on_missing_loan() {
    let mut state = state_with_borrower_650(1, 2);
    assert_eq!(state.approve_loan(1, 1), Err(ContractError::NotFound));
    assert_eq!(state.reject_loan(1, 7), Err(ContractError::NotFound));
}

#[test]
fn test_transition_requires_admin() {
    let mut state = StellarCreditContract::new();
    state.store_score(2, 2, 0, 100, 0, 100, 0, 1).unwrap();
    let mut unconfigured = state;
    let loan_id = unconfigured.request_loan(2, 2, 100, 6, 1).unwrap();
    assert_eq!(unconfigured.approve_loan(2, loan_id), Err(ContractError::NotConfigured));

    let mut configured = state_with_borrower_650(1, 2);
    let loan_id = configured.request_loan(2, 2, 100, 6, 11).unwrap();
    assert_eq!(configured.approve_loan(2, loan_id), Err(ContractError::Unauthorized));
    assert_eq!(configured.get_loan(loan_id).unwrap().status, LoanStatus::Pending);
}

#[test]
fn test_has_record_keys() {
    let mut state = StellarCreditContract::new();
    assert!(state.has_record(DataKey::LoanCounter));
    assert!(!state.has_record(DataKey::AdminAddress));
    assert!(!state.has_record(DataKey::Score(2)));
    assert!(!state.has_record(DataKey::Loan(1)));
    state.initialize(1, 1).unwrap();
    state.store_score(2, 2, 0, 100, 0, 100, 0, 1).unwrap();
    state.request_loan(2, 2, 100, 6, 1).unwrap();
    assert!(state.has_record(DataKey::AdminAddress));
    assert!(state.has_record(DataKey::Score(2)));
    assert!(state.has_record(DataKey::Loan(1)));
    assert!(!state.has_record(DataKey::Loan(2)));
}
