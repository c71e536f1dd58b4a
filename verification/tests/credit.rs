use stellar_credit::PRECISION;
use stellar_credit::contract::StellarCreditContract;
use stellar_credit::records::LoanStatus;

#[test]
fn test_score_calculation() {
    let mut state = StellarCreditContract::new();
    let admin: u64 = 1;
    let user: u64 = 2;

    assert!(state.initialize(admin, admin).is_ok());

    let score = state
        .store_score(
            user,
            user,
            5000 * PRECISION as u64, // volume: 5000 units
            95,                      // punctuality: 95%
            25,                      // frequency: 25 tx/period
            80,                      // diversification: 80%
            1000 * PRECISION as u64, // balance: 1000 units
            100,
        )
        .unwrap();

    assert_eq!(score, 650);

    let stored_score = state.get_score(user, 100).unwrap();
    assert_eq!(stored_score.score, score);
    assert_eq!(stored_score.address, user);
}

#[test]
fn test_loan_request() {
    let mut state = StellarCreditContract::new();
    let admin: u64 = 1;
    let user: u64 = 2;

    assert!(state.initialize(admin, admin).is_ok());

    state
        .store_score(user, user, 8000 * PRECISION as u64, 95, 30, 85, 1500 * PRECISION as u64, 1)
        .unwrap();

    let loan_id = state.request_loan(user, user, 500 * PRECISION, 6, 2).unwrap();

    let loan = state.get_loan(loan_id).unwrap();
    assert_eq!(loan.borrower, user);
    assert_eq!(loan.amount, 500 * PRECISION);
    assert_eq!(loan.status, LoanStatus::Pending);
}

#[test]
fn test_loan_offers() {
    let offers_high = StellarCreditContract::get_loan_offers(750);
    assert_eq!(offers_high.len(), 2);

    let offers_medium = StellarCreditContract::get_loan_offers(550);
    assert_eq!(offers_medium.len(), 2);

    let offers_low = StellarCreditContract::get_loan_offers(350);
    assert_eq!(offers_low.len(), 2);

    let offers_very_low = StellarCreditContract::get_loan_offers(250);
    assert_eq!(offers_very_low.len(), 0);
}
