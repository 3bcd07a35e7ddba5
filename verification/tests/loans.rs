use zapcoin::errors::ErrorCode;
use zapcoin::loan::{create_loan, repay_loan_with_energy, Loan, LoanStatus};

const BORROWER: u64 = 7;

#[test]
fn create_loan_starts_active_and_unpaid() {
    let loan = create_loan(BORROWER, 1000, 30, 42).unwrap();
    assert_eq!(
        loan,
        Loan {
            borrower: BORROWER,
            amount: 1000,
            term_days: 30,
            creation_time: 42,
            repaid_amount: 0,
            status: LoanStatus::Active,
        }
    );
}

#[test]
fn create_loan_of_zero_is_rejected() {
    assert_eq!(create_loan(BORROWER, 0, 30, 42), Err(ErrorCode::InvalidAmount));
}

#[test]
fn overpayment_is_clamped_and_closes_the_loan() {
    let mut loan = create_loan(BORROWER, 1000, 30, 42).unwrap();
    let moved = repay_loan_with_energy(&mut loan, BORROWER, 1500);
    assert_eq!(moved, Ok(1000));
    assert_eq!(loan.repaid_amount, 1000);
    assert_eq!(loan.status, LoanStatus::Repaid);
    assert_eq!(
        repay_loan_with_energy(&mut loan, BORROWER, 1),
        Err(ErrorCode::LoanNotActive)
    );
    assert_eq!(loan.repaid_amount, 1000);
}

#[test]
fn partial_then_clamped_repayment() {
    let mut loan = create_loan(BORROWER, 100, 14, 1).unwrap();
    assert_eq!(repay_loan_with_energy(&mut loan, BORROWER, 30), Ok(30));
    assert_eq!(loan.repaid_amount, 30);
    assert_eq!(loan.status, LoanStatus::Active);
    assert_eq!(repay_loan_with_energy(&mut loan, BORROWER, 100), Ok(70));
    assert_eq!(loan.repaid_amount, 100);
    assert_eq!(loan.status, LoanStatus::Repaid);
}

#[test]
fn repaid_amount_is_monotone_and_bounded() {
    let mut loan = create_loan(BORROWER, 60, 7, 3).unwrap();
    let mut last = loan.repaid_amount;
    for request in [10u64, 0, 25, 40, 99] {
        let _ = repay_loan_with_energy(&mut loan, BORROWER, request);
        assert!(loan.repaid_amount >= last);
        assert!(loan.repaid_amount <= loan.amount);
        let fully_covered = loan.repaid_amount == loan.amount;
        assert_eq!(loan.status == LoanStatus::Repaid, fully_covered);
        last = loan.repaid_amount;
    }
    assert_eq!(loan.repaid_amount, 60);
    assert_eq!(loan.status, LoanStatus::Repaid);
}

#[test]
fn exact_repayment_closes_the_loan() {
    let mut loan = create_loan(BORROWER, 250, 30, 8).unwrap();
    assert_eq!(repay_loan_with_energy(&mut loan, BORROWER, 250), Ok(250));
    assert_eq!(loan.repaid_amount, 250);
    assert_eq!(loan.status, LoanStatus::Repaid);
}

#[test]
fn repay_by_non_borrower_is_unauthorized() {
    let mut loan = create_loan(BORROWER, 100, 30, 8).unwrap();
    assert_eq!(
        repay_loan_with_energy(&mut loan, BORROWER + 1, 50),
        Err(ErrorCode::Unauthorized)
    );
    assert_eq!(loan.repaid_amount, 0);
    assert_eq!(loan.status, LoanStatus::Active);
}

#[test]
fn repay_on_defaulted_loan_is_not_active() {
    let mut loan = Loan {
        borrower: BORROWER,
        amount: 100,
        term_days: 30,
        creation_time: 8,
        repaid_amount: 20,
        status: LoanStatus::Defaulted,
    };
    assert_eq!(
        repay_loan_with_energy(&mut loan, BORROWER, 50),
        Err(ErrorCode::LoanNotActive)
    );
    assert_eq!(loan.repaid_amount, 20);
}

#[test]
fn inconsistent_books_surface_as_overflow() {
    let mut loan = Loan {
        borrower: BORROWER,
        amount: 3,
        term_days: 30,
        creation_time: 8,
        repaid_amount: 5,
        status: LoanStatus::Active,
    };
    assert_eq!(
        repay_loan_with_energy(&mut loan, BORROWER, 1),
        Err(ErrorCode::ArithmeticOverflow)
    );
    assert_eq!(loan.repaid_amount, 5);
}
