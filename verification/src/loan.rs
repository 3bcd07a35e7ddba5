use vstd::prelude::*;

use crate::errors::ErrorCode;

verus! {

/// Where a loan stands in its life cycle.
///
/// A loan is created `Active` and moves to `Repaid` exactly when its
/// cumulative repayment reaches the principal. `Defaulted` is a reachable
/// state value, but no transition in this ledger produces it: `term_days`
/// is stored as information only and drives no deadline here.
#[derive(Clone, Copy, Debug, PartialEq, Eq, Structural)]
pub enum LoanStatus {
    Active,
    Repaid,
    Defaulted,
}

/// A fixed-principal obligation repayable in credit.
///
/// `amount` is fixed at creation; `repaid_amount` only grows and never
/// passes `amount`. The pair `(borrower, creation_time)` is the loan's
/// natural key; deriving an address from it and rejecting a duplicate is
/// the storage layer's duty, outside this crate.
#[derive(Clone, Copy, Debug, PartialEq, Eq, Structural)]
pub struct Loan {
    pub borrower: u64,
    pub amount: u64,
    pub term_days: u16,
    pub creation_time: i64,
    pub repaid_amount: u64,
    pub status: LoanStatus,
}

/// The invariant every loan this ledger creates or touches maintains:
/// positive principal, repayment within the principal, an `Active` loan
/// still owing something, and a `Repaid` loan owing nothing.
pub open spec fn loan_wf(l: Loan) -> bool {
    &&& l.amount > 0
    &&& l.repaid_amount <= l.amount
    &&& (l.status is Active ==> l.repaid_amount < l.amount)
    &&& (l.status is Repaid ==> l.repaid_amount == l.amount)
}

/// What the loan still owes.
pub open spec fn remaining_debt(l: Loan) -> int {
    l.amount - l.repaid_amount
}

/// The credit a repayment request for `requested` actually moves:
/// overpayment is clamped down to exactly what remains due, never rejected
/// and never moved in excess.
pub open spec fn effective_repayment(l: Loan, requested: u64) -> int
    recommends
        l.repaid_amount <= l.amount,
{
    if requested > remaining_debt(l) {
        remaining_debt(l)
    } else {
        requested as int
    }
}

/// When a repayment by `payer` is accepted against loan state `l`: the
/// payer is the borrower, the loan is still active, and its bookkeeping is
/// consistent.
pub open spec fn repay_accepted(l: Loan, payer: u64) -> bool {
    &&& payer == l.borrower
    &&& l.status is Active
    &&& l.repaid_amount <= l.amount
}

/// The loan state after an accepted repayment request for `requested`:
/// the clamped amount is added to the cumulative repayment, and the status
/// moves to `Repaid` exactly when the principal is fully covered.
pub open spec fn apply_repayment(l: Loan, requested: u64) -> Loan
    recommends
        l.repaid_amount <= l.amount,
{
    let paid = effective_repayment(l, requested);
    Loan {
        repaid_amount: (l.repaid_amount + paid) as u64,
        status: if l.repaid_amount + paid == l.amount {
            LoanStatus::Repaid
        } else {
            LoanStatus::Active
        },
        ..l
    }
}

/// One repayment attempt within a session: an accepted request moves the
/// loan as `apply_repayment` says; a rejected one leaves it untouched.
pub open spec fn repay_step(l: Loan, payer: u64, requested: u64) -> Loan {
    if repay_accepted(l, payer) {
        apply_repayment(l, requested)
    } else {
        l
    }
}

/// The loan state after a session of repayment attempts applied in order.
pub open spec fn apply_repayments(l: Loan, payer: u64, requests: Seq<u64>) -> Loan
    decreases requests.len(),
{
    if requests.len() == 0 {
        l
    } else {
        apply_repayments(repay_step(l, payer, requests[0]), payer, requests.drop_first())
    }
}

/// Law of repayment monotonicity: across any session of repayment
/// attempts on a well-formed loan, `repaid_amount` never decreases and
/// never passes the principal, no other field moves, and — for a loan
/// that did not start `Defaulted` — the status reads `Repaid` exactly
/// when the principal is fully covered, never before.
pub proof fn lemma_repayments_monotone(l: Loan, payer: u64, requests: Seq<u64>)
    requires
        loan_wf(l),
    ensures
        loan_wf(apply_repayments(l, payer, requests)),
        apply_repayments(l, payer, requests).repaid_amount >= l.repaid_amount,
        apply_repayments(l, payer, requests).repaid_amount <= l.amount,
        apply_repayments(l, payer, requests).amount == l.amount,
        apply_repayments(l, payer, requests).borrower == l.borrower,
        apply_repayments(l, payer, requests).term_days == l.term_days,
        apply_repayments(l, payer, requests).creation_time == l.creation_time,
        !(l.status is Defaulted) ==> !(apply_repayments(l, payer, requests).status is Defaulted)
            && (apply_repayments(l, payer, requests).status is Repaid <==> apply_repayments(
            l,
            payer,
            requests,
        ).repaid_amount == l.amount),
    decreases requests.len(),
{
    if requests.len() > 0 {
        lemma_repayments_monotone(repay_step(l, payer, requests[0]), payer, requests.drop_first());
    }
}

/// Creates a loan of `amount` credit for `borrower`.
///
/// A zero principal is rejected. `creation_time` is the external clock's
/// reading at creation; together with the borrower it identifies the loan.
pub fn create_loan(borrower: u64, amount: u64, term_days: u16, creation_time: i64) -> (r: Result<
    Loan,
    ErrorCode,
>)
    ensures
        amount == 0 ==> r == Err::<Loan, ErrorCode>(ErrorCode::InvalidAmount),
        amount > 0 ==> r == Ok::<Loan, ErrorCode>(
            Loan {
                borrower,
                amount,
                term_days,
                creation_time,
                repaid_amount: 0,
                status: LoanStatus::Active,
            },
        ),
        r is Ok ==> loan_wf(r->Ok_0),
{
    if amount == 0 {
        return Err(ErrorCode::InvalidAmount);
    }
    Ok(
        Loan {
            borrower,
            amount,
            term_days,
            creation_time,
            repaid_amount: 0,
            status: LoanStatus::Active,
        },
    )
}

/// Applies a repayment of up to `amount` credit by `payer` to the loan.
///
/// Overpayment is clamped to the remaining debt; the returned value is the
/// credit actually owed to the collector, so the caller can observe the
/// clamp. The outer shell must move exactly that much credit from the
/// payer to the loan's collector and commit the updated loan together with
/// that transfer, or neither. On any rejection the loan is unchanged and
/// the code says which check failed; the checks run in the order listed in
/// the contract.
pub fn repay_loan_with_energy(loan: &mut Loan, payer: u64, amount: u64) -> (r: Result<
    u64,
    ErrorCode,
>)
    ensures
        r is Ok <==> repay_accepted(*old(loan), payer),
        r is Ok ==> *final(loan) == apply_repayment(*old(loan), amount) && r->Ok_0
            == effective_repayment(*old(loan), amount),
        r is Err ==> *final(loan) == *old(loan),
        payer != old(loan).borrower ==> r == Err::<u64, ErrorCode>(ErrorCode::Unauthorized),
        payer == old(loan).borrower && !(old(loan).status is Active) ==> r == Err::<u64, ErrorCode>(
            ErrorCode::LoanNotActive,
        ),
        payer == old(loan).borrower && old(loan).status is Active
            && old(loan).repaid_amount > old(loan).amount
            ==> r == Err::<u64, ErrorCode>(ErrorCode::ArithmeticOverflow),
        final(loan).repaid_amount >= old(loan).repaid_amount,
        final(loan).amount == old(loan).amount,
        final(loan).borrower == old(loan).borrower,
        final(loan).term_days == old(loan).term_days,
        final(loan).creation_time == old(loan).creation_time,
        r is Ok ==> final(loan).repaid_amount <= final(loan).amount,
        r is Ok ==> (final(loan).status is Repaid
            <==> final(loan).repaid_amount == final(loan).amount),
        loan_wf(*old(loan)) ==> loan_wf(*final(loan)),
{
    if payer != loan.borrower {
        return Err(ErrorCode::Unauthorized);
    }
    if loan.status != LoanStatus::Active {
        return Err(ErrorCode::LoanNotActive);
    }
    let remaining = match loan.amount.checked_sub(loan.repaid_amount) {
        Some(rem) => rem,
        None => {
            return Err(ErrorCode::ArithmeticOverflow);
        },
    };
    let repay_amount = if amount > remaining {
        remaining
    } else {
        amount
    };
    loan.repaid_amount = loan.repaid_amount + repay_amount;
    if loan.repaid_amount == loan.amount {
        loan.status = LoanStatus::Repaid;
    }
    Ok(repay_amount)
}

} // verus!
