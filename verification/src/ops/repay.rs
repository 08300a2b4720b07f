//! Paying a loan back.

use vstd::prelude::*;
use crate::error::ArciLendError;
use crate::identity::Identity;
use crate::loan::Loan;
use crate::math::{
    elapsed_seconds, interest_due, lemma_no_principal_no_interest, minus_or_zero, seconds_between,
};
use crate::pool::LendingPool;
use crate::user::UserAccount;

verus! {

/// What a repayment works on.
#[derive(Debug, Clone, Copy, PartialEq, Eq)]
pub struct Repay {
    /// Who pays.
    pub borrower: Identity,
    /// The pool that is paid.
    pub lending_pool: LendingPool,
    /// The borrower's account.
    pub user_account: UserAccount,
    /// The loan paid on.
    pub loan: Loan,
}

impl Repay {
    /// What a repayment of `amount` at `now` moves: the amount, but no more
    /// than is owed once interest has been charged up to `now`.
    pub open spec fn payment(&self, amount: u64, now: i64) -> int {
        let owed: int = self.loan.accrued(now).owed();
        if amount <= owed {
            amount as int
        } else {
            owed
        }
    }

    /// Why a repayment of `amount` at `now` is refused, if it is: it would
    /// move nothing, or the loan has been liquidated.
    pub open spec fn refusal(&self, amount: u64, now: i64) -> Option<ArciLendError> {
        if self.payment(amount, now) == 0 {
            Some(ArciLendError::InsufficientBalance)
        } else if self.loan.is_liquidated {
            Some(ArciLendError::AlreadyLiquidated)
        } else {
            None
        }
    }

    /// The loan after a repayment of `amount` at `now`.
    pub open spec fn loan_after(&self, amount: u64, now: i64) -> Loan {
        self.loan.accrued(now).repaid(self.payment(amount, now) as u64)
    }

    /// What a repayment of more than nothing needs: the interest and the sum
    /// owed fit 64 bits, and the count of repayments can still grow where the
    /// payment goes ahead and leaves no principal.
    pub open spec fn fits(&self, amount: u64, now: i64) -> bool {
        amount > 0 ==> {
            &&& self.loan.accrual_fits(now)
            &&& self.loan.accrued(now).owed() <= u64::MAX
            &&& self.refusal(amount, now) is None && self.loan_after(amount, now).borrowed_amount
                == 0 ==> self.user_account.successful_repayments < u16::MAX
        }
    }

    /// The records after a repayment of `amount` at `now`: the loan is paid
    /// on, the account and the pool owe that much less, though never less than
    /// nothing, and where the loan is left without principal the account
    /// counts one repayment more.
    pub open spec fn repaid(self, amount: u64, now: i64) -> Repay {
        let payment: u64 = self.payment(amount, now) as u64;
        let loan: Loan = self.loan_after(amount, now);
        Repay {
            loan,
            user_account: UserAccount {
                amount_borrowed: minus_or_zero(self.user_account.amount_borrowed, payment),
                successful_repayments: if loan.borrowed_amount == 0 {
                    (self.user_account.successful_repayments + 1) as u16
                } else {
                    self.user_account.successful_repayments
                },
                ..self.user_account
            },
            lending_pool: self.lending_pool.with_totals(
                self.lending_pool.total_deposits,
                minus_or_zero(self.lending_pool.total_borrowed, payment),
            ),
            ..self
        }
    }

    /// Whether `fits` holds of the amount at `now`.
    pub fn check_fits(&self, amount: u64, now: i64) -> (fits: bool)
        ensures
            fits == self.fits(amount, now),
    {
        if amount == 0 {
            return true;
        }
        let elapsed: u64 = elapsed_seconds(self.loan.last_accrual, now);
        let interest: u64 = match interest_due(
            self.loan.borrowed_amount,
            self.loan.interest_rate,
            elapsed,
        ) {
            Some(interest) => interest,
            None => { return false; },
        };
        let accrued: u64 = match self.loan.accrued_interest.checked_add(interest) {
            Some(accrued) => accrued,
            None => { return false; },
        };
        let owed: u64 = match self.loan.borrowed_amount.checked_add(accrued) {
            Some(owed) => owed,
            None => { return false; },
        };
        let payment: u64 = if amount < owed {
            amount
        } else {
            owed
        };
        if payment == 0 || self.loan.is_liquidated {
            return true;
        }
        let principal_left: u64 = if payment >= accrued {
            self.loan.borrowed_amount - (payment - accrued)
        } else {
            self.loan.borrowed_amount
        };
        principal_left != 0 || self.user_account.successful_repayments < u16::MAX
    }
}

/// Nothing can be paid on a loan that owes nothing, and a payment of nothing
/// pays nothing: either is refused, whatever else the records hold.
pub proof fn lemma_repay_nothing_is_refused(ctx: Repay, amount: u64, now: i64)
    requires
        amount == 0 || ctx.loan.owed() == 0,
    ensures
        ctx.fits(amount, now),
        ctx.refusal(amount, now) == Some(ArciLendError::InsufficientBalance),
{
    lemma_no_principal_no_interest(
        ctx.loan.interest_rate,
        seconds_between(ctx.loan.last_accrual, now),
    );
}

/// A repayment that goes ahead pays something, no more than was offered and
/// no more than is owed; the loan owes that much less after it, and its
/// principal is touched only once the interest is paid off.
pub proof fn lemma_repay_pays_interest_first(ctx: Repay, amount: u64, now: i64)
    requires
        ctx.fits(amount, now),
        ctx.refusal(amount, now) is None,
    ensures
        0 < ctx.payment(amount, now) <= amount,
        ctx.payment(amount, now) <= ctx.loan.accrued(now).owed(),
        ctx.loan_after(amount, now).owed() == ctx.loan.accrued(now).owed() - ctx.payment(
            amount,
            now,
        ),
        ctx.loan_after(amount, now).borrowed_amount <= ctx.loan.borrowed_amount,
        ctx.loan_after(amount, now).accrued_interest > 0 ==> ctx.loan_after(
            amount,
            now,
        ).borrowed_amount == ctx.loan.borrowed_amount,
{
}

/// Pays `amount` on the loan at `now`, after interest has been charged up to
/// `now`. No more than is owed is taken; interest is paid before principal.
/// Returns what was paid. A payment of nothing is refused and changes nothing:
/// so is any payment on a loan that owes nothing, or that has been liquidated.
pub fn repay(ctx: &mut Repay, amount: u64, now: i64) -> (outcome: Result<u64, ArciLendError>)
    requires
        old(ctx).fits(amount, now),
    ensures
        match outcome {
            Ok(paid) => {
                &&& old(ctx).refusal(amount, now) is None
                &&& paid == old(ctx).payment(amount, now)
                &&& *final(ctx) == old(ctx).repaid(amount, now)
                &&& final(ctx).lending_pool.utilization_current()
                &&& old(ctx).lending_pool.config_valid() ==> final(ctx).lending_pool.wf()
            },
            Err(reason) => {
                &&& old(ctx).refusal(amount, now) == Some(reason)
                &&& *final(ctx) == *old(ctx)
            },
        },
{
    if amount == 0 {
        return Err(ArciLendError::InsufficientBalance);
    }
    let mut loan: Loan = ctx.loan;
    loan.accrue_interest(now);

    let total_owed: u64 = loan.total_owed();
    let repay_amount: u64 = if amount < total_owed {
        amount
    } else {
        total_owed
    };
    if repay_amount == 0 {
        return Err(ArciLendError::InsufficientBalance);
    }
    if loan.is_liquidated {
        return Err(ArciLendError::AlreadyLiquidated);
    }
    if repay_amount >= loan.accrued_interest {
        let principal_payment: u64 = repay_amount - loan.accrued_interest;
        loan.accrued_interest = 0;
        loan.borrowed_amount = loan.borrowed_amount - principal_payment;
    } else {
        loan.accrued_interest = loan.accrued_interest - repay_amount;
    }
    ctx.loan = loan;

    ctx.user_account.amount_borrowed = ctx.user_account.amount_borrowed.saturating_sub(
        repay_amount,
    );
    if ctx.loan.borrowed_amount == 0 {
        ctx.user_account.successful_repayments = ctx.user_account.successful_repayments + 1;
    }
    ctx.lending_pool.total_borrowed = ctx.lending_pool.total_borrowed.saturating_sub(repay_amount);
    ctx.lending_pool.calculate_utilization();
    Ok(repay_amount)
}

} // verus!
