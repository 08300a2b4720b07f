//! Opening a loan against deposited collateral.

use vstd::prelude::*;
use crate::constants::{PREMIUM_FREE_LTV, RISK_PREMIUM};
use crate::error::ArciLendError;
use crate::identity::Identity;
use crate::loan::Loan;
use crate::math::bps_share;
use crate::pool::LendingPool;
use crate::user::UserAccount;

verus! {

/// What opening a loan works on.
#[derive(Debug, Clone, Copy, PartialEq, Eq)]
pub struct Borrow {
    /// Who borrows.
    pub borrower: Identity,
    /// The pool lent from.
    pub lending_pool: LendingPool,
    /// The borrower's account.
    pub user_account: UserAccount,
    /// The record of the borrower's account, which the loan refers back to.
    pub user_account_key: Identity,
    /// The loan record to fill.
    pub loan: Loan,
    /// Seed byte of the loan record's address.
    pub loan_bump: u8,
}

impl Borrow {
    /// The amount is within the borrower's risk-adjusted share of the collateral.
    pub open spec fn within_ltv(&self, amount: u64) -> bool {
        amount <= self.user_account.max_borrow()
    }

    /// With the amount, the borrower's debt stays within the pool's collateral ratio.
    pub open spec fn within_ceiling(&self, amount: u64) -> bool {
        self.user_account.amount_borrowed + amount <= self.user_account.debt_ceiling(
            self.lending_pool.collateral_ratio,
        )
    }

    /// Why a loan of `amount` is refused, if it is: the risk-adjusted limit is
    /// looked at first, then the collateral ratio.
    pub open spec fn refusal(&self, amount: u64) -> Option<ArciLendError> {
        if !self.within_ltv(amount) {
            Some(ArciLendError::ExceedsRiskAdjustedLTV)
        } else if !self.within_ceiling(amount) {
            Some(ArciLendError::Undercollateralized)
        } else {
            None
        }
    }

    /// The surcharge for a borrower whose loan-to-value ratio is not above
    /// `PREMIUM_FREE_LTV`.
    pub open spec fn risk_premium(&self) -> int {
        if self.user_account.risk_adjusted_ltv > PREMIUM_FREE_LTV {
            0
        } else {
            RISK_PREMIUM as int
        }
    }

    /// The rate of the loan: the pool's current rate and the borrower's premium.
    pub open spec fn loan_rate(&self) -> int {
        self.lending_pool.current_rate() + self.risk_premium()
    }

    /// Where the loan is granted, the new totals and the rate fit their fields.
    pub open spec fn fits(&self, amount: u64) -> bool {
        self.refusal(amount) is None ==> {
            &&& self.user_account.amount_borrowed + amount <= u64::MAX
            &&& self.lending_pool.total_borrowed + amount <= u64::MAX
            &&& self.loan_rate() <= u16::MAX
        }
    }

    /// The records after a loan of `amount` has been granted at `now`: the
    /// loan record is filled afresh with the collateral as it stands and the
    /// rate of the moment, the account and the pool owe `amount` more, and
    /// the account counts one loan more, up to 255.
    pub open spec fn granted(self, amount: u64, now: i64) -> Borrow {
        Borrow {
            loan: Loan {
                borrower: self.borrower,
                user_account: self.user_account_key,
                collateral_amount: self.user_account.collateral_deposited,
                borrowed_amount: amount,
                interest_rate: self.loan_rate() as u16,
                start_time: now,
                last_accrual: now,
                accrued_interest: 0,
                is_liquidated: false,
                bump: self.loan_bump,
            },
            user_account: UserAccount {
                amount_borrowed: (self.user_account.amount_borrowed + amount) as u64,
                loan_count: if self.user_account.loan_count < u8::MAX {
                    (self.user_account.loan_count + 1) as u8
                } else {
                    u8::MAX
                },
                last_update: now,
                ..self.user_account
            },
            lending_pool: self.lending_pool.with_totals(
                self.lending_pool.total_deposits,
                (self.lending_pool.total_borrowed + amount) as u64,
            ),
            ..self
        }
    }

    /// Whether `fits` holds of the amount.
    pub fn check_fits(&self, amount: u64) -> (fits: bool)
        ensures
            fits == self.fits(amount),
    {
        let max_borrow: u128 = bps_share(
            self.user_account.collateral_deposited,
            self.user_account.risk_adjusted_ltv,
        );
        let ceiling: u128 = bps_share(
            self.user_account.collateral_deposited,
            self.lending_pool.collateral_ratio,
        );
        if amount as u128 > max_borrow || self.user_account.amount_borrowed as u128
            + amount as u128 > ceiling {
            return true;
        }
        let premium: u16 = if self.user_account.risk_adjusted_ltv > PREMIUM_FREE_LTV {
            0
        } else {
            RISK_PREMIUM
        };
        self.user_account.amount_borrowed.checked_add(amount).is_some()
            && self.lending_pool.total_borrowed.checked_add(amount).is_some()
            && self.lending_pool.check_rate_fits()
            && self.lending_pool.get_curent_interest_rate().checked_add(premium).is_some()
    }
}

/// A loan is granted only where the amount is within the risk-adjusted limit
/// and the debt with it within the collateral ratio, both at once: a request
/// that passes one and fails the other is refused.
pub proof fn lemma_borrow_needs_both_limits(ctx: Borrow, amount: u64)
    ensures
        ctx.refusal(amount) is None <==> ctx.within_ltv(amount) && ctx.within_ceiling(amount),
        ctx.within_ltv(amount) && !ctx.within_ceiling(amount) ==> ctx.refusal(amount) == Some(
            ArciLendError::Undercollateralized,
        ),
        !ctx.within_ltv(amount) && ctx.within_ceiling(amount) ==> ctx.refusal(amount) == Some(
            ArciLendError::ExceedsRiskAdjustedLTV,
        ),
{
}

/// Opens a loan of `amount` at `now`. The amount must be within the
/// borrower's risk-adjusted limit, and the borrower's debt with it within the
/// pool's collateral ratio; a request that fails either is refused and
/// changes nothing.
pub fn borrow(ctx: &mut Borrow, amount: u64, now: i64) -> (outcome: Result<(), ArciLendError>)
    requires
        old(ctx).fits(amount),
    ensures
        match outcome {
            Ok(_) => {
                &&& old(ctx).refusal(amount) is None
                &&& *final(ctx) == old(ctx).granted(amount, now)
                &&& final(ctx).lending_pool.utilization_current()
                &&& old(ctx).lending_pool.config_valid() ==> final(ctx).lending_pool.wf()
            },
            Err(reason) => {
                &&& old(ctx).refusal(amount) == Some(reason)
                &&& *final(ctx) == *old(ctx)
            },
        },
{
    let collateral_value: u64 = ctx.user_account.collateral_deposited;
    let max_borrow: u128 = bps_share(collateral_value, ctx.user_account.risk_adjusted_ltv);
    if amount as u128 > max_borrow {
        return Err(ArciLendError::ExceedsRiskAdjustedLTV);
    }
    let new_total_borrowed: u128 = ctx.user_account.amount_borrowed as u128 + amount as u128;
    let threshold_value: u128 = bps_share(collateral_value, ctx.lending_pool.collateral_ratio);
    if new_total_borrowed > threshold_value {
        return Err(ArciLendError::Undercollateralized);
    }
    let base_rate: u16 = ctx.lending_pool.get_curent_interest_rate();
    let risk_premium: u16 = if ctx.user_account.risk_adjusted_ltv > PREMIUM_FREE_LTV {
        0
    } else {
        RISK_PREMIUM
    };
    let personalized_rate: u16 = base_rate + risk_premium;

    ctx.loan.borrower = ctx.borrower;
    ctx.loan.user_account = ctx.user_account_key;
    ctx.loan.collateral_amount = ctx.user_account.collateral_deposited;
    ctx.loan.borrowed_amount = amount;
    ctx.loan.interest_rate = personalized_rate;
    ctx.loan.start_time = now;
    ctx.loan.last_accrual = now;
    ctx.loan.accrued_interest = 0;
    ctx.loan.is_liquidated = false;
    ctx.loan.bump = ctx.loan_bump;

    ctx.user_account.amount_borrowed = ctx.user_account.amount_borrowed + amount;
    ctx.user_account.loan_count = ctx.user_account.loan_count.saturating_add(1);
    ctx.user_account.last_update = now;

    ctx.lending_pool.total_borrowed = ctx.lending_pool.total_borrowed + amount;
    ctx.lending_pool.calculate_utilization();
    Ok(())
}

} // verus!
