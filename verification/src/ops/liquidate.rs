//! Liquidating an account that has fallen below the threshold.

use vstd::prelude::*;
use crate::constants::LIQUIDATION_BONUS;
use crate::error::ArciLendError;
use crate::identity::Identity;
use crate::loan::Loan;
use crate::math::{bps_share, share_of};
use crate::ops::accure_interest::AccrueInterest;
use crate::ops::repay::Repay;
use crate::pool::LendingPool;
use crate::user::UserAccount;

verus! {

/// What a liquidation works on.
#[derive(Debug, Clone, Copy, PartialEq, Eq)]
pub struct Liquidate {
    /// The pool the loan was lent from.
    pub lending_pool: LendingPool,
    /// The borrower's account.
    pub user_account: UserAccount,
    /// The loan to liquidate.
    pub loan: Loan,
    /// Who liquidates.
    pub liquidator: Identity,
}

/// What a liquidation moves.
#[derive(Debug, Clone, Copy, PartialEq, Eq)]
pub struct Settlement {
    /// What the liquidator pays into the pool: all the loan owes.
    pub total_debt: u64,
    /// The collateral taken from the borrower.
    pub collateral_seized: u64,
    /// The liquidator's bonus on the collateral.
    pub bonus: u64,
    /// What the liquidator receives: the collateral and the bonus.
    pub total_reward: u64,
}

impl Liquidate {
    /// Why a liquidation is refused, if it is: a loan is liquidated once
    /// only, and only while the account is below the threshold.
    pub open spec fn refusal(&self) -> Option<ArciLendError> {
        if self.loan.is_liquidated {
            Some(ArciLendError::AlreadyLiquidated)
        } else if !self.user_account.liquidatable_at(self.lending_pool.liquidation_threshold) {
            Some(ArciLendError::LoanNotLiquidatable)
        } else {
            None
        }
    }

    /// The bonus on the loan's collateral.
    pub open spec fn bonus(&self) -> int {
        share_of(self.loan.collateral_amount, LIQUIDATION_BONUS)
    }

    /// What a liquidation at `now` moves.
    pub open spec fn settlement(&self, now: i64) -> Settlement {
        Settlement {
            total_debt: self.loan.accrued(now).owed() as u64,
            collateral_seized: self.loan.collateral_amount,
            bonus: self.bonus() as u64,
            total_reward: (self.loan.collateral_amount + self.bonus()) as u64,
        }
    }

    /// What a liquidation that goes ahead needs: the interest, the sum owed
    /// and the reward fit 64 bits, the account and the pool hold at least what
    /// the loan records, and the count of defaults can still grow.
    pub open spec fn fits(&self, now: i64) -> bool {
        self.refusal() is None ==> {
            &&& self.loan.accrual_fits(now)
            &&& self.loan.accrued(now).owed() <= u64::MAX
            &&& self.loan.collateral_amount + self.bonus() <= u64::MAX
            &&& self.user_account.amount_borrowed >= self.loan.borrowed_amount
            &&& self.user_account.collateral_deposited >= self.loan.collateral_amount
            &&& self.user_account.defaults < u16::MAX
            &&& self.lending_pool.total_borrowed >= self.loan.borrowed_amount
            &&& self.lending_pool.total_deposits >= self.loan.collateral_amount
        }
    }

    /// The records after the liquidation at `now`: the loan has been charged
    /// its interest and is marked liquidated, the account and the pool have
    /// given up the loan's principal and collateral, and the account counts
    /// one default more.
    pub open spec fn settled(self, now: i64) -> Liquidate {
        Liquidate {
            loan: Loan { is_liquidated: true, ..self.loan.accrued(now) },
            user_account: UserAccount {
                amount_borrowed: (self.user_account.amount_borrowed - self.loan.borrowed_amount) as u64,
                collateral_deposited: (self.user_account.collateral_deposited
                    - self.loan.collateral_amount) as u64,
                defaults: (self.user_account.defaults + 1) as u16,
                ..self.user_account
            },
            lending_pool: self.lending_pool.with_totals(
                (self.lending_pool.total_deposits - self.loan.collateral_amount) as u64,
                (self.lending_pool.total_borrowed - self.loan.borrowed_amount) as u64,
            ),
            ..self
        }
    }

    /// Whether `fits` holds at `now`.
    pub fn check_fits(&self, collateral_price: u64, now: i64) -> (fits: bool)
        ensures
            fits == self.fits(now),
    {
        if self.loan.is_liquidated || !self.user_account.is_liquidatable(
            collateral_price,
            self.lending_pool.liquidation_threshold,
        ) {
            return true;
        }
        if !self.loan.check_accrual_fits(now) {
            return false;
        }
        let mut loan: Loan = self.loan;
        loan.accrue_interest(now);
        let bonus: u128 = bps_share(self.loan.collateral_amount, LIQUIDATION_BONUS);
        loan.borrowed_amount.checked_add(loan.accrued_interest).is_some()
            && self.loan.collateral_amount as u128 + bonus <= u64::MAX as u128
            && self.user_account.amount_borrowed >= self.loan.borrowed_amount
            && self.user_account.collateral_deposited >= self.loan.collateral_amount
            && self.user_account.defaults < u16::MAX
            && self.lending_pool.total_borrowed >= self.loan.borrowed_amount
            && self.lending_pool.total_deposits >= self.loan.collateral_amount
    }
}

/// A liquidation goes ahead only while the collateral of the account is
/// strictly below the threshold's share of its debt: an account exactly at
/// that share is refused.
pub proof fn lemma_liquidation_needs_shortfall(ctx: Liquidate)
    ensures
        ctx.refusal() is None <==> !ctx.loan.is_liquidated && ctx.user_account.liquidatable_at(
            ctx.lending_pool.liquidation_threshold,
        ),
        ctx.refusal() is None ==> ctx.user_account.collateral_deposited < share_of(
            ctx.user_account.amount_borrowed,
            ctx.lending_pool.liquidation_threshold,
        ),
        ctx.user_account.collateral_deposited == share_of(
            ctx.user_account.amount_borrowed,
            ctx.lending_pool.liquidation_threshold,
        ) ==> ctx.refusal() is Some,
{
}

/// Liquidation is final: a liquidation marks the loan liquidated, and of a
/// liquidated loan every operation is refused, so that nothing changes. It is
/// not liquidated again, charged no more interest, and paid nothing on.
pub proof fn lemma_liquidated_is_final(
    liquidation: Liquidate,
    charge: AccrueInterest,
    repayment: Repay,
    amount: u64,
    now: i64,
)
    ensures
        liquidation.settled(now).loan.is_liquidated,
        liquidation.loan.is_liquidated ==> liquidation.refusal() == Some(
            ArciLendError::AlreadyLiquidated,
        ),
        charge.loan.is_liquidated ==> charge.refusal() == Some(ArciLendError::AlreadyLiquidated),
        repayment.loan.is_liquidated ==> repayment.refusal(amount, now) is Some,
{
}

/// Liquidates the loan at `now`, after interest has been charged up to
/// `now`. The liquidator pays all the loan owes and receives the loan's
/// collateral with a bonus on it; the loan is marked liquidated, and the
/// account and the pool give up what the loan records. A loan that has been
/// liquidated, or an account that is not below the threshold, is refused and
/// nothing changes. The price is taken and plays no part.
pub fn liquidate(ctx: &mut Liquidate, collateral_price: u64, now: i64) -> (outcome: Result<
    Settlement,
    ArciLendError,
>)
    requires
        old(ctx).fits(now),
    ensures
        match outcome {
            Ok(moved) => {
                &&& old(ctx).refusal() is None
                &&& moved == old(ctx).settlement(now)
                &&& *final(ctx) == old(ctx).settled(now)
                &&& final(ctx).lending_pool.utilization_current()
                &&& old(ctx).lending_pool.config_valid() ==> final(ctx).lending_pool.wf()
            },
            Err(reason) => {
                &&& old(ctx).refusal() == Some(reason)
                &&& *final(ctx) == *old(ctx)
            },
        },
{
    if ctx.loan.is_liquidated {
        return Err(ArciLendError::AlreadyLiquidated);
    }
    if !ctx.user_account.is_liquidatable(collateral_price, ctx.lending_pool.liquidation_threshold) {
        return Err(ArciLendError::LoanNotLiquidatable);
    }
    ctx.loan.accrue_interest(now);

    let total_debt: u64 = ctx.loan.total_owed();
    let collateral_to_seize: u64 = ctx.loan.collateral_amount;
    let bonus: u128 = bps_share(collateral_to_seize, LIQUIDATION_BONUS);
    let total_reward: u64 = collateral_to_seize + bonus as u64;

    ctx.loan.is_liquidated = true;
    ctx.user_account.amount_borrowed = ctx.user_account.amount_borrowed - ctx.loan.borrowed_amount;
    ctx.user_account.collateral_deposited = ctx.user_account.collateral_deposited
        - collateral_to_seize;
    ctx.user_account.defaults = ctx.user_account.defaults + 1;

    ctx.lending_pool.total_borrowed = ctx.lending_pool.total_borrowed - ctx.loan.borrowed_amount;
    ctx.lending_pool.total_deposits = ctx.lending_pool.total_deposits - collateral_to_seize;
    ctx.lending_pool.calculate_utilization();
    Ok(
        Settlement {
            total_debt,
            collateral_seized: collateral_to_seize,
            bonus: bonus as u64,
            total_reward,
        },
    )
}

} // verus!
