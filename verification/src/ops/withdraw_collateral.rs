//! Taking collateral back out of the pool.

use vstd::prelude::*;
use crate::error::ArciLendError;
use crate::identity::Identity;
use crate::pool::LendingPool;
use crate::user::UserAccount;

verus! {

/// What a withdrawal works on.
#[derive(Debug, Clone, Copy, PartialEq, Eq)]
pub struct WithdrawCollateral {
    /// Who withdraws.
    pub user: Identity,
    /// The pool that holds the collateral.
    pub lending_pool: LendingPool,
    /// The withdrawer's account.
    pub user_account: UserAccount,
}

impl WithdrawCollateral {
    /// Why a withdrawal of `amount` is refused, if it is: the account must
    /// owe nothing, and hold at least the amount.
    pub open spec fn refusal(&self, amount: u64) -> Option<ArciLendError> {
        if self.user_account.amount_borrowed != 0 {
            Some(ArciLendError::ActiveLoansExist)
        } else if amount > self.user_account.collateral_deposited {
            Some(ArciLendError::InsufficientBalance)
        } else {
            None
        }
    }

    /// Where the withdrawal goes ahead, the pool holds at least the amount.
    pub open spec fn fits(&self, amount: u64) -> bool {
        self.refusal(amount) is None ==> amount <= self.lending_pool.total_deposits
    }

    /// The records after `amount` has been withdrawn.
    pub open spec fn withdrawn(self, amount: u64) -> WithdrawCollateral {
        WithdrawCollateral {
            user_account: UserAccount {
                collateral_deposited: (self.user_account.collateral_deposited - amount) as u64,
                ..self.user_account
            },
            lending_pool: self.lending_pool.with_totals(
                (self.lending_pool.total_deposits - amount) as u64,
                self.lending_pool.total_borrowed,
            ),
            ..self
        }
    }

    /// Whether `fits` holds of the amount.
    pub fn check_fits(&self, amount: u64) -> (fits: bool)
        ensures
            fits == self.fits(amount),
    {
        self.user_account.amount_borrowed != 0 || amount > self.user_account.collateral_deposited
            || amount <= self.lending_pool.total_deposits
    }
}

/// Debits `amount` of collateral from the account and from the pool. An
/// account that owes anything, or holds less than the amount, is refused and
/// nothing changes.
pub fn withdraw_collateral(ctx: &mut WithdrawCollateral, amount: u64) -> (outcome: Result<
    (),
    ArciLendError,
>)
    requires
        old(ctx).fits(amount),
    ensures
        match outcome {
            Ok(_) => {
                &&& old(ctx).refusal(amount) is None
                &&& *final(ctx) == old(ctx).withdrawn(amount)
                &&& final(ctx).lending_pool.utilization_current()
                &&& old(ctx).lending_pool.config_valid() ==> final(ctx).lending_pool.wf()
            },
            Err(reason) => {
                &&& old(ctx).refusal(amount) == Some(reason)
                &&& *final(ctx) == *old(ctx)
            },
        },
{
    if ctx.user_account.amount_borrowed != 0 {
        return Err(ArciLendError::ActiveLoansExist);
    }
    if amount > ctx.user_account.collateral_deposited {
        return Err(ArciLendError::InsufficientBalance);
    }
    ctx.user_account.collateral_deposited = ctx.user_account.collateral_deposited - amount;
    ctx.lending_pool.total_deposits = ctx.lending_pool.total_deposits - amount;
    ctx.lending_pool.calculate_utilization();
    Ok(())
}

} // verus!
