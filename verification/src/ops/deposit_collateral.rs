//! Adding collateral to the pool.

use vstd::prelude::*;
use crate::error::ArciLendError;
use crate::identity::Identity;
use crate::pool::LendingPool;
use crate::user::UserAccount;

verus! {

/// What a deposit works on.
#[derive(Debug, Clone, Copy, PartialEq, Eq)]
pub struct DepositCollateral {
    /// Who deposits.
    pub user: Identity,
    /// The pool that takes the collateral.
    pub lending_pool: LendingPool,
    /// The depositor's account; a record nobody owns yet on a first deposit.
    pub user_account: UserAccount,
    /// Seed byte of the account record's address.
    pub user_account_bump: u8,
}

impl DepositCollateral {
    /// The depositor's account as the deposit finds it.
    pub open spec fn account(&self, now: i64) -> UserAccount {
        self.user_account.initialized(self.user, now, self.user_account_bump)
    }

    /// The collateral the depositor holds before the deposit.
    pub open spec fn held(&self) -> u64 {
        if self.user_account.owner.is_unset() {
            0
        } else {
            self.user_account.collateral_deposited
        }
    }

    /// The new totals fit their fields.
    pub open spec fn fits(&self, amount: u64) -> bool {
        &&& self.held() + amount <= u64::MAX
        &&& self.lending_pool.total_deposits + amount <= u64::MAX
    }

    /// The records after `amount` has been deposited at `now`.
    pub open spec fn deposited(self, amount: u64, now: i64) -> DepositCollateral {
        DepositCollateral {
            user_account: UserAccount {
                collateral_deposited: (self.held() + amount) as u64,
                ..self.account(now)
            },
            lending_pool: self.lending_pool.with_totals(
                (self.lending_pool.total_deposits + amount) as u64,
                self.lending_pool.total_borrowed,
            ),
            ..self
        }
    }

    /// Whether `fits` holds of the amount.
    pub fn check_fits(&self, amount: u64) -> (fits: bool)
        ensures
            fits == self.fits(amount),
    {
        let held: u64 = if self.user_account.owner.check_unset() {
            0
        } else {
            self.user_account.collateral_deposited
        };
        held.checked_add(amount).is_some() && self.lending_pool.total_deposits.checked_add(
            amount,
        ).is_some()
    }
}

/// Credits `amount` of collateral to the depositor and to the pool. A first
/// deposit makes the account the depositor's, with the defaults of a new account.
pub fn deposit_collateral(ctx: &mut DepositCollateral, amount: u64, now: i64) -> (outcome: Result<
    (),
    ArciLendError,
>)
    requires
        old(ctx).fits(amount),
    ensures
        outcome == Ok::<(), ArciLendError>(()),
        *final(ctx) == old(ctx).deposited(amount, now),
        final(ctx).lending_pool.utilization_current(),
        old(ctx).lending_pool.config_valid() ==> final(ctx).lending_pool.wf(),
{
    ctx.user_account.ensure_initialized(ctx.user, now, ctx.user_account_bump);

    ctx.user_account.collateral_deposited = ctx.user_account.collateral_deposited + amount;
    ctx.lending_pool.total_deposits = ctx.lending_pool.total_deposits + amount;
    ctx.lending_pool.calculate_utilization();
    Ok(())
}

} // verus!
