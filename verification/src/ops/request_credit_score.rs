//! Asking the credit authority for a score.

use vstd::prelude::*;
use crate::error::ArciLendError;
use crate::identity::Identity;
use crate::pool::LendingPool;
use crate::user::UserAccount;

verus! {

/// What a request for a credit score works on.
#[derive(Debug, Clone, Copy, PartialEq, Eq)]
pub struct RequestCreditScore {
    /// The pool the account belongs to.
    pub lending_pool: LendingPool,
    /// The account to score.
    pub user_account: UserAccount,
    /// Who asks.
    pub user: Identity,
}

/// The notice that tells the credit authority what to score.
#[derive(Debug, Clone, Copy, PartialEq, Eq)]
pub struct CreditScoreRequested {
    /// The owner of the account.
    pub user: Identity,
    /// The account's collateral.
    pub collateral_deposited: u64,
    /// The account's debt.
    pub amount_borrowed: u64,
    /// Times the account has paid a loan's principal off.
    pub successful_repayments: u16,
    /// Times the account has been liquidated.
    pub defaults: u16,
    /// When the request was made.
    pub timestamp: i64,
}

impl RequestCreditScore {
    /// The notice for a request made at `now`.
    pub open spec fn notice(&self, now: i64) -> CreditScoreRequested {
        CreditScoreRequested {
            user: self.user_account.owner,
            collateral_deposited: self.user_account.collateral_deposited,
            amount_borrowed: self.user_account.amount_borrowed,
            successful_repayments: self.user_account.successful_repayments,
            defaults: self.user_account.defaults,
            timestamp: now,
        }
    }
}

/// Draws up the notice for the credit authority: the account's history as it
/// stands at `now`. Nothing changes.
pub fn request_credit_score(ctx: &RequestCreditScore, now: i64) -> (outcome: Result<
    CreditScoreRequested,
    ArciLendError,
>)
    ensures
        outcome == Ok::<CreditScoreRequested, ArciLendError>(ctx.notice(now)),
{
    let user_account: &UserAccount = &ctx.user_account;
    Ok(
        CreditScoreRequested {
            user: user_account.owner,
            collateral_deposited: user_account.collateral_deposited,
            amount_borrowed: user_account.amount_borrowed,
            successful_repayments: user_account.successful_repayments,
            defaults: user_account.defaults,
            timestamp: now,
        },
    )
}

} // verus!
