//! Recording a credit score that the credit authority has computed.

use vstd::prelude::*;
use crate::constants::{MAX_LTV, MIN_LTV};
use crate::error::ArciLendError;
use crate::identity::Identity;
use crate::pool::LendingPool;
use crate::user::UserAccount;

verus! {

/// What recording a credit score works on.
#[derive(Debug, Clone, Copy, PartialEq, Eq)]
pub struct UpdateCreditScore {
    /// The pool, which names the credit authority.
    pub lending_pool: LendingPool,
    /// The account that is scored.
    pub user_account: UserAccount,
    /// Who submits the score.
    pub mpc_authority: Identity,
}

impl UpdateCreditScore {
    /// The submitter is the pool's credit authority.
    pub open spec fn authorized(&self) -> bool {
        self.mpc_authority == self.lending_pool.arcium_mcp_pubkey
    }

    /// The loan-to-value ratio is one the credit authority may assign.
    pub open spec fn assignable(risk_adjusted_ltv: u16) -> bool {
        MIN_LTV <= risk_adjusted_ltv <= MAX_LTV
    }

    /// Why a score with the given ratio is refused, if it is: the submitter
    /// is looked at first, then the ratio.
    pub open spec fn refusal(&self, risk_adjusted_ltv: u16) -> Option<ArciLendError> {
        if !self.authorized() {
            Some(ArciLendError::UnauthorizedMPCUpdate)
        } else if !Self::assignable(risk_adjusted_ltv) {
            Some(ArciLendError::InvalidCreditScore)
        } else {
            None
        }
    }

    /// The records after the score has been recorded.
    pub open spec fn scored(self, encrypted_score: [u8; 32], risk_adjusted_ltv: u16) -> UpdateCreditScore {
        UpdateCreditScore {
            user_account: UserAccount {
                encrypted_credit_score: encrypted_score,
                risk_adjusted_ltv,
                ..self.user_account
            },
            ..self
        }
    }
}

/// Records the score and the loan-to-value ratio that goes with it. Only the
/// pool's credit authority may do so, and only with a ratio in the assignable
/// range; the score itself is not looked into. A refusal changes nothing.
pub fn update_credit_score(
    ctx: &mut UpdateCreditScore,
    encrypted_score: [u8; 32],
    risk_adjusted_ltv: u16,
) -> (outcome: Result<(), ArciLendError>)
    ensures
        match outcome {
            Ok(_) => {
                &&& old(ctx).refusal(risk_adjusted_ltv) is None
                &&& *final(ctx) == old(ctx).scored(encrypted_score, risk_adjusted_ltv)
            },
            Err(reason) => {
                &&& old(ctx).refusal(risk_adjusted_ltv) == Some(reason)
                &&& *final(ctx) == *old(ctx)
            },
        },
{
    if ctx.mpc_authority != ctx.lending_pool.arcium_mcp_pubkey {
        return Err(ArciLendError::UnauthorizedMPCUpdate);
    }
    if !(risk_adjusted_ltv >= MIN_LTV && risk_adjusted_ltv <= MAX_LTV) {
        return Err(ArciLendError::InvalidCreditScore);
    }
    ctx.user_account.encrypted_credit_score = encrypted_score;
    ctx.user_account.risk_adjusted_ltv = risk_adjusted_ltv;
    Ok(())
}

} // verus!
