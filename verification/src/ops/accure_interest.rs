//! Charging a loan the interest that has run up.

use vstd::prelude::*;
use crate::error::ArciLendError;
use crate::loan::Loan;

verus! {

/// What charging interest works on.
#[derive(Debug, Clone, Copy, PartialEq, Eq)]
pub struct AccrueInterest {
    /// The loan to charge.
    pub loan: Loan,
}

impl AccrueInterest {
    /// Why charging interest is refused, if it is: a liquidated loan is
    /// charged nothing more.
    pub open spec fn refusal(&self) -> Option<ArciLendError> {
        if self.loan.is_liquidated {
            Some(ArciLendError::AlreadyLiquidated)
        } else {
            None
        }
    }

    /// Where interest is charged, what has accrued fits 64 bits.
    pub open spec fn fits(&self, now: i64) -> bool {
        self.refusal() is None ==> self.loan.accrual_fits(now)
    }

    /// Whether `fits` holds at `now`.
    pub fn check_fits(&self, now: i64) -> (fits: bool)
        ensures
            fits == self.fits(now),
    {
        self.loan.is_liquidated || self.loan.check_accrual_fits(now)
    }
}

/// Charges the loan the interest that has run up to `now`. A liquidated loan
/// is refused and stays as it is.
pub fn accure_interest(ctx: &mut AccrueInterest, now: i64) -> (outcome: Result<(), ArciLendError>)
    requires
        old(ctx).fits(now),
    ensures
        match outcome {
            Ok(_) => {
                &&& old(ctx).refusal() is None
                &&& final(ctx).loan == old(ctx).loan.accrued(now)
            },
            Err(reason) => {
                &&& old(ctx).refusal() == Some(reason)
                &&& *final(ctx) == *old(ctx)
            },
        },
{
    if ctx.loan.is_liquidated {
        return Err(ArciLendError::AlreadyLiquidated);
    }
    ctx.loan.accrue_interest(now);
    Ok(())
}

} // verus!
