//! The reasons an operation is refused.

use vstd::prelude::*;

verus! {

/// Why an operation was refused. A refused operation changes nothing.
#[derive(Debug, Clone, Copy, PartialEq, Eq, Structural)]
pub enum ArciLendError {
    /// The collateral ratio is outside the configurable range.
    InvalidCollateralRatio,
    /// The interest rate is above one hundred percent.
    InvalidInterestRate,
    /// The collateral does not cover the request.
    InsufficientCollateral,
    /// The account is not below its liquidation threshold.
    LoanNotLiquidatable,
    /// The debt would exceed what the pool's collateral ratio allows.
    Undercollateralized,
    /// Collateral cannot leave while the account owes anything.
    ActiveLoansExist,
    /// The amount is zero or exceeds what is available.
    InsufficientBalance,
    /// The loan has already been liquidated.
    AlreadyLiquidated,
    /// The caller is not the pool's credit authority.
    UnauthorizedMPCUpdate,
    /// The liquidation threshold is not below the collateral ratio.
    InvalidLiquidationThreshold,
    /// The loan-to-value ratio is outside the assignable range.
    InvalidCreditScore,
    /// The amount exceeds the account's risk-adjusted borrowing limit.
    ExceedsRiskAdjustedLTV,
}

} // verus!
