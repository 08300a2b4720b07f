//! Protocol parameters, all in basis points unless said otherwise.

use vstd::prelude::*;

verus! {

/// One hundred percent, in basis points.
pub const BASIS_POINTS: u16 = 10000;

/// Smallest collateral ratio a pool may be configured with.
pub const MIN_COLLATERAL_RATIO: u16 = 12000;

/// Largest collateral ratio a pool may be configured with.
pub const MAX_COLLATERAL_RATIO: u16 = 30000;

/// Share of the seized collateral paid to a liquidator on top of it.
pub const LIQUIDATION_BONUS: u16 = 500;

/// Smallest loan-to-value ratio the credit authority may assign.
pub const MIN_LTV: u16 = 5000;

/// Largest loan-to-value ratio the credit authority may assign.
pub const MAX_LTV: u16 = 8000;

/// Loan-to-value ratio of an account that has no credit score yet.
pub const DEFAULT_LTV: u16 = 5000;

/// Utilization above which borrowing becomes more expensive.
pub const OPTIMAL_UTILIZATION: u16 = 8000;

/// Basis points added to the rate per basis point of utilization above the optimum.
pub const EXCESS_UTILIZATION_FACTOR: u16 = 5;

/// An account whose loan-to-value ratio is above this pays no risk premium.
pub const PREMIUM_FREE_LTV: u16 = 7000;

/// Risk premium of an account at or below `PREMIUM_FREE_LTV`.
pub const RISK_PREMIUM: u16 = 200;

/// Length of the interest year, in seconds.
pub const SECONDS_PER_YEAR: u64 = 31_536_000;

/// What a product of principal, rate and seconds is divided by to give
/// interest: `SECONDS_PER_YEAR` times `BASIS_POINTS`.
pub const YEAR_IN_BASIS_POINTS: u64 = 315_360_000_000;

} // verus!
