//! Creating the pool.

use vstd::prelude::*;
use crate::constants::{BASIS_POINTS, MAX_COLLATERAL_RATIO, MIN_COLLATERAL_RATIO};
use crate::error::ArciLendError;
use crate::identity::Identity;
use crate::pool::LendingPool;

verus! {

/// What creating the pool works on.
#[derive(Debug, Clone, Copy, PartialEq, Eq)]
pub struct InitializePool {
    /// Who creates the pool, and may configure it from then on.
    pub authority: Identity,
    /// The pool record to fill.
    pub lending_pool: LendingPool,
    /// Who may submit credit scores.
    pub arcium_mpc_pubkey: Identity,
    /// Where collateral prices come from.
    pub oracle_feed: Identity,
    /// Seed byte of the pool record's address.
    pub lending_pool_bump: u8,
}

impl InitializePool {
    /// The records after the pool has been created with the given parameters.
    pub open spec fn created(
        self,
        interest_rate: u16,
        collateral_ratio: u16,
        liquidation_threshold: u16,
    ) -> InitializePool {
        InitializePool {
            lending_pool: LendingPool {
                authority: self.authority,
                total_deposits: 0,
                total_borrowed: 0,
                interest_rate,
                collateral_ratio,
                liquidation_threshold,
                arcium_mcp_pubkey: self.arcium_mpc_pubkey,
                oracle_feed: self.oracle_feed,
                bump: self.lending_pool_bump,
                utilization_rate: 0,
                total_fees: 0,
            },
            ..self
        }
    }
}

/// The refusal a set of pool parameters meets, if any: the collateral ratio
/// is looked at first, then the interest rate, then the liquidation threshold.
pub open spec fn config_refusal(
    interest_rate: u16,
    collateral_ratio: u16,
    liquidation_threshold: u16,
) -> Option<ArciLendError> {
    if !(MIN_COLLATERAL_RATIO <= collateral_ratio <= MAX_COLLATERAL_RATIO) {
        Some(ArciLendError::InvalidCollateralRatio)
    } else if interest_rate > BASIS_POINTS {
        Some(ArciLendError::InvalidInterestRate)
    } else if liquidation_threshold >= collateral_ratio {
        Some(ArciLendError::InvalidLiquidationThreshold)
    } else {
        None
    }
}

/// Exactly the parameters that a pool accepts are not refused: a collateral
/// ratio from 12000 to 30000, an interest rate of at most 10000, and a
/// liquidation threshold below the collateral ratio.
pub proof fn lemma_config_refused_unless_valid(
    interest_rate: u16,
    collateral_ratio: u16,
    liquidation_threshold: u16,
)
    ensures
        config_refusal(interest_rate, collateral_ratio, liquidation_threshold) is None
            <==> LendingPool::valid_config(interest_rate, collateral_ratio, liquidation_threshold),
        LendingPool::valid_config(interest_rate, collateral_ratio, liquidation_threshold) <==> {
            &&& 12000 <= collateral_ratio <= 30000
            &&& liquidation_threshold < collateral_ratio
            &&& interest_rate <= 10000
        },
{
}

/// Creates the pool with empty totals. Parameters that a pool does not
/// accept are refused, and the record stays as it was.
pub fn initialize_pool(
    ctx: &mut InitializePool,
    interest_rate: u16,
    collateral_ratio: u16,
    liquidation_threshold: u16,
) -> (outcome: Result<(), ArciLendError>)
    ensures
        match outcome {
            Ok(_) => {
                &&& config_refusal(interest_rate, collateral_ratio, liquidation_threshold) is None
                &&& *final(ctx) == old(ctx).created(
                    interest_rate,
                    collateral_ratio,
                    liquidation_threshold,
                )
                &&& final(ctx).lending_pool.wf()
            },
            Err(reason) => {
                &&& config_refusal(interest_rate, collateral_ratio, liquidation_threshold) == Some(
                    reason,
                )
                &&& *final(ctx) == *old(ctx)
            },
        },
{
    if !(collateral_ratio >= MIN_COLLATERAL_RATIO && collateral_ratio <= MAX_COLLATERAL_RATIO) {
        return Err(ArciLendError::InvalidCollateralRatio);
    }
    if interest_rate > BASIS_POINTS {
        return Err(ArciLendError::InvalidInterestRate);
    }
    if liquidation_threshold >= collateral_ratio {
        return Err(ArciLendError::InvalidLiquidationThreshold);
    }
    ctx.lending_pool.authority = ctx.authority;
    ctx.lending_pool.total_deposits = 0;
    ctx.lending_pool.total_borrowed = 0;
    ctx.lending_pool.interest_rate = interest_rate;
    ctx.lending_pool.collateral_ratio = collateral_ratio;
    ctx.lending_pool.liquidation_threshold = liquidation_threshold;
    ctx.lending_pool.arcium_mcp_pubkey = ctx.arcium_mpc_pubkey;
    ctx.lending_pool.oracle_feed = ctx.oracle_feed;
    ctx.lending_pool.bump = ctx.lending_pool_bump;
    ctx.lending_pool.utilization_rate = 0;
    ctx.lending_pool.total_fees = 0;
    Ok(())
}

} // verus!
