//! The lending pool: aggregate deposits and debt, and the rate they imply.

use vstd::prelude::*;
use crate::constants::{
    BASIS_POINTS, EXCESS_UTILIZATION_FACTOR, MAX_COLLATERAL_RATIO, MIN_COLLATERAL_RATIO,
    OPTIMAL_UTILIZATION,
};
use crate::identity::Identity;
use crate::math::lemma_weighted_bound;

verus! {

/// The single pool of a market.
#[derive(Debug, Clone, Copy, PartialEq, Eq)]
pub struct LendingPool {
    /// Who may configure the pool.
    pub authority: Identity,
    /// Collateral held for all users, in the smallest unit of the asset.
    pub total_deposits: u64,
    /// Principal lent out to all users.
    pub total_borrowed: u64,
    /// Base annual interest rate, in basis points.
    pub interest_rate: u16,
    /// Largest debt allowed per unit of collateral, in basis points.
    pub collateral_ratio: u16,
    /// Debt per unit of collateral above which an account can be liquidated.
    pub liquidation_threshold: u16,
    /// Who may submit credit scores.
    pub arcium_mcp_pubkey: Identity,
    /// Where collateral prices come from.
    pub oracle_feed: Identity,
    /// Seed byte of the pool record's address.
    pub bump: u8,
    /// Share of the deposits that is lent out, in basis points.
    pub utilization_rate: u16,
    /// Fees collected; reserved.
    pub total_fees: u64,
}

impl LendingPool {
    /// The parameters a pool accepts: a collateral ratio within its range, an
    /// interest rate of at most one hundred percent, and a liquidation
    /// threshold below the collateral ratio.
    pub open spec fn valid_config(
        interest_rate: u16,
        collateral_ratio: u16,
        liquidation_threshold: u16,
    ) -> bool {
        &&& MIN_COLLATERAL_RATIO <= collateral_ratio <= MAX_COLLATERAL_RATIO
        &&& interest_rate <= BASIS_POINTS
        &&& liquidation_threshold < collateral_ratio
    }

    /// The pool's parameters are ones a pool accepts.
    pub open spec fn config_valid(&self) -> bool {
        Self::valid_config(self.interest_rate, self.collateral_ratio, self.liquidation_threshold)
    }

    /// Borrowed share of the deposits in basis points, rounded down; 0 without
    /// deposits. The share is kept in 16 bits: of a larger one the low 16 bits remain.
    pub open spec fn utilization_of(borrowed: u64, deposits: u64) -> u16 {
        if deposits == 0 {
            0u16
        } else {
            ((borrowed * BASIS_POINTS / (deposits as int)) % 0x1_0000) as u16
        }
    }

    /// The stored utilization is the one the totals imply.
    pub open spec fn utilization_current(&self) -> bool {
        self.utilization_rate == Self::utilization_of(self.total_borrowed, self.total_deposits)
    }

    /// The pool is as every operation leaves it: its parameters are valid and
    /// its utilization is current.
    pub open spec fn wf(&self) -> bool {
        &&& self.config_valid()
        &&& self.utilization_current()
    }

    /// This pool with other totals and the utilization they imply.
    pub open spec fn with_totals(self, deposits: u64, borrowed: u64) -> LendingPool {
        LendingPool {
            total_deposits: deposits,
            total_borrowed: borrowed,
            utilization_rate: Self::utilization_of(borrowed, deposits),
            ..self
        }
    }

    /// The rate a loan opened now starts from: the base rate, plus a penalty
    /// that grows linearly with the stored utilization above the optimum.
    pub open spec fn current_rate(&self) -> int {
        if self.utilization_rate <= OPTIMAL_UTILIZATION {
            self.interest_rate as int
        } else {
            self.interest_rate + (self.utilization_rate - OPTIMAL_UTILIZATION)
                * EXCESS_UTILIZATION_FACTOR
        }
    }

    /// The current rate fits the 16 bits a rate is kept in.
    pub open spec fn rate_fits(&self) -> bool {
        self.current_rate() <= u16::MAX
    }

    /// Brings the stored utilization in line with the totals.
    pub fn calculate_utilization(&mut self)
        ensures
            *final(self) == old(self).with_totals(
                old(self).total_deposits,
                old(self).total_borrowed,
            ),
            final(self).utilization_current(),
    {
        if self.total_deposits == 0 {
            self.utilization_rate = 0;
        } else {
            proof {
                lemma_weighted_bound(self.total_borrowed, BASIS_POINTS);
            }
            let share: u128 = (self.total_borrowed as u128 * BASIS_POINTS as u128)
                / self.total_deposits as u128;
            self.utilization_rate = (share % 0x1_0000) as u16;
        }
    }

    /// Whether `rate_fits` holds.
    pub fn check_rate_fits(&self) -> (fits: bool)
        ensures
            fits == self.rate_fits(),
    {
        if self.utilization_rate <= OPTIMAL_UTILIZATION {
            true
        } else {
            let excess: u32 = (self.utilization_rate - OPTIMAL_UTILIZATION) as u32;
            let factor: u32 = EXCESS_UTILIZATION_FACTOR as u32;
            assert(factor == 5);
            self.interest_rate as u32 + excess * factor <= u16::MAX as u32
        }
    }

    /// The rate a loan opened now starts from.
    pub fn get_curent_interest_rate(&self) -> (rate: u16)
        requires
            self.rate_fits(),
        ensures
            rate == self.current_rate(),
    {
        let base_rate: u16 = self.interest_rate;
        if self.utilization_rate <= OPTIMAL_UTILIZATION {
            base_rate
        } else {
            let excess: u16 = self.utilization_rate - OPTIMAL_UTILIZATION;
            base_rate + excess * EXCESS_UTILIZATION_FACTOR
        }
    }
}

/// The utilization of a pool with `borrowed` lent out of `deposits` is 0
/// without deposits, and else the borrowed share in basis points, rounded
/// down, exactly when that share fits 16 bits. It does whenever no more than
/// six times the deposits are lent out.
pub proof fn lemma_utilization_exact(borrowed: u64, deposits: u64)
    ensures
        deposits == 0 ==> LendingPool::utilization_of(borrowed, deposits) == 0,
        deposits > 0 ==> (LendingPool::utilization_of(borrowed, deposits) == borrowed
            * BASIS_POINTS / (deposits as int) <==> borrowed * BASIS_POINTS / (deposits as int)
            <= u16::MAX),
        deposits > 0 && borrowed <= 6 * deposits ==> borrowed * BASIS_POINTS / (deposits as int)
            <= u16::MAX,
{
    if deposits > 0 {
        let d: int = deposits as int;
        let share: int = borrowed * BASIS_POINTS / d;
        assert(0 <= share) by (nonlinear_arith)
            requires
                share == borrowed * BASIS_POINTS / d,
                d > 0,
                borrowed >= 0,
                BASIS_POINTS == 10000,
        ;
        if borrowed <= 6 * deposits {
            assert(share <= 60000) by (nonlinear_arith)
                requires
                    share == borrowed * BASIS_POINTS / d,
                    d > 0,
                    0 <= borrowed <= 6 * d,
                    BASIS_POINTS == 10000,
            ;
        }
    }
}

/// Other totals leave the pool's parameters alone, and the stored
/// utilization is the one they imply.
pub proof fn lemma_with_totals(pool: LendingPool, deposits: u64, borrowed: u64)
    ensures
        pool.with_totals(deposits, borrowed).utilization_current(),
        pool.with_totals(deposits, borrowed).config_valid() == pool.config_valid(),
        pool.config_valid() ==> pool.with_totals(deposits, borrowed).wf(),
        pool.with_totals(deposits, borrowed).total_deposits == deposits,
        pool.with_totals(deposits, borrowed).total_borrowed == borrowed,
{
}

} // verus!
