//! A user's collateral, debt and credit standing.

use vstd::prelude::*;
use crate::constants::DEFAULT_LTV;
use crate::identity::Identity;
use crate::math::{bps_share, share_of};

verus! {

/// What the pool knows of one user.
#[derive(Debug, Clone, Copy, PartialEq, Eq)]
pub struct UserAccount {
    /// The user. Unset while the record has not been used.
    pub owner: Identity,
    /// Collateral the user has in the pool.
    pub collateral_deposited: u64,
    /// What the user owes.
    pub amount_borrowed: u64,
    /// When the account last opened a loan, or was created.
    pub last_update: i64,
    /// Loans ever opened. Stays at 255 once it gets there.
    pub loan_count: u8,
    /// The credit score, readable by the credit authority only.
    pub encrypted_credit_score: [u8; 32],
    /// Share of the collateral the user may borrow, in basis points.
    pub risk_adjusted_ltv: u16,
    /// Times the user has paid a loan's principal off.
    pub successful_repayments: u16,
    /// Times the user has been liquidated.
    pub defaults: u16,
    /// Seed byte of the account record's address.
    pub bump: u8,
}

impl UserAccount {
    /// The score of an account that has none yet: 32 zero bytes.
    pub open spec fn no_score() -> [u8; 32] {
        vstd::array::spec_array_fill_for_copy_type::<u8, 32>(0u8)
    }

    /// The account of a user who has done nothing yet.
    pub open spec fn fresh(owner: Identity, now: i64, bump: u8) -> UserAccount {
        UserAccount {
            owner,
            collateral_deposited: 0,
            amount_borrowed: 0,
            last_update: now,
            loan_count: 0,
            encrypted_credit_score: Self::no_score(),
            risk_adjusted_ltv: DEFAULT_LTV,
            successful_repayments: 0,
            defaults: 0,
            bump,
        }
    }

    /// The account once it is in use: a record nobody owns yet becomes the
    /// fresh account of `owner`, any other stays as it is.
    pub open spec fn initialized(self, owner: Identity, now: i64, bump: u8) -> UserAccount {
        if self.owner.is_unset() {
            Self::fresh(owner, now, bump)
        } else {
            self
        }
    }

    /// The most a single loan may borrow against the collateral.
    pub open spec fn max_borrow(&self) -> int {
        share_of(self.collateral_deposited, self.risk_adjusted_ltv)
    }

    /// The most the account may owe under a pool's collateral ratio.
    pub open spec fn debt_ceiling(&self, collateral_ratio: u16) -> int {
        share_of(self.collateral_deposited, collateral_ratio)
    }

    /// The account owes something, and its collateral is strictly below
    /// `liquidation_threshold` basis points of the debt.
    pub open spec fn liquidatable_at(&self, liquidation_threshold: u16) -> bool {
        &&& self.amount_borrowed != 0
        &&& self.collateral_deposited < share_of(self.amount_borrowed, liquidation_threshold)
    }

    /// Makes a record that nobody owns yet the fresh account of `owner`, and
    /// leaves any other as it is.
    pub fn ensure_initialized(&mut self, owner: Identity, now: i64, bump: u8)
        ensures
            *final(self) == old(self).initialized(owner, now, bump),
    {
        if self.owner.check_unset() {
            self.owner = owner;
            self.collateral_deposited = 0;
            self.amount_borrowed = 0;
            self.last_update = now;
            self.loan_count = 0;
            self.encrypted_credit_score = [0u8; 32];
            self.risk_adjusted_ltv = DEFAULT_LTV;
            self.successful_repayments = 0;
            self.defaults = 0;
            self.bump = bump;
        }
    }

    /// Whether the account can be liquidated at the given threshold. Collateral
    /// and debt are in the same unit: the price takes no part.
    pub fn is_liquidatable(&self, _price: u64, liquidation_threshold: u16) -> (liquidatable: bool)
        ensures
            liquidatable == self.liquidatable_at(liquidation_threshold),
    {
        if self.amount_borrowed == 0 {
            return false;
        }
        let debt_threshold: u128 = bps_share(self.amount_borrowed, liquidation_threshold);
        (self.collateral_deposited as u128) < debt_threshold
    }
}

/// An account whose collateral is exactly the threshold's share of its debt
/// cannot be liquidated: the collateral has to be strictly below it. Nor can
/// an account that owes nothing.
pub proof fn lemma_at_threshold_not_liquidatable(user: UserAccount, liquidation_threshold: u16)
    requires
        user.amount_borrowed == 0 || user.collateral_deposited >= share_of(
            user.amount_borrowed,
            liquidation_threshold,
        ),
    ensures
        !user.liquidatable_at(liquidation_threshold),
{
}

/// Once a record is somebody's account, initializing it again changes nothing.
pub proof fn lemma_initialized_once(
    user: UserAccount,
    owner: Identity,
    now: i64,
    bump: u8,
    other_owner: Identity,
    later: i64,
    other_bump: u8,
)
    requires
        !owner.is_unset(),
    ensures
        user.initialized(owner, now, bump).initialized(other_owner, later, other_bump)
            == user.initialized(owner, now, bump),
{
}

} // verus!
