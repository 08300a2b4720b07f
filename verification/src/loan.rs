//! A loan: principal, interest accrued on it, and what is owed in all.

use vstd::prelude::*;
use crate::identity::Identity;
use crate::constants::YEAR_IN_BASIS_POINTS;
use crate::math::{
    elapsed_seconds, interest_due, interest_over, interest_remainder, lemma_interest_grows,
    lemma_interest_splits, seconds_between,
};

verus! {

/// One loan of one borrower.
#[derive(Debug, Clone, Copy, PartialEq, Eq)]
pub struct Loan {
    /// Who borrowed.
    pub borrower: Identity,
    /// The record of the borrower's account.
    pub user_account: Identity,
    /// The borrower's collateral when the loan was opened.
    pub collateral_amount: u64,
    /// Principal still owed.
    pub borrowed_amount: u64,
    /// Annual rate in basis points, fixed when the loan was opened.
    pub interest_rate: u16,
    /// When the loan was opened.
    pub start_time: i64,
    /// Up to when interest has been charged.
    pub last_accrual: i64,
    /// Interest charged and not yet paid.
    pub accrued_interest: u64,
    /// Set when the loan has been liquidated; it is never cleared.
    pub is_liquidated: bool,
    /// Seed byte of the loan record's address.
    pub bump: u8,
}

impl Loan {
    /// Interest that has run up since the last accrual.
    pub open spec fn pending_interest(&self, now: i64) -> int {
        interest_over(
            self.borrowed_amount,
            self.interest_rate,
            seconds_between(self.last_accrual, now),
        )
    }

    /// What rounding down leaves out of the pending interest, in parts of a unit.
    pub open spec fn lost_to_rounding(&self, now: i64) -> int {
        interest_remainder(
            self.borrowed_amount,
            self.interest_rate,
            seconds_between(self.last_accrual, now),
        )
    }

    /// The interest accrued up to `now` fits the 64 bits it is kept in.
    pub open spec fn accrual_fits(&self, now: i64) -> bool {
        self.accrued_interest + self.pending_interest(now) <= u64::MAX
    }

    /// The loan with interest charged up to `now`. A `now` that is not after
    /// the last accrual changes nothing.
    pub open spec fn accrued(self, now: i64) -> Loan {
        if now > self.last_accrual {
            Loan {
                accrued_interest: (self.accrued_interest + self.pending_interest(now)) as u64,
                last_accrual: now,
                ..self
            }
        } else {
            self
        }
    }

    /// Principal and unpaid interest together.
    pub open spec fn owed(&self) -> int {
        self.borrowed_amount + self.accrued_interest
    }

    /// The loan after `payment` has been applied: to the interest first, and
    /// what is left of it to the principal.
    pub open spec fn repaid(self, payment: u64) -> Loan {
        if payment >= self.accrued_interest {
            Loan {
                accrued_interest: 0,
                borrowed_amount: (self.borrowed_amount - (payment - self.accrued_interest)) as u64,
                ..self
            }
        } else {
            Loan { accrued_interest: (self.accrued_interest - payment) as u64, ..self }
        }
    }

    /// Whether `accrual_fits` holds at `now`.
    pub fn check_accrual_fits(&self, now: i64) -> (fits: bool)
        ensures
            fits == self.accrual_fits(now),
    {
        let elapsed: u64 = elapsed_seconds(self.last_accrual, now);
        match interest_due(self.borrowed_amount, self.interest_rate, elapsed) {
            Some(interest) => self.accrued_interest.checked_add(interest).is_some(),
            None => false,
        }
    }

    /// Charges the interest that has run up since the last accrual.
    pub fn accrue_interest(&mut self, current_time: i64)
        requires
            old(self).accrual_fits(current_time),
        ensures
            *final(self) == old(self).accrued(current_time),
    {
        let elapsed: u64 = elapsed_seconds(self.last_accrual, current_time);
        if elapsed > 0 {
            if let Some(interest) = interest_due(self.borrowed_amount, self.interest_rate, elapsed) {
                self.accrued_interest = self.accrued_interest + interest;
                self.last_accrual = current_time;
            }
        }
    }

    /// Principal and unpaid interest together.
    pub fn total_owed(&self) -> (total: u64)
        requires
            self.owed() <= u64::MAX,
        ensures
            total == self.owed(),
    {
        self.borrowed_amount + self.accrued_interest
    }
}

/// Charging interest adds the pending interest to what has accrued and
/// changes nothing else but the time of the last accrual, which never moves
/// back. At the time of the last accrual, or before it, nothing changes at all.
pub proof fn lemma_accrual_only_adds(loan: Loan, now: i64)
    requires
        loan.accrual_fits(now),
    ensures
        loan.accrued(now) == (Loan {
            accrued_interest: loan.accrued(now).accrued_interest,
            last_accrual: loan.accrued(now).last_accrual,
            ..loan
        }),
        loan.accrued(now).accrued_interest == loan.accrued_interest + loan.pending_interest(now),
        loan.accrued(now).accrued_interest >= loan.accrued_interest,
        loan.accrued(now).last_accrual >= loan.last_accrual,
        now <= loan.last_accrual ==> loan.accrued(now) == loan,
        loan.accrued(now).accrued(now) == loan.accrued(now),
{
    lemma_interest_grows(
        loan.borrowed_amount,
        loan.interest_rate,
        0,
        seconds_between(loan.last_accrual, now),
    );
}

/// The later interest is charged, the more has accrued.
pub proof fn lemma_accrual_grows_with_time(loan: Loan, earlier: i64, later: i64)
    requires
        earlier <= later,
        loan.accrual_fits(later),
    ensures
        loan.accrual_fits(earlier),
        loan.accrued(earlier).accrued_interest <= loan.accrued(later).accrued_interest,
{
    lemma_interest_grows(
        loan.borrowed_amount,
        loan.interest_rate,
        seconds_between(loan.last_accrual, earlier),
        seconds_between(loan.last_accrual, later),
    );
    lemma_interest_grows(
        loan.borrowed_amount,
        loan.interest_rate,
        0,
        seconds_between(loan.last_accrual, earlier),
    );
}

/// Charging interest at `first` and again at `second` gives the loan that
/// charging once at `second` gives, but for the unit of interest that is lost
/// where the parts that rounding leaves out of the two steps make up a whole
/// unit together.
pub proof fn lemma_accrual_in_two_steps(loan: Loan, first: i64, second: i64)
    requires
        first <= second,
        loan.accrual_fits(second),
    ensures
        loan.accrual_fits(first),
        loan.accrued(first).accrual_fits(second),
        loan.accrued(second) == (Loan {
            accrued_interest: loan.accrued(second).accrued_interest,
            ..loan.accrued(first).accrued(second)
        }),
        loan.accrued(second).accrued_interest == loan.accrued(first).accrued(
            second,
        ).accrued_interest + if loan.lost_to_rounding(first) + loan.accrued(
            first,
        ).lost_to_rounding(second) >= YEAR_IN_BASIS_POINTS {
            1int
        } else {
            0int
        },
{
    lemma_accrual_grows_with_time(loan, first, second);
    let started: int = seconds_between(loan.last_accrual, first);
    let went_on: int = seconds_between(loan.accrued(first).last_accrual, second);
    assert(started + went_on == seconds_between(loan.last_accrual, second));
    lemma_interest_splits(loan.borrowed_amount, loan.interest_rate, started, went_on);
    lemma_interest_grows(loan.borrowed_amount, loan.interest_rate, 0, started);
    lemma_interest_grows(loan.borrowed_amount, loan.interest_rate, 0, went_on);
}

/// Interest is linear in time: where rounding loses less than a whole unit
/// over the two steps together, charging at `first` and again at `second`
/// gives exactly the loan that charging once at `second` gives.
pub proof fn lemma_accrual_additive(loan: Loan, first: i64, second: i64)
    requires
        first <= second,
        loan.accrual_fits(second),
        loan.lost_to_rounding(first) + loan.accrued(first).lost_to_rounding(second)
            < YEAR_IN_BASIS_POINTS,
    ensures
        loan.accrual_fits(first),
        loan.accrued(first).accrual_fits(second),
        loan.accrued(first).accrued(second) == loan.accrued(second),
{
    lemma_accrual_in_two_steps(loan, first, second);
}

} // verus!
