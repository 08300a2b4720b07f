//! Basis-point shares and linear interest, in integers wide enough not to overflow.

use vstd::prelude::*;
use crate::constants::{BASIS_POINTS, SECONDS_PER_YEAR, YEAR_IN_BASIS_POINTS};

verus! {

/// `bps` basis points of `amount`, rounded down.
pub open spec fn share_of(amount: u64, bps: u16) -> int {
    amount * bps / (BASIS_POINTS as int)
}

/// Simple interest on `principal` at `rate_bps` per year over `elapsed`
/// seconds, rounded down. No time has passed when `elapsed` is negative.
pub open spec fn interest_over(principal: u64, rate_bps: u16, elapsed: int) -> int {
    if elapsed <= 0 {
        0
    } else {
        principal * rate_bps * elapsed / (YEAR_IN_BASIS_POINTS as int)
    }
}

/// What rounding down leaves out of `interest_over`, in parts of a unit: the
/// unit has as many parts as a year has seconds, times 10000.
pub open spec fn interest_remainder(principal: u64, rate_bps: u16, elapsed: int) -> int {
    if elapsed <= 0 {
        0
    } else {
        (principal * rate_bps * elapsed) % (YEAR_IN_BASIS_POINTS as int)
    }
}

/// Seconds from `earlier` to `later`; 0 when `later` is not after `earlier`.
pub open spec fn seconds_between(earlier: i64, later: i64) -> int {
    if later > earlier {
        later - earlier
    } else {
        0
    }
}

/// `a - b`, or 0 where that would be negative.
pub open spec fn minus_or_zero(a: u64, b: u64) -> u64 {
    if a >= b {
        (a - b) as u64
    } else {
        0
    }
}

/// The product of a 64-bit amount and a 16-bit rate stays below 2^80.
pub proof fn lemma_weighted_bound(amount: u64, bps: u16)
    ensures
        0 <= amount * bps <= 0xffff_ffff_ffff_ffff * 0xffff,
{
    assert(0 <= amount * bps <= 0xffff_ffff_ffff_ffff * 0xffff) by (nonlinear_arith)
        requires
            0 <= amount <= 0xffff_ffff_ffff_ffff,
            0 <= bps <= 0xffff,
    ;
}

/// Interest is divided by a year's seconds times the basis points of one
/// hundred percent.
pub proof fn lemma_year_in_basis_points()
    ensures
        YEAR_IN_BASIS_POINTS == SECONDS_PER_YEAR * BASIS_POINTS,
{
    assert(31_536_000 * 10000 == 315_360_000_000) by (nonlinear_arith);
}

/// Nothing lent earns nothing.
pub proof fn lemma_no_principal_no_interest(rate_bps: u16, elapsed: int)
    ensures
        interest_over(0, rate_bps, elapsed) == 0,
{
    assert(0 * rate_bps * elapsed == 0) by (nonlinear_arith);
}

/// Interest is never negative and grows with time.
pub proof fn lemma_interest_grows(principal: u64, rate_bps: u16, shorter: int, longer: int)
    requires
        shorter <= longer,
    ensures
        0 <= interest_over(principal, rate_bps, shorter) <= interest_over(
            principal,
            rate_bps,
            longer,
        ),
{
    lemma_weighted_bound(principal, rate_bps);
    let weighted: int = principal * rate_bps;
    if shorter > 0 {
        assert(0 <= weighted * shorter <= weighted * longer) by (nonlinear_arith)
            requires
                0 <= weighted,
                0 < shorter <= longer,
        ;
    } else if longer > 0 {
        assert(0 <= weighted * longer) by (nonlinear_arith)
            requires
                0 <= weighted,
                0 < longer,
        ;
    }
}

/// Interest over two spans of time, charged span by span, is the interest
/// over both at once, less one unit where the parts that rounding leaves out
/// of the two make up a whole unit together.
pub proof fn lemma_interest_splits(principal: u64, rate_bps: u16, first: int, second: int)
    requires
        0 <= first,
        0 <= second,
    ensures
        interest_over(principal, rate_bps, first + second) == interest_over(
            principal,
            rate_bps,
            first,
        ) + interest_over(principal, rate_bps, second) + if interest_remainder(
            principal,
            rate_bps,
            first,
        ) + interest_remainder(principal, rate_bps, second) >= YEAR_IN_BASIS_POINTS {
            1int
        } else {
            0int
        },
{
    lemma_weighted_bound(principal, rate_bps);
    let weighted: int = principal * rate_bps;
    if first > 0 && second > 0 {
        assert(weighted * (first + second) == weighted * first + weighted * second
            && weighted * first >= 0 && weighted * second >= 0) by (nonlinear_arith)
            requires
                0 <= weighted,
                0 < first,
                0 < second,
        ;
    }
}

/// `bps` basis points of `amount`, rounded down.
pub fn bps_share(amount: u64, bps: u16) -> (share: u128)
    ensures
        share == share_of(amount, bps),
{
    proof {
        lemma_weighted_bound(amount, bps);
    }
    (amount as u128 * bps as u128) / (BASIS_POINTS as u128)
}

/// Seconds from `earlier` to `later`; 0 when `later` is not after `earlier`.
pub fn elapsed_seconds(earlier: i64, later: i64) -> (elapsed: u64)
    ensures
        elapsed == seconds_between(earlier, later),
{
    if later > earlier {
        (later as i128 - earlier as i128) as u64
    } else {
        0
    }
}

/// Simple interest on `principal` at `rate_bps` per year over `elapsed`
/// seconds, rounded down; `None` when it does not fit 64 bits.
pub fn interest_due(principal: u64, rate_bps: u16, elapsed: u64) -> (due: Option<u64>)
    ensures
        match due {
            Some(interest) => interest == interest_over(principal, rate_bps, elapsed as int),
            None => interest_over(principal, rate_bps, elapsed as int) > u64::MAX,
        },
{
    if elapsed == 0 {
        return Some(0);
    }
    proof {
        lemma_weighted_bound(principal, rate_bps);
    }
    let weighted: u128 = principal as u128 * rate_bps as u128;
    let year: u128 = YEAR_IN_BASIS_POINTS as u128;
    match weighted.checked_mul(elapsed as u128) {
        Some(product) => {
            let interest: u128 = product / year;
            if interest <= u64::MAX as u128 {
                Some(interest as u64)
            } else {
                None
            }
        },
        None => None,
    }
}

} // verus!
