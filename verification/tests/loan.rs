use arcilend::math::{bps_share, elapsed_seconds, interest_due};
use arcilend::{accure_interest, AccrueInterest, ArciLendError, Identity, Loan};

const YEAR: i64 = 31_536_000;

fn id(byte: u8) -> Identity {
    Identity { bytes: [byte; 32] }
}

fn loan(borrowed_amount: u64, interest_rate: u16, last_accrual: i64) -> Loan {
    Loan {
        borrower: id(7),
        user_account: id(8),
        collateral_amount: 100_000,
        borrowed_amount,
        interest_rate,
        start_time: last_accrual,
        last_accrual,
        accrued_interest: 0,
        is_liquidated: false,
        bump: 252,
    }
}

#[test]
fn a_year_at_seven_percent_on_fifty_thousand_is_3500() {
    let mut l = loan(50_000, 700, 1_000);
    let before = l;
    assert!(l.check_accrual_fits(1_000 + YEAR));
    l.accrue_interest(1_000 + YEAR);
    assert_eq!(l, Loan { accrued_interest: 3500, last_accrual: 1_000 + YEAR, ..before });
    assert_eq!(l.total_owed(), 53_500);
}

#[test]
fn interest_is_rounded_down() {
    let mut l = loan(1, 10000, 0);
    l.accrue_interest(YEAR - 1);
    assert_eq!(l.accrued_interest, 0);
    assert_eq!(l.last_accrual, YEAR - 1);

    let mut m = loan(1_000_000, 500, 0);
    m.accrue_interest(86_400);
    assert_eq!(m.accrued_interest, 136);

    let mut n = loan(1_000_000, 500, 0);
    n.accrue_interest(1);
    assert_eq!(n.accrued_interest, 0);
}

#[test]
fn interest_is_added_to_what_has_accrued() {
    let mut l = loan(50_000, 700, 0);
    l.accrued_interest = 11;
    l.accrue_interest(YEAR);
    assert_eq!(l.accrued_interest, 3511);
    assert_eq!(l.borrowed_amount, 50_000);
}

#[test]
fn interest_is_not_compounded() {
    let mut l = loan(50_000, 700, 0);
    l.accrue_interest(YEAR);
    l.accrue_interest(2 * YEAR);
    assert_eq!(l.accrued_interest, 7000);
}

#[test]
fn accrual_at_the_same_time_changes_nothing() {
    let mut l = loan(50_000, 700, 5_000);
    l.accrued_interest = 9;
    let before = l;
    l.accrue_interest(5_000);
    assert_eq!(l, before);
    l.accrue_interest(5_000 + YEAR);
    let once = l;
    l.accrue_interest(5_000 + YEAR);
    assert_eq!(l, once);
}

#[test]
fn accrual_before_the_last_accrual_changes_nothing() {
    let mut l = loan(50_000, 700, 5_000);
    l.accrued_interest = 9;
    let before = l;
    assert!(l.check_accrual_fits(4_999));
    l.accrue_interest(4_999);
    assert_eq!(l, before);
    assert!(l.check_accrual_fits(i64::MIN));
    l.accrue_interest(i64::MIN);
    assert_eq!(l, before);
}

#[test]
fn accrual_in_two_steps_equals_one_where_nothing_is_lost_to_rounding() {
    let mut stepwise = loan(50_000, 700, 0);
    stepwise.accrue_interest(YEAR);
    stepwise.accrue_interest(3 * YEAR);
    let mut at_once = loan(50_000, 700, 0);
    at_once.accrue_interest(3 * YEAR);
    assert_eq!(stepwise, at_once);
    assert_eq!(at_once.accrued_interest, 10_500);
}

#[test]
fn accrual_in_two_steps_loses_at_most_one_unit_to_rounding() {
    let mut stepwise = loan(1, 10000, 0);
    stepwise.accrue_interest(YEAR / 2);
    assert_eq!(stepwise.accrued_interest, 0);
    stepwise.accrue_interest(YEAR);
    assert_eq!(stepwise.accrued_interest, 0);
    let mut at_once = loan(1, 10000, 0);
    at_once.accrue_interest(YEAR);
    assert_eq!(at_once.accrued_interest, 1);
    assert_eq!(stepwise, Loan { accrued_interest: 0, ..at_once });
}

#[test]
fn accrual_grows_with_time() {
    let mut earlier = loan(123_456, 999, 0);
    earlier.accrue_interest(1_000_000);
    let mut later = loan(123_456, 999, 0);
    later.accrue_interest(1_000_001);
    assert_eq!(earlier.accrued_interest, 391);
    assert!(earlier.accrued_interest <= later.accrued_interest);
}

#[test]
fn accrual_spans_the_whole_range_of_time() {
    let mut l = loan(1, 1, i64::MIN);
    assert!(l.check_accrual_fits(i64::MAX));
    l.accrue_interest(i64::MAX);
    assert_eq!(l.accrued_interest, 58_494_241);
    assert_eq!(l.last_accrual, i64::MAX);
}

#[test]
fn check_accrual_fits_tells_when_interest_leaves_64_bits() {
    let mut l = loan(u64::MAX, u16::MAX, 0);
    assert!(!l.check_accrual_fits(i64::MAX));
    assert!(l.check_accrual_fits(0));
    assert!(l.check_accrual_fits(4_811_000));
    assert!(!l.check_accrual_fits(4_813_000));

    l = loan(50_000, 700, 0);
    l.accrued_interest = u64::MAX - 3500;
    assert!(l.check_accrual_fits(YEAR));
    l.accrued_interest = u64::MAX - 3499;
    assert!(!l.check_accrual_fits(YEAR));
}

#[test]
fn total_owed_is_principal_and_interest() {
    let mut l = loan(50_000, 700, 0);
    assert_eq!(l.total_owed(), 50_000);
    l.accrued_interest = 3500;
    assert_eq!(l.total_owed(), 53_500);
    l.borrowed_amount = 0;
    assert_eq!(l.total_owed(), 3500);
    l.accrued_interest = 0;
    assert_eq!(l.total_owed(), 0);
}

#[test]
fn accure_interest_charges_the_loan() {
    let mut ctx = AccrueInterest { loan: loan(50_000, 700, 1_000) };
    assert!(ctx.check_fits(1_000 + YEAR));
    assert_eq!(accure_interest(&mut ctx, 1_000 + YEAR), Ok(()));
    assert_eq!(
        ctx.loan,
        Loan { accrued_interest: 3500, last_accrual: 1_000 + YEAR, ..loan(50_000, 700, 1_000) }
    );
}

#[test]
fn accure_interest_refuses_a_liquidated_loan() {
    let mut l = loan(50_000, 700, 1_000);
    l.is_liquidated = true;
    let mut ctx = AccrueInterest { loan: l };
    assert!(ctx.check_fits(1_000 + YEAR));
    assert_eq!(accure_interest(&mut ctx, 1_000 + YEAR), Err(ArciLendError::AlreadyLiquidated));
    assert_eq!(ctx.loan, l);
}

#[test]
fn accure_interest_check_fits_tells_an_overflow() {
    let mut l = loan(u64::MAX, u16::MAX, 0);
    assert!(!AccrueInterest { loan: l }.check_fits(i64::MAX));
    l.is_liquidated = true;
    assert!(AccrueInterest { loan: l }.check_fits(i64::MAX));
}

#[test]
fn bps_share_is_the_share_rounded_down() {
    assert_eq!(bps_share(100_000, 5000), 50_000);
    assert_eq!(bps_share(100_000, 500), 5_000);
    assert_eq!(bps_share(100_001, 5000), 50_000);
    assert_eq!(bps_share(3, 3333), 0);
    assert_eq!(bps_share(0, 10000), 0);
    assert_eq!(bps_share(99, 0), 0);
    assert_eq!(bps_share(u64::MAX, 10000), u64::MAX as u128);
    assert_eq!(bps_share(u64::MAX, u16::MAX), 120_890_737_287_055_546_508);
}

#[test]
fn elapsed_seconds_is_never_negative() {
    assert_eq!(elapsed_seconds(10, 25), 15);
    assert_eq!(elapsed_seconds(25, 25), 0);
    assert_eq!(elapsed_seconds(25, 10), 0);
    assert_eq!(elapsed_seconds(-5, 5), 10);
    assert_eq!(elapsed_seconds(i64::MIN, i64::MAX), u64::MAX);
    assert_eq!(elapsed_seconds(i64::MAX, i64::MIN), 0);
}

#[test]
fn interest_due_is_the_interest_or_nothing_when_it_is_too_large() {
    assert_eq!(interest_due(50_000, 700, 31_536_000), Some(3500));
    assert_eq!(interest_due(50_000, 700, 0), Some(0));
    assert_eq!(interest_due(0, 700, 31_536_000), Some(0));
    assert_eq!(interest_due(50_000, 0, 31_536_000), Some(0));
    assert_eq!(interest_due(1, 1, 315_360_000_000), Some(1));
    assert_eq!(interest_due(1, 1, 315_359_999_999), Some(0));
    assert_eq!(interest_due(u64::MAX, 10000, 31_536_000), Some(u64::MAX));
    assert_eq!(interest_due(u64::MAX, 10000, 31_536_001), None);
    assert_eq!(interest_due(u64::MAX, u16::MAX, u64::MAX), None);
}
