use arcilend::{
    initialize_pool, ArciLendError, Identity, InitializePool, LendingPool, BASIS_POINTS,
    LIQUIDATION_BONUS, MAX_COLLATERAL_RATIO, MAX_LTV, MIN_COLLATERAL_RATIO, MIN_LTV,
};

fn id(byte: u8) -> Identity {
    Identity { bytes: [byte; 32] }
}

fn pool(total_deposits: u64, total_borrowed: u64) -> LendingPool {
    LendingPool {
        authority: id(1),
        total_deposits,
        total_borrowed,
        interest_rate: 500,
        collateral_ratio: 15000,
        liquidation_threshold: 12000,
        arcium_mcp_pubkey: id(2),
        oracle_feed: id(3),
        bump: 254,
        utilization_rate: 0,
        total_fees: 0,
    }
}

fn blank_pool() -> LendingPool {
    LendingPool {
        authority: Identity::unset(),
        total_deposits: 77,
        total_borrowed: 66,
        interest_rate: 1,
        collateral_ratio: 2,
        liquidation_threshold: 3,
        arcium_mcp_pubkey: Identity::unset(),
        oracle_feed: Identity::unset(),
        bump: 0,
        utilization_rate: 55,
        total_fees: 44,
    }
}

fn creation() -> InitializePool {
    InitializePool {
        authority: id(1),
        lending_pool: blank_pool(),
        arcium_mpc_pubkey: id(2),
        oracle_feed: id(3),
        lending_pool_bump: 254,
    }
}

fn utilization(total_deposits: u64, total_borrowed: u64) -> u16 {
    let mut p = pool(total_deposits, total_borrowed);
    let before = p;
    p.calculate_utilization();
    assert_eq!(p, LendingPool { utilization_rate: p.utilization_rate, ..before });
    p.utilization_rate
}

#[test]
fn constants_have_their_values() {
    assert_eq!(BASIS_POINTS, 10000);
    assert_eq!(MIN_COLLATERAL_RATIO, 12000);
    assert_eq!(MAX_COLLATERAL_RATIO, 30000);
    assert_eq!(LIQUIDATION_BONUS, 500);
    assert_eq!(MIN_LTV, 5000);
    assert_eq!(MAX_LTV, 8000);
}

#[test]
fn initialize_pool_fills_the_record() {
    let mut ctx = creation();
    assert_eq!(initialize_pool(&mut ctx, 500, 15000, 12000), Ok(()));
    assert_eq!(
        ctx.lending_pool,
        LendingPool {
            authority: id(1),
            total_deposits: 0,
            total_borrowed: 0,
            interest_rate: 500,
            collateral_ratio: 15000,
            liquidation_threshold: 12000,
            arcium_mcp_pubkey: id(2),
            oracle_feed: id(3),
            bump: 254,
            utilization_rate: 0,
            total_fees: 0,
        }
    );
    assert_eq!(ctx.authority, id(1));
    assert_eq!(ctx.arcium_mpc_pubkey, id(2));
    assert_eq!(ctx.oracle_feed, id(3));
    assert_eq!(ctx.lending_pool_bump, 254);
}

#[test]
fn initialize_pool_accepts_the_edges_of_the_ranges() {
    let mut low = creation();
    assert_eq!(initialize_pool(&mut low, 0, 12000, 0), Ok(()));
    assert_eq!(low.lending_pool.collateral_ratio, 12000);
    let mut high = creation();
    assert_eq!(initialize_pool(&mut high, 10000, 30000, 29999), Ok(()));
    assert_eq!(high.lending_pool.interest_rate, 10000);
    assert_eq!(high.lending_pool.liquidation_threshold, 29999);
}

#[test]
fn initialize_pool_refuses_a_collateral_ratio_out_of_range() {
    for ratio in [0u16, 11999, 30001, u16::MAX] {
        let mut ctx = creation();
        assert_eq!(
            initialize_pool(&mut ctx, 500, ratio, 100),
            Err(ArciLendError::InvalidCollateralRatio)
        );
        assert_eq!(ctx, creation());
    }
}

#[test]
fn initialize_pool_refuses_an_interest_rate_above_all() {
    let mut ctx = creation();
    assert_eq!(
        initialize_pool(&mut ctx, 10001, 15000, 12000),
        Err(ArciLendError::InvalidInterestRate)
    );
    assert_eq!(ctx, creation());
}

#[test]
fn initialize_pool_refuses_a_threshold_not_below_the_ratio() {
    for threshold in [15000u16, 15001, u16::MAX] {
        let mut ctx = creation();
        assert_eq!(
            initialize_pool(&mut ctx, 500, 15000, threshold),
            Err(ArciLendError::InvalidLiquidationThreshold)
        );
        assert_eq!(ctx, creation());
    }
}

#[test]
fn initialize_pool_looks_at_the_ratio_first_and_the_threshold_last() {
    let mut ctx = creation();
    assert_eq!(
        initialize_pool(&mut ctx, 10001, 11999, 20000),
        Err(ArciLendError::InvalidCollateralRatio)
    );
    assert_eq!(
        initialize_pool(&mut ctx, 10001, 12000, 20000),
        Err(ArciLendError::InvalidInterestRate)
    );
    assert_eq!(
        initialize_pool(&mut ctx, 10000, 12000, 20000),
        Err(ArciLendError::InvalidLiquidationThreshold)
    );
    assert_eq!(ctx, creation());
}

#[test]
fn utilization_is_zero_without_deposits() {
    assert_eq!(utilization(0, 0), 0);
    assert_eq!(utilization(0, 12345), 0);
}

#[test]
fn utilization_is_the_borrowed_share_rounded_down() {
    assert_eq!(utilization(100_000, 50_000), 5000);
    assert_eq!(utilization(100_000, 0), 0);
    assert_eq!(utilization(100_000, 100_000), 10000);
    assert_eq!(utilization(3, 1), 3333);
    assert_eq!(utilization(3, 2), 6666);
    assert_eq!(utilization(7, 9), 12857);
    assert_eq!(utilization(1_000_000, 1), 0);
    assert_eq!(utilization(10_000, 1), 1);
}

#[test]
fn utilization_does_not_overflow_on_the_largest_totals() {
    assert_eq!(utilization(u64::MAX, u64::MAX), 10000);
    assert_eq!(utilization(u64::MAX, u64::MAX / 2), 4999);
    assert_eq!(utilization(1, 6), 60000);
}

#[test]
fn utilization_keeps_the_low_sixteen_bits_of_a_larger_share() {
    assert_eq!(utilization(1, 7), 4464);
    assert_eq!(utilization(1, u64::MAX), 55536);
}

#[test]
fn current_rate_is_the_base_rate_up_to_the_optimum() {
    let mut p = pool(100_000, 0);
    for utilization_rate in [0u16, 5000, 7999, 8000] {
        p.utilization_rate = utilization_rate;
        assert!(p.check_rate_fits());
        assert_eq!(p.get_curent_interest_rate(), 500);
    }
}

#[test]
fn current_rate_adds_five_per_point_above_the_optimum() {
    let mut p = pool(100_000, 0);
    p.utilization_rate = 8001;
    assert_eq!(p.get_curent_interest_rate(), 505);
    p.utilization_rate = 9000;
    assert_eq!(p.get_curent_interest_rate(), 5500);
    p.utilization_rate = 10000;
    assert_eq!(p.get_curent_interest_rate(), 10500);
}

#[test]
fn current_rate_reads_the_stored_utilization() {
    let mut p = pool(100_000, 95_000);
    assert_eq!(p.get_curent_interest_rate(), 500);
    p.calculate_utilization();
    assert_eq!(p.utilization_rate, 9500);
    assert_eq!(p.get_curent_interest_rate(), 8000);
}

#[test]
fn check_rate_fits_tells_when_the_rate_leaves_sixteen_bits() {
    let mut p = pool(1, 0);
    p.interest_rate = 0;
    p.utilization_rate = 21107;
    assert!(p.check_rate_fits());
    assert_eq!(p.get_curent_interest_rate(), 65535);
    p.utilization_rate = 21108;
    assert!(!p.check_rate_fits());
    p.interest_rate = 500;
    p.utilization_rate = 21007;
    assert!(p.check_rate_fits());
    assert_eq!(p.get_curent_interest_rate(), 65535);
    p.utilization_rate = 21008;
    assert!(!p.check_rate_fits());
    p.utilization_rate = u16::MAX;
    assert!(!p.check_rate_fits());
}
