use astrion::core_pool::MarketConfig;
use astrion::ids::Addr;
use astrion::liquidation_engine::{
    collateral_for_repay, validate_close_factor, LiquidationEngineContract, LiquidationError,
    PositionReads,
};
use astrion::math::WAD;

fn addr(n: u64) -> Addr {
    Addr { kind: 0, k0: n, k1: 0, k2: 0, k3: 0 }
}

fn default_market_config(asset: Addr) -> MarketConfig {
    MarketConfig {
        asset,
        ltv: WAD * 70 / 100,
        liquidation_threshold: WAD * 80 / 100,
        liquidation_bonus: WAD * 5 / 100,
        reserve_factor: WAD / 10,
        supply_cap: 0,
        borrow_cap: 0,
        is_active: true,
        is_borrowable: true,
    }
}

/// The engine at a 50% close factor; debt priced at 1 WAD, collateral at 10 WAD.
fn setup() -> LiquidationEngineContract {
    let mut e = LiquidationEngineContract::fresh();
    e.initialize(addr(1), addr(2), addr(3), WAD / 2).unwrap();
    e
}

/// What the pool and oracle report: an unset health factor reads as i128::MAX,
/// unset balances as 0.
fn reads(hf: i128, debt: i128, collateral: i128) -> PositionReads {
    PositionReads {
        health_factor: hf,
        debt,
        debt_price: WAD,
        collateral_price: 10 * WAD,
        collateral_config: Some(default_market_config(addr(11))),
        collateral_balance: collateral,
    }
}

#[test]
fn liquidation_initialize_success() {
    let e = setup();
    assert_eq!(e.close_factor(), Some(WAD / 2));
}

#[test]
fn liquidation_double_initialize_fails() {
    let mut e = setup();
    assert_eq!(e.initialize(addr(1), addr(2), addr(3), WAD / 2), Err(LiquidationError::AlreadyInitialized));
}

#[test]
fn test_check_liquidation_healthy_position() {
    let e = setup();
    let preview = e.check_liquidation(reads(WAD * 2, 1_000, 0)).unwrap();
    assert!(!preview.is_liquidatable);
    assert_eq!(preview.max_repay_amount, 0);
}

#[test]
fn test_check_liquidation_undercollateralized() {
    let e = setup();
    let preview = e.check_liquidation(reads(WAD / 2, 1_000, 10_000)).unwrap();
    assert!(preview.is_liquidatable);
    assert_eq!(preview.max_repay_amount, 500);
}

#[test]
fn test_liquidate_healthy_position_fails() {
    let e = setup();
    let r = e.liquidate(100, reads(WAD * 3, 0, 0));
    assert_eq!(r, Err(LiquidationError::PositionHealthy));
}

#[test]
fn test_liquidate_no_debt_fails() {
    let e = setup();
    let r = e.liquidate(1, reads(WAD / 2, 0, 0));
    assert_eq!(r, Err(LiquidationError::NoDebt));
}

#[test]
fn test_liquidate_repay_exceeds_close_factor_fails() {
    let e = setup();
    let r = e.liquidate(600, reads(WAD / 2, 1_000, 0));
    assert_eq!(r, Err(LiquidationError::RepayExceedsCloseFactor));
}

#[test]
fn test_liquidate_insufficient_collateral_fails() {
    let e = setup();
    let r = e.liquidate(500, reads(WAD / 2, 1_000, 10));
    assert_eq!(r, Err(LiquidationError::InsufficientCollateral));
}

#[test]
fn test_liquidate_undercollateralized_succeeds() {
    let e = setup();
    let r = e.liquidate(500, reads(WAD / 2, 1_000, 1_000));
    assert_eq!(r, Ok(53));
}

#[test]
fn test_liquidate_with_limits_deadline_expired_fails() {
    let e = setup();
    let mut used = false;
    let r = e.liquidate_with_limits(2_000, 1_000, &mut used, 500, reads(WAD / 2, 1_000, 1_000), 5_000);
    assert_eq!(r, Err(LiquidationError::DeadlineExpired));
    assert!(!used);
}

#[test]
fn test_liquidate_with_limits_duplicate_nonce_fails() {
    let e = setup();
    let mut used = false;
    e.liquidate_with_limits(0, u64::MAX, &mut used, 500, reads(WAD / 2, 1_000, 1_000), 5_000).unwrap();
    assert!(used);
    let r = e.liquidate_with_limits(0, u64::MAX, &mut used, 500, reads(WAD / 2, 1_000, 1_000), 5_000);
    assert_eq!(r, Err(LiquidationError::DuplicateOperation));
}

#[test]
fn test_liquidate_with_limits_slippage_exceeded_fails() {
    let e = setup();
    let mut used = false;
    let r = e.liquidate_with_limits(0, u64::MAX, &mut used, 500, reads(WAD / 2, 1_000, 1_000), 10);
    assert_eq!(r, Err(LiquidationError::SlippageExceeded));
}

#[test]
fn test_set_close_factor() {
    let mut e = setup();
    e.set_close_factor(WAD * 30 / 100).unwrap();
    assert_eq!(e.close_factor(), Some(WAD * 30 / 100));
}

#[test]
fn seizure_is_bonus_adjusted_value_at_the_price_ratio() {
    // 500 debt at 1 WAD, +5% bonus = 525 of value; at 10 WAD per collateral unit
    // that is 52.5, rounded to 53.
    let cfg = default_market_config(addr(11));
    assert_eq!(collateral_for_repay(500, WAD, 10 * WAD, Some(cfg)), Ok(53));
    assert_eq!(collateral_for_repay(500, WAD, 10 * WAD, None), Err(LiquidationError::CollateralNotEnabled));
    let no_bonus = MarketConfig { liquidation_bonus: 0, ..cfg };
    assert_eq!(collateral_for_repay(500, WAD, 10 * WAD, Some(no_bonus)), Ok(50));
}

#[test]
fn close_factor_bounds_are_enforced() {
    assert_eq!(validate_close_factor(0), Err(LiquidationError::RepayExceedsCloseFactor));
    assert_eq!(validate_close_factor(WAD + 1), Err(LiquidationError::RepayExceedsCloseFactor));
    assert_eq!(validate_close_factor(WAD), Ok(()));
    let mut e = setup();
    assert_eq!(e.set_close_factor(0), Err(LiquidationError::RepayExceedsCloseFactor));
    assert_eq!(e.close_factor(), Some(WAD / 2));
}

#[test]
fn uninitialised_engine_refuses_and_zero_repay_is_no_debt() {
    let fresh = LiquidationEngineContract::fresh();
    assert_eq!(fresh.liquidate(1, reads(0, 1, 1)), Err(LiquidationError::NotInitialized));
    assert_eq!(fresh.check_liquidation(reads(0, 1, 1)), Err(LiquidationError::NotInitialized));
    let e = setup();
    assert_eq!(e.liquidate(0, reads(0, 1, 1)), Err(LiquidationError::NoDebt));
}

#[test]
fn missing_collateral_market_is_not_enabled() {
    let e = setup();
    let mut r = reads(WAD / 2, 1_000, 1_000);
    r.collateral_config = None;
    assert_eq!(e.liquidate(500, r), Err(LiquidationError::CollateralNotEnabled));
}
