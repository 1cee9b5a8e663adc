use astrion::ids::Addr;
use astrion::math::{wad_mul, WAD};
use astrion::rate_model::{
    compute_borrow_rate, compute_supply_rate, RateModelConfig, RateModelContract, RateModelError,
};

fn addr(n: u64) -> Addr {
    Addr { kind: 0, k0: n, k1: 0, k2: 0, k3: 0 }
}

fn default_config() -> RateModelConfig {
    RateModelConfig {
        base_rate: WAD / 100,
        slope1: WAD * 4 / 100,
        slope2: WAD * 75 / 100,
        optimal_utilization: WAD * 80 / 100,
        reserve_factor: WAD / 10,
    }
}

fn setup() -> (RateModelContract, Addr) {
    (RateModelContract::fresh(), addr(1))
}

#[test]
fn test_initialize_success() {
    let (mut c, admin) = setup();
    c.initialize(admin, default_config()).unwrap();
    assert_eq!(c.admin(), admin);
}

#[test]
fn test_double_initialize_fails() {
    let (mut c, admin) = setup();
    c.initialize(admin, default_config()).unwrap();
    assert_eq!(c.initialize(admin, default_config()), Err(RateModelError::AlreadyInitialized));
}

#[test]
fn test_borrow_rate_zero_utilization() {
    let config = default_config();
    assert_eq!(compute_borrow_rate(&config, 0), WAD / 100);
}

#[test]
fn test_borrow_rate_at_optimal() {
    let config = default_config();
    let rate = compute_borrow_rate(&config, config.optimal_utilization);
    assert_eq!(rate, WAD / 100 + WAD * 4 / 100);
}

#[test]
fn test_borrow_rate_half_optimal() {
    let config = default_config();
    let rate = compute_borrow_rate(&config, WAD * 40 / 100);
    assert_eq!(rate, WAD / 100 + WAD * 2 / 100);
}

#[test]
fn test_borrow_rate_100_percent_utilization() {
    let config = default_config();
    let rate = compute_borrow_rate(&config, WAD);
    assert_eq!(rate, WAD / 100 + WAD * 4 / 100 + WAD * 75 / 100);
}

#[test]
fn test_borrow_rate_90_percent_utilization() {
    let config = default_config();
    let rate = compute_borrow_rate(&config, WAD * 90 / 100);
    assert_eq!(rate, WAD / 100 + WAD * 4 / 100 + WAD * 75 / 100 / 2);
}

#[test]
fn test_borrow_rate_near_kink_is_continuous() {
    let config = default_config();
    let below = compute_borrow_rate(&config, config.optimal_utilization - 1);
    let at = compute_borrow_rate(&config, config.optimal_utilization);
    let above = compute_borrow_rate(&config, config.optimal_utilization + 1);
    assert!(below <= at);
    assert!(at <= above);
    assert!(above - below < 10_000_000_000);
}

#[test]
fn test_borrow_rate_multiple_transition_points() {
    let config = default_config();
    let points = [WAD * 25 / 100, WAD * 50 / 100, WAD * 75 / 100, WAD * 85 / 100, WAD * 95 / 100];
    let mut prev = 0;
    for point in points {
        let rate = compute_borrow_rate(&config, point);
        assert!(rate > prev);
        prev = rate;
    }
}

#[test]
fn test_supply_rate_at_optimal() {
    let config = default_config();
    let borrow_rate = compute_borrow_rate(&config, config.optimal_utilization);
    let supply_rate = compute_supply_rate(&config, borrow_rate, config.optimal_utilization);
    let expected = wad_mul(wad_mul(borrow_rate, config.optimal_utilization), WAD - config.reserve_factor);
    assert_eq!(supply_rate, expected);
    assert!(supply_rate < borrow_rate);
}

#[test]
fn test_supply_rate_zero_utilization() {
    let config = default_config();
    let borrow_rate = compute_borrow_rate(&config, 0);
    assert_eq!(compute_supply_rate(&config, borrow_rate, 0), 0);
}

#[test]
fn test_get_rates_80_percent() {
    let (mut c, admin) = setup();
    c.initialize(admin, default_config()).unwrap();
    let snapshot = c.get_rates(80 * WAD, 100 * WAD).unwrap();
    assert_eq!(snapshot.utilization, WAD * 80 / 100);
    assert_eq!(snapshot.borrow_rate, WAD / 100 + WAD * 4 / 100);
    assert!(snapshot.supply_rate > 0);
    assert!(snapshot.supply_rate < snapshot.borrow_rate);
}

#[test]
fn test_get_rates_zero_supply_fails() {
    let (mut c, admin) = setup();
    c.initialize(admin, default_config()).unwrap();
    assert_eq!(c.get_rates(100, 0), Err(RateModelError::ZeroSupply));
}

#[test]
fn test_invalid_optimal_utilization_zero() {
    let (mut c, admin) = setup();
    let mut config = default_config();
    config.optimal_utilization = 0;
    assert_eq!(c.initialize(admin, config), Err(RateModelError::InvalidOptimalUtilization));
}

#[test]
fn test_invalid_reserve_factor_100_percent() {
    let (mut c, admin) = setup();
    let mut config = default_config();
    config.reserve_factor = WAD;
    assert_eq!(c.initialize(admin, config), Err(RateModelError::InvalidReserveFactor));
}

#[test]
fn test_update_config_requires_admin() {
    let (mut c, admin) = setup();
    c.initialize(admin, default_config()).unwrap();
    let new_config = RateModelConfig { slope2: WAD * 50 / 100, ..default_config() };
    c.update_config(new_config).unwrap();
    assert_eq!(c.config().slope2, WAD * 50 / 100);
}

#[test]
fn rate_queries_before_initialisation_fail() {
    let (c, _) = setup();
    assert_eq!(c.get_borrow_rate(0), Err(RateModelError::NotInitialized));
    assert_eq!(c.get_rates(1, 1), Err(RateModelError::NotInitialized));
}

#[test]
fn rate_queries_outside_the_unit_interval_fail() {
    let (mut c, admin) = setup();
    c.initialize(admin, default_config()).unwrap();
    assert_eq!(c.get_borrow_rate(WAD + 1), Err(RateModelError::InvalidUtilization));
    assert_eq!(c.get_supply_rate(-1), Err(RateModelError::InvalidUtilization));
    assert_eq!(c.get_borrow_rate(WAD * 90 / 100), Ok(WAD / 100 + WAD * 4 / 100 + WAD * 75 / 100 / 2));
}

#[test]
fn supply_rate_never_exceeds_borrow_rate_on_samples() {
    let config = default_config();
    for k in 0..=20 {
        let u = WAD * k / 20;
        let b = compute_borrow_rate(&config, u);
        let s = compute_supply_rate(&config, b, u);
        assert!(0 <= s && s <= b);
    }
}
