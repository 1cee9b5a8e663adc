use astrion::ids::Addr;
use astrion::mock_oracle::MockOracle;
use astrion::oracle_adapter::{OracleAdapterContract, OracleError, PriceBounds, PriceData, PriceSource};

const WAD: i128 = 1_000_000_000_000_000_000;

fn addr(n: u64) -> Addr {
    Addr { kind: 0, k0: n, k1: 0, k2: 0, k3: 0 }
}

fn adapter(max_staleness: u64) -> OracleAdapterContract {
    let mut a = OracleAdapterContract::fresh();
    a.initialize(addr(1), addr(2), max_staleness).unwrap();
    a
}

fn obs(price: i128, timestamp: u64) -> Option<PriceData> {
    Some(PriceData { price, timestamp })
}

#[test]
fn oracle_adapter_initialize_success() {
    let a = adapter(300);
    assert_eq!(a.admin, Some(addr(1)));
}

#[test]
fn oracle_adapter_double_initialize_fails() {
    let mut a = adapter(300);
    assert_eq!(a.initialize(addr(1), addr(2), 300), Err(OracleError::AlreadyInitialized));
}

#[test]
fn test_get_price_success() {
    let a = adapter(300);
    let resolved = a.get_price(None, obs(50_000 * 10_i128.pow(7), 900), 1_000, 7, None).unwrap();
    assert_eq!(resolved.price_wad, 50_000_i128 * 1_000_000_000_000_000_000);
    assert_eq!(resolved.timestamp, 900);
}

#[test]
fn test_normalizes_common_oracle_decimals() {
    let a = adapter(300);
    let expected = 123 * 1_000_000_000_000_000_000_i128;
    assert_eq!(a.get_price(None, obs(123 * 10_i128.pow(6), 990), 1_000, 6, None).unwrap().price_wad, expected);
    assert_eq!(a.get_price(None, obs(123 * 10_i128.pow(8), 990), 1_000, 8, None).unwrap().price_wad, expected);
    assert_eq!(a.get_price(None, obs(expected, 990), 1_000, 18, None).unwrap().price_wad, expected);
}

#[test]
fn test_stale_price_rejected() {
    let a = adapter(60);
    let result = a.get_price(None, obs(100 * 10_i128.pow(7), 800), 1_000, 7, None);
    assert_eq!(result, Err(OracleError::StalePrice));
}

#[test]
fn test_invalid_price_rejected() {
    let a = adapter(300);
    assert_eq!(a.get_price(None, obs(0, 990), 1_000, 7, None), Err(OracleError::InvalidPrice));
}

#[test]
fn test_price_bounds_reject_outliers() {
    let a = adapter(300);
    let bounds = a.set_asset_bounds(90 * WAD, 110 * WAD).unwrap();
    assert_eq!(
        a.get_price(None, obs(100 * 10_i128.pow(7), 990), 1_000, 7, Some(bounds)).unwrap().price_wad,
        100 * WAD
    );
    assert_eq!(
        a.get_price(None, obs(120 * 10_i128.pow(7), 990), 1_000, 7, Some(bounds)),
        Err(OracleError::PriceOutOfBounds)
    );
    a.remove_asset_bounds().unwrap();
    assert_eq!(
        a.get_price(None, obs(120 * 10_i128.pow(7), 990), 1_000, 7, None).unwrap().price_wad,
        120 * WAD
    );
}

#[test]
fn test_invalid_price_bounds_rejected() {
    let a = adapter(300);
    assert_eq!(a.set_asset_bounds(100, 99), Err(OracleError::InvalidBounds));
}

#[test]
fn test_per_asset_oracle_override() {
    let a = adapter(300);
    let second = addr(3);
    let source = a.set_asset_oracle(second, 300).unwrap();
    let resolved = a.get_price(Some(source), obs(200 * 10_i128.pow(7), 990), 1_000, 7, None).unwrap();
    assert_eq!(resolved.source, second);
    assert_eq!(resolved.price_wad, 200 * WAD);
}

#[test]
fn test_set_default_oracle_requires_admin() {
    let mut a = adapter(300);
    a.set_default_oracle(addr(4)).unwrap();
    assert_eq!(a.default_oracle, Some(addr(4)));
}

#[test]
fn test_transfer_admin() {
    let mut a = adapter(300);
    a.transfer_admin(addr(5)).unwrap();
    assert_eq!(a.admin(), addr(5));
}

#[test]
fn test_zero_staleness_rejected() {
    let mut a = OracleAdapterContract::fresh();
    assert_eq!(a.initialize(addr(1), addr(2), 0), Err(OracleError::InvalidStaleness));
}

#[test]
fn missing_observation_and_uninitialised_adapter_are_refused() {
    let a = adapter(300);
    assert_eq!(a.get_price(None, None, 1_000, 7, None), Err(OracleError::NoPrice));
    assert!(!a.has_price(None, None, 1_000, 7, None));
    assert!(a.has_price(None, obs(1, 1_000), 1_000, 7, None));
    let fresh = OracleAdapterContract::fresh();
    assert_eq!(fresh.get_price(None, obs(1, 1), 1, 7, None), Err(OracleError::NotInitialized));
}

#[test]
fn future_observations_count_as_fresh() {
    let a = adapter(1);
    assert!(a.get_price(None, obs(5, 2_000), 1_000, 7, None).is_ok());
}

#[test]
fn bounds_with_a_zero_side_apply_one_side_only() {
    let a = adapter(300);
    let only_min = PriceBounds { min_price_wad: 50 * WAD, max_price_wad: 0 };
    assert!(a.get_price(None, obs(1_000 * 10_i128.pow(7), 990), 1_000, 7, Some(only_min)).is_ok());
    assert_eq!(
        a.get_price(None, obs(10 * 10_i128.pow(7), 990), 1_000, 7, Some(only_min)),
        Err(OracleError::PriceOutOfBounds)
    );
    assert_eq!(a.set_asset_oracle(addr(9), 0), Err(OracleError::InvalidStaleness));
    let src = PriceSource { oracle: addr(9), max_staleness: 5 };
    assert_eq!(a.resolve_source(Some(src)), Ok((addr(9), 5)));
}

#[test]
fn mock_feed_prices_resolve_through_the_adapter() {
    let a = adapter(300);
    let feed = MockOracle::lastprice(None, 1_000);
    let r = a.get_price(None, feed, 1_000, MockOracle::decimals(), None).unwrap();
    assert_eq!(r.price_wad, WAD);
}

#[test]
fn resolved_prices_are_fresh_positive_and_carry_the_observation_time() {
    let a = adapter(300);
    let p = a.get_price(None, obs(7, 700), 1_000, 7, None).unwrap();
    assert_eq!(p.price_wad, 7 * 100_000_000_000);
    assert_eq!(p.timestamp, 700);
    assert_eq!(p.source, addr(2));
    // a feed with more than 18 decimals can normalise a tiny price down to zero
    let tiny = a.get_price(None, obs(5, 990), 1_000, 19, None).unwrap();
    assert_eq!(tiny.price_wad, 0);
    assert_eq!(a.get_price(None, obs(7, 699), 1_000, 7, None), Err(OracleError::StalePrice));
}
