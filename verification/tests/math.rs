use astrion::math::{
    checked_wad_div, checked_wad_mul, from_scaled, health_factor, is_liquidatable, mul_div_down,
    mul_div_up, normalise_in_range, normalise_to_wad, pow10, to_assets_down, to_scaled,
    to_shares_up, utilization, wad_div, wad_mul, wad_percent, WAD,
};

#[test]
fn test_wad_mul_identity() {
    assert_eq!(wad_mul(WAD, WAD), WAD);
}

#[test]
fn test_wad_mul_half() {
    assert_eq!(wad_mul(WAD / 2, WAD), WAD / 2);
}

#[test]
fn test_wad_div_identity() {
    assert_eq!(wad_div(WAD, WAD), WAD);
}

#[test]
fn test_wad_div_half() {
    assert_eq!(wad_div(WAD / 2, WAD), WAD / 2);
}

#[test]
fn test_utilization_zero_supply() {
    assert_eq!(utilization(100, 0), 0);
}

#[test]
fn test_utilization_80_percent() {
    let u = utilization(80 * WAD, 100 * WAD);
    assert_eq!(u, 80 * WAD / 100);
}

#[test]
fn test_scaled_roundtrip() {
    let amount = 1_000 * 10_000_000_i128;
    let index = 11 * WAD / 10;
    let scaled = to_scaled(amount, index);
    let recovered = from_scaled(scaled, index);
    assert!((recovered - amount).abs() <= 1);
}

#[test]
fn test_normalise_up() {
    let price7 = 50_000 * 10_i128.pow(7);
    let wad_price = normalise_to_wad(price7, 7);
    assert_eq!(wad_price, 50_000 * WAD);
}

#[test]
fn test_normalise_equal() {
    let price = 100 * WAD;
    assert_eq!(normalise_to_wad(price, 18), price);
}

#[test]
fn test_health_factor_safe() {
    let hf = health_factor(150 * WAD, 8 * WAD / 10, 100 * WAD);
    assert_eq!(hf, 12 * WAD / 10);
    assert!(!is_liquidatable(hf));
}

#[test]
fn test_health_factor_liquidatable() {
    let hf = health_factor(90 * WAD, 8 * WAD / 10, 100 * WAD);
    assert!(is_liquidatable(hf));
}

#[test]
fn test_health_factor_zero_debt() {
    assert_eq!(health_factor(100 * WAD, WAD, 0), i128::MAX);
}

#[test]
fn test_wad_mul_rounds_to_nearest() {
    assert_eq!(wad_mul(1, WAD / 2), 1);
    assert_eq!(wad_mul(1, WAD / 2 - 1), 0);
}

#[test]
fn test_checked_helpers_reject_overflow_and_zero() {
    assert_eq!(checked_wad_div(WAD, 0), None);
    assert_eq!(checked_wad_mul(i128::MAX, WAD), None);
}

#[test]
fn test_negative_values_are_consistent() {
    assert!((wad_mul(-2 * WAD, WAD / 2) + WAD).abs() <= 1);
    assert!((wad_div(-WAD, 2 * WAD) + WAD / 2).abs() <= 1);
}

#[test]
fn test_scaled_roundtrip_property_sample() {
    let mut seed = 17_i128;
    for _ in 0..128 {
        seed = (seed * 1_103_515_245 + 12_345) % 1_000_000_000;
        let amount = seed + 1;
        let index = WAD + (seed % (WAD / 10));
        let scaled = to_scaled(amount, index);
        let recovered = from_scaled(scaled, index);
        assert!((recovered - amount).abs() <= 1);
    }
}

#[test]
fn checked_helpers_agree_with_plain_ones_in_range() {
    assert_eq!(checked_wad_mul(3 * WAD, WAD / 4), Some(wad_mul(3 * WAD, WAD / 4)));
    assert_eq!(checked_wad_div(3 * WAD, 4 * WAD), Some(3 * WAD / 4));
    assert_eq!(checked_wad_div(i128::MAX, 2), None);
}

#[test]
fn wad_mul_is_commutative_on_samples() {
    assert_eq!(wad_mul(7, 3 * WAD / 10), wad_mul(3 * WAD / 10, 7));
    assert_eq!(wad_mul(-5 * WAD, 123), wad_mul(123, -5 * WAD));
}

#[test]
fn wad_percent_takes_a_fraction() {
    assert_eq!(wad_percent(1000, 5 * WAD / 100), 50);
}

#[test]
fn utilization_never_exceeds_one_when_borrowed_within_supplied() {
    assert_eq!(utilization(100 * WAD, 100 * WAD), WAD);
    assert!(utilization(99, 100) <= WAD);
    assert_eq!(utilization(0, 100), 0);
}

#[test]
fn normalise_scales_down_with_rounding_toward_zero() {
    assert_eq!(normalise_to_wad(123_456_789_000_000_000_000, 20), 1_234_567_890_000_000_000);
    assert_eq!(normalise_to_wad(199, 20), 1);
    assert!(normalise_in_range(100 * WAD, 18));
    assert!(!normalise_in_range(i128::MAX, 0));
}

#[test]
fn pow10_gives_exact_powers() {
    assert_eq!(pow10(0), 1);
    assert_eq!(pow10(11), 100_000_000_000);
    assert_eq!(pow10(18), WAD);
}

#[test]
fn pow10_is_capped_at_ten_to_the_eighteen() {
    assert_eq!(pow10(19), WAD);
    assert_eq!(pow10(40), WAD);
    assert_eq!(pow10(u32::MAX), WAD);
    // more than 36 decimals divide by the capped power only
    assert_eq!(normalise_to_wad(5 * WAD, 40), 5);
    assert!(normalise_in_range(i128::MAX, 100));
}

#[test]
fn mul_div_rounding_brackets_the_quotient() {
    assert_eq!(mul_div_down(10, 10, 3), 33);
    assert_eq!(mul_div_up(10, 10, 3), 34);
    assert_eq!(mul_div_up(10, 9, 3), 30);
}

#[test]
fn virtual_share_conversions_favour_the_pool() {
    assert_eq!(to_shares_up(500, 0, 0), 500_000_000);
    assert_eq!(to_assets_down(500_000_000, 500, 500_000_000), 500);
    assert_eq!(to_assets_down(1, 0, 0), 0);
}

#[test]
fn scaled_roundtrip_at_high_index_stays_within_bound() {
    let index = 5 * WAD / 2;
    let amount = 123_456_789_i128;
    let r = from_scaled(to_scaled(amount, index), index);
    assert!((r - amount).abs() <= 1);
}

#[test]
fn scaled_shares_shrink_as_the_index_grows() {
    let amount = 1_000_000;
    let mut last = to_scaled(amount, WAD);
    for k in 1..50 {
        let s = to_scaled(amount, WAD + k * WAD / 37);
        assert!(s <= last);
        last = s;
    }
    assert_eq!(to_scaled(1_000, 2 * WAD), 500);
}
