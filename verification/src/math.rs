//! Fixed-point arithmetic on WAD-scaled (1e18) signed 128-bit values.
//!
//! Every operation is stated over mathematical integers. Division follows the
//! machine's truncating (round toward zero) rule, named `tdiv` below, so each
//! result is pinned down for negative operands too.
use vstd::prelude::*;
use vstd::arithmetic::div_mod::*;
use vstd::arithmetic::mul::*;

verus! {

/// 1e18 — the base unit for all fixed-point values.
pub const WAD: i128 = 1_000_000_000_000_000_000;

/// 1e18 alias for clarity in rate contexts.
pub const RAY: i128 = WAD;

/// Half a WAD — used for rounding to nearest.
pub const HALF_WAD: i128 = 500_000_000_000_000_000;

/// Virtual shares added to every share total (inflation-attack defence).
pub const VIRTUAL_SHARES: i128 = 1_000_000;

/// Virtual assets added to every asset total.
pub const VIRTUAL_ASSETS: i128 = 1;

/// `x` fits in a signed 128-bit integer.
pub open spec fn fits(x: int) -> bool {
    i128::MIN <= x <= i128::MAX
}

/// Truncating division: the quotient rounded toward zero.
pub open spec fn tdiv(x: int, d: int) -> int {
    if d > 0 {
        if x >= 0 { x / d } else { -((-x) / d) }
    } else {
        if x >= 0 { -(x / (-d)) } else { (-x) / (-d) }
    }
}

/// `(a * b + WAD/2) / WAD`, truncated.
pub open spec fn wad_mul_spec(a: int, b: int) -> int {
    tdiv(a * b + HALF_WAD, WAD as int)
}

/// `(a * WAD + b/2) / b`, each division truncated.
pub open spec fn wad_div_spec(a: int, b: int) -> int {
    tdiv(a * WAD + tdiv(b, 2), b)
}

/// `wad_mul` does not overflow on these inputs.
pub open spec fn wad_mul_ok(a: int, b: int) -> bool {
    fits(a * b) && fits(a * b + HALF_WAD)
}

/// `wad_div` does not overflow and does not divide by zero on these inputs.
pub open spec fn wad_div_ok(a: int, b: int) -> bool {
    b != 0 && fits(a * WAD) && fits(a * WAD + tdiv(b, 2))
}

/// Ten to the power `n`.
pub open spec fn pow10_spec(n: nat) -> int
    decreases n,
{
    if n == 0 { 1 } else { 10 * pow10_spec((n - 1) as nat) }
}

/// `a * b / c`, truncated.
pub open spec fn mul_div_down_spec(a: int, b: int, c: int) -> int {
    tdiv(a * b, c)
}

/// `(a * b + c - 1) / c`, truncated: the ceiling of `a * b / c` when `a * b >= 0`.
pub open spec fn mul_div_up_spec(a: int, b: int, c: int) -> int {
    tdiv(a * b + c - 1, c)
}

/// The quotient of `x` by a positive divisor, as the machine computes it.
pub proof fn lemma_tdiv_pos_bounds(x: int, d: int)
    requires
        d > 0,
    ensures
        x >= 0 ==> 0 <= tdiv(x, d) <= x,
        x < 0 ==> x <= tdiv(x, d) <= 0,
        x >= 0 ==> tdiv(x, d) * d <= x < tdiv(x, d) * d + d,
{
    if x >= 0 {
        lemma_div_pos_is_pos(x, d);
        lemma_div_is_ordered_by_denominator(x, 1, d);
        lemma_fundamental_div_mod(x, d);
        lemma_mod_pos_bound(x, d);
        lemma_mul_is_commutative(d, x / d);
    } else {
        lemma_div_pos_is_pos(-x, d);
        lemma_div_is_ordered_by_denominator(-x, 1, d);
    }
}

/// The truncated quotient is bounded by the dividend in magnitude.
pub proof fn lemma_tdiv_bounds(x: int, d: int)
    requires
        d != 0,
    ensures
        x >= 0 && d > 0 ==> 0 <= tdiv(x, d) <= x,
        x < 0 && d > 0 ==> x <= tdiv(x, d) <= 0,
        x >= 0 && d < 0 ==> -x <= tdiv(x, d) <= 0,
        x < 0 && d < 0 ==> 0 <= tdiv(x, d) <= -x,
        (d > 1 || d < -1) ==> -x / 2 - 1 <= tdiv(x, d) <= x / 2 + 1 || x / 2 - 1 <= tdiv(
            x,
            d,
        ) <= -x / 2 + 1,
{
    if d > 0 {
        lemma_tdiv_pos_bounds(x, d);
        if d > 1 {
            if x >= 0 {
                lemma_div_is_ordered_by_denominator(x, 2, d);
            } else {
                lemma_div_is_ordered_by_denominator(-x, 2, d);
            }
        }
    } else {
        lemma_tdiv_pos_bounds(x, -d);
        if x >= 0 {
            lemma_div_pos_is_pos(x, -d);
            lemma_div_is_ordered_by_denominator(x, 1, -d);
            if d < -1 {
                lemma_div_is_ordered_by_denominator(x, 2, -d);
            }
        } else {
            lemma_div_pos_is_pos(-x, -d);
            lemma_div_is_ordered_by_denominator(-x, 1, -d);
            if d < -1 {
                lemma_div_is_ordered_by_denominator(-x, 2, -d);
            }
        }
    }
}

/// Truncating division of machine integers.
pub fn div_trunc(a: i128, b: i128) -> (q: i128)
    requires
        b != 0,
        !(a == i128::MIN && b == -1),
    ensures
        q == tdiv(a as int, b as int),
{
    if b > 0 {
        a / b
    } else {
        proof {
            lemma_tdiv_bounds(a as int, b as int);
        }
        match a.checked_div(b) {
            Some(q) => q,
            None => 0,
        }
    }
}

/// Multiply two WAD-scaled values, rounding to nearest.
///
/// result = (a * b + WAD/2) / WAD
pub fn wad_mul(a: i128, b: i128) -> (r: i128)
    requires
        wad_mul_ok(a as int, b as int),
    ensures
        r == wad_mul_spec(a as int, b as int),
{
    (a * b + HALF_WAD) / WAD
}

/// Divide two WAD-scaled values, rounding to nearest.
///
/// result = (a * WAD + b/2) / b
pub fn wad_div(a: i128, b: i128) -> (r: i128)
    requires
        wad_div_ok(a as int, b as int),
    ensures
        r == wad_div_spec(a as int, b as int),
{
    let half = b / 2;
    let num = a * WAD + half;
    proof {
        // a * WAD is never i128::MIN: 2^127 is not a multiple of 5^18.
        if num == i128::MIN && b == -1 {
            assert(half == 0);
            assert(false) by (nonlinear_arith)
                requires
                    a * 1_000_000_000_000_000_000i128 == -170141183460469231731687303715884105728int,
            ;
        }
    }
    div_trunc(num, b)
}

/// Checked multiply — `None` when an intermediate value overflows.
pub fn checked_wad_mul(a: i128, b: i128) -> (r: Option<i128>)
    ensures
        r == (if wad_mul_ok(a as int, b as int) {
            Some(wad_mul_spec(a as int, b as int) as i128)
        } else {
            None
        }),
        r matches Some(v) ==> v == wad_mul_spec(a as int, b as int),
{
    match a.checked_mul(b) {
        Some(product) => {
            if product > i128::MAX - HALF_WAD {
                None
            } else {
                Some(wad_mul(a, b))
            }
        },
        None => None,
    }
}

/// Checked divide — `None` on overflow or a zero divisor.
pub fn checked_wad_div(a: i128, b: i128) -> (r: Option<i128>)
    ensures
        r == (if wad_div_ok(a as int, b as int) {
            Some(wad_div_spec(a as int, b as int) as i128)
        } else {
            None
        }),
        r matches Some(v) ==> v == wad_div_spec(a as int, b as int),
{
    if b == 0 {
        return None;
    }
    match a.checked_mul(WAD) {
        Some(scaled) => {
            let half = b / 2;
            match scaled.checked_add(half) {
                Some(_) => Some(wad_div(a, b)),
                None => None,
            }
        },
        None => None,
    }
}

/// Apply a WAD-scaled percentage: result = value * percent / WAD.
///
/// Example: `wad_percent(1000, 5 * WAD / 100)` → 50 (5% of 1000)
pub fn wad_percent(value: i128, percent_wad: i128) -> (r: i128)
    requires
        wad_mul_ok(value as int, percent_wad as int),
    ensures
        r == wad_mul_spec(value as int, percent_wad as int),
{
    wad_mul(value, percent_wad)
}

/// Utilization: borrowed / supplied as a WAD fraction; 0 when nothing is supplied.
pub open spec fn utilization_spec(total_borrowed: int, total_supplied: int) -> int {
    if total_supplied == 0 {
        0
    } else {
        wad_div_spec(total_borrowed, total_supplied)
    }
}

/// Compute utilization: borrowed / supplied, as a WAD fraction.
///
/// Returns 0 when supplied == 0 to avoid division by zero.
pub fn utilization(total_borrowed: i128, total_supplied: i128) -> (r: i128)
    requires
        total_supplied != 0 ==> wad_div_ok(total_borrowed as int, total_supplied as int),
    ensures
        r == utilization_spec(total_borrowed as int, total_supplied as int),
{
    if total_supplied == 0 {
        return 0;
    }
    wad_div(total_borrowed, total_supplied)
}

/// Convert a real token amount to a scaled share: amount * WAD / index.
pub fn to_scaled(amount: i128, index: i128) -> (r: i128)
    requires
        wad_div_ok(amount as int, index as int),
    ensures
        r == wad_div_spec(amount as int, index as int),
{
    wad_div(amount, index)
}

/// Convert scaled shares back to a real token amount: scaled * index / WAD.
pub fn from_scaled(scaled: i128, index: i128) -> (r: i128)
    requires
        wad_mul_ok(scaled as int, index as int),
    ensures
        r == wad_mul_spec(scaled as int, index as int),
{
    wad_mul(scaled, index)
}

pub proof fn lemma_pow10_positive(n: nat)
    ensures
        pow10_spec(n) >= 1,
    decreases n,
{
    if n > 0 {
        lemma_pow10_positive((n - 1) as nat);
    }
}

pub proof fn lemma_pow10_monotone(m: nat, n: nat)
    requires
        m <= n,
    ensures
        pow10_spec(m) <= pow10_spec(n),
    decreases n,
{
    if m < n {
        lemma_pow10_monotone(m, (n - 1) as nat);
        lemma_pow10_positive((n - 1) as nat);
    }
}

/// 10^38 is the largest power of ten below `i128::MAX`.
pub proof fn lemma_pow10_38()
    ensures
        pow10_spec(38) == 100_000_000_000_000_000_000_000_000_000_000_000_000int,
        pow10_spec(18) == WAD,
{
    reveal_with_fuel(pow10_spec, 39);
}

/// The exponent `pow10` uses: `n`, capped at 18.
pub open spec fn capped_exp(n: nat) -> nat {
    if n <= 18 { n } else { 18 }
}

/// Integer power of 10, capped at 10^18 to stay within i128.
pub fn pow10(exp: u32) -> (r: i128)
    ensures
        r == pow10_spec(capped_exp(exp as nat)),
{
    let n: u32 = if exp <= 18 { exp } else { 18 };
    let mut result: i128 = 1;
    let mut i: u32 = 0;
    while i < n
        invariant
            i <= n <= 18,
            result == pow10_spec(i as nat),
        decreases n - i,
    {
        proof {
            lemma_pow10_monotone((i + 1) as nat, 18);
            lemma_pow10_38();
            assert(pow10_spec((i + 1) as nat) == 10 * pow10_spec(i as nat));
            lemma_pow10_positive(i as nat);
        }
        result = result * 10;
        i = i + 1;
    }
    result
}

/// Price with `decimals` decimal places, rescaled to 18 decimal places; the
/// divisor for more than 18 decimals is capped at 10^18.
pub open spec fn normalise_to_wad_spec(price: int, decimals: nat) -> int {
    if decimals < 18 {
        price * pow10_spec((18 - decimals) as nat)
    } else if decimals > 18 {
        tdiv(price, pow10_spec(capped_exp((decimals - 18) as nat)))
    } else {
        price
    }
}

/// `normalise_to_wad` does not overflow.
pub open spec fn normalise_ok(price: int, decimals: nat) -> bool {
    decimals < 18 ==> fits(price * pow10_spec((18 - decimals) as nat))
}

/// Normalise a price that has `decimals` decimal places to WAD (1e18).
///
/// If decimals == 7 (Stellar native), multiplies by 1e11.
/// If decimals == 18, returns price unchanged.
pub fn normalise_to_wad(price: i128, decimals: u32) -> (r: i128)
    requires
        normalise_ok(price as int, decimals as nat),
    ensures
        r == normalise_to_wad_spec(price as int, decimals as nat),
{
    if decimals < 18 {
        let factor = pow10(18 - decimals);
        price * factor
    } else if decimals > 18 {
        let factor = pow10(decimals - 18);
        proof {
            lemma_pow10_positive(capped_exp((decimals - 18) as nat));
        }
        div_trunc(price, factor)
    } else {
        price
    }
}

/// Whether `normalise_to_wad(price, decimals)` can be computed without overflow.
pub fn normalise_in_range(price: i128, decimals: u32) -> (b: bool)
    ensures
        b == normalise_ok(price as int, decimals as nat),
{
    if decimals < 18 {
        let factor = pow10(18 - decimals);
        price.checked_mul(factor).is_some()
    } else {
        true
    }
}

/// HF = wad_div(wad_mul(collateral_value, threshold), debt_value); `i128::MAX` without debt.
pub open spec fn health_factor_spec(
    collateral_value: int,
    liquidation_threshold: int,
    debt_value: int,
) -> int {
    if debt_value == 0 {
        i128::MAX as int
    } else {
        wad_div_spec(wad_mul_spec(collateral_value, liquidation_threshold), debt_value)
    }
}

/// `health_factor` does not overflow on these inputs.
pub open spec fn health_factor_ok(
    collateral_value: int,
    liquidation_threshold: int,
    debt_value: int,
) -> bool {
    debt_value != 0 ==> {
        &&& wad_mul_ok(collateral_value, liquidation_threshold)
        &&& wad_div_ok(wad_mul_spec(collateral_value, liquidation_threshold), debt_value)
    }
}

/// Compute the health factor as a WAD-scaled value.
///
/// HF = (collateral_value * liquidation_threshold) / debt_value
///
/// Returns i128::MAX when debt == 0 (position is perfectly healthy).
pub fn health_factor(collateral_value: i128, liquidation_threshold: i128, debt_value: i128) -> (r:
    i128)
    requires
        health_factor_ok(collateral_value as int, liquidation_threshold as int, debt_value as int),
    ensures
        r == health_factor_spec(
            collateral_value as int,
            liquidation_threshold as int,
            debt_value as int,
        ),
{
    if debt_value == 0 {
        return i128::MAX;
    }
    wad_div(wad_mul(collateral_value, liquidation_threshold), debt_value)
}

/// Returns true when the health factor indicates a liquidatable position (HF < WAD).
pub fn is_liquidatable(hf: i128) -> (r: bool)
    ensures
        r == (hf < WAD),
{
    hf < WAD
}

/// `a * b / c`, rounded toward zero.
pub fn mul_div_down(a: i128, b: i128, c: i128) -> (r: i128)
    requires
        c > 0,
        fits(a * b),
    ensures
        r == mul_div_down_spec(a as int, b as int, c as int),
{
    a * b / c
}

/// `(a * b + c - 1) / c`: `a * b / c` rounded up for non-negative products.
pub fn mul_div_up(a: i128, b: i128, c: i128) -> (r: i128)
    requires
        c > 0,
        fits(a * b + c - 1),
        fits(a * b),
    ensures
        r == mul_div_up_spec(a as int, b as int, c as int),
{
    (a * b + (c - 1)) / c
}

/// Shares → assets with virtual amounts, rounded down:
/// `shares * (total_assets + 1) / (total_shares + VIRTUAL_SHARES)`.
pub fn to_assets_down(shares: i128, total_assets: i128, total_shares: i128) -> (r: i128)
    requires
        total_assets >= 0,
        total_shares >= 0,
        fits(total_assets + VIRTUAL_ASSETS),
        fits(total_shares + VIRTUAL_SHARES),
        fits(shares * (total_assets + VIRTUAL_ASSETS)),
    ensures
        r == mul_div_down_spec(
            shares as int,
            total_assets + VIRTUAL_ASSETS,
            total_shares + VIRTUAL_SHARES,
        ),
{
    mul_div_down(shares, total_assets + VIRTUAL_ASSETS, total_shares + VIRTUAL_SHARES)
}

/// Assets → shares with virtual amounts, rounded up:
/// `ceil(assets * (total_shares + VIRTUAL_SHARES) / (total_assets + 1))`.
pub fn to_shares_up(assets: i128, total_assets: i128, total_shares: i128) -> (r: i128)
    requires
        total_assets >= 0,
        total_shares >= 0,
        fits(total_assets + VIRTUAL_ASSETS),
        fits(total_shares + VIRTUAL_SHARES),
        fits(assets * (total_shares + VIRTUAL_SHARES)),
        fits(assets * (total_shares + VIRTUAL_SHARES) + total_assets + VIRTUAL_ASSETS - 1),
    ensures
        r == mul_div_up_spec(
            assets as int,
            total_shares + VIRTUAL_SHARES,
            total_assets + VIRTUAL_ASSETS,
        ),
{
    mul_div_up(assets, total_shares + VIRTUAL_SHARES, total_assets + VIRTUAL_ASSETS)
}


/// Floor-division facts for a non-negative dividend and a positive divisor.
proof fn lemma_floor_div(x: int, d: int)
    requires
        x >= 0,
        d > 0,
    ensures
        tdiv(x, d) == x / d,
        (x / d) * d <= x,
        x < (x / d) * d + d,
        x / d >= 0,
{
    lemma_tdiv_pos_bounds(x, d);
}

/// WAD multiplication is commutative.
pub proof fn law_wad_mul_commutative(a: int, b: int)
    ensures
        wad_mul_spec(a, b) == wad_mul_spec(b, a),
{
    lemma_mul_is_commutative(a, b);
}

/// WAD is the unit of WAD multiplication and division for non-negative values.
pub proof fn law_wad_identity(a: int)
    requires
        a >= 0,
    ensures
        wad_mul_spec(a, WAD as int) == a,
        wad_div_spec(a, WAD as int) == a,
{
    let x = a * WAD + HALF_WAD;
    assert(x == a * WAD + HALF_WAD);
    lemma_floor_div(x, WAD as int);
    assert(tdiv(WAD as int, 2) == HALF_WAD) by {
        lemma_floor_div(WAD as int, 2);
    }
    assert(x / (WAD as int) == a) by (nonlinear_arith)
        requires
            x == a * 1_000_000_000_000_000_000 + 500_000_000_000_000_000,
            (x / 1_000_000_000_000_000_000) * 1_000_000_000_000_000_000 <= x,
            x < (x / 1_000_000_000_000_000_000) * 1_000_000_000_000_000_000
                + 1_000_000_000_000_000_000,
    ;
}

/// Utilization of a pool that lends no more than it holds lies in [0, WAD].
pub proof fn law_utilization_bounded(total_borrowed: int, total_supplied: int)
    requires
        0 <= total_borrowed <= total_supplied,
        total_supplied > 0,
    ensures
        0 <= utilization_spec(total_borrowed, total_supplied) <= WAD,
{
    let s = total_supplied;
    let b = total_borrowed;
    lemma_floor_div(s, 2);
    let x = b * WAD + s / 2;
    assert(0 <= b * WAD <= s * WAD) by (nonlinear_arith)
        requires
            0 <= b <= s,
    ;
    lemma_floor_div(x, s);
    let q = x / s;
    assert(q <= WAD) by (nonlinear_arith)
        requires
            q * s <= x,
            x == b * 1_000_000_000_000_000_000 + s / 2,
            b * 1_000_000_000_000_000_000 <= s * 1_000_000_000_000_000_000,
            s / 2 < s,
            s > 0,
    ;
}

/// Scaling an amount by an index and back loses at most `(index + WAD) / (2 WAD)`
/// units; for indexes below three WAD that is at most one unit.
pub proof fn law_scaled_roundtrip(amount: int, index: int)
    requires
        amount >= 0,
        index > 0,
    ensures
        ({
            let r = wad_mul_spec(wad_div_spec(amount, index), index);
            &&& 2 * WAD * (r - amount) <= index + WAD
            &&& 2 * WAD * (amount - r) <= index + WAD
            &&& index < 3 * WAD ==> -1 <= r - amount <= 1
        }),
{
    let i = index;
    let a = amount;
    lemma_floor_div(i, 2);
    let h = i / 2;
    let x = a * WAD + h;
    assert(a * WAD >= 0) by (nonlinear_arith)
        requires
            a >= 0,
    ;
    lemma_floor_div(x, i);
    let s = x / i;
    assert(wad_div_spec(a, i) == s);
    assert(s * i >= 0) by (nonlinear_arith)
        requires
            s >= 0,
            i > 0,
    ;
    let y = s * i + HALF_WAD;
    lemma_floor_div(y, WAD as int);
    let r = y / (WAD as int);
    assert(wad_mul_spec(s, i) == r);
    assert(2 * WAD * (r - a) <= i + WAD) by (nonlinear_arith)
        requires
            r * 1_000_000_000_000_000_000 <= y,
            y == s * i + 500_000_000_000_000_000,
            s * i <= x,
            x == a * 1_000_000_000_000_000_000 + h,
            2 * h <= i,
    ;
    assert(2 * WAD * (a - r) <= i + WAD) by (nonlinear_arith)
        requires
            y < r * 1_000_000_000_000_000_000 + 1_000_000_000_000_000_000,
            y == s * i + 500_000_000_000_000_000,
            x < s * i + i,
            x == a * 1_000_000_000_000_000_000 + h,
            i < 2 * h + 2,
    ;
    if i < 3 * WAD {
        assert(-1 <= r - a <= 1) by (nonlinear_arith)
            requires
                2 * 1_000_000_000_000_000_000 * (r - a) <= i + 1_000_000_000_000_000_000,
                2 * 1_000_000_000_000_000_000 * (a - r) <= i + 1_000_000_000_000_000_000,
                i < 3 * 1_000_000_000_000_000_000,
        ;
    }
}

/// Scaled shares shrink as the index grows: for a non-negative amount, a larger
/// index never gives more scaled shares.
pub proof fn law_scaled_shrinks(amount: int, i1: int, i2: int)
    requires
        amount >= 0,
        0 < i1 <= i2,
    ensures
        0 <= wad_div_spec(amount, i2) <= wad_div_spec(amount, i1),
{
    lemma_floor_div(i1, 2);
    lemma_floor_div(i2, 2);
    let h1 = i1 / 2;
    let h2 = i2 / 2;
    assert(amount * WAD >= 0) by (nonlinear_arith)
        requires
            amount >= 0,
    ;
    let n1 = amount * WAD + h1;
    let n2 = amount * WAD + h2;
    lemma_floor_div(n1, i1);
    lemma_floor_div(n2, i2);
    let f1 = n1 / i1;
    let f2 = n2 / i2;
    assert(f2 <= f1) by (nonlinear_arith)
        requires
            f2 * i2 <= n2,
            n1 < f1 * i1 + i1,
            n2 - n1 == h2 - h1,
            2 * h2 <= i2,
            i1 < 2 * h1 + 2,
            f1 >= 0,
            0 < i1 <= i2,
    ;
}

/// Rounding up never gives less than rounding down, and at most one unit more.
pub proof fn law_mul_div_rounding(a: int, b: int, c: int)
    requires
        a * b >= 0,
        c > 0,
    ensures
        mul_div_down_spec(a, b, c) <= mul_div_up_spec(a, b, c) <= mul_div_down_spec(a, b, c) + 1,
        mul_div_down_spec(a, b, c) * c <= a * b <= mul_div_up_spec(a, b, c) * c,
{
    let p = a * b;
    lemma_floor_div(p, c);
    lemma_floor_div(p + c - 1, c);
    let d = p / c;
    let u = (p + c - 1) / c;
    assert(d <= u <= d + 1 && u * c >= p) by (nonlinear_arith)
        requires
            d * c <= p,
            p < d * c + c,
            u * c <= p + c - 1,
            p + c - 1 < u * c + c,
            c > 0,
    ;
}


/// WAD multiplication by a non-negative factor is monotone and keeps signs.
pub proof fn lemma_wad_mul_monotone(s: int, x1: int, x2: int)
    requires
        s >= 0,
        0 <= x1 <= x2,
    ensures
        0 <= wad_mul_spec(s, x1) <= wad_mul_spec(s, x2),
{
    assert(0 <= s * x1 <= s * x2) by (nonlinear_arith)
        requires
            s >= 0,
            0 <= x1 <= x2,
    ;
    lemma_floor_div(s * x1 + HALF_WAD, WAD as int);
    lemma_floor_div(s * x2 + HALF_WAD, WAD as int);
    lemma_div_is_ordered(s * x1 + HALF_WAD, s * x2 + HALF_WAD, WAD as int);
}

/// Scaling a non-negative value by a WAD fraction in [0, WAD] never enlarges it.
pub proof fn lemma_wad_mul_fraction(s: int, x: int)
    requires
        s >= 0,
        0 <= x <= WAD,
    ensures
        0 <= wad_mul_spec(s, x) <= s,
{
    lemma_wad_mul_monotone(s, x, WAD as int);
    law_wad_identity(s);
}

/// WAD division by a positive divisor is monotone in the dividend.
pub proof fn lemma_wad_div_monotone(x1: int, x2: int, d: int)
    requires
        d > 0,
        0 <= x1 <= x2,
    ensures
        0 <= wad_div_spec(x1, d) <= wad_div_spec(x2, d),
{
    lemma_floor_div(d, 2);
    assert(0 <= x1 * WAD <= x2 * WAD) by (nonlinear_arith)
        requires
            0 <= x1 <= x2,
    ;
    lemma_floor_div(x1 * WAD + d / 2, d);
    lemma_floor_div(x2 * WAD + d / 2, d);
    lemma_div_is_ordered(x1 * WAD + d / 2, x2 * WAD + d / 2, d);
}

} // verus!
