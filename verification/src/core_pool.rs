//! Legacy shared pool with Aave-style index accounting.
//!
//! Each asset market keeps a supply and a borrow index (WAD, starting at 1e18);
//! accounts hold scaled balances, and `real = scaled * index / WAD`.
//!
//! An operation on one asset works on that market's config and state and on the
//! account's entries for that asset (an `AccountSlot`). Health checks fold over
//! one `HealthRow` per listed market: its stored state and config, its oracle
//! price, and the account's entries for it.
use vstd::prelude::*;
use crate::ids::Addr;
use crate::math::{
    checked_wad_div, checked_wad_mul, fits, from_scaled, health_factor_ok, health_factor_spec, tdiv,
    to_scaled, wad_div_ok,
    wad_div_spec, wad_mul, wad_mul_ok, wad_mul_spec, WAD,
};
use crate::rate_model::RateSnapshot;

verus! {

pub const SECONDS_PER_YEAR: i128 = 31_536_000;

pub const MAX_LIQUIDATION_BONUS: i128 = 500_000_000_000_000_000;

/// Risk and cap parameters of one asset market.
#[derive(Clone, Copy, Debug, PartialEq, Eq, Structural)]
pub struct MarketConfig {
    pub asset: Addr,
    pub ltv: i128,
    pub liquidation_threshold: i128,
    pub liquidation_bonus: i128,
    pub reserve_factor: i128,
    pub supply_cap: i128,
    pub borrow_cap: i128,
    pub is_active: bool,
    pub is_borrowable: bool,
}

/// Live indexes and scaled totals of one asset market.
#[derive(Clone, Copy, Debug, PartialEq, Eq, Structural)]
pub struct MarketState {
    pub supply_index: i128,
    pub borrow_index: i128,
    pub total_scaled_supply: i128,
    pub total_scaled_borrow: i128,
    pub protocol_reserves: i128,
    pub last_update_timestamp: u64,
}

/// An account's stored entries for one asset; `None` where the account's map
/// holds no entry (read as 0 / false).
#[derive(Clone, Copy, Debug, PartialEq, Eq, Structural)]
pub struct AccountSlot {
    pub scaled_supply: Option<i128>,
    pub scaled_borrow: Option<i128>,
    pub collateral_enabled: Option<bool>,
}

/// What a health check reads for one listed market.
#[derive(Clone, Copy, Debug, PartialEq, Eq, Structural)]
pub struct HealthRow {
    pub asset: Addr,
    pub state: Option<MarketState>,
    pub config: Option<MarketConfig>,
    pub price: i128,
    pub slot: AccountSlot,
}

#[derive(Clone, Copy, Debug, PartialEq, Eq, Structural)]
pub enum PoolError {
    AlreadyInitialized,
    NotInitialized,
    Unauthorized,
    Paused,
    MarketNotFound,
    MarketAlreadyExists,
    MarketInactive,
    BorrowingDisabled,
    SupplyCapExceeded,
    BorrowCapExceeded,
    InvalidAmount,
    InsufficientLiquidity,
    InsufficientCollateral,
    HealthFactorTooLow,
    HealthFactorOk,
    CollateralNotEnabled,
    OracleCallFailed,
    InvariantViolation,
}

pub open spec fn supplied(slot: AccountSlot) -> int {
    match slot.scaled_supply {
        Some(v) => v as int,
        None => 0,
    }
}

pub open spec fn borrowed(slot: AccountSlot) -> int {
    match slot.scaled_borrow {
        Some(v) => v as int,
        None => 0,
    }
}

pub open spec fn enabled(slot: AccountSlot) -> bool {
    match slot.collateral_enabled {
        Some(v) => v,
        None => false,
    }
}

/// The entries of an account with nothing stored.
pub open spec fn empty_slot() -> AccountSlot {
    AccountSlot { scaled_supply: None, scaled_borrow: None, collateral_enabled: None }
}

/// Risk parameters are in range: 0 < ltv < threshold < WAD, bonus within half a
/// WAD, reserve factor in [0, WAD), caps non-negative.
pub open spec fn market_config_valid(c: MarketConfig) -> bool {
    !(c.ltv <= 0 || c.ltv >= WAD || c.liquidation_threshold <= c.ltv || c.liquidation_threshold
        >= WAD || c.liquidation_bonus < 0 || c.liquidation_bonus > MAX_LIQUIDATION_BONUS
        || c.reserve_factor < 0 || c.reserve_factor >= WAD || c.supply_cap < 0 || c.borrow_cap < 0)
}

/// Indexes never below WAD; scaled totals and reserves never negative.
pub open spec fn market_state_wf(s: MarketState) -> bool {
    &&& s.supply_index >= WAD
    &&& s.borrow_index >= WAD
    &&& s.total_scaled_supply >= 0
    &&& s.total_scaled_borrow >= 0
    &&& s.protocol_reserves >= 0
}

pub open spec fn total_supply_spec(s: MarketState) -> int {
    wad_mul_spec(s.total_scaled_supply as int, s.supply_index as int)
}

pub open spec fn total_borrow_spec(s: MarketState) -> int {
    wad_mul_spec(s.total_scaled_borrow as int, s.borrow_index as int)
}

/// Accrual at `now` consults the rate model.
pub open spec fn accrual_needs_rates(s: MarketState, now: u64) -> bool {
    now > s.last_update_timestamp && total_supply_spec(s) != 0 && total_borrow_spec(s) != 0
}

/// The market state after accruing interest up to `now` (simple interest on
/// annual rates converted to per-second rates).
pub open spec fn accrued(c: MarketConfig, s: MarketState, now: u64, rates: Option<RateSnapshot>) -> MarketState {
    if now <= s.last_update_timestamp {
        s
    } else if !accrual_needs_rates(s, now) {
        MarketState { last_update_timestamp: now, ..s }
    } else {
        let dt = now - s.last_update_timestamp;
        let r = rates->0;
        let bg = WAD + tdiv(r.borrow_rate as int, SECONDS_PER_YEAR as int) * dt;
        let sg = WAD + tdiv(r.supply_rate as int, SECONDS_PER_YEAR as int) * dt;
        let nbi = wad_mul_spec(s.borrow_index as int, bg);
        let nsi = wad_mul_spec(s.supply_index as int, sg);
        let interest = wad_mul_spec(s.total_scaled_borrow as int, nbi - s.borrow_index);
        MarketState {
            protocol_reserves: (s.protocol_reserves + wad_mul_spec(
                interest,
                c.reserve_factor as int,
            )) as i128,
            borrow_index: nbi as i128,
            supply_index: nsi as i128,
            last_update_timestamp: now,
            ..s
        }
    }
}

/// Accrual up to `now` has what it needs and does not overflow.
pub open spec fn accrue_ok(c: MarketConfig, s: MarketState, now: u64, rates: Option<RateSnapshot>) -> bool {
    &&& now > s.last_update_timestamp ==> {
        &&& wad_mul_ok(s.total_scaled_supply as int, s.supply_index as int)
        &&& wad_mul_ok(s.total_scaled_borrow as int, s.borrow_index as int)
    }
    &&& accrual_needs_rates(s, now) ==> {
        let dt = now - s.last_update_timestamp;
        let r = rates->0;
        let bq = tdiv(r.borrow_rate as int, SECONDS_PER_YEAR as int);
        let sq = tdiv(r.supply_rate as int, SECONDS_PER_YEAR as int);
        let bg = WAD + bq * dt;
        let sg = WAD + sq * dt;
        let nbi = wad_mul_spec(s.borrow_index as int, bg);
        let nsi = wad_mul_spec(s.supply_index as int, sg);
        let interest = wad_mul_spec(s.total_scaled_borrow as int, nbi - s.borrow_index);
        &&& rates is Some
        &&& fits(bq * dt)
        &&& fits(sq * dt)
        &&& fits(bg)
        &&& fits(sg)
        &&& wad_mul_ok(s.borrow_index as int, bg)
        &&& wad_mul_ok(s.supply_index as int, sg)
        &&& fits(nbi - s.borrow_index)
        &&& wad_mul_ok(s.total_scaled_borrow as int, nbi - s.borrow_index)
        &&& wad_mul_ok(interest, c.reserve_factor as int)
        &&& fits(s.protocol_reserves + wad_mul_spec(interest, c.reserve_factor as int))
    }
}

/// Collateral weight of one row: `value * liquidation_threshold`, where
/// `value = real_supply * price`.
pub open spec fn row_weight(row: HealthRow) -> int {
    let st = row.state->0;
    wad_mul_spec(
        wad_mul_spec(
            wad_mul_spec(supplied(row.slot), st.supply_index as int),
            row.price as int,
        ),
        row.config->0.liquidation_threshold as int,
    )
}

/// Debt value of one row: `real_debt * price`.
pub open spec fn row_debt(row: HealthRow) -> int {
    let st = row.state->0;
    wad_mul_spec(wad_mul_spec(borrowed(row.slot), st.borrow_index as int), row.price as int)
}

/// Sums of weighted collateral and debt value over the rows, or the first
/// missing market.
pub open spec fn health_terms(rows: Seq<HealthRow>) -> Result<(int, int), PoolError>
    decreases rows.len(),
{
    if rows.len() == 0 {
        Ok((0, 0))
    } else {
        match health_terms(rows.drop_last()) {
            Err(e) => Err(e),
            Ok((w, d)) => {
                let row = rows.last();
                if row.state is None {
                    Err(PoolError::MarketNotFound)
                } else if enabled(row.slot) && row.config is None {
                    Err(PoolError::MarketNotFound)
                } else {
                    let w2 = if enabled(row.slot) { w + row_weight(row) } else { w };
                    let d2 = if borrowed(row.slot) > 0 { d + row_debt(row) } else { d };
                    Ok((w2, d2))
                }
            },
        }
    }
}

/// No step of the health fold overflows.
pub open spec fn health_terms_ok(rows: Seq<HealthRow>) -> bool
    decreases rows.len(),
{
    if rows.len() == 0 {
        true
    } else {
        &&& health_terms_ok(rows.drop_last())
        &&& match health_terms(rows.drop_last()) {
            Err(_) => true,
            Ok((w, d)) => {
                let row = rows.last();
                let st = row.state->0;
                row.state is Some && !(enabled(row.slot) && row.config is None) ==> {
                    &&& enabled(row.slot) ==> {
                        let amount = wad_mul_spec(supplied(row.slot), st.supply_index as int);
                        let value = wad_mul_spec(amount, row.price as int);
                        &&& wad_mul_ok(supplied(row.slot), st.supply_index as int)
                        &&& wad_mul_ok(amount, row.price as int)
                        &&& wad_mul_ok(value, row.config->0.liquidation_threshold as int)
                        &&& fits(w + row_weight(row))
                    }
                    &&& borrowed(row.slot) > 0 ==> {
                        let amount = wad_mul_spec(borrowed(row.slot), st.borrow_index as int);
                        &&& wad_mul_ok(borrowed(row.slot), st.borrow_index as int)
                        &&& wad_mul_ok(amount, row.price as int)
                        &&& fits(d + row_debt(row))
                    }
                }
            },
        }
    }
}

/// The account's health factor over the rows.
pub open spec fn account_health_spec(rows: Seq<HealthRow>) -> Result<int, PoolError> {
    match health_terms(rows) {
        Err(e) => Err(e),
        Ok((w, d)) => Ok(health_factor_spec(w, WAD as int, d)),
    }
}

pub open spec fn account_health_ok(rows: Seq<HealthRow>) -> bool {
    &&& health_terms_ok(rows)
    &&& health_terms(rows) matches Ok((w, d)) ==> health_factor_ok(w, WAD as int, d)
}

/// The rows as they read once the account's entries for `asset` are `slot` and
/// that market's state is `state`.
pub open spec fn patch_row(row: HealthRow, asset: Addr, slot: AccountSlot, state: Option<MarketState>) -> HealthRow {
    if row.asset == asset {
        HealthRow { slot, state: if state is Some { state } else { row.state }, ..row }
    } else {
        row
    }
}

pub open spec fn patched(rows: Seq<HealthRow>, asset: Addr, slot: AccountSlot, state: Option<MarketState>) -> Seq<HealthRow> {
    rows.map_values(|row: HealthRow| patch_row(row, asset, slot, state))
}

/// Rows with the account's entries for `asset` replaced, and that market's state
/// too when one is given.
pub fn patch_rows(rows: &Vec<HealthRow>, asset: Addr, slot: AccountSlot, state: Option<MarketState>) -> (r: Vec<HealthRow>)
    ensures
        r@ == patched(rows@, asset, slot, state),
{
    let mut out: Vec<HealthRow> = Vec::new();
    let mut i: usize = 0;
    while i < rows.len()
        invariant
            i <= rows.len(),
            out@ == patched(rows@.take(i as int), asset, slot, state),
        decreases rows.len() - i,
    {
        let row = rows[i];
        let next = if row.asset == asset {
            HealthRow {
                slot,
                state: match state {
                    Some(st) => Some(st),
                    None => row.state,
                },
                ..row
            }
        } else {
            row
        };
        out.push(next);
        proof {
            assert(rows@.take(i + 1) =~= rows@.take(i as int).push(row));
            assert(patched(rows@.take(i + 1), asset, slot, state) =~= patched(
                rows@.take(i as int),
                asset,
                slot,
                state,
            ).push(next));
        }
        i = i + 1;
    }
    proof {
        assert(rows@.take(rows.len() as int) =~= rows@);
    }
    out
}

/// Health factor of an account over the rows (WAD), `i128::MAX` without debt.
pub fn account_health(rows: &Vec<HealthRow>) -> (r: Result<i128, PoolError>)
    requires
        account_health_ok(rows@),
    ensures
        match account_health_spec(rows@) {
            Ok(h) => r is Ok && r->Ok_0 == h,
            Err(e) => r == Err::<i128, _>(e),
        },
{
    let mut weighted: i128 = 0;
    let mut debt_value: i128 = 0;
    let mut i: usize = 0;
    proof {
        lemma_health_ok_prefix(rows@, 0);
    }
    while i < rows.len()
        invariant
            i <= rows.len(),
            account_health_ok(rows@),
            health_terms_ok(rows@.take(i as int)),
            forall|j: int| i <= j <= rows.len() ==> health_terms_ok(#[trigger] rows@.take(j)),
            health_terms(rows@.take(i as int)) == Ok::<(int, int), PoolError>(
                (weighted as int, debt_value as int),
            ),
        decreases rows.len() - i,
    {
        let row = rows[i];
        proof {
            assert(rows@.take(i + 1).drop_last() =~= rows@.take(i as int));
            assert(rows@.take(i + 1).last() == row);
        }
        let state = match row.state {
            Some(s) => s,
            None => {
                proof {
                    lemma_health_err_extends(rows@, i as int + 1);
                }
                return Err(PoolError::MarketNotFound);
            },
        };
        let on = match row.slot.collateral_enabled {
            Some(b) => b,
            None => false,
        };
        if on {
            let config = match row.config {
                Some(c) => c,
                None => {
                    proof {
                        lemma_health_err_extends(rows@, i as int + 1);
                    }
                    return Err(PoolError::MarketNotFound);
                },
            };
            let scaled = match row.slot.scaled_supply {
                Some(v) => v,
                None => 0,
            };
            let amount = from_scaled(scaled, state.supply_index);
            let value = wad_mul(amount, row.price);
            weighted = weighted + wad_mul(value, config.liquidation_threshold);
        }
        let scaled_debt = match row.slot.scaled_borrow {
            Some(v) => v,
            None => 0,
        };
        if scaled_debt > 0 {
            let amount = from_scaled(scaled_debt, state.borrow_index);
            debt_value = debt_value + wad_mul(amount, row.price);
        }
        i = i + 1;
    }
    proof {
        assert(rows@.take(rows.len() as int) =~= rows@);
    }
    Ok(crate::math::health_factor(weighted, WAD, debt_value))
}

/// Every prefix of a fold that is free of overflow is free of overflow.
proof fn lemma_health_ok_prefix(rows: Seq<HealthRow>, k: int)
    requires
        0 <= k <= rows.len(),
        health_terms_ok(rows),
    ensures
        forall|j: int| k <= j <= rows.len() ==> health_terms_ok(#[trigger] rows.take(j)),
    decreases rows.len(),
{
    assert forall|j: int| k <= j <= rows.len() implies health_terms_ok(#[trigger] rows.take(j)) by {
        lemma_health_ok_take(rows, j);
    }
}

proof fn lemma_health_ok_take(rows: Seq<HealthRow>, j: int)
    requires
        0 <= j <= rows.len(),
        health_terms_ok(rows),
    ensures
        health_terms_ok(rows.take(j)),
    decreases rows.len(),
{
    if j == rows.len() {
        assert(rows.take(j) =~= rows);
    } else {
        assert(rows.drop_last().take(j) =~= rows.take(j));
        lemma_health_ok_take(rows.drop_last(), j);
    }
}

/// Once the fold fails on a prefix, it fails on the whole sequence with the same error.
proof fn lemma_health_err_extends(rows: Seq<HealthRow>, k: int)
    requires
        0 <= k <= rows.len(),
        health_terms(rows.take(k)) is Err,
    ensures
        health_terms(rows) == health_terms(rows.take(k)),
    decreases rows.len() - k,
{
    if k == rows.len() {
        assert(rows.take(k) =~= rows);
    } else {
        assert(rows.take(k + 1).drop_last() =~= rows.take(k));
        assert(health_terms(rows.take(k + 1)) == health_terms(rows.take(k)));
        lemma_health_err_extends(rows, k + 1);
    }
}

/// A freshly registered market: both indexes at WAD, nothing supplied or borrowed.
pub open spec fn initial_state(now: u64) -> MarketState {
    MarketState {
        supply_index: WAD,
        borrow_index: WAD,
        total_scaled_supply: 0,
        total_scaled_borrow: 0,
        protocol_reserves: 0,
        last_update_timestamp: now,
    }
}

/// The error an inactive or missing market raises, if any.
pub open spec fn active_error(config: Option<MarketConfig>) -> Option<PoolError> {
    match config {
        None => Some(PoolError::MarketNotFound),
        Some(c) => if !c.is_active {
            Some(PoolError::MarketInactive)
        } else {
            None
        },
    }
}

/// Outcome of supplying `amount`: new market state, new account entries, and the
/// scaled amount credited.
pub open spec fn supply_outcome(
    c: MarketConfig,
    s: MarketState,
    slot: AccountSlot,
    amount: int,
    now: u64,
    rates: Option<RateSnapshot>,
) -> Result<(MarketState, AccountSlot, int), PoolError> {
    let s1 = accrued(c, s, now, rates);
    let scaled = wad_div_spec(amount, s1.supply_index as int);
    if c.supply_cap > 0 && total_supply_spec(s1) + amount > c.supply_cap {
        Err(PoolError::SupplyCapExceeded)
    } else if scaled <= 0 {
        Err(PoolError::InvalidAmount)
    } else {
        Ok(
            (
                MarketState {
                    total_scaled_supply: (s1.total_scaled_supply + scaled) as i128,
                    ..s1
                },
                AccountSlot {
                    scaled_supply: Some((supplied(slot) + scaled) as i128),
                    collateral_enabled: Some(true),
                    ..slot
                },
                scaled,
            ),
        )
    }
}

pub open spec fn supply_ok(
    c: MarketConfig,
    s: MarketState,
    slot: AccountSlot,
    amount: int,
    now: u64,
    rates: Option<RateSnapshot>,
) -> bool {
    let s1 = accrued(c, s, now, rates);
    let ts = total_supply_spec(s1);
    let scaled = wad_div_spec(amount, s1.supply_index as int);
    &&& accrue_ok(c, s, now, rates)
    &&& wad_mul_ok(s1.total_scaled_supply as int, s1.supply_index as int)
    &&& c.supply_cap > 0 ==> fits(ts + amount)
    &&& !(c.supply_cap > 0 && ts + amount > c.supply_cap) ==> {
        &&& wad_div_ok(amount, s1.supply_index as int)
        &&& scaled > 0 ==> fits(supplied(slot) + scaled) && fits(s1.total_scaled_supply + scaled)
    }
}

/// Outcome of withdrawing `amount`; the health check reads `rows`.
pub open spec fn withdraw_outcome(
    c: MarketConfig,
    s: MarketState,
    slot: AccountSlot,
    amount: int,
    now: u64,
    rates: Option<RateSnapshot>,
    rows: Seq<HealthRow>,
) -> Result<(MarketState, AccountSlot, int), PoolError> {
    let s1 = accrued(c, s, now, rates);
    let burn = wad_div_spec(amount, s1.supply_index as int);
    let slot2 = AccountSlot { scaled_supply: Some((supplied(slot) - burn) as i128), ..slot };
    if burn <= 0 || supplied(slot) < burn {
        Err(PoolError::InvalidAmount)
    } else if amount > total_supply_spec(s1) - total_borrow_spec(s1) {
        Err(PoolError::InsufficientLiquidity)
    } else if enabled(slot) && account_health_spec(patched(rows, c.asset, slot2, Some(s1))) is Err {
        Err(account_health_spec(patched(rows, c.asset, slot2, Some(s1)))->Err_0)
    } else if enabled(slot) && account_health_spec(patched(rows, c.asset, slot2, Some(s1)))->Ok_0
        < WAD {
        Err(PoolError::HealthFactorTooLow)
    } else {
        Ok(
            (
                MarketState { total_scaled_supply: (s1.total_scaled_supply - burn) as i128, ..s1 },
                slot2,
                burn,
            ),
        )
    }
}

pub open spec fn withdraw_ok(
    c: MarketConfig,
    s: MarketState,
    slot: AccountSlot,
    amount: int,
    now: u64,
    rates: Option<RateSnapshot>,
    rows: Seq<HealthRow>,
) -> bool {
    let s1 = accrued(c, s, now, rates);
    let burn = wad_div_spec(amount, s1.supply_index as int);
    let slot2 = AccountSlot { scaled_supply: Some((supplied(slot) - burn) as i128), ..slot };
    let ts = total_supply_spec(s1);
    let tb = total_borrow_spec(s1);
    &&& accrue_ok(c, s, now, rates)
    &&& wad_div_ok(amount, s1.supply_index as int)
    &&& !(burn <= 0 || supplied(slot) < burn) ==> {
        &&& wad_mul_ok(s1.total_scaled_supply as int, s1.supply_index as int)
        &&& wad_mul_ok(s1.total_scaled_borrow as int, s1.borrow_index as int)
        &&& fits(ts - tb)
        &&& !(amount > ts - tb) ==> {
            &&& fits(s1.total_scaled_supply - burn)
            &&& enabled(slot) ==> account_health_ok(patched(rows, c.asset, slot2, Some(s1)))
        }
    }
}

/// Outcome of borrowing `amount`; the health check reads `rows`.
pub open spec fn borrow_outcome(
    c: MarketConfig,
    s: MarketState,
    slot: AccountSlot,
    amount: int,
    now: u64,
    rates: Option<RateSnapshot>,
    rows: Seq<HealthRow>,
) -> Result<(MarketState, AccountSlot, int), PoolError> {
    let s1 = accrued(c, s, now, rates);
    let ts = total_supply_spec(s1);
    let tb = total_borrow_spec(s1);
    let debt = wad_div_spec(amount, s1.borrow_index as int);
    let slot2 = AccountSlot { scaled_borrow: Some((borrowed(slot) + debt) as i128), ..slot };
    let hf = account_health_spec(patched(rows, c.asset, slot2, Some(s1)));
    if c.borrow_cap > 0 && tb + amount > c.borrow_cap {
        Err(PoolError::BorrowCapExceeded)
    } else if amount > ts - tb {
        Err(PoolError::InsufficientLiquidity)
    } else if debt <= 0 {
        Err(PoolError::InvalidAmount)
    } else if hf is Err {
        Err(hf->Err_0)
    } else if hf->Ok_0 < WAD {
        Err(PoolError::HealthFactorTooLow)
    } else {
        Ok(
            (
                MarketState { total_scaled_borrow: (s1.total_scaled_borrow + debt) as i128, ..s1 },
                slot2,
                debt,
            ),
        )
    }
}

pub open spec fn borrow_ok(
    c: MarketConfig,
    s: MarketState,
    slot: AccountSlot,
    amount: int,
    now: u64,
    rates: Option<RateSnapshot>,
    rows: Seq<HealthRow>,
) -> bool {
    let s1 = accrued(c, s, now, rates);
    let ts = total_supply_spec(s1);
    let tb = total_borrow_spec(s1);
    let debt = wad_div_spec(amount, s1.borrow_index as int);
    let slot2 = AccountSlot { scaled_borrow: Some((borrowed(slot) + debt) as i128), ..slot };
    let hf = account_health_spec(patched(rows, c.asset, slot2, Some(s1)));
    &&& accrue_ok(c, s, now, rates)
    &&& wad_mul_ok(s1.total_scaled_supply as int, s1.supply_index as int)
    &&& wad_mul_ok(s1.total_scaled_borrow as int, s1.borrow_index as int)
    &&& c.borrow_cap > 0 ==> fits(tb + amount)
    &&& !(c.borrow_cap > 0 && tb + amount > c.borrow_cap) ==> {
        &&& fits(ts - tb)
        &&& !(amount > ts - tb) ==> {
            &&& wad_div_ok(amount, s1.borrow_index as int)
            &&& debt > 0 ==> {
                &&& fits(borrowed(slot) + debt)
                &&& account_health_ok(patched(rows, c.asset, slot2, Some(s1)))
                &&& (hf matches Ok(h) && h >= WAD) ==> fits(s1.total_scaled_borrow + debt)
            }
        }
    }
}

/// Outcome of repaying up to `amount`: the repayment is capped at the outstanding
/// debt, and the scaled amount burned at the scaled debt. Returns the amount
/// actually repaid, 0 when there was no debt.
pub open spec fn repay_outcome(
    c: MarketConfig,
    s: MarketState,
    slot: AccountSlot,
    amount: int,
    now: u64,
    rates: Option<RateSnapshot>,
) -> (MarketState, AccountSlot, int) {
    let s1 = accrued(c, s, now, rates);
    let scaled_debt = borrowed(slot);
    let real_debt = wad_mul_spec(scaled_debt, s1.borrow_index as int);
    let actual = if amount > real_debt { real_debt } else { amount };
    let burn0 = wad_div_spec(actual, s1.borrow_index as int);
    let burn = if burn0 > scaled_debt { scaled_debt } else { burn0 };
    if real_debt == 0 {
        (s1, slot, 0)
    } else {
        (
            MarketState { total_scaled_borrow: (s1.total_scaled_borrow - burn) as i128, ..s1 },
            AccountSlot { scaled_borrow: Some((scaled_debt - burn) as i128), ..slot },
            actual,
        )
    }
}

pub open spec fn repay_ok(
    c: MarketConfig,
    s: MarketState,
    slot: AccountSlot,
    amount: int,
    now: u64,
    rates: Option<RateSnapshot>,
) -> bool {
    let s1 = accrued(c, s, now, rates);
    let scaled_debt = borrowed(slot);
    let real_debt = wad_mul_spec(scaled_debt, s1.borrow_index as int);
    let actual = if amount > real_debt { real_debt } else { amount };
    let burn0 = wad_div_spec(actual, s1.borrow_index as int);
    let burn = if burn0 > scaled_debt { scaled_debt } else { burn0 };
    &&& accrue_ok(c, s, now, rates)
    &&& wad_mul_ok(scaled_debt, s1.borrow_index as int)
    &&& real_debt != 0 ==> {
        &&& wad_div_ok(actual, s1.borrow_index as int)
        &&& fits(scaled_debt - burn)
        &&& fits(s1.total_scaled_borrow - burn)
    }
}

/// The pool's instance-level stored values.
pub struct CorePoolContract {
    pub initialized: bool,
    pub paused: bool,
    pub admin: Option<Addr>,
    pub oracle_adapter: Option<Addr>,
    pub rate_model: Option<Addr>,
    pub treasury: Option<Addr>,
}

impl CorePoolContract {
    pub open spec fn wf(&self) -> bool {
        self.initialized ==> {
            &&& self.admin is Some
            &&& self.oracle_adapter is Some
            &&& self.rate_model is Some
            &&& self.treasury is Some
        }
    }

    /// The error raised for user operations on an uninitialised or paused pool.
    pub open spec fn live_error(&self) -> Option<PoolError> {
        if !self.initialized {
            Some(PoolError::NotInitialized)
        } else if self.paused {
            Some(PoolError::Paused)
        } else {
            None
        }
    }

    /// Nothing stored yet.
    pub fn fresh() -> (r: Self)
        ensures
            !r.initialized && !r.paused && r.admin is None && r.oracle_adapter is None
                && r.rate_model is None && r.treasury is None,
            r.wf(),
    {
        CorePoolContract {
            initialized: false,
            paused: false,
            admin: None,
            oracle_adapter: None,
            rate_model: None,
            treasury: None,
        }
    }

    /// Configure the pool once, unpaused.
    pub fn initialize(&mut self, admin: Addr, oracle_adapter: Addr, rate_model: Addr, treasury: Addr) -> (r: Result<(), PoolError>)
        requires
            old(self).wf(),
        ensures
            final(self).wf(),
            old(self).initialized ==> r == Err::<(), _>(PoolError::AlreadyInitialized)
                && *final(self) == *old(self),
            !old(self).initialized ==> r is Ok && *final(self) == (CorePoolContract {
                initialized: true,
                paused: false,
                admin: Some(admin),
                oracle_adapter: Some(oracle_adapter),
                rate_model: Some(rate_model),
                treasury: Some(treasury),
            }),
    {
        if self.initialized {
            return Err(PoolError::AlreadyInitialized);
        }
        self.admin = Some(admin);
        self.oracle_adapter = Some(oracle_adapter);
        self.rate_model = Some(rate_model);
        self.treasury = Some(treasury);
        self.paused = false;
        self.initialized = true;
        Ok(())
    }

    /// Admin operations need an initialised, unpaused pool (the admin authorises).
    pub fn guard_admin_live(&self) -> (r: Result<(), PoolError>)
        ensures
            r == (match self.live_error() {
                Some(e) => Err(e),
                None => Ok(()),
            }),
    {
        self.guard_user_live()
    }

    /// User operations need an initialised, unpaused pool.
    pub fn guard_user_live(&self) -> (r: Result<(), PoolError>)
        ensures
            r == (match self.live_error() {
                Some(e) => Err(e),
                None => Ok(()),
            }),
    {
        if !self.initialized {
            return Err(PoolError::NotInitialized);
        }
        if self.paused {
            return Err(PoolError::Paused);
        }
        Ok(())
    }

    /// Check a market's risk parameters.
    pub fn validate_market_config(config: &MarketConfig) -> (r: Result<(), PoolError>)
        ensures
            r == (if market_config_valid(*config) {
                Ok(())
            } else {
                Err(PoolError::InvalidAmount)
            }),
    {
        if config.ltv <= 0 || config.ltv >= WAD || config.liquidation_threshold <= config.ltv
            || config.liquidation_threshold >= WAD || config.liquidation_bonus < 0
            || config.liquidation_bonus > MAX_LIQUIDATION_BONUS || config.reserve_factor < 0
            || config.reserve_factor >= WAD || config.supply_cap < 0 || config.borrow_cap < 0 {
            return Err(PoolError::InvalidAmount);
        }
        Ok(())
    }

    /// Register a new asset market; returns its initial state.
    pub fn add_market(&self, config: &MarketConfig, existing: Option<MarketConfig>, now: u64) -> (r: Result<MarketState, PoolError>)
        ensures
            r == (if self.live_error() is Some {
                Err(self.live_error()->0)
            } else if existing is Some {
                Err(PoolError::MarketAlreadyExists)
            } else if !market_config_valid(*config) {
                Err(PoolError::InvalidAmount)
            } else {
                Ok(initial_state(now))
            }),
    {
        self.guard_admin_live()?;
        if existing.is_some() {
            return Err(PoolError::MarketAlreadyExists);
        }
        Self::validate_market_config(config)?;
        Ok(
            MarketState {
                supply_index: WAD,
                borrow_index: WAD,
                total_scaled_supply: 0,
                total_scaled_borrow: 0,
                protocol_reserves: 0,
                last_update_timestamp: now,
            },
        )
    }

    /// Whether an existing market's risk parameters may be replaced by `config`.
    pub fn update_market_config(&self, config: &MarketConfig, existing: Option<MarketConfig>) -> (r: Result<(), PoolError>)
        ensures
            r == (if self.live_error() is Some {
                Err(self.live_error()->0)
            } else if existing is None {
                Err(PoolError::MarketNotFound)
            } else if !market_config_valid(*config) {
                Err(PoolError::InvalidAmount)
            } else {
                Ok(())
            }),
    {
        self.guard_admin_live()?;
        if existing.is_none() {
            return Err(PoolError::MarketNotFound);
        }
        Self::validate_market_config(config)
    }

    /// The market's config, if it exists and is active.
    pub fn require_active_market(config: Option<MarketConfig>) -> (r: Result<MarketConfig, PoolError>)
        ensures
            r == (match active_error(config) {
                Some(e) => Err(e),
                None => Ok(config->0),
            }),
    {
        let c = match config {
            Some(c) => c,
            None => return Err(PoolError::MarketNotFound),
        };
        if !c.is_active {
            return Err(PoolError::MarketInactive);
        }
        Ok(c)
    }

    /// Whether accruing the market up to `now` consults the rate model.
    pub fn needs_rates(state: Option<MarketState>, now: u64) -> (b: bool)
        requires
            state is Some && now > state->0.last_update_timestamp ==> wad_mul_ok(
                state->0.total_scaled_supply as int,
                state->0.supply_index as int,
            ) && wad_mul_ok(state->0.total_scaled_borrow as int, state->0.borrow_index as int),
        ensures
            b == (state is Some && accrual_needs_rates(state->0, now)),
    {
        match state {
            Some(s) => {
                if now <= s.last_update_timestamp {
                    false
                } else {
                    from_scaled(s.total_scaled_supply, s.supply_index) != 0 && from_scaled(
                        s.total_scaled_borrow,
                        s.borrow_index,
                    ) != 0
                }
            },
            None => false,
        }
    }

    /// Accrue one market's interest up to `now`.
    pub fn accrue_interest(
        config: Option<MarketConfig>,
        state: &mut Option<MarketState>,
        now: u64,
        rates: Option<RateSnapshot>,
    ) -> (r: Result<(), PoolError>)
        requires
            config is Some && old(state).is_some() ==> accrue_ok(config->0, old(state).unwrap(), now, rates),
        ensures
            config is None || old(state).is_none() ==> r == Err::<(), _>(PoolError::MarketNotFound)
                && *final(state) == *old(state),
            config is Some && old(state).is_some() ==> r is Ok && *final(state) == Some(
                accrued(config->0, old(state).unwrap(), now, rates),
            ),
    {
        let config = match config {
            Some(c) => c,
            None => return Err(PoolError::MarketNotFound),
        };
        let mut s = match *state {
            Some(s) => s,
            None => return Err(PoolError::MarketNotFound),
        };
        if now <= s.last_update_timestamp {
            return Ok(());
        }
        let delta_t = (now - s.last_update_timestamp) as i128;
        let total_supply = from_scaled(s.total_scaled_supply, s.supply_index);
        let total_borrow = from_scaled(s.total_scaled_borrow, s.borrow_index);
        if total_supply == 0 || total_borrow == 0 {
            s.last_update_timestamp = now;
            *state = Some(s);
            return Ok(());
        }
        let rates = rates.unwrap();
        let borrow_growth = WAD + (rates.borrow_rate / SECONDS_PER_YEAR) * delta_t;
        let supply_growth = WAD + (rates.supply_rate / SECONDS_PER_YEAR) * delta_t;
        let new_borrow_index = wad_mul(s.borrow_index, borrow_growth);
        let new_supply_index = wad_mul(s.supply_index, supply_growth);
        let interest_accrued = wad_mul(s.total_scaled_borrow, new_borrow_index - s.borrow_index);
        s.protocol_reserves = s.protocol_reserves + wad_mul(interest_accrued, config.reserve_factor);
        s.borrow_index = new_borrow_index;
        s.supply_index = new_supply_index;
        s.last_update_timestamp = now;
        *state = Some(s);
        Ok(())
    }
}


/// What `supply` does, from the pool's flags and the stored values it reads.
pub open spec fn supply_result(
    pool: CorePoolContract,
    config: Option<MarketConfig>,
    state: Option<MarketState>,
    slot: AccountSlot,
    amount: int,
    now: u64,
    rates: Option<RateSnapshot>,
) -> Result<(MarketState, AccountSlot, int), PoolError> {
    if pool.live_error() is Some {
        Err(pool.live_error()->0)
    } else if amount <= 0 {
        Err(PoolError::InvalidAmount)
    } else if active_error(config) is Some {
        Err(active_error(config)->0)
    } else if state is None {
        Err(PoolError::MarketNotFound)
    } else {
        supply_outcome(config->0, state->0, slot, amount, now, rates)
    }
}

/// Once `supply` reaches its arithmetic, none of it overflows.
pub open spec fn supply_pre(
    pool: CorePoolContract,
    config: Option<MarketConfig>,
    state: Option<MarketState>,
    slot: AccountSlot,
    amount: int,
    now: u64,
    rates: Option<RateSnapshot>,
) -> bool {
    pool.live_error() is None && amount > 0 && active_error(config) is None && state is Some
        ==> supply_ok(config->0, state->0, slot, amount, now, rates)
}

impl CorePoolContract {
    /// Supply `amount` of an asset: accrue, check the cap, credit scaled supply
    /// and enable the asset as collateral. Returns the scaled amount credited.
    pub fn supply(
        &self,
        config: Option<MarketConfig>,
        state: &mut Option<MarketState>,
        slot: &mut AccountSlot,
        amount: i128,
        now: u64,
        rates: Option<RateSnapshot>,
    ) -> (r: Result<i128, PoolError>)
        requires
            supply_pre(*self, config, *old(state), *old(slot), amount as int, now, rates),
        ensures
            match supply_result(*self, config, *old(state), *old(slot), amount as int, now, rates) {
                Ok((s2, slot2, scaled)) => r == Ok::<i128, PoolError>(scaled as i128)
                    && *final(state) == Some(s2) && *final(slot) == slot2,
                Err(e) => r == Err::<i128, PoolError>(e) && *final(state) == *old(state)
                    && *final(slot) == *old(slot),
            },
    {
        self.guard_user_live()?;
        if amount <= 0 {
            return Err(PoolError::InvalidAmount);
        }
        let c = Self::require_active_market(config)?;
        let mut st = *state;
        Self::accrue_interest(Some(c), &mut st, now, rates)?;
        let mut s = match st {
            Some(s) => s,
            None => return Err(PoolError::MarketNotFound),
        };
        let total_supply = from_scaled(s.total_scaled_supply, s.supply_index);
        if c.supply_cap > 0 && total_supply + amount > c.supply_cap {
            return Err(PoolError::SupplyCapExceeded);
        }
        let scaled_amount = to_scaled(amount, s.supply_index);
        if scaled_amount <= 0 {
            return Err(PoolError::InvalidAmount);
        }
        let current = match slot.scaled_supply {
            Some(v) => v,
            None => 0,
        };
        slot.scaled_supply = Some(current + scaled_amount);
        slot.collateral_enabled = Some(true);
        s.total_scaled_supply = s.total_scaled_supply + scaled_amount;
        *state = Some(s);
        Ok(scaled_amount)
    }
}


/// What `withdraw` does. `has_account` says whether the account has any stored
/// entries at all.
pub open spec fn withdraw_result(
    pool: CorePoolContract,
    config: Option<MarketConfig>,
    state: Option<MarketState>,
    has_account: bool,
    slot: AccountSlot,
    amount: int,
    now: u64,
    rates: Option<RateSnapshot>,
    rows: Seq<HealthRow>,
) -> Result<(MarketState, AccountSlot, int), PoolError> {
    if pool.live_error() is Some {
        Err(pool.live_error()->0)
    } else if amount <= 0 {
        Err(PoolError::InvalidAmount)
    } else if config is None || state is None {
        Err(PoolError::MarketNotFound)
    } else if !has_account {
        Err(PoolError::InvalidAmount)
    } else {
        withdraw_outcome(config->0, state->0, slot, amount, now, rates, rows)
    }
}

pub open spec fn withdraw_pre(
    pool: CorePoolContract,
    config: Option<MarketConfig>,
    state: Option<MarketState>,
    has_account: bool,
    slot: AccountSlot,
    amount: int,
    now: u64,
    rates: Option<RateSnapshot>,
    rows: Seq<HealthRow>,
) -> bool {
    pool.live_error() is None && amount > 0 && config is Some && state is Some ==> {
        &&& accrue_ok(config->0, state->0, now, rates)
        &&& has_account ==> withdraw_ok(config->0, state->0, slot, amount, now, rates, rows)
    }
}

/// What `borrow` does.
pub open spec fn borrow_result(
    pool: CorePoolContract,
    config: Option<MarketConfig>,
    state: Option<MarketState>,
    slot: AccountSlot,
    amount: int,
    now: u64,
    rates: Option<RateSnapshot>,
    rows: Seq<HealthRow>,
) -> Result<(MarketState, AccountSlot, int), PoolError> {
    if pool.live_error() is Some {
        Err(pool.live_error()->0)
    } else if amount <= 0 {
        Err(PoolError::InvalidAmount)
    } else if active_error(config) is Some {
        Err(active_error(config)->0)
    } else if !config->0.is_borrowable {
        Err(PoolError::BorrowingDisabled)
    } else if state is None {
        Err(PoolError::MarketNotFound)
    } else {
        borrow_outcome(config->0, state->0, slot, amount, now, rates, rows)
    }
}

pub open spec fn borrow_pre(
    pool: CorePoolContract,
    config: Option<MarketConfig>,
    state: Option<MarketState>,
    slot: AccountSlot,
    amount: int,
    now: u64,
    rates: Option<RateSnapshot>,
    rows: Seq<HealthRow>,
) -> bool {
    pool.live_error() is None && amount > 0 && active_error(config) is None
        && config->0.is_borrowable && state is Some ==> borrow_ok(
        config->0,
        state->0,
        slot,
        amount,
        now,
        rates,
        rows,
    )
}

/// What `repay` does.
pub open spec fn repay_result(
    pool: CorePoolContract,
    config: Option<MarketConfig>,
    state: Option<MarketState>,
    has_account: bool,
    slot: AccountSlot,
    amount: int,
    now: u64,
    rates: Option<RateSnapshot>,
) -> Result<(MarketState, AccountSlot, int), PoolError> {
    if pool.live_error() is Some {
        Err(pool.live_error()->0)
    } else if amount <= 0 {
        Err(PoolError::InvalidAmount)
    } else if config is None || state is None {
        Err(PoolError::MarketNotFound)
    } else if !has_account {
        Err(PoolError::InvalidAmount)
    } else {
        Ok(repay_outcome(config->0, state->0, slot, amount, now, rates))
    }
}

pub open spec fn repay_pre(
    pool: CorePoolContract,
    config: Option<MarketConfig>,
    state: Option<MarketState>,
    has_account: bool,
    slot: AccountSlot,
    amount: int,
    now: u64,
    rates: Option<RateSnapshot>,
) -> bool {
    pool.live_error() is None && amount > 0 && config is Some && state is Some ==> {
        &&& accrue_ok(config->0, state->0, now, rates)
        &&& has_account ==> repay_ok(config->0, state->0, slot, amount, now, rates)
    }
}

/// Whether the stored values of one market break the accounting invariants.
pub open spec fn market_invariants_result(config: Option<MarketConfig>, state: Option<MarketState>) -> Result<(), PoolError> {
    if config is None {
        Err(PoolError::MarketNotFound)
    } else if !market_config_valid(config->0) {
        Err(PoolError::InvalidAmount)
    } else if state is None {
        Err(PoolError::MarketNotFound)
    } else if !market_state_wf(state->0) {
        Err(PoolError::InvariantViolation)
    } else if total_borrow_spec(state->0) > total_supply_spec(state->0) {
        Err(PoolError::InvariantViolation)
    } else {
        Ok(())
    }
}

impl CorePoolContract {
    /// Withdraw `amount`: accrue, burn scaled supply, and refuse if the account's
    /// health would drop below 1 while the asset backs its debt. Returns the
    /// scaled amount burned.
    pub fn withdraw(
        &self,
        config: Option<MarketConfig>,
        state: &mut Option<MarketState>,
        has_account: bool,
        slot: &mut AccountSlot,
        amount: i128,
        now: u64,
        rates: Option<RateSnapshot>,
        rows: &Vec<HealthRow>,
    ) -> (r: Result<i128, PoolError>)
        requires
            withdraw_pre(
                *self,
                config,
                *old(state),
                has_account,
                *old(slot),
                amount as int,
                now,
                rates,
                rows@,
            ),
        ensures
            match withdraw_result(
                *self,
                config,
                *old(state),
                has_account,
                *old(slot),
                amount as int,
                now,
                rates,
                rows@,
            ) {
                Ok((s2, slot2, burned)) => r == Ok::<i128, PoolError>(burned as i128)
                    && *final(state) == Some(s2) && *final(slot) == slot2,
                Err(e) => r == Err::<i128, PoolError>(e) && *final(state) == *old(state)
                    && *final(slot) == *old(slot),
            },
    {
        self.guard_user_live()?;
        if amount <= 0 {
            return Err(PoolError::InvalidAmount);
        }
        let c = match config {
            Some(c) => c,
            None => return Err(PoolError::MarketNotFound),
        };
        let mut st = *state;
        Self::accrue_interest(Some(c), &mut st, now, rates)?;
        let mut s = match st {
            Some(s) => s,
            None => return Err(PoolError::MarketNotFound),
        };
        if !has_account {
            return Err(PoolError::InvalidAmount);
        }
        let scaled_to_burn = to_scaled(amount, s.supply_index);
        let user_scaled = match slot.scaled_supply {
            Some(v) => v,
            None => 0,
        };
        if scaled_to_burn <= 0 || user_scaled < scaled_to_burn {
            return Err(PoolError::InvalidAmount);
        }
        let total_supply = from_scaled(s.total_scaled_supply, s.supply_index);
        let total_borrow = from_scaled(s.total_scaled_borrow, s.borrow_index);
        if amount > total_supply - total_borrow {
            return Err(PoolError::InsufficientLiquidity);
        }
        let new_slot = AccountSlot { scaled_supply: Some(user_scaled - scaled_to_burn), ..*slot };
        let on = match slot.collateral_enabled {
            Some(b) => b,
            None => false,
        };
        if on {
            let projected = patch_rows(rows, c.asset, new_slot, Some(s));
            let hf = account_health(&projected)?;
            if hf < WAD {
                return Err(PoolError::HealthFactorTooLow);
            }
        }
        s.total_scaled_supply = s.total_scaled_supply - scaled_to_burn;
        *slot = new_slot;
        *state = Some(s);
        Ok(scaled_to_burn)
    }

    /// Borrow `amount` against the account's collateral. Returns the scaled debt
    /// added.
    pub fn borrow(
        &self,
        config: Option<MarketConfig>,
        state: &mut Option<MarketState>,
        slot: &mut AccountSlot,
        amount: i128,
        now: u64,
        rates: Option<RateSnapshot>,
        rows: &Vec<HealthRow>,
    ) -> (r: Result<i128, PoolError>)
        requires
            borrow_pre(*self, config, *old(state), *old(slot), amount as int, now, rates, rows@),
        ensures
            match borrow_result(
                *self,
                config,
                *old(state),
                *old(slot),
                amount as int,
                now,
                rates,
                rows@,
            ) {
                Ok((s2, slot2, debt)) => r == Ok::<i128, PoolError>(debt as i128)
                    && *final(state) == Some(s2) && *final(slot) == slot2,
                Err(e) => r == Err::<i128, PoolError>(e) && *final(state) == *old(state)
                    && *final(slot) == *old(slot),
            },
    {
        self.guard_user_live()?;
        if amount <= 0 {
            return Err(PoolError::InvalidAmount);
        }
        let c = Self::require_active_market(config)?;
        if !c.is_borrowable {
            return Err(PoolError::BorrowingDisabled);
        }
        let mut st = *state;
        Self::accrue_interest(Some(c), &mut st, now, rates)?;
        let mut s = match st {
            Some(s) => s,
            None => return Err(PoolError::MarketNotFound),
        };
        let total_supply = from_scaled(s.total_scaled_supply, s.supply_index);
        let total_borrow = from_scaled(s.total_scaled_borrow, s.borrow_index);
        if c.borrow_cap > 0 && total_borrow + amount > c.borrow_cap {
            return Err(PoolError::BorrowCapExceeded);
        }
        if amount > total_supply - total_borrow {
            return Err(PoolError::InsufficientLiquidity);
        }
        let scaled_debt = to_scaled(amount, s.borrow_index);
        if scaled_debt <= 0 {
            return Err(PoolError::InvalidAmount);
        }
        let current = match slot.scaled_borrow {
            Some(v) => v,
            None => 0,
        };
        let new_slot = AccountSlot { scaled_borrow: Some(current + scaled_debt), ..*slot };
        let projected = patch_rows(rows, c.asset, new_slot, Some(s));
        let hf = account_health(&projected)?;
        if hf < WAD {
            return Err(PoolError::HealthFactorTooLow);
        }
        s.total_scaled_borrow = s.total_scaled_borrow + scaled_debt;
        *slot = new_slot;
        *state = Some(s);
        Ok(scaled_debt)
    }

    /// Repay up to `amount` of an account's debt (anyone may pay). Returns the
    /// amount actually repaid: at most the outstanding debt, 0 when there is none.
    pub fn repay(
        &self,
        config: Option<MarketConfig>,
        state: &mut Option<MarketState>,
        has_account: bool,
        slot: &mut AccountSlot,
        amount: i128,
        now: u64,
        rates: Option<RateSnapshot>,
    ) -> (r: Result<i128, PoolError>)
        requires
            repay_pre(*self, config, *old(state), has_account, *old(slot), amount as int, now, rates),
        ensures
            match repay_result(
                *self,
                config,
                *old(state),
                has_account,
                *old(slot),
                amount as int,
                now,
                rates,
            ) {
                Ok((s2, slot2, paid)) => r == Ok::<i128, PoolError>(paid as i128)
                    && *final(state) == Some(s2) && *final(slot) == slot2,
                Err(e) => r == Err::<i128, PoolError>(e) && *final(state) == *old(state)
                    && *final(slot) == *old(slot),
            },
    {
        self.guard_user_live()?;
        if amount <= 0 {
            return Err(PoolError::InvalidAmount);
        }
        let c = match config {
            Some(c) => c,
            None => return Err(PoolError::MarketNotFound),
        };
        let mut st = *state;
        Self::accrue_interest(Some(c), &mut st, now, rates)?;
        let mut s = match st {
            Some(s) => s,
            None => return Err(PoolError::MarketNotFound),
        };
        if !has_account {
            return Err(PoolError::InvalidAmount);
        }
        let scaled_debt = match slot.scaled_borrow {
            Some(v) => v,
            None => 0,
        };
        let real_debt = from_scaled(scaled_debt, s.borrow_index);
        if real_debt == 0 {
            *state = Some(s);
            return Ok(0);
        }
        let actual_repay = if amount > real_debt {
            real_debt
        } else {
            amount
        };
        let mut scaled_repay = to_scaled(actual_repay, s.borrow_index);
        if scaled_repay > scaled_debt {
            scaled_repay = scaled_debt;
        }
        slot.scaled_borrow = Some(scaled_debt - scaled_repay);
        s.total_scaled_borrow = s.total_scaled_borrow - scaled_repay;
        *state = Some(s);
        Ok(actual_repay)
    }

    /// Mark an active market's asset as collateral for the account.
    pub fn enable_collateral(&self, config: Option<MarketConfig>, slot: &mut AccountSlot) -> (r: Result<(), PoolError>)
        ensures
            r == (if self.live_error() is Some {
                Err(self.live_error()->0)
            } else if active_error(config) is Some {
                Err(active_error(config)->0)
            } else {
                Ok(())
            }),
            r is Ok ==> *final(slot) == (AccountSlot { collateral_enabled: Some(true), ..*old(slot) }),
            r is Err ==> *final(slot) == *old(slot),
    {
        self.guard_user_live()?;
        Self::require_active_market(config)?;
        slot.collateral_enabled = Some(true);
        Ok(())
    }

    /// Stop counting `asset` as collateral, unless that drops the account's health
    /// below 1.
    pub fn disable_collateral(&self, asset: Addr, slot: &mut AccountSlot, rows: &Vec<HealthRow>) -> (r: Result<(), PoolError>)
        requires
            self.live_error() is None ==> account_health_ok(
                patched(
                    rows@,
                    asset,
                    AccountSlot { collateral_enabled: Some(false), ..*old(slot) },
                    None,
                ),
            ),
        ensures
            ({
                let slot2 = AccountSlot { collateral_enabled: Some(false), ..*old(slot) };
                let hf = account_health_spec(patched(rows@, asset, slot2, None));
                &&& r == (if self.live_error() is Some {
                    Err(self.live_error()->0)
                } else if hf is Err {
                    Err(hf->Err_0)
                } else if hf->Ok_0 < WAD {
                    Err(PoolError::HealthFactorTooLow)
                } else {
                    Ok(())
                })
                &&& r is Ok ==> *final(slot) == slot2
                &&& r is Err ==> *final(slot) == *old(slot)
            }),
    {
        self.guard_user_live()?;
        let new_slot = AccountSlot { collateral_enabled: Some(false), ..*slot };
        let projected = patch_rows(rows, asset, new_slot, None);
        let hf = account_health(&projected)?;
        if hf < WAD {
            return Err(PoolError::HealthFactorTooLow);
        }
        *slot = new_slot;
        Ok(())
    }

    /// The account's live health factor (WAD); `i128::MAX` for an account with
    /// nothing stored or no debt.
    pub fn get_health_factor(has_account: bool, rows: &Vec<HealthRow>) -> (r: Result<i128, PoolError>)
        requires
            has_account ==> account_health_ok(rows@),
        ensures
            !has_account ==> r == Ok::<i128, PoolError>(i128::MAX),
            has_account ==> match account_health_spec(rows@) {
                Ok(h) => r is Ok && r->Ok_0 == h,
                Err(e) => r == Err::<i128, PoolError>(e),
            },
    {
        if !has_account {
            return Ok(i128::MAX);
        }
        account_health(rows)
    }

    /// The account's real supply balance in a market; 0 where nothing is stored.
    pub fn get_supply_balance(state: Option<MarketState>, slot: AccountSlot) -> (r: i128)
        requires
            state is Some ==> wad_mul_ok(supplied(slot), state->0.supply_index as int),
        ensures
            r == (match state {
                Some(s) => wad_mul_spec(supplied(slot), s.supply_index as int),
                None => 0,
            }),
    {
        let s = match state {
            Some(s) => s,
            None => return 0,
        };
        let scaled = match slot.scaled_supply {
            Some(v) => v,
            None => 0,
        };
        from_scaled(scaled, s.supply_index)
    }

    /// The account's real debt in a market; 0 where nothing is stored.
    pub fn get_borrow_balance(state: Option<MarketState>, slot: AccountSlot) -> (r: i128)
        requires
            state is Some ==> wad_mul_ok(borrowed(slot), state->0.borrow_index as int),
        ensures
            r == (match state {
                Some(s) => wad_mul_spec(borrowed(slot), s.borrow_index as int),
                None => 0,
            }),
    {
        let s = match state {
            Some(s) => s,
            None => return 0,
        };
        let scaled = match slot.scaled_borrow {
            Some(v) => v,
            None => 0,
        };
        from_scaled(scaled, s.borrow_index)
    }

    /// Check one market's stored config and state against the accounting
    /// invariants.
    pub fn assert_market_invariants(config: Option<MarketConfig>, state: Option<MarketState>) -> (r: Result<(), PoolError>)
        requires
            state is Some && market_state_wf(state->0) ==> wad_mul_ok(
                state->0.total_scaled_supply as int,
                state->0.supply_index as int,
            ) && wad_mul_ok(state->0.total_scaled_borrow as int, state->0.borrow_index as int),
        ensures
            r == market_invariants_result(config, state),
    {
        let c = match config {
            Some(c) => c,
            None => return Err(PoolError::MarketNotFound),
        };
        Self::validate_market_config(&c)?;
        let s = match state {
            Some(s) => s,
            None => return Err(PoolError::MarketNotFound),
        };
        if s.supply_index < WAD || s.borrow_index < WAD || s.total_scaled_supply < 0
            || s.total_scaled_borrow < 0 || s.protocol_reserves < 0 {
            return Err(PoolError::InvariantViolation);
        }
        let total_supply = from_scaled(s.total_scaled_supply, s.supply_index);
        let total_borrow = from_scaled(s.total_scaled_borrow, s.borrow_index);
        if total_borrow > total_supply {
            return Err(PoolError::InvariantViolation);
        }
        Ok(())
    }

    /// Pause user and admin market operations (the admin authorises).
    pub fn pause(&mut self) -> (r: Result<(), PoolError>)
        requires
            old(self).wf(),
        ensures
            final(self).wf(),
            !old(self).initialized ==> r == Err::<(), _>(PoolError::NotInitialized)
                && *final(self) == *old(self),
            old(self).initialized ==> r is Ok && *final(self) == (CorePoolContract {
                paused: true,
                ..*old(self)
            }),
    {
        if !self.initialized {
            return Err(PoolError::NotInitialized);
        }
        self.paused = true;
        Ok(())
    }

    /// Lift the pause (the admin authorises).
    pub fn unpause(&mut self) -> (r: Result<(), PoolError>)
        requires
            old(self).wf(),
        ensures
            final(self).wf(),
            !old(self).initialized ==> r == Err::<(), _>(PoolError::NotInitialized)
                && *final(self) == *old(self),
            old(self).initialized ==> r is Ok && *final(self) == (CorePoolContract {
                paused: false,
                ..*old(self)
            }),
    {
        if !self.initialized {
            return Err(PoolError::NotInitialized);
        }
        self.paused = false;
        Ok(())
    }

    /// Hand admin rights to `new_admin` (the current admin authorises).
    pub fn transfer_admin(&mut self, new_admin: Addr) -> (r: Result<(), PoolError>)
        requires
            old(self).wf(),
        ensures
            final(self).wf(),
            !old(self).initialized ==> r == Err::<(), _>(PoolError::NotInitialized)
                && *final(self) == *old(self),
            old(self).initialized ==> r is Ok && *final(self) == (CorePoolContract {
                admin: Some(new_admin),
                ..*old(self)
            }),
    {
        if !self.initialized {
            return Err(PoolError::NotInitialized);
        }
        self.admin = Some(new_admin);
        Ok(())
    }

    /// Whether the code may be upgraded (the admin authorises).
    pub fn upgrade(&self) -> (r: Result<(), PoolError>)
        ensures
            r == (if self.initialized {
                Ok(())
            } else {
                Err(PoolError::NotInitialized)
            }),
    {
        if !self.initialized {
            return Err(PoolError::NotInitialized);
        }
        Ok(())
    }
}

/// Add `asset` to the list of markets unless it is already there.
pub fn append_market(markets: &mut Vec<Addr>, asset: Addr)
    ensures
        old(markets)@.contains(asset) ==> final(markets)@ == old(markets)@,
        !old(markets)@.contains(asset) ==> final(markets)@ == old(markets)@.push(asset),
{
    crate::ids::push_unique(markets, asset);
}


/// The rate model's answer is never negative.
pub open spec fn rates_nonneg(rates: Option<RateSnapshot>) -> bool {
    rates matches Some(r) ==> r.borrow_rate >= 0 && r.supply_rate >= 0
}

/// Interest accrual on a well-formed market with non-negative rates and reserve
/// factor: both indexes and the protocol reserves never decrease, the state
/// stays well formed, the timestamp becomes the later of `now` and the last
/// update, and a market with nothing supplied or nothing borrowed keeps its
/// indexes.
pub proof fn law_pool_accrual_monotone(
    c: MarketConfig,
    s: MarketState,
    now: u64,
    rates: Option<RateSnapshot>,
)
    requires
        c.reserve_factor >= 0,
        market_state_wf(s),
        accrue_ok(c, s, now, rates),
        rates_nonneg(rates),
    ensures
        ({
            let a = accrued(c, s, now, rates);
            &&& a.supply_index >= s.supply_index
            &&& a.borrow_index >= s.borrow_index
            &&& a.protocol_reserves >= s.protocol_reserves
            &&& market_state_wf(a)
            &&& a.total_scaled_supply == s.total_scaled_supply
            &&& a.total_scaled_borrow == s.total_scaled_borrow
            &&& a.last_update_timestamp == if now > s.last_update_timestamp {
                now
            } else {
                s.last_update_timestamp
            }
            &&& (total_supply_spec(s) == 0 || total_borrow_spec(s) == 0) ==> a.supply_index
                == s.supply_index && a.borrow_index == s.borrow_index
        }),
{
    if accrual_needs_rates(s, now) {
        let dt: int = now - s.last_update_timestamp;
        let r = rates->0;
        let bq = tdiv(r.borrow_rate as int, SECONDS_PER_YEAR as int);
        let sq = tdiv(r.supply_rate as int, SECONDS_PER_YEAR as int);
        assert(bq >= 0 && sq >= 0);
        assert(bq * dt >= 0 && sq * dt >= 0) by (nonlinear_arith)
            requires
                bq >= 0,
                sq >= 0,
                dt >= 0,
        ;
        let bg = WAD + bq * dt;
        let sg = WAD + sq * dt;
        crate::math::lemma_wad_mul_monotone(s.borrow_index as int, WAD as int, bg);
        crate::math::lemma_wad_mul_monotone(s.supply_index as int, WAD as int, sg);
        crate::math::law_wad_identity(s.borrow_index as int);
        crate::math::law_wad_identity(s.supply_index as int);
        let nbi = wad_mul_spec(s.borrow_index as int, bg);
        crate::math::lemma_wad_mul_monotone(s.total_scaled_borrow as int, 0, nbi - s.borrow_index);
        let interest = wad_mul_spec(s.total_scaled_borrow as int, nbi - s.borrow_index);
        crate::math::lemma_wad_mul_monotone(interest, 0, c.reserve_factor as int);
    }
}

/// Accrual is idempotent within a ledger: accruing again at the same time needs
/// no rates, cannot overflow and changes nothing, whatever the rate model says.
pub proof fn law_pool_accrual_idempotent(
    c: MarketConfig,
    s: MarketState,
    now: u64,
    rates: Option<RateSnapshot>,
    again: Option<RateSnapshot>,
)
    ensures
        ({
            let a = accrued(c, s, now, rates);
            &&& !accrual_needs_rates(a, now)
            &&& accrue_ok(c, a, now, again)
            &&& accrued(c, a, now, again) == a
        }),
{
}

/// A borrow that succeeds credits the account and the market with the same
/// scaled debt, `to_scaled(amount, borrow_index)` at the accrued index, stays
/// within the cap and the available liquidity, and leaves the account's
/// projected health factor at 1 or above.
pub proof fn law_borrow_postconditions(
    pool: CorePoolContract,
    config: Option<MarketConfig>,
    state: Option<MarketState>,
    slot: AccountSlot,
    amount: int,
    now: u64,
    rates: Option<RateSnapshot>,
    rows: Seq<HealthRow>,
)
    requires
        borrow_pre(pool, config, state, slot, amount, now, rates, rows),
        borrow_result(pool, config, state, slot, amount, now, rates, rows) is Ok,
    ensures
        ({
            let c = config->0;
            let s1 = accrued(c, state->0, now, rates);
            let (s2, slot2, debt) = borrow_result(pool, config, state, slot, amount, now, rates, rows)->Ok_0;
            &&& c.is_active && c.is_borrowable && amount > 0
            &&& debt == wad_div_spec(amount, s1.borrow_index as int)
            &&& debt > 0
            &&& borrowed(slot2) == borrowed(slot) + debt
            &&& s2.total_scaled_borrow == s1.total_scaled_borrow + debt
            &&& s2.total_scaled_supply == s1.total_scaled_supply
            &&& s2.supply_index == s1.supply_index && s2.borrow_index == s1.borrow_index
            &&& c.borrow_cap > 0 ==> total_borrow_spec(s1) + amount <= c.borrow_cap
            &&& amount <= total_supply_spec(s1) - total_borrow_spec(s1)
            &&& account_health_spec(patched(rows, c.asset, slot2, Some(s1))) matches Ok(h) && h >= WAD
        }),
{
}

/// A repayment pays no more than was offered and no more than the outstanding
/// debt, and never drives the account's scaled debt or the market's total scaled
/// debt below zero (given that the account's debt is part of the total).
pub proof fn law_repay_bounds(
    pool: CorePoolContract,
    config: Option<MarketConfig>,
    state: Option<MarketState>,
    has_account: bool,
    slot: AccountSlot,
    amount: int,
    now: u64,
    rates: Option<RateSnapshot>,
)
    requires
        repay_pre(pool, config, state, has_account, slot, amount, now, rates),
        repay_result(pool, config, state, has_account, slot, amount, now, rates) is Ok,
        market_config_valid(config->0),
        market_state_wf(state->0),
        rates_nonneg(rates),
        0 <= borrowed(slot) <= state->0.total_scaled_borrow,
    ensures
        ({
            let s1 = accrued(config->0, state->0, now, rates);
            let (s2, slot2, paid) = repay_result(pool, config, state, has_account, slot, amount, now, rates)->Ok_0;
            &&& 0 <= paid <= amount
            &&& paid <= wad_mul_spec(borrowed(slot), s1.borrow_index as int)
            &&& 0 <= borrowed(slot2) <= borrowed(slot)
            &&& 0 <= s2.total_scaled_borrow <= s1.total_scaled_borrow
            &&& s1.total_scaled_borrow - s2.total_scaled_borrow == borrowed(slot) - borrowed(slot2)
        }),
{
    let c = config->0;
    let s = state->0;
    law_pool_accrual_monotone(c, s, now, rates);
    let s1 = accrued(c, s, now, rates);
    let scaled_debt = borrowed(slot);
    crate::math::lemma_wad_mul_monotone(scaled_debt, 0, s1.borrow_index as int);
    let real_debt = wad_mul_spec(scaled_debt, s1.borrow_index as int);
    if real_debt != 0 {
        let actual = if amount > real_debt { real_debt } else { amount };
        crate::math::lemma_wad_div_monotone(0, actual, s1.borrow_index as int);
    }
}

/// The health fold fails only for a missing market.
proof fn lemma_health_error_is_missing_market(rows: Seq<HealthRow>)
    ensures
        health_terms(rows) matches Err(e) ==> e == PoolError::MarketNotFound,
    decreases rows.len(),
{
    if rows.len() > 0 {
        lemma_health_error_is_missing_market(rows.drop_last());
    }
}


/// Supplying an amount and withdrawing the same amount at the same time burns
/// exactly the scaled amount the supply credited: the withdrawal is refused
/// only for want of liquidity or health, and when it succeeds the account's
/// scaled supply and the market's scaled total are back where they were.
pub proof fn law_supply_withdraw_round_trip(
    pool: CorePoolContract,
    config: Option<MarketConfig>,
    state: Option<MarketState>,
    slot: AccountSlot,
    amount: int,
    now: u64,
    rates: Option<RateSnapshot>,
    later_rates: Option<RateSnapshot>,
    rows: Seq<HealthRow>,
)
    requires
        supplied(slot) >= 0,
        supply_pre(pool, config, state, slot, amount, now, rates),
        supply_result(pool, config, state, slot, amount, now, rates) is Ok,
    ensures
        ({
            let s1 = accrued(config->0, state->0, now, rates);
            let (s2, slot2, scaled) = supply_result(pool, config, state, slot, amount, now, rates)->Ok_0;
            let w = withdraw_result(pool, config, Some(s2), true, slot2, amount, now, later_rates, rows);
            &&& w is Err ==> w->Err_0 == PoolError::InsufficientLiquidity || w->Err_0
                == PoolError::HealthFactorTooLow || w->Err_0 == PoolError::MarketNotFound
            &&& w matches Ok((s3, slot3, burned)) ==> {
                &&& burned == scaled
                &&& supplied(slot3) == supplied(slot)
                &&& s3.total_scaled_supply == s1.total_scaled_supply
                &&& s3.supply_index == s1.supply_index
                &&& s3.borrow_index == s1.borrow_index
            }
        }),
{
    let s1 = accrued(config->0, state->0, now, rates);
    let (s2, slot2, scaled) = supply_result(pool, config, state, slot, amount, now, rates)->Ok_0;
    let c = config->0;
    assert(accrued(c, s2, now, later_rates) == s2);
    assert(s2.supply_index == s1.supply_index);
    assert(scaled == wad_div_spec(amount, s1.supply_index as int));
    assert(scaled > 0);
    assert(supplied(slot2) == supplied(slot) + scaled);
    assert(s2.total_scaled_supply == s1.total_scaled_supply + scaled);
    let burn = wad_div_spec(amount, s2.supply_index as int);
    assert(burn == scaled);
    assert(!(burn <= 0 || supplied(slot2) < burn));
    let slot3 = AccountSlot { scaled_supply: Some((supplied(slot2) - burn) as i128), ..slot2 };
    lemma_health_error_is_missing_market(patched(rows, c.asset, slot3, Some(s2)));
}


/// Rows with every market present and no debt anywhere: nothing fails and the
/// debt sum is zero.
proof fn lemma_no_debt_health(rows: Seq<HealthRow>)
    requires
        forall|i: int|
            0 <= i < rows.len() ==> (#[trigger] rows[i]).state is Some && rows[i].config is Some
                && borrowed(rows[i].slot) <= 0,
    ensures
        health_terms(rows) matches Ok((w, d)) && d == 0,
    decreases rows.len(),
{
    if rows.len() > 0 {
        let init = rows.drop_last();
        assert forall|i: int| 0 <= i < init.len() implies (#[trigger] init[i]).state is Some
            && init[i].config is Some && borrowed(init[i].slot) <= 0 by {
            assert(init[i] == rows[i]);
        }
        lemma_no_debt_health(init);
        assert(rows.last() == rows[rows.len() - 1]);
    }
}

/// An account without debt that supplies an amount and withdraws the same
/// amount at the same time, from a market left with at least that much idle
/// liquidity and with every market of its health check present, gets the
/// withdrawal; its scaled supply, its supply balance and the market's scaled
/// total are back where they were before the supply.
pub proof fn law_supply_then_withdraw_succeeds(
    pool: CorePoolContract,
    config: Option<MarketConfig>,
    state: Option<MarketState>,
    slot: AccountSlot,
    amount: int,
    now: u64,
    rates: Option<RateSnapshot>,
    later_rates: Option<RateSnapshot>,
    rows: Seq<HealthRow>,
)
    requires
        supplied(slot) >= 0,
        borrowed(slot) <= 0,
        forall|i: int|
            0 <= i < rows.len() ==> (#[trigger] rows[i]).state is Some && rows[i].config is Some
                && borrowed(rows[i].slot) <= 0,
        supply_pre(pool, config, state, slot, amount, now, rates),
        supply_result(pool, config, state, slot, amount, now, rates) is Ok,
        ({
            let s2 = supply_result(pool, config, state, slot, amount, now, rates)->Ok_0.0;
            amount <= total_supply_spec(s2) - total_borrow_spec(s2)
        }),
    ensures
        ({
            let s1 = accrued(config->0, state->0, now, rates);
            let (s2, slot2, scaled) = supply_result(pool, config, state, slot, amount, now, rates)->Ok_0;
            let w = withdraw_result(pool, config, Some(s2), true, slot2, amount, now, later_rates, rows);
            &&& w is Ok
            &&& w->Ok_0.2 == scaled
            &&& supplied(w->Ok_0.1) == supplied(slot)
            &&& wad_mul_spec(supplied(w->Ok_0.1), w->Ok_0.0.supply_index as int) == wad_mul_spec(
                supplied(slot),
                s1.supply_index as int,
            )
            &&& w->Ok_0.0.total_scaled_supply == s1.total_scaled_supply
        }),
{
    law_supply_withdraw_round_trip(pool, config, state, slot, amount, now, rates, later_rates, rows);
    let c = config->0;
    let (s2, slot2, scaled) = supply_result(pool, config, state, slot, amount, now, rates)->Ok_0;
    assert(accrued(c, s2, now, later_rates) == s2);
    let slot3 = AccountSlot { scaled_supply: Some((supplied(slot2) - scaled) as i128), ..slot2 };
    let pr = patched(rows, c.asset, slot3, Some(s2));
    assert forall|i: int| 0 <= i < pr.len() implies (#[trigger] pr[i]).state is Some
        && pr[i].config is Some && borrowed(pr[i].slot) <= 0 by {
        assert(pr[i] == patch_row(rows[i], c.asset, slot3, Some(s2)));
    }
    lemma_no_debt_health(pr);
}

/// The value of an account's debt over the rows: each row's real debt at its
/// price, for every row that carries debt, collateral or not.
pub open spec fn debt_value_sum(rows: Seq<HealthRow>) -> int
    decreases rows.len(),
{
    if rows.len() == 0 {
        0
    } else {
        debt_value_sum(rows.drop_last()) + if borrowed(rows.last().slot) > 0 {
            row_debt(rows.last())
        } else {
            0
        }
    }
}

/// The debt side of the health factor counts the debt of every row that has
/// any, whether or not that asset is enabled as collateral: the health factor
/// is the weighted collateral over exactly `debt_value_sum`.
pub proof fn law_health_counts_all_debt(rows: Seq<HealthRow>)
    ensures
        health_terms(rows) matches Ok((w, d)) ==> d == debt_value_sum(rows)
            && account_health_spec(rows) == Ok::<int, PoolError>(
            health_factor_spec(w, WAD as int, debt_value_sum(rows)),
        ),
    decreases rows.len(),
{
    if rows.len() > 0 {
        law_health_counts_all_debt(rows.drop_last());
    }
}

/// Rows that agree on every market's state, price and the account's debt.
pub open spec fn same_debt_rows(r1: Seq<HealthRow>, r2: Seq<HealthRow>) -> bool {
    &&& r1.len() == r2.len()
    &&& forall|j: int|
        0 <= j < r1.len() ==> (#[trigger] r1[j]).state == r2[j].state && r1[j].price
            == r2[j].price && r1[j].slot.scaled_borrow == r2[j].slot.scaled_borrow
}

/// Enabling or disabling assets as collateral (or changing the supplied
/// balances or configs) never changes the debt side of the health factor: two
/// health checks over rows with the same states, prices and debts count the
/// same debt.
pub proof fn law_collateral_flags_keep_debt(r1: Seq<HealthRow>, r2: Seq<HealthRow>)
    requires
        same_debt_rows(r1, r2),
    ensures
        health_terms(r1) is Ok && health_terms(r2) is Ok ==> health_terms(r1)->Ok_0.1
            == health_terms(r2)->Ok_0.1,
    decreases r1.len(),
{
    if r1.len() > 0 {
        let a = r1.drop_last();
        let b = r2.drop_last();
        assert forall|j: int| 0 <= j < a.len() implies (#[trigger] a[j]).state == b[j].state
            && a[j].price == b[j].price && a[j].slot.scaled_borrow == b[j].slot.scaled_borrow by {
            assert(a[j] == r1[j]);
            assert(b[j] == r2[j]);
        }
        law_collateral_flags_keep_debt(a, b);
        assert(r1.last() == r1[r1.len() - 1]);
        assert(r2.last() == r2[r2.len() - 1]);
    }
}

/// The market's runtime invariants (indexes at least WAD, scaled totals and
/// reserves non-negative), with one account's scaled balances non-negative and
/// part of the market's scaled totals.
pub open spec fn holding_invariant(s: MarketState, slot: AccountSlot) -> bool {
    &&& market_state_wf(s)
    &&& 0 <= supplied(slot) <= s.total_scaled_supply
    &&& 0 <= borrowed(slot) <= s.total_scaled_borrow
}

/// A successful supply keeps the runtime invariants of the market and the
/// account's place within it (rates from the model are never negative).
pub proof fn law_supply_keeps_invariants(
    pool: CorePoolContract,
    config: Option<MarketConfig>,
    state: Option<MarketState>,
    slot: AccountSlot,
    amount: int,
    now: u64,
    rates: Option<RateSnapshot>,
)
    requires
        config matches Some(c) && market_config_valid(c),
        state matches Some(s) && holding_invariant(s, slot),
        rates_nonneg(rates),
        supply_pre(pool, config, state, slot, amount, now, rates),
        supply_result(pool, config, state, slot, amount, now, rates) is Ok,
    ensures
        ({
            let (s2, slot2, _) = supply_result(pool, config, state, slot, amount, now, rates)->Ok_0;
            holding_invariant(s2, slot2)
        }),
{
    law_pool_accrual_monotone(config->0, state->0, now, rates);
}

/// A successful withdrawal keeps the runtime invariants of the market and the
/// account's place within it.
pub proof fn law_withdraw_keeps_invariants(
    pool: CorePoolContract,
    config: Option<MarketConfig>,
    state: Option<MarketState>,
    has_account: bool,
    slot: AccountSlot,
    amount: int,
    now: u64,
    rates: Option<RateSnapshot>,
    rows: Seq<HealthRow>,
)
    requires
        config matches Some(c) && market_config_valid(c),
        state matches Some(s) && holding_invariant(s, slot),
        rates_nonneg(rates),
        withdraw_pre(pool, config, state, has_account, slot, amount, now, rates, rows),
        withdraw_result(pool, config, state, has_account, slot, amount, now, rates, rows) is Ok,
    ensures
        ({
            let (s2, slot2, _) = withdraw_result(
                pool,
                config,
                state,
                has_account,
                slot,
                amount,
                now,
                rates,
                rows,
            )->Ok_0;
            holding_invariant(s2, slot2)
        }),
{
    law_pool_accrual_monotone(config->0, state->0, now, rates);
}

/// A successful borrow keeps the runtime invariants of the market and the
/// account's place within it.
pub proof fn law_borrow_keeps_invariants(
    pool: CorePoolContract,
    config: Option<MarketConfig>,
    state: Option<MarketState>,
    slot: AccountSlot,
    amount: int,
    now: u64,
    rates: Option<RateSnapshot>,
    rows: Seq<HealthRow>,
)
    requires
        config matches Some(c) && market_config_valid(c),
        state matches Some(s) && holding_invariant(s, slot),
        rates_nonneg(rates),
        borrow_pre(pool, config, state, slot, amount, now, rates, rows),
        borrow_result(pool, config, state, slot, amount, now, rates, rows) is Ok,
    ensures
        ({
            let (s2, slot2, _) = borrow_result(pool, config, state, slot, amount, now, rates, rows)->Ok_0;
            holding_invariant(s2, slot2)
        }),
{
    law_pool_accrual_monotone(config->0, state->0, now, rates);
}

/// A successful repayment keeps the runtime invariants of the market and the
/// account's place within it.
pub proof fn law_repay_keeps_invariants(
    pool: CorePoolContract,
    config: Option<MarketConfig>,
    state: Option<MarketState>,
    has_account: bool,
    slot: AccountSlot,
    amount: int,
    now: u64,
    rates: Option<RateSnapshot>,
)
    requires
        config matches Some(c) && market_config_valid(c),
        state matches Some(s) && holding_invariant(s, slot),
        rates_nonneg(rates),
        repay_pre(pool, config, state, has_account, slot, amount, now, rates),
        repay_result(pool, config, state, has_account, slot, amount, now, rates) is Ok,
    ensures
        ({
            let (s2, slot2, _) = repay_result(pool, config, state, has_account, slot, amount, now, rates)->Ok_0;
            holding_invariant(s2, slot2)
        }),
{
    law_pool_accrual_monotone(config->0, state->0, now, rates);
    law_repay_bounds(pool, config, state, has_account, slot, amount, now, rates);
}

/// Once the fold fails on a free-of-overflow prefix, the whole fold is free of
/// overflow: the steps after the failure compute nothing.
proof fn lemma_health_ok_after_err(rows: Seq<HealthRow>, k: int)
    requires
        0 <= k <= rows.len(),
        health_terms(rows.take(k)) is Err,
        health_terms_ok(rows.take(k)),
    ensures
        health_terms_ok(rows),
    decreases rows.len() - k,
{
    if k == rows.len() {
        assert(rows.take(k) =~= rows);
    } else {
        assert(rows.take(k + 1).drop_last() =~= rows.take(k));
        assert(health_terms(rows.take(k + 1)) == health_terms(rows.take(k)));
        lemma_health_ok_after_err(rows, k + 1);
    }
}

/// Whether the health fold over `rows` runs free of overflow.
pub fn health_computable(rows: &Vec<HealthRow>) -> (b: bool)
    ensures
        b == account_health_ok(rows@),
{
    let mut weighted: i128 = 0;
    let mut debt_value: i128 = 0;
    let mut i: usize = 0;
    while i < rows.len()
        invariant
            i <= rows.len(),
            health_terms_ok(rows@.take(i as int)),
            health_terms(rows@.take(i as int)) == Ok::<(int, int), PoolError>(
                (weighted as int, debt_value as int),
            ),
        decreases rows.len() - i,
    {
        let row = rows[i];
        proof {
            assert(rows@.take(i + 1).drop_last() =~= rows@.take(i as int));
            assert(rows@.take(i + 1).last() == row);
            if health_terms_ok(rows@) {
                lemma_health_ok_take(rows@, i + 1);
            }
        }
        let state = match row.state {
            Some(s) => s,
            None => {
                proof {
                    lemma_health_ok_after_err(rows@, i + 1);
                    lemma_health_err_extends(rows@, i + 1);
                }
                return true;
            },
        };
        let on = match row.slot.collateral_enabled {
            Some(b) => b,
            None => false,
        };
        if on {
            let config = match row.config {
                Some(c) => c,
                None => {
                    proof {
                        lemma_health_ok_after_err(rows@, i + 1);
                        lemma_health_err_extends(rows@, i + 1);
                    }
                    return true;
                },
            };
            let scaled = match row.slot.scaled_supply {
                Some(v) => v,
                None => 0,
            };
            let amount = match checked_wad_mul(scaled, state.supply_index) {
                Some(v) => v,
                None => return false,
            };
            let value = match checked_wad_mul(amount, row.price) {
                Some(v) => v,
                None => return false,
            };
            let w = match checked_wad_mul(value, config.liquidation_threshold) {
                Some(v) => v,
                None => return false,
            };
            weighted = match weighted.checked_add(w) {
                Some(v) => v,
                None => return false,
            };
        }
        let scaled_debt = match row.slot.scaled_borrow {
            Some(v) => v,
            None => 0,
        };
        if scaled_debt > 0 {
            let amount = match checked_wad_mul(scaled_debt, state.borrow_index) {
                Some(v) => v,
                None => return false,
            };
            let v = match checked_wad_mul(amount, row.price) {
                Some(v) => v,
                None => return false,
            };
            debt_value = match debt_value.checked_add(v) {
                Some(v) => v,
                None => return false,
            };
        }
        i = i + 1;
    }
    proof {
        assert(rows@.take(rows.len() as int) =~= rows@);
    }
    if debt_value == 0 {
        return true;
    }
    match checked_wad_mul(weighted, WAD) {
        Some(m) => checked_wad_div(m, debt_value).is_some(),
        None => false,
    }
}

/// Interest accrual of one market, or `None` where it would overflow or lacks
/// the rates it needs.
pub fn checked_accrue(c: &MarketConfig, s: &MarketState, now: u64, rates: Option<RateSnapshot>) -> (r:
    Option<MarketState>)
    ensures
        r == (if accrue_ok(*c, *s, now, rates) {
            Some(accrued(*c, *s, now, rates))
        } else {
            None
        }),
{
    if now <= s.last_update_timestamp {
        return Some(*s);
    }
    let ts = match checked_wad_mul(s.total_scaled_supply, s.supply_index) {
        Some(v) => v,
        None => return None,
    };
    let tb = match checked_wad_mul(s.total_scaled_borrow, s.borrow_index) {
        Some(v) => v,
        None => return None,
    };
    if ts == 0 || tb == 0 {
        return Some(MarketState { last_update_timestamp: now, ..*s });
    }
    let r = match rates {
        Some(r) => r,
        None => return None,
    };
    let dt = (now - s.last_update_timestamp) as i128;
    let bq = r.borrow_rate / SECONDS_PER_YEAR;
    let sq = r.supply_rate / SECONDS_PER_YEAR;
    let bqdt = match bq.checked_mul(dt) {
        Some(v) => v,
        None => return None,
    };
    let sqdt = match sq.checked_mul(dt) {
        Some(v) => v,
        None => return None,
    };
    let bg = match WAD.checked_add(bqdt) {
        Some(v) => v,
        None => return None,
    };
    let sg = match WAD.checked_add(sqdt) {
        Some(v) => v,
        None => return None,
    };
    let nbi = match checked_wad_mul(s.borrow_index, bg) {
        Some(v) => v,
        None => return None,
    };
    let nsi = match checked_wad_mul(s.supply_index, sg) {
        Some(v) => v,
        None => return None,
    };
    let diff = match nbi.checked_sub(s.borrow_index) {
        Some(v) => v,
        None => return None,
    };
    let interest = match checked_wad_mul(s.total_scaled_borrow, diff) {
        Some(v) => v,
        None => return None,
    };
    let fee = match checked_wad_mul(interest, c.reserve_factor) {
        Some(v) => v,
        None => return None,
    };
    let reserves = match s.protocol_reserves.checked_add(fee) {
        Some(v) => v,
        None => return None,
    };
    Some(
        MarketState {
            protocol_reserves: reserves,
            borrow_index: nbi,
            supply_index: nsi,
            last_update_timestamp: now,
            ..*s
        },
    )
}


impl CorePoolContract {
    /// Whether `supply` runs on these values without overflow.
    pub fn supply_computable(
        &self,
        config: Option<MarketConfig>,
        state: Option<MarketState>,
        slot: AccountSlot,
        amount: i128,
        now: u64,
        rates: Option<RateSnapshot>,
    ) -> (b: bool)
        ensures
            b == supply_pre(*self, config, state, slot, amount as int, now, rates),
    {
        if self.guard_user_live().is_err() || amount <= 0 {
            return true;
        }
        let c = match Self::require_active_market(config) {
            Ok(c) => c,
            Err(_) => return true,
        };
        let s = match state {
            Some(s) => s,
            None => return true,
        };
        let s1 = match checked_accrue(&c, &s, now, rates) {
            Some(x) => x,
            None => return false,
        };
        let ts = match checked_wad_mul(s1.total_scaled_supply, s1.supply_index) {
            Some(v) => v,
            None => return false,
        };
        if c.supply_cap > 0 {
            match ts.checked_add(amount) {
                None => return false,
                Some(t) => {
                    if t > c.supply_cap {
                        return true;
                    }
                },
            }
        }
        let scaled = match checked_wad_div(amount, s1.supply_index) {
            Some(v) => v,
            None => return false,
        };
        if scaled <= 0 {
            return true;
        }
        let current = match slot.scaled_supply {
            Some(v) => v,
            None => 0,
        };
        current.checked_add(scaled).is_some() && s1.total_scaled_supply.checked_add(scaled).is_some()
    }

    /// Whether `withdraw` runs on these values without overflow.
    pub fn withdraw_computable(
        &self,
        config: Option<MarketConfig>,
        state: Option<MarketState>,
        has_account: bool,
        slot: AccountSlot,
        amount: i128,
        now: u64,
        rates: Option<RateSnapshot>,
        rows: &Vec<HealthRow>,
    ) -> (b: bool)
        ensures
            b == withdraw_pre(*self, config, state, has_account, slot, amount as int, now, rates, rows@),
    {
        if self.guard_user_live().is_err() || amount <= 0 {
            return true;
        }
        let c = match config {
            Some(c) => c,
            None => return true,
        };
        let s = match state {
            Some(s) => s,
            None => return true,
        };
        let s1 = match checked_accrue(&c, &s, now, rates) {
            Some(x) => x,
            None => return false,
        };
        if !has_account {
            return true;
        }
        let burn = match checked_wad_div(amount, s1.supply_index) {
            Some(v) => v,
            None => return false,
        };
        let user_scaled = match slot.scaled_supply {
            Some(v) => v,
            None => 0,
        };
        if burn <= 0 || user_scaled < burn {
            return true;
        }
        let ts = match checked_wad_mul(s1.total_scaled_supply, s1.supply_index) {
            Some(v) => v,
            None => return false,
        };
        let tb = match checked_wad_mul(s1.total_scaled_borrow, s1.borrow_index) {
            Some(v) => v,
            None => return false,
        };
        let available = match ts.checked_sub(tb) {
            Some(v) => v,
            None => return false,
        };
        if amount > available {
            return true;
        }
        if s1.total_scaled_supply.checked_sub(burn).is_none() {
            return false;
        }
        let on = match slot.collateral_enabled {
            Some(b) => b,
            None => false,
        };
        if !on {
            return true;
        }
        let new_slot = AccountSlot { scaled_supply: Some(user_scaled - burn), ..slot };
        health_computable(&patch_rows(rows, c.asset, new_slot, Some(s1)))
    }

    /// Whether `borrow` runs on these values without overflow.
    pub fn borrow_computable(
        &self,
        config: Option<MarketConfig>,
        state: Option<MarketState>,
        slot: AccountSlot,
        amount: i128,
        now: u64,
        rates: Option<RateSnapshot>,
        rows: &Vec<HealthRow>,
    ) -> (b: bool)
        ensures
            b == borrow_pre(*self, config, state, slot, amount as int, now, rates, rows@),
    {
        if self.guard_user_live().is_err() || amount <= 0 {
            return true;
        }
        let c = match Self::require_active_market(config) {
            Ok(c) => c,
            Err(_) => return true,
        };
        if !c.is_borrowable {
            return true;
        }
        let s = match state {
            Some(s) => s,
            None => return true,
        };
        let s1 = match checked_accrue(&c, &s, now, rates) {
            Some(x) => x,
            None => return false,
        };
        let ts = match checked_wad_mul(s1.total_scaled_supply, s1.supply_index) {
            Some(v) => v,
            None => return false,
        };
        let tb = match checked_wad_mul(s1.total_scaled_borrow, s1.borrow_index) {
            Some(v) => v,
            None => return false,
        };
        if c.borrow_cap > 0 {
            match tb.checked_add(amount) {
                None => return false,
                Some(t) => {
                    if t > c.borrow_cap {
                        return true;
                    }
                },
            }
        }
        let available = match ts.checked_sub(tb) {
            Some(v) => v,
            None => return false,
        };
        if amount > available {
            return true;
        }
        let debt = match checked_wad_div(amount, s1.borrow_index) {
            Some(v) => v,
            None => return false,
        };
        if debt <= 0 {
            return true;
        }
        let current = match slot.scaled_borrow {
            Some(v) => v,
            None => 0,
        };
        let total = match current.checked_add(debt) {
            Some(v) => v,
            None => return false,
        };
        let new_slot = AccountSlot { scaled_borrow: Some(total), ..slot };
        let projected = patch_rows(rows, c.asset, new_slot, Some(s1));
        if !health_computable(&projected) {
            return false;
        }
        match account_health(&projected) {
            Ok(h) => h < WAD || s1.total_scaled_borrow.checked_add(debt).is_some(),
            Err(_) => true,
        }
    }

    /// Whether `repay` runs on these values without overflow.
    pub fn repay_computable(
        &self,
        config: Option<MarketConfig>,
        state: Option<MarketState>,
        has_account: bool,
        slot: AccountSlot,
        amount: i128,
        now: u64,
        rates: Option<RateSnapshot>,
    ) -> (b: bool)
        ensures
            b == repay_pre(*self, config, state, has_account, slot, amount as int, now, rates),
    {
        if self.guard_user_live().is_err() || amount <= 0 {
            return true;
        }
        let c = match config {
            Some(c) => c,
            None => return true,
        };
        let s = match state {
            Some(s) => s,
            None => return true,
        };
        let s1 = match checked_accrue(&c, &s, now, rates) {
            Some(x) => x,
            None => return false,
        };
        if !has_account {
            return true;
        }
        let scaled_debt = match slot.scaled_borrow {
            Some(v) => v,
            None => 0,
        };
        let real_debt = match checked_wad_mul(scaled_debt, s1.borrow_index) {
            Some(v) => v,
            None => return false,
        };
        if real_debt == 0 {
            return true;
        }
        let actual = if amount > real_debt {
            real_debt
        } else {
            amount
        };
        let burn0 = match checked_wad_div(actual, s1.borrow_index) {
            Some(v) => v,
            None => return false,
        };
        let burn = if burn0 > scaled_debt {
            scaled_debt
        } else {
            burn0
        };
        scaled_debt.checked_sub(burn).is_some() && s1.total_scaled_borrow.checked_sub(
            burn,
        ).is_some()
    }
}

} // verus!
