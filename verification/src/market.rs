//! Isolated two-asset market on Morpho-style share accounting.
//!
//! Lenders supply the loan asset for supply shares (a pro-rata claim on
//! `total_supply_assets`, priced with one virtual asset and `VIRTUAL_SHARES`
//! virtual shares against inflation attacks; every rounding favours the pool);
//! borrowers post collateral, which earns nothing and is never lent out. Interest accrual raises `total_borrow_assets`; lenders' claim
//! grows by that interest minus the protocol fee, which accrues to `fee_assets`.
//!
//! The operations take what the ledger supplies as arguments: the current time,
//! the rate model's snapshot (needed only when interest accrues, see
//! `needs_rates`) and the two oracle prices (needed only when a health check
//! meets debt, see `needs_prices`). A failed operation changes nothing.
use vstd::prelude::*;
use crate::ids::Addr;
use crate::math::{
    checked_wad_div, checked_wad_mul, fits, health_factor, health_factor_ok, health_factor_spec,
    mul_div_down, mul_div_down_spec, mul_div_up, mul_div_up_spec, tdiv, wad_mul, wad_mul_ok,
    wad_mul_spec, VIRTUAL_ASSETS, VIRTUAL_SHARES, WAD,
};
use crate::rate_model::RateSnapshot;

verus! {

pub const SECONDS_PER_YEAR: i128 = 31_536_000;

pub const MAX_LIQUIDATION_BONUS: i128 = 500_000_000_000_000_000;

/// Immutable configuration of an isolated market.
#[derive(Clone, Copy, Debug, PartialEq, Eq, Structural)]
pub struct IsolatedMarketConfig {
    /// Asset supplied by lenders and borrowed by borrowers.
    pub loan_asset: Addr,
    /// Asset posted by borrowers as collateral.
    pub collateral_asset: Addr,
    /// Oracle adapter pricing both assets.
    pub oracle_adapter: Addr,
    /// Interest rate model.
    pub rate_model: Addr,
    /// Protocol treasury; also the market's admin.
    pub treasury: Addr,
    /// Liquidation loan-to-value (WAD).
    pub lltv: i128,
    /// Liquidation bonus (WAD).
    pub liquidation_bonus: i128,
    /// Fraction of borrow interest kept as fees (WAD).
    pub reserve_factor: i128,
    /// Cap on total supplied loan assets; 0 = no cap.
    pub supply_cap: i128,
    /// Cap on total borrowed loan assets; 0 = no cap.
    pub borrow_cap: i128,
}

/// Running totals of the market.
#[derive(Clone, Copy, Debug, PartialEq, Eq, Structural)]
pub struct IsolatedMarketState {
    pub total_supply_assets: i128,
    pub total_supply_shares: i128,
    pub total_borrow_assets: i128,
    pub total_borrow_shares: i128,
    pub total_collateral: i128,
    pub fee_assets: i128,
    pub last_update_timestamp: u64,
}

/// One account's position in the market.
#[derive(Clone, Copy, Debug, PartialEq, Eq, Structural)]
pub struct MarketPosition {
    pub supply_shares: i128,
    pub borrow_shares: i128,
    pub collateral: i128,
}

/// The WAD prices of the two assets, as the oracle adapter resolved them.
#[derive(Clone, Copy, Debug, PartialEq, Eq, Structural)]
pub struct MarketPrices {
    pub collateral_price: i128,
    pub loan_price: i128,
}

#[derive(Clone, Copy, Debug, PartialEq, Eq, Structural)]
pub enum MarketError {
    AlreadyInitialized,
    NotInitialized,
    Unauthorized,
    Paused,
    InvalidAmount,
    InsufficientLiquidity,
    InsufficientCollateral,
    SupplyCapExceeded,
    BorrowCapExceeded,
    InsufficientSupply,
    InconsistentInput,
    HealthFactorTooLow,
    HealthFactorOk,
    OracleCallFailed,
}

/// Assets → shares at the virtual-share price, rounded down (what a supply is
/// credited): `assets * (total_shares + VIRTUAL_SHARES) / (total_assets + 1)`.
pub open spec fn to_shares_spec(assets: int, total_assets: int, total_shares: int) -> int {
    mul_div_down_spec(assets, total_shares + VIRTUAL_SHARES, total_assets + VIRTUAL_ASSETS)
}

/// Assets → shares at the virtual-share price, rounded up (what a withdrawal by
/// assets burns).
pub open spec fn to_shares_up_spec(assets: int, total_assets: int, total_shares: int) -> int {
    mul_div_up_spec(assets, total_shares + VIRTUAL_SHARES, total_assets + VIRTUAL_ASSETS)
}

/// Shares → assets at the virtual-share price, rounded down (what a withdrawal
/// by shares pays out): `shares * (total_assets + 1) / (total_shares + VIRTUAL_SHARES)`.
pub open spec fn to_assets_spec(shares: int, total_assets: int, total_shares: int) -> int {
    mul_div_down_spec(shares, total_assets + VIRTUAL_ASSETS, total_shares + VIRTUAL_SHARES)
}

/// Shares → assets at the virtual-share price, rounded up (how debt is valued).
pub open spec fn to_assets_up_spec(shares: int, total_assets: int, total_shares: int) -> int {
    mul_div_up_spec(shares, total_assets + VIRTUAL_ASSETS, total_shares + VIRTUAL_SHARES)
}

/// The totals are non-negative and their virtual counterparts fit in an `i128`.
pub open spec fn totals_ok(total_assets: int, total_shares: int) -> bool {
    &&& total_assets >= 0
    &&& total_shares >= 0
    &&& fits(total_assets + VIRTUAL_ASSETS)
    &&& fits(total_shares + VIRTUAL_SHARES)
}

pub open spec fn to_shares_ok(assets: int, total_assets: int, total_shares: int) -> bool {
    &&& totals_ok(total_assets, total_shares)
    &&& fits(assets * (total_shares + VIRTUAL_SHARES))
}

pub open spec fn to_shares_up_ok(assets: int, total_assets: int, total_shares: int) -> bool {
    &&& to_shares_ok(assets, total_assets, total_shares)
    &&& fits(assets * (total_shares + VIRTUAL_SHARES) + total_assets + VIRTUAL_ASSETS - 1)
}

pub open spec fn to_assets_ok(shares: int, total_assets: int, total_shares: int) -> bool {
    &&& totals_ok(total_assets, total_shares)
    &&& fits(shares * (total_assets + VIRTUAL_ASSETS))
}

pub open spec fn to_assets_up_ok(shares: int, total_assets: int, total_shares: int) -> bool {
    &&& to_assets_ok(shares, total_assets, total_shares)
    &&& fits(shares * (total_assets + VIRTUAL_ASSETS) + total_shares + VIRTUAL_SHARES - 1)
}

/// Convert `assets` to shares given the pool totals, rounding down.
pub fn to_shares(assets: i128, total_assets: i128, total_shares: i128) -> (r: i128)
    requires
        to_shares_ok(assets as int, total_assets as int, total_shares as int),
    ensures
        r == to_shares_spec(assets as int, total_assets as int, total_shares as int),
{
    mul_div_down(assets, total_shares + VIRTUAL_SHARES, total_assets + VIRTUAL_ASSETS)
}

/// Convert `assets` to shares given the pool totals, rounding up.
pub fn to_shares_rounded_up(assets: i128, total_assets: i128, total_shares: i128) -> (r: i128)
    requires
        to_shares_up_ok(assets as int, total_assets as int, total_shares as int),
    ensures
        r == to_shares_up_spec(assets as int, total_assets as int, total_shares as int),
{
    crate::math::to_shares_up(assets, total_assets, total_shares)
}

/// Convert `shares` to assets given the pool totals, rounding down.
pub fn to_assets(shares: i128, total_assets: i128, total_shares: i128) -> (r: i128)
    requires
        to_assets_ok(shares as int, total_assets as int, total_shares as int),
    ensures
        r == to_assets_spec(shares as int, total_assets as int, total_shares as int),
{
    crate::math::to_assets_down(shares, total_assets, total_shares)
}

/// Convert `shares` to assets given the pool totals, rounding up.
pub fn to_assets_rounded_up(shares: i128, total_assets: i128, total_shares: i128) -> (r: i128)
    requires
        to_assets_up_ok(shares as int, total_assets as int, total_shares as int),
    ensures
        r == to_assets_up_spec(shares as int, total_assets as int, total_shares as int),
{
    mul_div_up(shares, total_assets + VIRTUAL_ASSETS, total_shares + VIRTUAL_SHARES)
}

/// Risk parameters are in range: 0 < lltv < WAD, bonus within half a WAD,
/// reserve factor in [0, WAD), caps non-negative.
pub open spec fn config_valid(c: IsolatedMarketConfig) -> bool {
    !(c.lltv <= 0 || c.lltv >= WAD || c.liquidation_bonus < 0 || c.liquidation_bonus
        > MAX_LIQUIDATION_BONUS || c.reserve_factor < 0 || c.reserve_factor >= WAD || c.supply_cap
        < 0 || c.borrow_cap < 0)
}

/// Totals are non-negative and borrowers never owe more than lenders and the fee
/// reserve together hold.
pub open spec fn state_wf(s: IsolatedMarketState) -> bool {
    &&& s.total_supply_assets >= 0
    &&& s.total_supply_shares >= 0
    &&& s.total_borrow_assets >= 0
    &&& s.total_borrow_shares >= 0
    &&& s.total_collateral >= 0
    &&& s.fee_assets >= 0
    &&& s.total_borrow_assets <= s.total_supply_assets + s.fee_assets
}

/// A position is non-negative and within the market totals.
pub open spec fn position_fits(s: IsolatedMarketState, p: MarketPosition) -> bool {
    &&& 0 <= p.supply_shares <= s.total_supply_shares
    &&& 0 <= p.borrow_shares <= s.total_borrow_shares
    &&& 0 <= p.collateral <= s.total_collateral
}

/// Interest owed over `elapsed` seconds at an annual `borrow_rate`.
pub open spec fn interest_spec(total_borrow_assets: int, borrow_rate: int, elapsed: int) -> int {
    tdiv(tdiv(total_borrow_assets * borrow_rate * elapsed, WAD as int), SECONDS_PER_YEAR as int)
}

/// Interest accrual does reach the rate model at time `now`.
pub open spec fn accrual_needs_rates(s: IsolatedMarketState, now: u64) -> bool {
    now > s.last_update_timestamp && s.total_borrow_assets != 0
}

/// The totals after accruing interest up to `now`.
pub open spec fn accrued(
    c: IsolatedMarketConfig,
    s: IsolatedMarketState,
    now: u64,
    rates: Option<RateSnapshot>,
) -> IsolatedMarketState {
    if now <= s.last_update_timestamp {
        s
    } else if s.total_borrow_assets == 0 {
        IsolatedMarketState { last_update_timestamp: now, ..s }
    } else {
        let i = interest_spec(
            s.total_borrow_assets as int,
            rates->0.borrow_rate as int,
            now - s.last_update_timestamp,
        );
        if i > 0 {
            let fee = wad_mul_spec(i, c.reserve_factor as int);
            IsolatedMarketState {
                total_borrow_assets: (s.total_borrow_assets + i) as i128,
                total_supply_assets: (s.total_supply_assets + i - fee) as i128,
                fee_assets: (s.fee_assets + fee) as i128,
                last_update_timestamp: now,
                ..s
            }
        } else {
            IsolatedMarketState { last_update_timestamp: now, ..s }
        }
    }
}

/// Accrual up to `now` has what it needs and does not overflow.
pub open spec fn accrue_ok(
    c: IsolatedMarketConfig,
    s: IsolatedMarketState,
    now: u64,
    rates: Option<RateSnapshot>,
) -> bool {
    accrual_needs_rates(s, now) ==> {
        let br = rates->0.borrow_rate as int;
        let el = now - s.last_update_timestamp;
        let i = interest_spec(s.total_borrow_assets as int, br, el);
        let fee = wad_mul_spec(i, c.reserve_factor as int);
        &&& rates is Some
        &&& fits(s.total_borrow_assets * br)
        &&& fits(s.total_borrow_assets * br * el)
        &&& i > 0 ==> {
            &&& wad_mul_ok(i, c.reserve_factor as int)
            &&& fits(s.total_borrow_assets + i)
            &&& fits(i - fee)
            &&& fits(s.total_supply_assets + (i - fee))
            &&& fits(s.fee_assets + fee)
        }
    }
}

/// Debt of a position, valued in loan assets and rounded up.
pub open spec fn debt_spec(s: IsolatedMarketState, p: MarketPosition) -> int {
    to_assets_up_spec(p.borrow_shares as int, s.total_borrow_assets as int, s.total_borrow_shares as int)
}

/// `collateral_value * lltv / debt_value` (WAD), `i128::MAX` without debt.
pub open spec fn position_health_spec(
    c: IsolatedMarketConfig,
    s: IsolatedMarketState,
    p: MarketPosition,
    prices: Option<MarketPrices>,
) -> int {
    let debt = debt_spec(s, p);
    if debt == 0 {
        i128::MAX as int
    } else {
        health_factor_spec(
            wad_mul_spec(p.collateral as int, prices->0.collateral_price as int),
            c.lltv as int,
            wad_mul_spec(debt, prices->0.loan_price as int),
        )
    }
}

/// The health computation has its prices and does not overflow.
pub open spec fn position_health_ok(
    c: IsolatedMarketConfig,
    s: IsolatedMarketState,
    p: MarketPosition,
    prices: Option<MarketPrices>,
) -> bool {
    &&& to_assets_up_ok(
        p.borrow_shares as int,
        s.total_borrow_assets as int,
        s.total_borrow_shares as int,
    )
    &&& debt_spec(s, p) != 0 ==> {
        let debt = debt_spec(s, p);
        &&& prices is Some
        &&& wad_mul_ok(p.collateral as int, prices->0.collateral_price as int)
        &&& wad_mul_ok(debt, prices->0.loan_price as int)
        &&& health_factor_ok(
            wad_mul_spec(p.collateral as int, prices->0.collateral_price as int),
            c.lltv as int,
            wad_mul_spec(debt, prices->0.loan_price as int),
        )
    }
}

/// The (assets, shares) pair a withdrawal resolves to: by assets, the shares
/// burned are rounded up; by shares, the assets paid are rounded down. Both
/// roundings favour the pool.
pub open spec fn resolve_spec(assets: int, shares: int, total_assets: int, total_shares: int) -> Result<
    (int, int),
    MarketError,
> {
    if (assets > 0) == (shares > 0) {
        Err(MarketError::InconsistentInput)
    } else if assets > 0 {
        Ok((assets, to_shares_up_spec(assets, total_assets, total_shares)))
    } else {
        Ok((to_assets_spec(shares, total_assets, total_shares), shares))
    }
}

/// The market's stored values.
pub struct IsolatedMarketContract {
    pub initialized: bool,
    pub paused: bool,
    pub config: Option<IsolatedMarketConfig>,
    pub state: Option<IsolatedMarketState>,
}

impl IsolatedMarketContract {
    /// Configuration and totals are stored exactly when the market is initialised;
    /// the configuration is valid and the totals are well formed.
    pub open spec fn wf(&self) -> bool {
        &&& self.config is Some <==> self.initialized
        &&& self.state is Some <==> self.initialized
        &&& self.initialized ==> config_valid(self.config->0) && state_wf(self.state->0)
    }

    pub open spec fn cfg(&self) -> IsolatedMarketConfig {
        self.config->0
    }

    pub open spec fn st(&self) -> IsolatedMarketState {
        self.state->0
    }

    /// The error the liveness guard raises, if any.
    pub open spec fn guard_error(&self) -> Option<MarketError> {
        if !self.initialized {
            Some(MarketError::NotInitialized)
        } else if self.paused {
            Some(MarketError::Paused)
        } else {
            None
        }
    }

    /// Nothing stored yet.
    pub fn fresh() -> (r: Self)
        ensures
            !r.initialized && !r.paused && r.config is None && r.state is None,
            r.wf(),
    {
        IsolatedMarketContract { initialized: false, paused: false, config: None, state: None }
    }

    /// Check the market parameters.
    pub fn validate_config(config: &IsolatedMarketConfig) -> (r: Result<(), MarketError>)
        ensures
            r == (if config_valid(*config) {
                Ok(())
            } else {
                Err(MarketError::InvalidAmount)
            }),
    {
        if config.lltv <= 0 || config.lltv >= WAD || config.liquidation_bonus < 0
            || config.liquidation_bonus > MAX_LIQUIDATION_BONUS || config.reserve_factor < 0
            || config.reserve_factor >= WAD || config.supply_cap < 0 || config.borrow_cap < 0 {
            return Err(MarketError::InvalidAmount);
        }
        Ok(())
    }

    /// Reject calls on an uninitialised or paused market.
    pub fn guard_live(&self) -> (r: Result<(), MarketError>)
        ensures
            r == (match self.guard_error() {
                Some(e) => Err(e),
                None => Ok(()),
            }),
    {
        if !self.initialized {
            return Err(MarketError::NotInitialized);
        }
        if self.paused {
            return Err(MarketError::Paused);
        }
        Ok(())
    }

    /// Initialise the market at time `now` with empty totals.
    pub fn initialize(&mut self, config: IsolatedMarketConfig, now: u64) -> (r: Result<
        (),
        MarketError,
    >)
        requires
            old(self).wf(),
        ensures
            final(self).wf(),
            old(self).initialized ==> r == Err::<(), _>(MarketError::AlreadyInitialized),
            !old(self).initialized && !config_valid(config) ==> r == Err::<(), _>(
                MarketError::InvalidAmount,
            ),
            !old(self).initialized && config_valid(config) ==> r is Ok && *final(self) == (
            IsolatedMarketContract {
                initialized: true,
                paused: false,
                config: Some(config),
                state: Some(
                    IsolatedMarketState {
                        total_supply_assets: 0,
                        total_supply_shares: 0,
                        total_borrow_assets: 0,
                        total_borrow_shares: 0,
                        total_collateral: 0,
                        fee_assets: 0,
                        last_update_timestamp: now,
                    },
                ),
            }),
            r is Err ==> *final(self) == *old(self),
    {
        if self.initialized {
            return Err(MarketError::AlreadyInitialized);
        }
        Self::validate_config(&config)?;
        let state = IsolatedMarketState {
            total_supply_assets: 0,
            total_supply_shares: 0,
            total_borrow_assets: 0,
            total_borrow_shares: 0,
            total_collateral: 0,
            fee_assets: 0,
            last_update_timestamp: now,
        };
        self.config = Some(config);
        self.state = Some(state);
        self.paused = false;
        self.initialized = true;
        Ok(())
    }

    /// Whether accruing interest up to `now` consults the rate model.
    pub fn needs_rates(&self, now: u64) -> (b: bool)
        requires
            self.wf(),
        ensures
            b == (self.initialized && accrual_needs_rates(self.st(), now)),
    {
        match self.state {
            Some(s) => now > s.last_update_timestamp && s.total_borrow_assets != 0,
            None => false,
        }
    }

    /// Accrue interest up to `now`.
    ///
    /// Borrower interest raises `total_borrow_assets`; lenders' claim grows by the
    /// interest minus the fee `wad_mul(interest, reserve_factor)`, which goes to
    /// `fee_assets`.
    pub fn accrue_interest(&mut self, now: u64, rates: Option<RateSnapshot>) -> (r: Result<
        (),
        MarketError,
    >)
        requires
            old(self).wf(),
            old(self).initialized ==> accrue_ok(old(self).cfg(), old(self).st(), now, rates),
        ensures
            final(self).wf(),
            !old(self).initialized ==> r == Err::<(), _>(MarketError::NotInitialized)
                && *final(self) == *old(self),
            old(self).initialized ==> r is Ok && *final(self) == (IsolatedMarketContract {
                state: Some(accrued(old(self).cfg(), old(self).st(), now, rates)),
                ..*old(self)
            }),
    {
        let config = match self.config {
            Some(c) => c,
            None => return Err(MarketError::NotInitialized),
        };
        let mut state = match self.state {
            Some(s) => s,
            None => return Err(MarketError::NotInitialized),
        };
        if now <= state.last_update_timestamp {
            return Ok(());
        }
        let elapsed = (now - state.last_update_timestamp) as i128;
        if state.total_borrow_assets == 0 {
            state.last_update_timestamp = now;
            self.state = Some(state);
            return Ok(());
        }
        let rates = rates.unwrap();
        let interest = state.total_borrow_assets * rates.borrow_rate * elapsed / WAD
            / SECONDS_PER_YEAR;
        if interest > 0 {
            let fee = wad_mul(interest, config.reserve_factor);
            proof {
                crate::math::lemma_wad_mul_fraction(interest as int, config.reserve_factor as int);
            }
            state.total_borrow_assets = state.total_borrow_assets + interest;
            state.total_supply_assets = state.total_supply_assets + (interest - fee);
            state.fee_assets = state.fee_assets + fee;
        }
        state.last_update_timestamp = now;
        self.state = Some(state);
        Ok(())
    }

    /// The totals once interest has accrued up to `now`.
    pub open spec fn accrued_st(&self, now: u64, rates: Option<RateSnapshot>) -> IsolatedMarketState {
        accrued(self.cfg(), self.st(), now, rates)
    }

    /// Supply on this position does not overflow.
    pub open spec fn supply_ok(
        &self,
        position: MarketPosition,
        assets: i128,
        now: u64,
        rates: Option<RateSnapshot>,
    ) -> bool {
        self.initialized && !self.paused && assets > 0 ==> {
            let s1 = self.accrued_st(now, rates);
            let shares = to_shares_spec(
                assets as int,
                s1.total_supply_assets as int,
                s1.total_supply_shares as int,
            );
            &&& accrue_ok(self.cfg(), self.st(), now, rates)
            &&& fits(s1.total_supply_assets + assets)
            &&& to_shares_ok(
                assets as int,
                s1.total_supply_assets as int,
                s1.total_supply_shares as int,
            )
            &&& fits(position.supply_shares + shares)
            &&& fits(s1.total_supply_shares + shares)
        }
    }

    /// Supply `assets` of the loan asset for supply shares credited to `position`.
    ///
    /// Returns the shares minted. Interest is accrued first; the supply cap (if
    /// any) bounds the pool's total assets.
    pub fn supply(
        &mut self,
        position: &mut MarketPosition,
        assets: i128,
        now: u64,
        rates: Option<RateSnapshot>,
    ) -> (r: Result<i128, MarketError>)
        requires
            old(self).wf(),
            old(self).initialized ==> position_fits(old(self).st(), *old(position)),
            old(self).supply_ok(*old(position), assets, now, rates),
        ensures
            final(self).wf(),
            final(self).initialized ==> position_fits(final(self).st(), *final(position)),
            old(self).guard_error() is Some ==> r == Err::<i128, _>(
                old(self).guard_error()->0,
            ),
            old(self).guard_error() is None && assets <= 0 ==> r == Err::<i128, _>(
                MarketError::InvalidAmount,
            ),
            old(self).guard_error() is None && assets > 0 ==> ({
                let c = old(self).cfg();
                let s1 = old(self).accrued_st(now, rates);
                let shares = to_shares_spec(
                    assets as int,
                    s1.total_supply_assets as int,
                    s1.total_supply_shares as int,
                );
                if c.supply_cap > 0 && s1.total_supply_assets + assets > c.supply_cap {
                    r == Err::<i128, _>(MarketError::SupplyCapExceeded)
                } else if shares <= 0 {
                    r == Err::<i128, _>(MarketError::InvalidAmount)
                } else {
                    &&& r == Ok::<i128, MarketError>(shares as i128)
                    &&& *final(self) == (IsolatedMarketContract {
                        state: Some(
                            IsolatedMarketState {
                                total_supply_assets: (s1.total_supply_assets + assets) as i128,
                                total_supply_shares: (s1.total_supply_shares + shares) as i128,
                                ..s1
                            },
                        ),
                        ..*old(self)
                    })
                    &&& *final(position) == (MarketPosition {
                        supply_shares: (old(position).supply_shares + shares) as i128,
                        ..*old(position)
                    })
                }
            }),
            r is Err ==> *final(self) == *old(self) && *final(position) == *old(position),
    {
        self.guard_live()?;
        if assets <= 0 {
            return Err(MarketError::InvalidAmount);
        }
        let mut next = IsolatedMarketContract {
            initialized: self.initialized,
            paused: self.paused,
            config: self.config,
            state: self.state,
        };
        next.accrue_interest(now, rates)?;
        let config = next.config.unwrap();
        let mut state = next.state.unwrap();
        if config.supply_cap > 0 && state.total_supply_assets + assets > config.supply_cap {
            return Err(MarketError::SupplyCapExceeded);
        }
        let shares = to_shares(assets, state.total_supply_assets, state.total_supply_shares);
        if shares <= 0 {
            return Err(MarketError::InvalidAmount);
        }
        position.supply_shares = position.supply_shares + shares;
        state.total_supply_shares = state.total_supply_shares + shares;
        state.total_supply_assets = state.total_supply_assets + assets;
        next.state = Some(state);
        *self = next;
        Ok(shares)
    }

    /// Resolve the (assets, shares) pair for a withdrawal: exactly one input must
    /// be positive; the other is derived from the supply pool totals.
    pub fn resolve_assets_shares(
        assets: i128,
        shares: i128,
        total_assets: i128,
        total_shares: i128,
    ) -> (r: Result<(i128, i128), MarketError>)
        requires
            total_assets >= 0,
            total_shares >= 0,
            assets > 0 && shares <= 0 ==> to_shares_up_ok(
                assets as int,
                total_assets as int,
                total_shares as int,
            ),
            shares > 0 && assets <= 0 ==> to_assets_ok(
                shares as int,
                total_assets as int,
                total_shares as int,
            ),
        ensures
            match resolve_spec(assets as int, shares as int, total_assets as int, total_shares as int) {
                Ok((a, s)) => r == Ok::<(i128, i128), MarketError>((a as i128, s as i128)),
                Err(e) => r == Err::<(i128, i128), _>(e),
            },
            r matches Ok((a, s)) ==> a >= 0 && s >= 0,
    {
        proof {
            if assets > 0 && shares <= 0 {
                crate::math::law_mul_div_rounding(
                    assets as int,
                    total_shares + VIRTUAL_SHARES,
                    total_assets + VIRTUAL_ASSETS,
                );
                assert(assets * (total_shares + VIRTUAL_SHARES) >= 0) by (nonlinear_arith)
                    requires
                        assets > 0,
                        total_shares >= 0,
                ;
                crate::math::lemma_tdiv_bounds(
                    assets * (total_shares + VIRTUAL_SHARES),
                    total_assets + VIRTUAL_ASSETS,
                );
            }
            if shares > 0 && assets <= 0 {
                assert(shares * (total_assets + VIRTUAL_ASSETS) >= 0) by (nonlinear_arith)
                    requires
                        shares > 0,
                        total_assets >= 0,
                ;
                crate::math::lemma_tdiv_bounds(
                    shares * (total_assets + VIRTUAL_ASSETS),
                    total_shares + VIRTUAL_SHARES,
                );
            }
        }
        if (assets > 0) == (shares > 0) {
            return Err(MarketError::InconsistentInput);
        }
        if assets > 0 {
            Ok((assets, to_shares_rounded_up(assets, total_assets, total_shares)))
        } else {
            Ok((to_assets(shares, total_assets, total_shares), shares))
        }
    }

    /// Withdrawal on this position has what it needs and does not overflow.
    pub open spec fn withdraw_ok(
        &self,
        assets: i128,
        shares: i128,
        now: u64,
        rates: Option<RateSnapshot>,
    ) -> bool {
        self.initialized && !self.paused ==> {
            let s1 = self.accrued_st(now, rates);
            &&& accrue_ok(self.cfg(), self.st(), now, rates)
            &&& assets > 0 && shares <= 0 ==> to_shares_up_ok(
                assets as int,
                s1.total_supply_assets as int,
                s1.total_supply_shares as int,
            )
            &&& shares > 0 && assets <= 0 ==> to_assets_ok(
                shares as int,
                s1.total_supply_assets as int,
                s1.total_supply_shares as int,
            )
        }
    }

    /// Withdraw supplied loan assets from `on_behalf`'s position (which only that
    /// account may do), by exactly one of `assets` or `shares`.
    ///
    /// Returns the (assets, shares) withdrawn. Bounded by the shares held and by
    /// the market's idle liquidity `total_supply_assets - total_borrow_assets`.
    pub fn withdraw(
        &mut self,
        caller: Addr,
        on_behalf: Addr,
        position: &mut MarketPosition,
        assets: i128,
        shares: i128,
        now: u64,
        rates: Option<RateSnapshot>,
    ) -> (r: Result<(i128, i128), MarketError>)
        requires
            old(self).wf(),
            old(self).initialized ==> position_fits(old(self).st(), *old(position)),
            old(self).withdraw_ok(assets, shares, now, rates),
        ensures
            final(self).wf(),
            final(self).initialized ==> position_fits(final(self).st(), *final(position)),
            old(self).guard_error() is Some ==> r == Err::<(i128, i128), _>(
                old(self).guard_error()->0,
            ),
            old(self).guard_error() is None && caller != on_behalf ==> r == Err::<(i128, i128), _>(
                MarketError::Unauthorized,
            ),
            old(self).guard_error() is None && caller == on_behalf ==> ({
                let s1 = old(self).accrued_st(now, rates);
                match resolve_spec(
                    assets as int,
                    shares as int,
                    s1.total_supply_assets as int,
                    s1.total_supply_shares as int,
                ) {
                    Err(e) => r == Err::<(i128, i128), _>(e),
                    Ok((a, sh)) => if old(position).supply_shares < sh {
                        r == Err::<(i128, i128), _>(MarketError::InsufficientSupply)
                    } else if a > s1.total_supply_assets - s1.total_borrow_assets {
                        r == Err::<(i128, i128), _>(MarketError::InsufficientLiquidity)
                    } else {
                        &&& r == Ok::<(i128, i128), MarketError>((a as i128, sh as i128))
                        &&& *final(self) == (IsolatedMarketContract {
                            state: Some(
                                IsolatedMarketState {
                                    total_supply_assets: (s1.total_supply_assets - a) as i128,
                                    total_supply_shares: (s1.total_supply_shares - sh) as i128,
                                    ..s1
                                },
                            ),
                            ..*old(self)
                        })
                        &&& *final(position) == (MarketPosition {
                            supply_shares: (old(position).supply_shares - sh) as i128,
                            ..*old(position)
                        })
                    },
                }
            }),
            r is Err ==> *final(self) == *old(self) && *final(position) == *old(position),
    {
        self.guard_live()?;
        if caller != on_behalf {
            return Err(MarketError::Unauthorized);
        }
        let mut next = IsolatedMarketContract {
            initialized: self.initialized,
            paused: self.paused,
            config: self.config,
            state: self.state,
        };
        next.accrue_interest(now, rates)?;
        let mut state = next.state.unwrap();
        let (assets, shares) = Self::resolve_assets_shares(
            assets,
            shares,
            state.total_supply_assets,
            state.total_supply_shares,
        )?;
        if position.supply_shares < shares {
            return Err(MarketError::InsufficientSupply);
        }
        let available = state.total_supply_assets - state.total_borrow_assets;
        if assets > available {
            return Err(MarketError::InsufficientLiquidity);
        }
        position.supply_shares = position.supply_shares - shares;
        state.total_supply_shares = state.total_supply_shares - shares;
        state.total_supply_assets = state.total_supply_assets - assets;
        next.state = Some(state);
        *self = next;
        Ok((assets, shares))
    }

    /// Post `assets` of the collateral asset to `position`.
    ///
    /// Collateral earns no interest and is never lent out.
    pub fn supply_collateral(&mut self, position: &mut MarketPosition, assets: i128) -> (r: Result<
        (),
        MarketError,
    >)
        requires
            old(self).wf(),
            old(self).initialized ==> position_fits(old(self).st(), *old(position)),
            old(self).initialized && assets > 0 ==> fits(old(position).collateral + assets) && fits(
                old(self).st().total_collateral + assets,
            ),
        ensures
            final(self).wf(),
            final(self).initialized ==> position_fits(final(self).st(), *final(position)),
            old(self).guard_error() is Some ==> r == Err::<(), _>(old(self).guard_error()->0),
            old(self).guard_error() is None && assets <= 0 ==> r == Err::<(), _>(
                MarketError::InvalidAmount,
            ),
            old(self).guard_error() is None && assets > 0 ==> {
                &&& r is Ok
                &&& *final(self) == (IsolatedMarketContract {
                    state: Some(
                        IsolatedMarketState {
                            total_collateral: (old(self).st().total_collateral + assets) as i128,
                            ..old(self).st()
                        },
                    ),
                    ..*old(self)
                })
                &&& *final(position) == (MarketPosition {
                    collateral: (old(position).collateral + assets) as i128,
                    ..*old(position)
                })
            },
            r is Err ==> *final(self) == *old(self) && *final(position) == *old(position),
    {
        self.guard_live()?;
        if assets <= 0 {
            return Err(MarketError::InvalidAmount);
        }
        let mut state = self.state.unwrap();
        position.collateral = position.collateral + assets;
        state.total_collateral = state.total_collateral + assets;
        self.state = Some(state);
        Ok(())
    }

    /// Health factor of `position` against the given totals.
    fn health_factor_for_position(
        config: &IsolatedMarketConfig,
        state: &IsolatedMarketState,
        position: &MarketPosition,
        prices: Option<MarketPrices>,
    ) -> (r: i128)
        requires
            position_health_ok(*config, *state, *position, prices),
        ensures
            r == position_health_spec(*config, *state, *position, prices),
    {
        let debt = to_assets_rounded_up(
            position.borrow_shares,
            state.total_borrow_assets,
            state.total_borrow_shares,
        );
        if debt == 0 {
            return i128::MAX;
        }
        let p = prices.unwrap();
        let collateral_value = wad_mul(position.collateral, p.collateral_price);
        let debt_value = wad_mul(debt, p.loan_price);
        health_factor(collateral_value, config.lltv, debt_value)
    }

    /// Whether a health check of `position` after accrual up to `now` needs prices.
    pub fn needs_prices(&self, position: &MarketPosition, now: u64, rates: Option<RateSnapshot>) -> (b:
        bool)
        requires
            self.wf(),
            self.initialized ==> accrue_ok(self.cfg(), self.st(), now, rates),
            self.initialized ==> to_assets_up_ok(
                position.borrow_shares as int,
                self.accrued_st(now, rates).total_borrow_assets as int,
                self.accrued_st(now, rates).total_borrow_shares as int,
            ),
        ensures
            b == (self.initialized && debt_spec(self.accrued_st(now, rates), *position) != 0),
    {
        let mut copy = IsolatedMarketContract {
            initialized: self.initialized,
            paused: self.paused,
            config: self.config,
            state: self.state,
        };
        match copy.accrue_interest(now, rates) {
            Ok(()) => {
                let s = copy.state.unwrap();
                to_assets_rounded_up(
                    position.borrow_shares,
                    s.total_borrow_assets,
                    s.total_borrow_shares,
                ) != 0
            },
            Err(_) => false,
        }
    }

    /// Collateral withdrawal on this position has what it needs and does not overflow.
    pub open spec fn withdraw_collateral_ok(
        &self,
        position: MarketPosition,
        assets: i128,
        now: u64,
        rates: Option<RateSnapshot>,
        prices: Option<MarketPrices>,
    ) -> bool {
        self.initialized && !self.paused && assets > 0 ==> {
            let s1 = self.accrued_st(now, rates);
            &&& accrue_ok(self.cfg(), self.st(), now, rates)
            &&& position.collateral >= assets ==> position_health_ok(
                self.cfg(),
                s1,
                MarketPosition { collateral: (position.collateral - assets) as i128, ..position },
                prices,
            )
        }
    }

    /// Withdraw `assets` of collateral from `on_behalf`'s position (which only
    /// that account may do). Fails if the position would become unhealthy.
    pub fn withdraw_collateral(
        &mut self,
        caller: Addr,
        on_behalf: Addr,
        position: &mut MarketPosition,
        assets: i128,
        now: u64,
        rates: Option<RateSnapshot>,
        prices: Option<MarketPrices>,
    ) -> (r: Result<(), MarketError>)
        requires
            old(self).wf(),
            old(self).initialized ==> position_fits(old(self).st(), *old(position)),
            old(self).withdraw_collateral_ok(*old(position), assets, now, rates, prices),
        ensures
            final(self).wf(),
            final(self).initialized ==> position_fits(final(self).st(), *final(position)),
            old(self).guard_error() is Some ==> r == Err::<(), _>(old(self).guard_error()->0),
            old(self).guard_error() is None && assets <= 0 ==> r == Err::<(), _>(
                MarketError::InvalidAmount,
            ),
            old(self).guard_error() is None && assets > 0 && caller != on_behalf ==> r == Err::<
                (),
                _,
            >(MarketError::Unauthorized),
            old(self).guard_error() is None && assets > 0 && caller == on_behalf ==> ({
                let s1 = old(self).accrued_st(now, rates);
                let p1 = MarketPosition {
                    collateral: (old(position).collateral - assets) as i128,
                    ..*old(position)
                };
                if old(position).collateral < assets {
                    r == Err::<(), _>(MarketError::InsufficientCollateral)
                } else if position_health_spec(old(self).cfg(), s1, p1, prices) < WAD {
                    r == Err::<(), _>(MarketError::HealthFactorTooLow)
                } else {
                    &&& r is Ok
                    &&& *final(self) == (IsolatedMarketContract {
                        state: Some(
                            IsolatedMarketState {
                                total_collateral: (s1.total_collateral - assets) as i128,
                                ..s1
                            },
                        ),
                        ..*old(self)
                    })
                    &&& *final(position) == p1
                }
            }),
            r is Err ==> *final(self) == *old(self) && *final(position) == *old(position),
    {
        self.guard_live()?;
        if assets <= 0 {
            return Err(MarketError::InvalidAmount);
        }
        if caller != on_behalf {
            return Err(MarketError::Unauthorized);
        }
        let mut next = IsolatedMarketContract {
            initialized: self.initialized,
            paused: self.paused,
            config: self.config,
            state: self.state,
        };
        next.accrue_interest(now, rates)?;
        let config = next.config.unwrap();
        let mut state = next.state.unwrap();
        if position.collateral < assets {
            return Err(MarketError::InsufficientCollateral);
        }
        let projected = MarketPosition { collateral: position.collateral - assets, ..*position };
        if Self::health_factor_for_position(&config, &state, &projected, prices) < WAD {
            return Err(MarketError::HealthFactorTooLow);
        }
        state.total_collateral = state.total_collateral - assets;
        *position = projected;
        next.state = Some(state);
        *self = next;
        Ok(())
    }

    /// Current health factor of `position` (WAD), `i128::MAX` without debt.
    pub fn get_health_factor(&self, position: &MarketPosition, prices: Option<MarketPrices>) -> (r:
        Result<i128, MarketError>)
        requires
            self.wf(),
            self.initialized ==> position_health_ok(self.cfg(), self.st(), *position, prices),
        ensures
            !self.initialized ==> r == Err::<i128, _>(MarketError::NotInitialized),
            self.initialized ==> r == Ok::<i128, MarketError>(
                position_health_spec(self.cfg(), self.st(), *position, prices) as i128,
            ),
    {
        let config = match self.config {
            Some(c) => c,
            None => return Err(MarketError::NotInitialized),
        };
        let state = match self.state {
            Some(s) => s,
            None => return Err(MarketError::NotInitialized),
        };
        Ok(Self::health_factor_for_position(&config, &state, position, prices))
    }

    /// The treasury pauses the market.
    pub fn pause(&mut self, admin: Addr) -> (r: Result<(), MarketError>)
        requires
            old(self).wf(),
        ensures
            final(self).wf(),
            !old(self).initialized ==> r == Err::<(), _>(MarketError::NotInitialized),
            old(self).initialized && admin != old(self).cfg().treasury ==> r == Err::<(), _>(
                MarketError::Unauthorized,
            ),
            old(self).initialized && admin == old(self).cfg().treasury ==> r is Ok && *final(self)
                == (IsolatedMarketContract { paused: true, ..*old(self) }),
            r is Err ==> *final(self) == *old(self),
    {
        let config = match self.config {
            Some(c) => c,
            None => return Err(MarketError::NotInitialized),
        };
        if admin != config.treasury {
            return Err(MarketError::Unauthorized);
        }
        self.paused = true;
        Ok(())
    }

    /// The treasury lifts the pause.
    pub fn unpause(&mut self, admin: Addr) -> (r: Result<(), MarketError>)
        requires
            old(self).wf(),
        ensures
            final(self).wf(),
            !old(self).initialized ==> r == Err::<(), _>(MarketError::NotInitialized),
            old(self).initialized && admin != old(self).cfg().treasury ==> r == Err::<(), _>(
                MarketError::Unauthorized,
            ),
            old(self).initialized && admin == old(self).cfg().treasury ==> r is Ok && *final(self)
                == (IsolatedMarketContract { paused: false, ..*old(self) }),
            r is Err ==> *final(self) == *old(self),
    {
        let config = match self.config {
            Some(c) => c,
            None => return Err(MarketError::NotInitialized),
        };
        if admin != config.treasury {
            return Err(MarketError::Unauthorized);
        }
        self.paused = false;
        Ok(())
    }

    /// Whether `admin` may upgrade the market's code.
    pub fn upgrade(&self, admin: Addr) -> (r: Result<(), MarketError>)
        requires
            self.wf(),
        ensures
            r == (if !self.initialized {
                Err(MarketError::NotInitialized)
            } else if admin != self.cfg().treasury {
                Err(MarketError::Unauthorized)
            } else {
                Ok(())
            }),
    {
        let config = match self.config {
            Some(c) => c,
            None => return Err(MarketError::NotInitialized),
        };
        if admin != config.treasury {
            return Err(MarketError::Unauthorized);
        }
        Ok(())
    }
}

/// The totals after accrual, or `None` where accrual would overflow or lacks
/// the rates it needs.
pub fn checked_accrue(c: &IsolatedMarketConfig, s: &IsolatedMarketState, now: u64, rates: Option<
    RateSnapshot,
>) -> (r: Option<IsolatedMarketState>)
    requires
        config_valid(*c),
        state_wf(*s),
    ensures
        r == (if accrue_ok(*c, *s, now, rates) {
            Some(accrued(*c, *s, now, rates))
        } else {
            None
        }),
{
    if now <= s.last_update_timestamp {
        return Some(*s);
    }
    if s.total_borrow_assets == 0 {
        return Some(IsolatedMarketState { last_update_timestamp: now, ..*s });
    }
    let r = match rates {
        Some(r) => r,
        None => return None,
    };
    let elapsed = (now - s.last_update_timestamp) as i128;
    let p1 = match s.total_borrow_assets.checked_mul(r.borrow_rate) {
        Some(v) => v,
        None => return None,
    };
    let p2 = match p1.checked_mul(elapsed) {
        Some(v) => v,
        None => return None,
    };
    let interest = p2 / WAD / SECONDS_PER_YEAR;
    if interest <= 0 {
        return Some(IsolatedMarketState { last_update_timestamp: now, ..*s });
    }
    let fee = match checked_wad_mul(interest, c.reserve_factor) {
        Some(v) => v,
        None => return None,
    };
    let borrow = match s.total_borrow_assets.checked_add(interest) {
        Some(v) => v,
        None => return None,
    };
    let net = match interest.checked_sub(fee) {
        Some(v) => v,
        None => return None,
    };
    let supply = match s.total_supply_assets.checked_add(net) {
        Some(v) => v,
        None => return None,
    };
    let fees = match s.fee_assets.checked_add(fee) {
        Some(v) => v,
        None => return None,
    };
    Some(
        IsolatedMarketState {
            total_borrow_assets: borrow,
            total_supply_assets: supply,
            fee_assets: fees,
            last_update_timestamp: now,
            ..*s
        },
    )
}

/// Whether the virtual totals fit.
pub fn totals_computable(total_assets: i128, total_shares: i128) -> (b: bool)
    ensures
        b == totals_ok(total_assets as int, total_shares as int),
{
    total_assets >= 0 && total_shares >= 0 && total_assets < i128::MAX && total_shares
        <= i128::MAX - VIRTUAL_SHARES
}

/// Whether `to_shares` runs on these values.
pub fn to_shares_computable(assets: i128, total_assets: i128, total_shares: i128) -> (b: bool)
    ensures
        b == to_shares_ok(assets as int, total_assets as int, total_shares as int),
{
    totals_computable(total_assets, total_shares) && assets.checked_mul(
        total_shares + VIRTUAL_SHARES,
    ).is_some()
}

/// Whether `to_shares_rounded_up` runs on these values.
pub fn to_shares_up_computable(assets: i128, total_assets: i128, total_shares: i128) -> (b: bool)
    ensures
        b == to_shares_up_ok(assets as int, total_assets as int, total_shares as int),
{
    if !totals_computable(total_assets, total_shares) {
        return false;
    }
    match assets.checked_mul(total_shares + VIRTUAL_SHARES) {
        Some(p) => p.checked_add(total_assets + VIRTUAL_ASSETS - 1).is_some(),
        None => false,
    }
}

/// Whether `to_assets` runs on these values.
pub fn to_assets_computable(shares: i128, total_assets: i128, total_shares: i128) -> (b: bool)
    ensures
        b == to_assets_ok(shares as int, total_assets as int, total_shares as int),
{
    totals_computable(total_assets, total_shares) && shares.checked_mul(
        total_assets + VIRTUAL_ASSETS,
    ).is_some()
}

/// Whether `to_assets_rounded_up` runs on these values.
pub fn to_assets_up_computable(shares: i128, total_assets: i128, total_shares: i128) -> (b: bool)
    ensures
        b == to_assets_up_ok(shares as int, total_assets as int, total_shares as int),
{
    if !totals_computable(total_assets, total_shares) {
        return false;
    }
    match shares.checked_mul(total_assets + VIRTUAL_ASSETS) {
        Some(p) => p.checked_add(total_shares + VIRTUAL_SHARES - 1).is_some(),
        None => false,
    }
}

/// Whether the health of `p` is computable: its debt converts and, if there is
/// debt, prices are present and nothing overflows.
pub fn health_computable(
    c: &IsolatedMarketConfig,
    s: &IsolatedMarketState,
    p: &MarketPosition,
    prices: Option<MarketPrices>,
) -> (b: bool)
    ensures
        b == position_health_ok(*c, *s, *p, prices),
{
    if !to_assets_up_computable(p.borrow_shares, s.total_borrow_assets, s.total_borrow_shares) {
        return false;
    }
    let debt = to_assets_rounded_up(p.borrow_shares, s.total_borrow_assets, s.total_borrow_shares);
    if debt == 0 {
        return true;
    }
    let pr = match prices {
        Some(x) => x,
        None => return false,
    };
    let cv = match checked_wad_mul(p.collateral, pr.collateral_price) {
        Some(v) => v,
        None => return false,
    };
    let dv = match checked_wad_mul(debt, pr.loan_price) {
        Some(v) => v,
        None => return false,
    };
    if dv == 0 {
        return true;
    }
    match checked_wad_mul(cv, c.lltv) {
        Some(m) => checked_wad_div(m, dv).is_some(),
        None => false,
    }
}

impl IsolatedMarketContract {
    /// Whether `supply` runs on these values without overflow.
    pub fn supply_computable(
        &self,
        position: &MarketPosition,
        assets: i128,
        now: u64,
        rates: Option<RateSnapshot>,
    ) -> (b: bool)
        requires
            self.wf(),
        ensures
            b == self.supply_ok(*position, assets, now, rates),
    {
        if !self.initialized || self.paused || assets <= 0 {
            return true;
        }
        let c = self.config.unwrap();
        let st = self.state.unwrap();
        let s1 = match checked_accrue(&c, &st, now, rates) {
            Some(x) => x,
            None => return false,
        };
        proof {
            law_accrual_monotone(c, st, now, rates);
        }
        if s1.total_supply_assets.checked_add(assets).is_none() {
            return false;
        }
        if !to_shares_computable(assets, s1.total_supply_assets, s1.total_supply_shares) {
            return false;
        }
        let shares = to_shares(assets, s1.total_supply_assets, s1.total_supply_shares);
        position.supply_shares.checked_add(shares).is_some()
            && s1.total_supply_shares.checked_add(shares).is_some()
    }

    /// Whether `withdraw` runs on these values without overflow.
    pub fn withdraw_computable(&self, assets: i128, shares: i128, now: u64, rates: Option<
        RateSnapshot,
    >) -> (b: bool)
        requires
            self.wf(),
        ensures
            b == self.withdraw_ok(assets, shares, now, rates),
    {
        if !self.initialized || self.paused {
            return true;
        }
        let c = self.config.unwrap();
        let st = self.state.unwrap();
        let s1 = match checked_accrue(&c, &st, now, rates) {
            Some(x) => x,
            None => return false,
        };
        if assets > 0 && shares <= 0 {
            return to_shares_up_computable(assets, s1.total_supply_assets, s1.total_supply_shares);
        }
        if shares > 0 && assets <= 0 {
            return to_assets_computable(shares, s1.total_supply_assets, s1.total_supply_shares);
        }
        true
    }

    /// Whether `withdraw_collateral` runs on these values without overflow.
    pub fn withdraw_collateral_computable(
        &self,
        position: &MarketPosition,
        assets: i128,
        now: u64,
        rates: Option<RateSnapshot>,
        prices: Option<MarketPrices>,
    ) -> (b: bool)
        requires
            self.wf(),
            self.initialized ==> position_fits(self.st(), *position),
        ensures
            b == self.withdraw_collateral_ok(*position, assets, now, rates, prices),
    {
        if !self.initialized || self.paused || assets <= 0 {
            return true;
        }
        let c = self.config.unwrap();
        let st = self.state.unwrap();
        let s1 = match checked_accrue(&c, &st, now, rates) {
            Some(x) => x,
            None => return false,
        };
        if position.collateral < assets {
            return true;
        }
        let p1 = MarketPosition { collateral: position.collateral - assets, ..*position };
        health_computable(&c, &s1, &p1, prices)
    }
}

/// Interest accrual never lowers what borrowers owe, what lenders are owed or the
/// fee reserve, and leaves the totals stamped with the later of `now` and the
/// previous update.
pub proof fn law_accrual_monotone(
    c: IsolatedMarketConfig,
    s: IsolatedMarketState,
    now: u64,
    rates: Option<RateSnapshot>,
)
    requires
        config_valid(c),
        state_wf(s),
        accrue_ok(c, s, now, rates),
    ensures
        ({
            let a = accrued(c, s, now, rates);
            &&& a.total_borrow_assets >= s.total_borrow_assets
            &&& a.total_supply_assets >= s.total_supply_assets
            &&& a.fee_assets >= s.fee_assets
            &&& a.total_supply_shares == s.total_supply_shares
            &&& a.total_borrow_shares == s.total_borrow_shares
            &&& a.total_collateral == s.total_collateral
            &&& a.last_update_timestamp == if now > s.last_update_timestamp {
                now
            } else {
                s.last_update_timestamp
            }
        }),
{
    if now > s.last_update_timestamp && s.total_borrow_assets != 0 {
        let i = interest_spec(
            s.total_borrow_assets as int,
            rates->0.borrow_rate as int,
            now - s.last_update_timestamp,
        );
        if i > 0 {
            crate::math::lemma_wad_mul_fraction(i, c.reserve_factor as int);
        }
    }
}

/// Accrual is idempotent within a ledger: accruing again at the same time needs
/// no rates, cannot overflow and changes nothing, whatever the rate model says.
pub proof fn law_accrual_idempotent(
    c: IsolatedMarketConfig,
    s: IsolatedMarketState,
    now: u64,
    rates: Option<RateSnapshot>,
    again: Option<RateSnapshot>,
)
    ensures
        ({
            let a = accrued(c, s, now, rates);
            &&& !accrual_needs_rates(a, now)
            &&& accrue_ok(c, a, now, again)
            &&& accrued(c, a, now, again) == a
        }),
{
}

/// Accrued interest is split exactly: what borrowers now owe more equals what
/// lenders are owed more plus the protocol fee, and the fee is never more than
/// the interest.
pub proof fn law_accrual_interest_split(
    c: IsolatedMarketConfig,
    s: IsolatedMarketState,
    now: u64,
    rates: Option<RateSnapshot>,
)
    requires
        config_valid(c),
        state_wf(s),
        accrue_ok(c, s, now, rates),
    ensures
        ({
            let a = accrued(c, s, now, rates);
            &&& a.total_borrow_assets - s.total_borrow_assets == (a.total_supply_assets
                - s.total_supply_assets) + (a.fee_assets - s.fee_assets)
            &&& 0 <= a.fee_assets - s.fee_assets <= a.total_borrow_assets - s.total_borrow_assets
        }),
{
    if now > s.last_update_timestamp && s.total_borrow_assets != 0 {
        let i = interest_spec(
            s.total_borrow_assets as int,
            rates->0.borrow_rate as int,
            now - s.last_update_timestamp,
        );
        if i > 0 {
            crate::math::lemma_wad_mul_fraction(i, c.reserve_factor as int);
        }
    }
}

/// Converting assets to shares and back at fixed totals never yields more assets
/// than went in.
pub proof fn law_share_roundtrip_no_gain(assets: int, total_assets: int, total_shares: int)
    requires
        assets >= 0,
        total_assets >= 0,
        total_shares >= 0,
    ensures
        0 <= to_assets_spec(
            to_shares_spec(assets, total_assets, total_shares),
            total_assets,
            total_shares,
        ) <= assets,
{
    let a_v = total_assets + VIRTUAL_ASSETS;
    let s_v = total_shares + VIRTUAL_SHARES;
    let p = assets * s_v;
    assert(p >= 0) by (nonlinear_arith)
        requires
            p == assets * s_v,
            assets >= 0,
            s_v > 0,
    ;
    crate::math::lemma_tdiv_pos_bounds(p, a_v);
    let sh = to_shares_spec(assets, total_assets, total_shares);
    assert(sh * a_v <= p && sh >= 0);
    let p2 = sh * a_v;
    assert(p2 >= 0) by (nonlinear_arith)
        requires
            p2 == sh * a_v,
            sh >= 0,
            a_v > 0,
    ;
    crate::math::lemma_tdiv_pos_bounds(p2, s_v);
    let back = to_assets_spec(sh, total_assets, total_shares);
    assert(back <= assets) by (nonlinear_arith)
        requires
            back * s_v <= p2,
            p2 == sh * a_v,
            sh * a_v <= assets * s_v,
            s_v > 0,
    ;
}

/// A withdrawal by assets burns at least the shares a supply of the same assets
/// would mint, and at most one more; the shares it burns are worth at least
/// the assets paid out.
pub proof fn law_withdraw_rounds_up(assets: int, total_assets: int, total_shares: int)
    requires
        assets >= 0,
        total_assets >= 0,
        total_shares >= 0,
    ensures
        to_shares_spec(assets, total_assets, total_shares) <= to_shares_up_spec(
            assets,
            total_assets,
            total_shares,
        ) <= to_shares_spec(assets, total_assets, total_shares) + 1,
        to_assets_spec(
            to_shares_up_spec(assets, total_assets, total_shares),
            total_assets,
            total_shares,
        ) >= assets,
{
    let a_v = total_assets + VIRTUAL_ASSETS;
    let s_v = total_shares + VIRTUAL_SHARES;
    assert(assets * s_v >= 0) by (nonlinear_arith)
        requires
            assets >= 0,
            s_v > 0,
    ;
    crate::math::law_mul_div_rounding(assets, s_v, a_v);
    let up = to_shares_up_spec(assets, total_assets, total_shares);
    assert(up >= 0);
    let p2 = up * a_v;
    assert(p2 >= 0) by (nonlinear_arith)
        requires
            p2 == up * a_v,
            up >= 0,
            a_v > 0,
    ;
    crate::math::lemma_tdiv_pos_bounds(p2, s_v);
    let back = to_assets_spec(up, total_assets, total_shares);
    assert(back >= assets) by (nonlinear_arith)
        requires
            p2 < back * s_v + s_v,
            p2 == up * a_v,
            assets * s_v <= up * a_v,
            s_v > 0,
    ;
}

} // verus!
