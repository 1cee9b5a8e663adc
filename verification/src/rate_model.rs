//! Kinked two-slope interest rate model.
//!
//! ```text
//! U = total_borrowed / total_supplied                       (WAD)
//! U <= U_opt : borrow = base + slope1 * (U / U_opt)
//! U >  U_opt : borrow = base + slope1 + slope2 * (U - U_opt) / (1 - U_opt)
//! supply = borrow * U * (1 - reserve_factor)
//! ```
//! All rates are annualised and WAD-scaled (1e18 = 100% APR).
use vstd::prelude::*;
use crate::ids::Addr;
use crate::math::{
    fits, law_utilization_bounded, lemma_wad_div_monotone, lemma_wad_mul_fraction,
    lemma_wad_mul_monotone, utilization, utilization_spec, wad_div, wad_div_ok, wad_div_spec, wad_mul, wad_mul_ok,
    wad_mul_spec, checked_wad_div, checked_wad_mul, WAD,
};

verus! {

/// Parameters of the kinked curve, all WAD-scaled.
#[derive(Clone, Copy, Debug, PartialEq, Eq, Structural)]
pub struct RateModelConfig {
    /// Annual base borrow rate at zero utilization.
    pub base_rate: i128,
    /// Rate added as utilization moves from 0 to the kink.
    pub slope1: i128,
    /// Steep rate added above the kink.
    pub slope2: i128,
    /// Utilization point where the slope kinks.
    pub optimal_utilization: i128,
    /// Fraction of borrow interest kept as protocol reserves.
    pub reserve_factor: i128,
}

/// Rates at a given utilization.
#[derive(Clone, Copy, Debug, PartialEq, Eq, Structural)]
pub struct RateSnapshot {
    pub borrow_rate: i128,
    pub supply_rate: i128,
    pub utilization: i128,
}

#[derive(Clone, Copy, Debug, PartialEq, Eq, Structural)]
pub enum RateModelError {
    AlreadyInitialized,
    NotInitialized,
    Unauthorized,
    InvalidUtilization,
    InvalidOptimalUtilization,
    InvalidReserveFactor,
    ZeroSupply,
}

/// Event published when the curve parameters change.
#[derive(Clone, Copy, Debug, PartialEq, Eq, Structural)]
pub struct EventConfigUpdated {}

/// The first rule a configuration breaks, if any.
pub open spec fn config_error(c: RateModelConfig) -> Option<RateModelError> {
    if c.optimal_utilization <= 0 || c.optimal_utilization >= WAD {
        Some(RateModelError::InvalidOptimalUtilization)
    } else if c.reserve_factor < 0 || c.reserve_factor >= WAD {
        Some(RateModelError::InvalidReserveFactor)
    } else {
        None
    }
}

pub open spec fn valid_config(c: RateModelConfig) -> bool {
    config_error(c) is None
}

/// The borrow rate of the curve at utilization `u`.
pub open spec fn borrow_rate_spec(c: RateModelConfig, u: int) -> int {
    if u <= c.optimal_utilization {
        c.base_rate + wad_mul_spec(c.slope1 as int, wad_div_spec(u, c.optimal_utilization as int))
    } else {
        c.base_rate + c.slope1 + wad_mul_spec(
            c.slope2 as int,
            wad_div_spec(u - c.optimal_utilization, WAD - c.optimal_utilization),
        )
    }
}

/// No step of the borrow-rate computation overflows or divides by zero.
pub open spec fn borrow_rate_ok(c: RateModelConfig, u: int) -> bool {
    if u <= c.optimal_utilization {
        let d = wad_div_spec(u, c.optimal_utilization as int);
        &&& wad_div_ok(u, c.optimal_utilization as int)
        &&& wad_mul_ok(c.slope1 as int, d)
        &&& fits(c.base_rate + wad_mul_spec(c.slope1 as int, d))
    } else {
        let d = wad_div_spec(u - c.optimal_utilization, WAD - c.optimal_utilization);
        &&& fits(u - c.optimal_utilization)
        &&& fits(WAD - c.optimal_utilization)
        &&& wad_div_ok(u - c.optimal_utilization, WAD - c.optimal_utilization)
        &&& wad_mul_ok(c.slope2 as int, d)
        &&& fits(c.base_rate + c.slope1)
        &&& fits(c.base_rate + c.slope1 + wad_mul_spec(c.slope2 as int, d))
    }
}

/// The supply rate for a borrow rate at utilization `u`.
pub open spec fn supply_rate_spec(c: RateModelConfig, borrow_rate: int, u: int) -> int {
    wad_mul_spec(wad_mul_spec(borrow_rate, u), WAD - c.reserve_factor)
}

pub open spec fn supply_rate_ok(c: RateModelConfig, borrow_rate: int, u: int) -> bool {
    &&& wad_mul_ok(borrow_rate, u)
    &&& fits(WAD - c.reserve_factor)
    &&& wad_mul_ok(wad_mul_spec(borrow_rate, u), WAD - c.reserve_factor)
}

/// Both rates at utilization `u` are computable without overflow.
pub open spec fn rates_ok(c: RateModelConfig, u: int) -> bool {
    borrow_rate_ok(c, u) && supply_rate_ok(c, borrow_rate_spec(c, u), u)
}

/// The borrow rate at `utilization`, or `None` where computing it would
/// overflow or divide by zero.
pub fn checked_borrow_rate(config: &RateModelConfig, utilization: i128) -> (r: Option<i128>)
    ensures
        r == (if borrow_rate_ok(*config, utilization as int) {
            Some(borrow_rate_spec(*config, utilization as int) as i128)
        } else {
            None
        }),
{
    if utilization <= config.optimal_utilization {
        let d = match checked_wad_div(utilization, config.optimal_utilization) {
            Some(d) => d,
            None => return None,
        };
        let additional = match checked_wad_mul(config.slope1, d) {
            Some(a) => a,
            None => return None,
        };
        config.base_rate.checked_add(additional)
    } else {
        let num = match utilization.checked_sub(config.optimal_utilization) {
            Some(n) => n,
            None => return None,
        };
        let den = match WAD.checked_sub(config.optimal_utilization) {
            Some(n) => n,
            None => return None,
        };
        let excess_u = match checked_wad_div(num, den) {
            Some(e) => e,
            None => return None,
        };
        let additional = match checked_wad_mul(config.slope2, excess_u) {
            Some(a) => a,
            None => return None,
        };
        let base = match config.base_rate.checked_add(config.slope1) {
            Some(b) => b,
            None => return None,
        };
        base.checked_add(additional)
    }
}

/// The supply rate for `borrow_rate` at `utilization`, or `None` where
/// computing it would overflow.
pub fn checked_supply_rate(config: &RateModelConfig, borrow_rate: i128, utilization: i128) -> (r:
    Option<i128>)
    ensures
        r == (if supply_rate_ok(*config, borrow_rate as int, utilization as int) {
            Some(supply_rate_spec(*config, borrow_rate as int, utilization as int) as i128)
        } else {
            None
        }),
{
    let gross = match checked_wad_mul(borrow_rate, utilization) {
        Some(g) => g,
        None => return None,
    };
    let keep = match WAD.checked_sub(config.reserve_factor) {
        Some(k) => k,
        None => return None,
    };
    checked_wad_mul(gross, keep)
}

/// Whether both rates at `utilization` are computable.
pub fn rates_computable(config: &RateModelConfig, utilization: i128) -> (b: bool)
    ensures
        b == rates_ok(*config, utilization as int),
{
    match checked_borrow_rate(config, utilization) {
        Some(br) => checked_supply_rate(config, br, utilization).is_some(),
        None => false,
    }
}

/// Compute the annualised borrow rate for a given utilization (both WAD-scaled).
pub fn compute_borrow_rate(config: &RateModelConfig, utilization: i128) -> (r: i128)
    requires
        borrow_rate_ok(*config, utilization as int),
    ensures
        r == borrow_rate_spec(*config, utilization as int),
{
    if utilization <= config.optimal_utilization {
        let additional = wad_mul(config.slope1, wad_div(utilization, config.optimal_utilization));
        config.base_rate + additional
    } else {
        let excess_u = wad_div(
            utilization - config.optimal_utilization,
            WAD - config.optimal_utilization,
        );
        let additional = wad_mul(config.slope2, excess_u);
        config.base_rate + config.slope1 + additional
    }
}

/// Compute the annualised supply rate: borrow_rate * utilization * (1 - reserve_factor).
pub fn compute_supply_rate(config: &RateModelConfig, borrow_rate: i128, utilization: i128) -> (r:
    i128)
    requires
        supply_rate_ok(*config, borrow_rate as int, utilization as int),
    ensures
        r == supply_rate_spec(*config, borrow_rate as int, utilization as int),
{
    let gross = wad_mul(borrow_rate, utilization);
    wad_mul(gross, WAD - config.reserve_factor)
}

/// The rate model's stored values.
pub struct RateModelContract {
    pub initialized: bool,
    pub admin: Option<Addr>,
    pub config: Option<RateModelConfig>,
}

impl RateModelContract {
    /// Once initialised, an admin and a valid configuration are stored.
    pub open spec fn wf(&self) -> bool {
        self.initialized ==> {
            &&& self.admin is Some
            &&& self.config is Some
            &&& valid_config(self.config->0)
        }
    }

    /// Nothing stored yet: the state of a freshly deployed contract.
    pub fn fresh() -> (r: Self)
        ensures
            !r.initialized,
            r.admin is None,
            r.config is None,
            r.wf(),
    {
        RateModelContract { initialized: false, admin: None, config: None }
    }

    /// Check the curve parameters.
    pub fn validate_config(config: &RateModelConfig) -> (r: Result<(), RateModelError>)
        ensures
            r == (match config_error(*config) {
                Some(e) => Err(e),
                None => Ok(()),
            }),
    {
        if config.optimal_utilization <= 0 || config.optimal_utilization >= WAD {
            return Err(RateModelError::InvalidOptimalUtilization);
        }
        if config.reserve_factor < 0 || config.reserve_factor >= WAD {
            return Err(RateModelError::InvalidReserveFactor);
        }
        Ok(())
    }

    /// Initialise the rate model with an admin and initial curve parameters.
    pub fn initialize(&mut self, admin: Addr, config: RateModelConfig) -> (r: Result<
        (),
        RateModelError,
    >)
        requires
            old(self).wf(),
        ensures
            final(self).wf(),
            old(self).initialized ==> r == Err::<(), _>(RateModelError::AlreadyInitialized),
            !old(self).initialized ==> r == (match config_error(config) {
                Some(e) => Err(e),
                None => Ok(()),
            }),
            r is Ok ==> final(self).initialized && final(self).admin == Some(admin)
                && final(self).config == Some(config),
            r is Err ==> *final(self) == *old(self),
    {
        if self.initialized {
            return Err(RateModelError::AlreadyInitialized);
        }
        Self::validate_config(&config)?;
        self.admin = Some(admin);
        self.config = Some(config);
        self.initialized = true;
        Ok(())
    }

    /// The borrow APR at `utilization_wad`, which must lie in [0, WAD].
    pub fn get_borrow_rate(&self, utilization_wad: i128) -> (r: Result<i128, RateModelError>)
        requires
            self.wf(),
            self.initialized && 0 <= utilization_wad <= WAD ==> borrow_rate_ok(
                self.config->0,
                utilization_wad as int,
            ),
        ensures
            !self.initialized ==> r == Err::<i128, _>(RateModelError::NotInitialized),
            self.initialized && !(0 <= utilization_wad <= WAD) ==> r == Err::<i128, _>(
                RateModelError::InvalidUtilization,
            ),
            self.initialized && 0 <= utilization_wad <= WAD ==> r == Ok::<i128, RateModelError>(
                borrow_rate_spec(self.config->0, utilization_wad as int) as i128,
            ),
    {
        if !self.initialized {
            return Err(RateModelError::NotInitialized);
        }
        if !(0 <= utilization_wad && utilization_wad <= WAD) {
            return Err(RateModelError::InvalidUtilization);
        }
        let config = self.config.unwrap();
        Ok(compute_borrow_rate(&config, utilization_wad))
    }

    /// The supply APY at `utilization_wad`, which must lie in [0, WAD].
    pub fn get_supply_rate(&self, utilization_wad: i128) -> (r: Result<i128, RateModelError>)
        requires
            self.wf(),
            self.initialized && 0 <= utilization_wad <= WAD ==> rates_ok(
                self.config->0,
                utilization_wad as int,
            ),
        ensures
            !self.initialized ==> r == Err::<i128, _>(RateModelError::NotInitialized),
            self.initialized && !(0 <= utilization_wad <= WAD) ==> r == Err::<i128, _>(
                RateModelError::InvalidUtilization,
            ),
            self.initialized && 0 <= utilization_wad <= WAD ==> r == Ok::<i128, RateModelError>(
                supply_rate_spec(
                    self.config->0,
                    borrow_rate_spec(self.config->0, utilization_wad as int),
                    utilization_wad as int,
                ) as i128,
            ),
    {
        if !self.initialized {
            return Err(RateModelError::NotInitialized);
        }
        if !(0 <= utilization_wad && utilization_wad <= WAD) {
            return Err(RateModelError::InvalidUtilization);
        }
        let config = self.config.unwrap();
        let borrow_rate = compute_borrow_rate(&config, utilization_wad);
        Ok(compute_supply_rate(&config, borrow_rate, utilization_wad))
    }

    /// Utilization and both rates for raw market totals.
    pub fn get_rates(&self, total_borrowed: i128, total_supplied: i128) -> (r: Result<
        RateSnapshot,
        RateModelError,
    >)
        requires
            self.wf(),
            self.initialized && total_supplied != 0 ==> {
                &&& wad_div_ok(total_borrowed as int, total_supplied as int)
                &&& rates_ok(
                    self.config->0,
                    utilization_spec(total_borrowed as int, total_supplied as int),
                )
            },
        ensures
            !self.initialized ==> r == Err::<RateSnapshot, _>(RateModelError::NotInitialized),
            self.initialized && total_supplied == 0 ==> r == Err::<RateSnapshot, _>(
                RateModelError::ZeroSupply,
            ),
            self.initialized && total_supplied != 0 ==> ({
                let c = self.config->0;
                let u = utilization_spec(total_borrowed as int, total_supplied as int);
                r == Ok::<RateSnapshot, RateModelError>(
                    RateSnapshot {
                        borrow_rate: borrow_rate_spec(c, u) as i128,
                        supply_rate: supply_rate_spec(c, borrow_rate_spec(c, u), u) as i128,
                        utilization: u as i128,
                    },
                )
            }),
    {
        if !self.initialized {
            return Err(RateModelError::NotInitialized);
        }
        if total_supplied == 0 {
            return Err(RateModelError::ZeroSupply);
        }
        let utilization_wad = utilization(total_borrowed, total_supplied);
        let config = self.config.unwrap();
        let borrow_rate = compute_borrow_rate(&config, utilization_wad);
        let supply_rate = compute_supply_rate(&config, borrow_rate, utilization_wad);
        Ok(RateSnapshot { borrow_rate, supply_rate, utilization: utilization_wad })
    }

    /// Replace the curve parameters (the admin authorises the call).
    pub fn update_config(&mut self, config: RateModelConfig) -> (r: Result<(), RateModelError>)
        requires
            old(self).wf(),
        ensures
            final(self).wf(),
            !old(self).initialized ==> r == Err::<(), _>(RateModelError::NotInitialized),
            old(self).initialized ==> r == (match config_error(config) {
                Some(e) => Err(e),
                None => Ok(()),
            }),
            r is Ok ==> *final(self) == (RateModelContract { config: Some(config), ..*old(self) }),
            r is Err ==> *final(self) == *old(self),
    {
        if !self.initialized {
            return Err(RateModelError::NotInitialized);
        }
        Self::validate_config(&config)?;
        self.config = Some(config);
        Ok(())
    }

    /// Hand admin rights to `new_admin` (the current admin authorises the call).
    pub fn transfer_admin(&mut self, new_admin: Addr) -> (r: Result<(), RateModelError>)
        requires
            old(self).wf(),
        ensures
            final(self).wf(),
            !old(self).initialized ==> r == Err::<(), _>(RateModelError::NotInitialized)
                && *final(self) == *old(self),
            old(self).initialized ==> r is Ok && *final(self) == (RateModelContract {
                admin: Some(new_admin),
                ..*old(self)
            }),
    {
        if !self.initialized {
            return Err(RateModelError::NotInitialized);
        }
        self.admin = Some(new_admin);
        Ok(())
    }

    /// Whether a code upgrade may proceed (the admin authorises it).
    pub fn upgrade(&self) -> (r: Result<(), RateModelError>)
        ensures
            r == (if self.initialized {
                Ok(())
            } else {
                Err(RateModelError::NotInitialized)
            }),
    {
        if !self.initialized {
            return Err(RateModelError::NotInitialized);
        }
        Ok(())
    }

    /// The stored curve parameters.
    pub fn config(&self) -> (r: RateModelConfig)
        requires
            self.config is Some,
        ensures
            r == self.config->0,
    {
        self.config.unwrap()
    }

    /// The stored admin.
    pub fn admin(&self) -> (r: Addr)
        requires
            self.admin is Some,
        ensures
            r == self.admin->0,
    {
        self.admin.unwrap()
    }
}


/// With non-negative slopes the borrow rate never falls as utilization rises
/// across [0, WAD], through the kink included.
pub proof fn law_borrow_rate_monotone(c: RateModelConfig, u1: int, u2: int)
    requires
        valid_config(c),
        c.slope1 >= 0,
        c.slope2 >= 0,
        0 <= u1 <= u2 <= WAD,
    ensures
        borrow_rate_spec(c, u1) <= borrow_rate_spec(c, u2),
{
    let opt = c.optimal_utilization as int;
    if u1 <= opt {
        lemma_wad_div_monotone(u1, if u2 <= opt { u2 } else { opt }, opt);
        law_utilization_bounded(u1, opt);
        if u2 <= opt {
            law_utilization_bounded(u2, opt);
            lemma_wad_mul_monotone(
                c.slope1 as int,
                wad_div_spec(u1, opt),
                wad_div_spec(u2, opt),
            );
        } else {
            lemma_wad_mul_fraction(c.slope1 as int, wad_div_spec(u1, opt));
            lemma_wad_div_monotone(0, u2 - opt, WAD - opt);
            lemma_wad_mul_monotone(c.slope2 as int, 0, wad_div_spec(u2 - opt, WAD - opt));
        }
    } else {
        lemma_wad_div_monotone(u1 - opt, u2 - opt, WAD - opt);
        lemma_wad_mul_monotone(
            c.slope2 as int,
            wad_div_spec(u1 - opt, WAD - opt),
            wad_div_spec(u2 - opt, WAD - opt),
        );
    }
}

/// Lenders never earn more than borrowers pay: for a non-negative borrow rate and a
/// utilization in [0, WAD], the supply rate lies between zero and the borrow rate.
pub proof fn law_supply_rate_at_most_borrow_rate(c: RateModelConfig, borrow_rate: int, u: int)
    requires
        valid_config(c),
        borrow_rate >= 0,
        0 <= u <= WAD,
    ensures
        0 <= supply_rate_spec(c, borrow_rate, u) <= borrow_rate,
{
    lemma_wad_mul_fraction(borrow_rate, u);
    lemma_wad_mul_fraction(wad_mul_spec(borrow_rate, u), WAD - c.reserve_factor);
}

/// The supply rate is the borrow rate times the utilization times the share
/// of interest lenders keep, `1 - reserve_factor`, for every utilization (above
/// the kink too), to within the rounding of the two WAD products:
/// `(s - 1) * WAD^2 <= borrow_rate * u * (WAD - reserve_factor) <= (s + 1) * WAD^2`.
pub proof fn law_supply_rate_is_product(c: RateModelConfig, borrow_rate: int, u: int)
    requires
        valid_config(c),
        borrow_rate >= 0,
        u >= 0,
    ensures
        ({
            let s = supply_rate_spec(c, borrow_rate, u);
            let k = WAD - c.reserve_factor;
            (s - 1) * (WAD * WAD) <= borrow_rate * u * k <= (s + 1) * (WAD * WAD)
        }),
{
    let w = WAD as int;
    let h = crate::math::HALF_WAD as int;
    let k = WAD - c.reserve_factor;
    assert(0 < k <= w);
    let p = borrow_rate * u;
    assert(p >= 0) by (nonlinear_arith)
        requires
            borrow_rate >= 0,
            u >= 0,
            p == borrow_rate * u,
    ;
    crate::math::lemma_tdiv_pos_bounds(p + h, w);
    let g = wad_mul_spec(borrow_rate, u);
    assert(g * w <= p + h < g * w + w);
    assert(g >= 0);
    let q = g * k;
    assert(q >= 0) by (nonlinear_arith)
        requires
            g >= 0,
            k > 0,
            q == g * k,
    ;
    crate::math::lemma_tdiv_pos_bounds(q + h, w);
    let s = wad_mul_spec(g, k);
    assert(s * w <= q + h < s * w + w);
    assert(s == supply_rate_spec(c, borrow_rate, u));
    assert(p * k >= (g * w - h) * k && p * k <= (g * w + h) * k) by (nonlinear_arith)
        requires
            g * w - h <= p,
            p <= g * w + h,
            k > 0,
    ;
    assert((g * w - h) * k == q * w - h * k && (g * w + h) * k == q * w + h * k)
        by (nonlinear_arith)
        requires
            q == g * k,
    ;
    assert(q * w >= (s * w - h) * w && q * w <= (s * w + h) * w) by (nonlinear_arith)
        requires
            s * w - h <= q,
            q <= s * w + h,
            w > 0,
    ;
    assert(h * k <= h * w) by (nonlinear_arith)
        requires
            0 < k <= w,
            h > 0,
    ;
    assert(w == 2 * h);
    assert((s * w - h) * w - h * w == (s - 1) * (w * w) && (s * w + h) * w + h * w == (s + 1) * (
    w * w)) by (nonlinear_arith)
        requires
            w == 2 * h,
    ;
    assert(borrow_rate * u * k == p * k);
}

} // verus!
