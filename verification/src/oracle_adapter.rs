//! Safe wrapper over SEP-40 price feeds.
//!
//! Resolving a price goes in three steps, with the feed consulted between them:
//! 1. `resolve_source` — per-asset override, else the default feed and staleness;
//! 2. the feed's `lastprice` is checked by `validate_observation` (present,
//!    positive, not older than the staleness limit);
//! 3. the feed's `decimals` feed `resolve_price`, which normalises to WAD and
//!    applies the asset's optional sanity bounds.
use vstd::prelude::*;
use crate::ids::Addr;
use crate::math::{normalise_ok, normalise_to_wad, normalise_to_wad_spec};

verus! {

/// A raw price observation of a SEP-40 feed.
#[derive(Clone, Copy, Debug, PartialEq, Eq, Structural)]
pub struct PriceData {
    pub price: i128,
    pub timestamp: u64,
}

/// A validated, WAD-normalised price.
#[derive(Clone, Copy, Debug, PartialEq, Eq, Structural)]
pub struct ResolvedPrice {
    pub price_wad: i128,
    pub timestamp: u64,
    pub source: Addr,
}

/// Per-asset feed override.
#[derive(Clone, Copy, Debug, PartialEq, Eq, Structural)]
pub struct PriceSource {
    pub oracle: Addr,
    pub max_staleness: u64,
}

/// Optional WAD-scaled sanity bounds; 0 disables a side.
#[derive(Clone, Copy, Debug, PartialEq, Eq, Structural)]
pub struct PriceBounds {
    pub min_price_wad: i128,
    pub max_price_wad: i128,
}

#[derive(Clone, Copy, Debug, PartialEq, Eq, Structural)]
pub enum OracleError {
    AlreadyInitialized,
    NotInitialized,
    Unauthorized,
    NoPriceSource,
    NoPrice,
    StalePrice,
    InvalidPrice,
    InvalidStaleness,
    PriceOutOfBounds,
    InvalidBounds,
}

/// `now - timestamp`, or 0 when the observation lies in the future.
pub open spec fn age_spec(now: u64, timestamp: u64) -> int {
    if now >= timestamp { now - timestamp } else { 0 }
}

/// Bounds are well formed: neither is negative, and when both are set min does
/// not exceed max.
pub open spec fn bounds_valid(min_price_wad: int, max_price_wad: int) -> bool {
    &&& min_price_wad >= 0
    &&& max_price_wad >= 0
    &&& !(min_price_wad > 0 && max_price_wad > 0 && min_price_wad > max_price_wad)
}

/// A price passes the (optional) bounds of its asset.
pub open spec fn within_bounds(bounds: Option<PriceBounds>, price_wad: int) -> bool {
    match bounds {
        Some(b) => !(b.min_price_wad > 0 && price_wad < b.min_price_wad) && !(b.max_price_wad > 0
            && price_wad > b.max_price_wad),
        None => true,
    }
}

/// The adapter's stored configuration.
pub struct OracleAdapterContract {
    pub initialized: bool,
    pub admin: Option<Addr>,
    pub default_oracle: Option<Addr>,
    pub default_max_staleness: Option<u64>,
}

impl OracleAdapterContract {
    /// Once initialised, an admin, a default feed and a positive staleness are stored.
    pub open spec fn wf(&self) -> bool {
        self.initialized ==> {
            &&& self.admin is Some
            &&& self.default_oracle is Some
            &&& self.default_max_staleness is Some
            &&& self.default_max_staleness->0 > 0
        }
    }

    /// Nothing stored yet.
    pub fn fresh() -> (r: Self)
        ensures
            !r.initialized && r.admin is None && r.default_oracle is None
                && r.default_max_staleness is None,
            r.wf(),
    {
        OracleAdapterContract {
            initialized: false,
            admin: None,
            default_oracle: None,
            default_max_staleness: None,
        }
    }

    /// Initialise with an admin, a default feed and a default staleness limit.
    pub fn initialize(&mut self, admin: Addr, default_oracle: Addr, default_max_staleness: u64) -> (r:
        Result<(), OracleError>)
        requires
            old(self).wf(),
        ensures
            final(self).wf(),
            old(self).initialized ==> r == Err::<(), _>(OracleError::AlreadyInitialized),
            !old(self).initialized && default_max_staleness == 0 ==> r == Err::<(), _>(
                OracleError::InvalidStaleness,
            ),
            !old(self).initialized && default_max_staleness > 0 ==> r is Ok && *final(self) == (
            OracleAdapterContract {
                initialized: true,
                admin: Some(admin),
                default_oracle: Some(default_oracle),
                default_max_staleness: Some(default_max_staleness),
            }),
            r is Err ==> *final(self) == *old(self),
    {
        if self.initialized {
            return Err(OracleError::AlreadyInitialized);
        }
        if default_max_staleness == 0 {
            return Err(OracleError::InvalidStaleness);
        }
        self.admin = Some(admin);
        self.default_oracle = Some(default_oracle);
        self.default_max_staleness = Some(default_max_staleness);
        self.initialized = true;
        Ok(())
    }

    /// Which feed and staleness limit price an asset: its override if it has one,
    /// otherwise the defaults.
    pub fn resolve_source(&self, asset_source: Option<PriceSource>) -> (r: Result<
        (Addr, u64),
        OracleError,
    >)
        ensures
            !self.initialized ==> r == Err::<(Addr, u64), _>(OracleError::NotInitialized),
            self.initialized ==> r == (match asset_source {
                Some(s) => Ok((s.oracle, s.max_staleness)),
                None => if self.default_oracle is Some && self.default_max_staleness is Some {
                    Ok((self.default_oracle->0, self.default_max_staleness->0))
                } else {
                    Err(OracleError::NoPriceSource)
                },
            }),
    {
        if !self.initialized {
            return Err(OracleError::NotInitialized);
        }
        if let Some(source) = asset_source {
            return Ok((source.oracle, source.max_staleness));
        }
        match (self.default_oracle, self.default_max_staleness) {
            (Some(oracle), Some(max_staleness)) => Ok((oracle, max_staleness)),
            _ => Err(OracleError::NoPriceSource),
        }
    }

    /// Check a feed's latest observation: present, positive, and fresh enough.
    pub fn validate_observation(observation: Option<PriceData>, now: u64, max_staleness: u64) -> (r:
        Result<PriceData, OracleError>)
        ensures
            r == (match observation {
                None => Err(OracleError::NoPrice),
                Some(d) => if d.price <= 0 {
                    Err(OracleError::InvalidPrice)
                } else if age_spec(now, d.timestamp) > max_staleness {
                    Err(OracleError::StalePrice)
                } else {
                    Ok(d)
                },
            }),
    {
        let price_data = match observation {
            Some(d) => d,
            None => return Err(OracleError::NoPrice),
        };
        if price_data.price <= 0 {
            return Err(OracleError::InvalidPrice);
        }
        let age = now.saturating_sub(price_data.timestamp);
        if age > max_staleness {
            return Err(OracleError::StalePrice);
        }
        Ok(price_data)
    }

    /// Normalise a validated observation to WAD and apply the asset's bounds.
    pub fn resolve_price(
        observation: PriceData,
        decimals: u32,
        bounds: Option<PriceBounds>,
        oracle: Addr,
    ) -> (r: Result<ResolvedPrice, OracleError>)
        requires
            normalise_ok(observation.price as int, decimals as nat),
        ensures
            ({
                let p = normalise_to_wad_spec(observation.price as int, decimals as nat);
                r == if within_bounds(bounds, p) {
                    Ok(
                        ResolvedPrice {
                            price_wad: p as i128,
                            timestamp: observation.timestamp,
                            source: oracle,
                        },
                    )
                } else {
                    Err(OracleError::PriceOutOfBounds)
                }
            }),
    {
        let price_wad = normalise_to_wad(observation.price, decimals);
        Self::validate_price_bounds(bounds, price_wad)?;
        Ok(ResolvedPrice { price_wad, timestamp: observation.timestamp, source: oracle })
    }

    /// What resolving an asset's price gives: the source as `resolve_source`
    /// picks it, the observation `observation` of that source's feed checked at
    /// `now`, then normalised with the feed's `decimals` and bounded.
    pub open spec fn price_result(
        &self,
        asset_source: Option<PriceSource>,
        observation: Option<PriceData>,
        now: u64,
        decimals: u32,
        bounds: Option<PriceBounds>,
    ) -> Result<ResolvedPrice, OracleError> {
        if !self.initialized {
            Err(OracleError::NotInitialized)
        } else {
            let src: Result<(Addr, u64), OracleError> = match asset_source {
                Some(s) => Ok((s.oracle, s.max_staleness)),
                None => if self.default_oracle is Some && self.default_max_staleness is Some {
                    Ok((self.default_oracle->0, self.default_max_staleness->0))
                } else {
                    Err(OracleError::NoPriceSource)
                },
            };
            match src {
                Err(e) => Err(e),
                Ok((oracle, max_staleness)) => match observation {
                    None => Err(OracleError::NoPrice),
                    Some(d) => if d.price <= 0 {
                        Err(OracleError::InvalidPrice)
                    } else if age_spec(now, d.timestamp) > max_staleness {
                        Err(OracleError::StalePrice)
                    } else {
                        let p = normalise_to_wad_spec(d.price as int, decimals as nat);
                        if within_bounds(bounds, p) {
                            Ok(
                                ResolvedPrice {
                                    price_wad: p as i128,
                                    timestamp: d.timestamp,
                                    source: oracle,
                                },
                            )
                        } else {
                            Err(OracleError::PriceOutOfBounds)
                        }
                    },
                },
            }
        }
    }

    /// The whole price resolution for an asset, given its override, the
    /// resolved feed's latest observation and decimals, and the asset's bounds.
    pub fn get_price(
        &self,
        asset_source: Option<PriceSource>,
        observation: Option<PriceData>,
        now: u64,
        decimals: u32,
        bounds: Option<PriceBounds>,
    ) -> (r: Result<ResolvedPrice, OracleError>)
        requires
            observation is Some && observation->0.price > 0 ==> normalise_ok(
                observation->0.price as int,
                decimals as nat,
            ),
        ensures
            r == self.price_result(asset_source, observation, now, decimals, bounds),
    {
        let (oracle, max_staleness) = self.resolve_source(asset_source)?;
        let data = Self::validate_observation(observation, now, max_staleness)?;
        Self::resolve_price(data, decimals, bounds, oracle)
    }

    /// Whether a live, fresh, in-bounds price is available.
    pub fn has_price(
        &self,
        asset_source: Option<PriceSource>,
        observation: Option<PriceData>,
        now: u64,
        decimals: u32,
        bounds: Option<PriceBounds>,
    ) -> (r: bool)
        requires
            observation is Some && observation->0.price > 0 ==> normalise_ok(
                observation->0.price as int,
                decimals as nat,
            ),
        ensures
            r == self.price_result(asset_source, observation, now, decimals, bounds) is Ok,
    {
        self.get_price(asset_source, observation, now, decimals, bounds).is_ok()
    }

    /// Reject malformed sanity bounds.
    pub fn validate_bounds(min_price_wad: i128, max_price_wad: i128) -> (r: Result<(), OracleError>)
        ensures
            r == (if bounds_valid(min_price_wad as int, max_price_wad as int) {
                Ok(())
            } else {
                Err(OracleError::InvalidBounds)
            }),
    {
        if min_price_wad < 0 || max_price_wad < 0 {
            return Err(OracleError::InvalidBounds);
        }
        if min_price_wad > 0 && max_price_wad > 0 && min_price_wad > max_price_wad {
            return Err(OracleError::InvalidBounds);
        }
        Ok(())
    }

    /// Reject a price outside the asset's configured bounds.
    pub fn validate_price_bounds(bounds: Option<PriceBounds>, price_wad: i128) -> (r: Result<
        (),
        OracleError,
    >)
        ensures
            r == (if within_bounds(bounds, price_wad as int) {
                Ok(())
            } else {
                Err(OracleError::PriceOutOfBounds)
            }),
    {
        if let Some(b) = bounds {
            if b.min_price_wad > 0 && price_wad < b.min_price_wad {
                return Err(OracleError::PriceOutOfBounds);
            }
            if b.max_price_wad > 0 && price_wad > b.max_price_wad {
                return Err(OracleError::PriceOutOfBounds);
            }
        }
        Ok(())
    }

    /// Point the default feed elsewhere; returns the previous default.
    pub fn set_default_oracle(&mut self, new_oracle: Addr) -> (r: Result<Option<Addr>, OracleError>)
        requires
            old(self).wf(),
        ensures
            final(self).wf(),
            !old(self).initialized ==> r == Err::<Option<Addr>, _>(OracleError::NotInitialized)
                && *final(self) == *old(self),
            old(self).initialized ==> r == Ok::<Option<Addr>, OracleError>(
                old(self).default_oracle,
            ) && *final(self) == (OracleAdapterContract {
                default_oracle: Some(new_oracle),
                ..*old(self)
            }),
    {
        if !self.initialized {
            return Err(OracleError::NotInitialized);
        }
        let old = self.default_oracle;
        self.default_oracle = Some(new_oracle);
        Ok(old)
    }

    /// Change the default staleness limit (seconds), which must be positive.
    pub fn set_default_staleness(&mut self, max_staleness: u64) -> (r: Result<(), OracleError>)
        requires
            old(self).wf(),
        ensures
            final(self).wf(),
            !old(self).initialized ==> r == Err::<(), _>(OracleError::NotInitialized),
            old(self).initialized && max_staleness == 0 ==> r == Err::<(), _>(
                OracleError::InvalidStaleness,
            ),
            old(self).initialized && max_staleness > 0 ==> r is Ok && *final(self) == (
            OracleAdapterContract { default_max_staleness: Some(max_staleness), ..*old(self) }),
            r is Err ==> *final(self) == *old(self),
    {
        if !self.initialized {
            return Err(OracleError::NotInitialized);
        }
        if max_staleness == 0 {
            return Err(OracleError::InvalidStaleness);
        }
        self.default_max_staleness = Some(max_staleness);
        Ok(())
    }

    /// The override to store for an asset.
    pub fn set_asset_oracle(&self, oracle: Addr, max_staleness: u64) -> (r: Result<
        PriceSource,
        OracleError,
    >)
        ensures
            r == (if !self.initialized {
                Err(OracleError::NotInitialized)
            } else if max_staleness == 0 {
                Err(OracleError::InvalidStaleness)
            } else {
                Ok(PriceSource { oracle, max_staleness })
            }),
    {
        if !self.initialized {
            return Err(OracleError::NotInitialized);
        }
        if max_staleness == 0 {
            return Err(OracleError::InvalidStaleness);
        }
        Ok(PriceSource { oracle, max_staleness })
    }

    /// Whether an asset's override may be removed.
    pub fn remove_asset_oracle(&self) -> (r: Result<(), OracleError>)
        ensures
            r == (if self.initialized {
                Ok(())
            } else {
                Err(OracleError::NotInitialized)
            }),
    {
        if !self.initialized {
            return Err(OracleError::NotInitialized);
        }
        Ok(())
    }

    /// The bounds to store for an asset.
    pub fn set_asset_bounds(&self, min_price_wad: i128, max_price_wad: i128) -> (r: Result<
        PriceBounds,
        OracleError,
    >)
        ensures
            r == (if !self.initialized {
                Err(OracleError::NotInitialized)
            } else if !bounds_valid(min_price_wad as int, max_price_wad as int) {
                Err(OracleError::InvalidBounds)
            } else {
                Ok(PriceBounds { min_price_wad, max_price_wad })
            }),
    {
        if !self.initialized {
            return Err(OracleError::NotInitialized);
        }
        Self::validate_bounds(min_price_wad, max_price_wad)?;
        Ok(PriceBounds { min_price_wad, max_price_wad })
    }

    /// Whether an asset's bounds may be removed.
    pub fn remove_asset_bounds(&self) -> (r: Result<(), OracleError>)
        ensures
            r == (if self.initialized {
                Ok(())
            } else {
                Err(OracleError::NotInitialized)
            }),
    {
        if !self.initialized {
            return Err(OracleError::NotInitialized);
        }
        Ok(())
    }

    /// Hand admin rights to `new_admin`; returns the previous admin.
    pub fn transfer_admin(&mut self, new_admin: Addr) -> (r: Result<Addr, OracleError>)
        requires
            old(self).wf(),
        ensures
            final(self).wf(),
            !old(self).initialized ==> r == Err::<Addr, _>(OracleError::NotInitialized)
                && *final(self) == *old(self),
            old(self).initialized ==> r == Ok::<Addr, OracleError>(old(self).admin->0)
                && *final(self) == (OracleAdapterContract {
                admin: Some(new_admin),
                ..*old(self)
            }),
    {
        if !self.initialized {
            return Err(OracleError::NotInitialized);
        }
        let old_admin = self.admin.unwrap();
        self.admin = Some(new_admin);
        Ok(old_admin)
    }

    /// Whether a code upgrade may proceed.
    pub fn upgrade(&self) -> (r: Result<(), OracleError>)
        ensures
            r == (if self.initialized {
                Ok(())
            } else {
                Err(OracleError::NotInitialized)
            }),
    {
        if !self.initialized {
            return Err(OracleError::NotInitialized);
        }
        Ok(())
    }

    /// The stored admin.
    pub fn admin(&self) -> (r: Addr)
        requires
            self.admin is Some,
        ensures
            r == self.admin->0,
    {
        self.admin.unwrap()
    }
}

/// A price the adapter resolves comes from a present, positive observation no
/// older than the staleness limit of the feed it was read from; it is that
/// observation normalised to WAD, carries the observation's timestamp, passes
/// the asset's bounds, and for feeds with at most 18 decimals is positive.
pub proof fn law_resolved_price_valid(
    adapter: OracleAdapterContract,
    asset_source: Option<PriceSource>,
    observation: Option<PriceData>,
    now: u64,
    decimals: u32,
    bounds: Option<PriceBounds>,
)
    requires
        adapter.price_result(asset_source, observation, now, decimals, bounds) is Ok,
    ensures
        ({
            let p = adapter.price_result(asset_source, observation, now, decimals, bounds)->Ok_0;
            let d = observation->0;
            let max_staleness = match asset_source {
                Some(s) => s.max_staleness,
                None => adapter.default_max_staleness->0,
            };
            let w = normalise_to_wad_spec(d.price as int, decimals as nat);
            &&& adapter.initialized
            &&& observation is Some
            &&& d.price > 0
            &&& age_spec(now, d.timestamp) <= max_staleness
            &&& p.timestamp == d.timestamp
            &&& p.price_wad == w as i128
            &&& within_bounds(bounds, w)
            &&& decimals <= 18 ==> w > 0
        }),
{
    let d = observation->0;
    if decimals < 18 {
        let k = (18 - decimals) as nat;
        crate::math::lemma_pow10_positive(k);
        vstd::arithmetic::mul::lemma_mul_strictly_positive(d.price as int, crate::math::pow10_spec(k));
    }
}

/// A resolved price never leaves the asset's configured band: it is at least a
/// positive minimum and at most a positive maximum, each bound holding whether
/// or not the other one is set.
pub proof fn law_resolved_price_in_configured_bounds(
    adapter: OracleAdapterContract,
    asset_source: Option<PriceSource>,
    observation: Option<PriceData>,
    now: u64,
    decimals: u32,
    b: PriceBounds,
)
    requires
        observation is Some && observation->0.price > 0 ==> normalise_ok(
            observation->0.price as int,
            decimals as nat,
        ),
        adapter.price_result(asset_source, observation, now, decimals, Some(b)) is Ok,
    ensures
        ({
            let p = adapter.price_result(asset_source, observation, now, decimals, Some(b))->Ok_0;
            &&& b.min_price_wad > 0 ==> p.price_wad >= b.min_price_wad
            &&& b.max_price_wad > 0 ==> p.price_wad <= b.max_price_wad
        }),
{
    let d = observation->0;
    let w = normalise_to_wad_spec(d.price as int, decimals as nat);
    if decimals > 18 {
        let e = crate::math::capped_exp((decimals - 18) as nat);
        crate::math::lemma_pow10_positive(e);
        crate::math::lemma_tdiv_bounds(d.price as int, crate::math::pow10_spec(e));
    }
    assert(crate::math::fits(w));
}

/// A price below a positive minimum, or above a positive maximum, is refused as
/// out of bounds once the source and the observation pass their checks.
pub proof fn law_out_of_band_price_refused(
    adapter: OracleAdapterContract,
    asset_source: Option<PriceSource>,
    observation: Option<PriceData>,
    now: u64,
    decimals: u32,
    b: PriceBounds,
)
    requires
        adapter.price_result(asset_source, observation, now, decimals, None) is Ok,
        ({
            let w = normalise_to_wad_spec(observation->0.price as int, decimals as nat);
            (b.min_price_wad > 0 && w < b.min_price_wad) || (b.max_price_wad > 0 && w
                > b.max_price_wad)
        }),
    ensures
        adapter.price_result(asset_source, observation, now, decimals, Some(b)) == Err::<
            ResolvedPrice,
            OracleError,
        >(OracleError::PriceOutOfBounds),
{
}

} // verus!
