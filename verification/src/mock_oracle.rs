//! Test-network price feed with the SEP-40 `lastprice` / `decimals` interface.
//!
//! Every asset is worth $1.00 (7 decimals) until the admin sets a price, and
//! observations are always stamped with the current time, so they never go
//! stale.
use vstd::prelude::*;
use crate::ids::Addr;
use crate::oracle_adapter::PriceData;

verus! {

/// $1.00 with 7 decimals.
pub const DEFAULT_PRICE: i128 = 10_000_000;

/// Decimal places of the feed's prices.
pub const DECIMALS: u32 = 7;

/// The feed's admin.
pub struct MockOracle {
    pub admin: Option<Addr>,
}

impl MockOracle {
    /// Nothing stored yet.
    pub fn fresh() -> (r: Self)
        ensures
            r.admin is None,
    {
        MockOracle { admin: None }
    }

    /// Set the admin; the feed can be initialised once only.
    pub fn initialize(&mut self, admin: Addr)
        requires
            old(self).admin is None,
        ensures
            final(self).admin == Some(admin),
    {
        self.admin = Some(admin);
    }

    /// The admin, once initialised.
    pub fn admin(&self) -> (r: Addr)
        requires
            self.admin is Some,
        ensures
            r == self.admin->0,
    {
        match self.admin {
            Some(a) => a,
            None => Addr { kind: 0, k0: 0, k1: 0, k2: 0, k3: 0 },
        }
    }

    /// Fix an asset's price (the admin authorises); prices are positive.
    pub fn set_price(&self, stored: &mut Option<i128>, price: i128)
        requires
            self.admin is Some,
            price > 0,
        ensures
            *final(stored) == Some(price),
    {
        *stored = Some(price);
    }

    /// The latest observation of an asset: its set price or the default, at `now`.
    pub fn lastprice(stored: Option<i128>, now: u64) -> (r: Option<PriceData>)
        ensures
            r == Some(
                PriceData {
                    price: match stored {
                        Some(p) => p,
                        None => DEFAULT_PRICE,
                    },
                    timestamp: now,
                },
            ),
    {
        let price = match stored {
            Some(p) => p,
            None => DEFAULT_PRICE,
        };
        Some(PriceData { price, timestamp: now })
    }

    /// Raw price precision.
    pub fn decimals() -> (r: u32)
        ensures
            r == DECIMALS,
    {
        DECIMALS
    }
}

} // verus!
