//! Referral codes, referrer tiers and the trader discounts they give.
//!
//! A code has one owner, the referrer; a trader links to a code; a referrer has
//! a tier (0 to 2, default 0); a tier has a rebate and the share of it that goes
//! to the trader as a discount. Each operation takes the stored entries it reads
//! and writes.
use vstd::prelude::*;
use crate::ids::{Addr, Hash32};

verus! {

/// Basis points in one whole.
pub const BPS: u32 = 10_000;

/// The highest tier.
pub const MAX_TIER: u32 = 2;

/// Rebate parameters of one tier.
#[derive(Clone, Copy, Debug, PartialEq, Eq, Structural)]
pub struct TierConfig {
    /// Basis points of the position fee paid back to the referrer.
    pub total_rebate_bps: u32,
    /// Part of that rebate forwarded to the trader as a discount.
    pub discount_share_bps: u32,
}

#[derive(Clone, Copy, Debug, PartialEq, Eq, Structural)]
pub enum Error {
    NotInitialized,
    AlreadyInitialized,
    Unauthorized,
    CodeAlreadyTaken,
    CodeNotFound,
    InvalidTier,
    InvalidInput,
    NotCodeOwner,
}

/// Both parts of a tier config are at most one whole.
pub open spec fn tier_config_valid(c: TierConfig) -> bool {
    c.total_rebate_bps <= BPS && c.discount_share_bps <= BPS
}

/// The tier a referrer is in; referrers without one are in tier 0.
pub open spec fn tier_spec(referrer_tier: Option<u32>) -> u32 {
    match referrer_tier {
        Some(t) => t,
        None => 0,
    }
}

/// The stored config of `tier`, out of the configs of tiers 0 to 2 (no other
/// tier can have one).
pub open spec fn config_of(tier: u32, tiers: [Option<TierConfig>; 3]) -> Option<TierConfig> {
    if tier <= MAX_TIER {
        tiers@[tier as int]
    } else {
        None
    }
}

/// A trader's discount: `total_rebate * discount_share / 10_000` of the tier of
/// the owner of the trader's code; 0 when any link is missing.
pub open spec fn discount_spec(
    trader_code: Option<Hash32>,
    code_owner: Option<Addr>,
    referrer_tier: Option<u32>,
    tiers: [Option<TierConfig>; 3],
) -> int {
    let c = config_of(tier_spec(referrer_tier), tiers);
    if trader_code is None || code_owner is None || c is None {
        0
    } else {
        (c->0.total_rebate_bps * c->0.discount_share_bps) as int / BPS as int
    }
}

/// The contract's instance values.
pub struct ReferralStorage {
    pub initialized: bool,
    pub admin: Option<Addr>,
}

impl ReferralStorage {
    /// The admin authorises as `admin`: the stored admin must be that address.
    pub open spec fn admin_result(&self, admin: Addr) -> Result<(), Error> {
        if self.admin is None {
            Err(Error::NotInitialized)
        } else if admin != self.admin->0 {
            Err(Error::Unauthorized)
        } else {
            Ok(())
        }
    }

    /// Nothing stored yet.
    pub fn fresh() -> (r: Self)
        ensures
            !r.initialized && r.admin is None,
    {
        ReferralStorage { initialized: false, admin: None }
    }

    /// Record the admin once.
    pub fn initialize(&mut self, admin: Addr) -> (r: Result<(), Error>)
        ensures
            old(self).initialized ==> r == Err::<(), _>(Error::AlreadyInitialized)
                && *final(self) == *old(self),
            !old(self).initialized ==> r is Ok && *final(self) == (ReferralStorage {
                initialized: true,
                admin: Some(admin),
            }),
    {
        if self.initialized {
            return Err(Error::AlreadyInitialized);
        }
        self.initialized = true;
        self.admin = Some(admin);
        Ok(())
    }

    /// The admin who must authorise an upgrade.
    pub fn upgrade(&self) -> (r: Result<Addr, Error>)
        ensures
            r == (match self.admin {
                Some(a) => Ok(a),
                None => Err(Error::NotInitialized),
            }),
    {
        match self.admin {
            Some(a) => Ok(a),
            None => Err(Error::NotInitialized),
        }
    }

    /// Check that `admin` is the stored admin.
    pub fn require_admin(&self, admin: Addr) -> (r: Result<(), Error>)
        ensures
            r == self.admin_result(admin),
    {
        let stored = match self.admin {
            Some(a) => a,
            None => return Err(Error::NotInitialized),
        };
        if admin != stored {
            return Err(Error::Unauthorized);
        }
        Ok(())
    }

    /// Set a referrer's tier (the admin only); tiers run from 0 to 2.
    pub fn set_referrer_tier(&self, admin: Addr, tier: u32, referrer_tier: &mut Option<u32>) -> (r:
        Result<(), Error>)
        ensures
            r == (if self.admin_result(admin) is Err {
                self.admin_result(admin)
            } else if tier > MAX_TIER {
                Err(Error::InvalidTier)
            } else {
                Ok(())
            }),
            r is Ok ==> *final(referrer_tier) == Some(tier),
            r is Err ==> *final(referrer_tier) == *old(referrer_tier),
    {
        self.require_admin(admin)?;
        if tier > MAX_TIER {
            return Err(Error::InvalidTier);
        }
        *referrer_tier = Some(tier);
        Ok(())
    }

    /// Set a tier's rebate parameters (the admin only).
    pub fn set_tier_config(
        &self,
        admin: Addr,
        tier: u32,
        config: TierConfig,
        tier_config: &mut Option<TierConfig>,
    ) -> (r: Result<(), Error>)
        ensures
            r == (if self.admin_result(admin) is Err {
                self.admin_result(admin)
            } else if tier > MAX_TIER {
                Err(Error::InvalidTier)
            } else if !tier_config_valid(config) {
                Err(Error::InvalidInput)
            } else {
                Ok(())
            }),
            r is Ok ==> *final(tier_config) == Some(config),
            r is Err ==> *final(tier_config) == *old(tier_config),
    {
        self.require_admin(admin)?;
        if tier > MAX_TIER {
            return Err(Error::InvalidTier);
        }
        if config.total_rebate_bps > BPS || config.discount_share_bps > BPS {
            return Err(Error::InvalidInput);
        }
        *tier_config = Some(config);
        Ok(())
    }
}

impl ReferralStorage {
    /// Register a code; the caller becomes its owner. A taken code is refused.
    pub fn register_code(code_owner: &mut Option<Addr>, caller: Addr) -> (r: Result<(), Error>)
        ensures
            old(code_owner).is_some() ==> r == Err::<(), _>(Error::CodeAlreadyTaken)
                && *final(code_owner) == *old(code_owner),
            old(code_owner).is_none() ==> r is Ok && *final(code_owner) == Some(caller),
    {
        if code_owner.is_some() {
            return Err(Error::CodeAlreadyTaken);
        }
        *code_owner = Some(caller);
        Ok(())
    }

    /// Link a trader to a registered code.
    pub fn set_trader_referral_code(code_owner: Option<Addr>, trader_code: &mut Option<Hash32>, code: Hash32) -> (r:
        Result<(), Error>)
        ensures
            code_owner is None ==> r == Err::<(), _>(Error::CodeNotFound) && *final(trader_code)
                == *old(trader_code),
            code_owner is Some ==> r is Ok && *final(trader_code) == Some(code),
    {
        if code_owner.is_none() {
            return Err(Error::CodeNotFound);
        }
        *trader_code = Some(code);
        Ok(())
    }

    /// The referrer of a trader: the owner of the trader's code, if both exist.
    pub fn get_trader_referrer(trader_code: Option<Hash32>, code_owner: Option<Addr>) -> (r: Option<Addr>)
        ensures
            r == (if trader_code is None {
                None
            } else {
                code_owner
            }),
    {
        match trader_code {
            None => None,
            Some(_) => code_owner,
        }
    }

    /// Hand a code to a new owner; only its current owner may.
    pub fn transfer_code_ownership(code_owner: &mut Option<Addr>, from: Addr, to: Addr) -> (r: Result<
        (),
        Error,
    >)
        ensures
            r == (match *old(code_owner) {
                None => Err(Error::CodeNotFound),
                Some(o) => if o != from {
                    Err(Error::NotCodeOwner)
                } else {
                    Ok(())
                },
            }),
            r is Ok ==> *final(code_owner) == Some(to),
            r is Err ==> *final(code_owner) == *old(code_owner),
    {
        let current = match *code_owner {
            Some(o) => o,
            None => return Err(Error::CodeNotFound),
        };
        if current != from {
            return Err(Error::NotCodeOwner);
        }
        *code_owner = Some(to);
        Ok(())
    }

    /// The tier a referrer is in; referrers without one are in tier 0.
    pub fn tier_of(referrer_tier: Option<u32>) -> (r: u32)
        ensures
            r == tier_spec(referrer_tier),
    {
        match referrer_tier {
            Some(t) => t,
            None => 0,
        }
    }

    /// A trader's fee discount in basis points, given the trader's code, that
    /// code's owner, the owner's tier entry and the stored configs of tiers 0 to 2.
    pub fn get_trader_discount_bps(
        trader_code: Option<Hash32>,
        code_owner: Option<Addr>,
        referrer_tier: Option<u32>,
        tiers: [Option<TierConfig>; 3],
    ) -> (r: u32)
        requires
            config_of(tier_spec(referrer_tier), tiers) matches Some(c) ==> c.total_rebate_bps
                * c.discount_share_bps <= u32::MAX,
        ensures
            r == discount_spec(trader_code, code_owner, referrer_tier, tiers),
    {
        if trader_code.is_none() {
            return 0;
        }
        if code_owner.is_none() {
            return 0;
        }
        let tier = Self::tier_of(referrer_tier);
        if tier > MAX_TIER {
            return 0;
        }
        let config = match tiers[tier as usize] {
            Some(c) => c,
            None => return 0,
        };
        config.total_rebate_bps * config.discount_share_bps / BPS
    }
}

/// With valid tier configs, a trader's discount never exceeds the rebate of the
/// referrer's tier, nor one whole.
pub proof fn law_discount_within_rebate(
    trader_code: Option<Hash32>,
    code_owner: Option<Addr>,
    referrer_tier: Option<u32>,
    tiers: [Option<TierConfig>; 3],
)
    requires
        forall|i: int| 0 <= i < 3 ==> (#[trigger] tiers@[i] matches Some(c) ==> tier_config_valid(c)),
    ensures
        0 <= discount_spec(trader_code, code_owner, referrer_tier, tiers) <= BPS,
        config_of(tier_spec(referrer_tier), tiers) matches Some(c) ==> discount_spec(
            trader_code,
            code_owner,
            referrer_tier,
            tiers,
        ) <= c.total_rebate_bps,
{
    let t = tier_spec(referrer_tier);
    if let Some(c) = config_of(t, tiers) {
        assert(tiers@[t as int] == config_of(t, tiers));
        let a = c.total_rebate_bps as int;
        let b = c.discount_share_bps as int;
        assert(0 <= a * b <= a * 10_000) by (nonlinear_arith)
            requires
                0 <= a <= 10_000,
                0 <= b <= 10_000,
        ;
        assert((a * b) / 10_000 <= a) by (nonlinear_arith)
            requires
                0 <= a * b <= a * 10_000,
        ;
    }
}

} // verus!
