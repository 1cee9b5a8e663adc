use astrion::adapter_registry::{AdapterRegistryContract, AdapterRegistryError};
use astrion::ids::{Addr, Hash32};
use astrion::mock_oracle::{MockOracle, DEFAULT_PRICE};
use astrion::oracle_adapter::PriceData;
use astrion::referral_storage::{Error, ReferralStorage, TierConfig};

fn addr(n: u64) -> Addr {
    Addr { kind: 0, k0: n, k1: 0, k2: 0, k3: 0 }
}

fn code(seed: u64) -> Hash32 {
    Hash32 { w0: seed, w1: seed, w2: seed, w3: seed }
}

#[test]
fn test_test_initialize_success() {
    let mut r = AdapterRegistryContract::fresh();
    r.initialize(addr(1)).unwrap();
    assert_eq!(r.owner(), Some(addr(1)));
    assert_eq!(r.adapters().len(), 0);
}

#[test]
fn test_add_adapter_is_add_only() {
    let mut r = AdapterRegistryContract::fresh();
    r.initialize(addr(1)).unwrap();
    r.add_adapter(addr(1), addr(7)).unwrap();
    assert!(r.is_in_registry(addr(7)));
    assert_eq!(r.adapters().len(), 1);
    assert_eq!(r.add_adapter(addr(1), addr(7)), Err(AdapterRegistryError::AlreadyRegistered));
}

#[test]
fn test_add_adapter_requires_owner() {
    let mut r = AdapterRegistryContract::fresh();
    r.initialize(addr(1)).unwrap();
    assert_eq!(r.add_adapter(addr(2), addr(8)), Err(AdapterRegistryError::Unauthorized));
}

#[test]
fn test_owner_can_transfer_and_upgrade() {
    let mut r = AdapterRegistryContract::fresh();
    r.initialize(addr(1)).unwrap();
    r.transfer_owner(addr(1), addr(2)).unwrap();
    assert_eq!(r.owner(), Some(addr(2)));
    assert_eq!(r.upgrade(addr(2)), Ok(()));
    assert_eq!(r.upgrade(addr(1)), Err(AdapterRegistryError::Unauthorized));
}

#[test]
fn registry_before_initialisation_refuses() {
    let mut r = AdapterRegistryContract::fresh();
    assert_eq!(r.add_adapter(addr(1), addr(7)), Err(AdapterRegistryError::NotInitialized));
    r.initialize(addr(1)).unwrap();
    assert_eq!(r.initialize(addr(1)), Err(AdapterRegistryError::AlreadyInitialized));
    r.add_adapter(addr(1), addr(7)).unwrap();
    r.add_adapter(addr(1), addr(8)).unwrap();
    assert_eq!(r.adapters(), vec![addr(7), addr(8)]);
    assert!(!r.is_in_registry(addr(9)));
}

/// The referral contract with its stored entries.
struct Referrals {
    c: ReferralStorage,
    owners: std::collections::HashMap<Hash32, Addr>,
    trader_codes: std::collections::HashMap<Addr, Hash32>,
    tiers: std::collections::HashMap<Addr, u32>,
    configs: [Option<TierConfig>; 3],
}

impl Referrals {
    fn new(admin: Addr) -> Self {
        let mut c = ReferralStorage::fresh();
        c.initialize(admin).unwrap();
        Referrals {
            c,
            owners: Default::default(),
            trader_codes: Default::default(),
            tiers: Default::default(),
            configs: [None, None, None],
        }
    }

    fn register_code(&mut self, caller: Addr, code: Hash32) -> Result<(), Error> {
        let mut entry = self.owners.get(&code).copied();
        ReferralStorage::register_code(&mut entry, caller)?;
        self.owners.insert(code, entry.unwrap());
        Ok(())
    }

    fn set_trader_referral_code(&mut self, trader: Addr, code: Hash32) -> Result<(), Error> {
        let mut entry = self.trader_codes.get(&trader).copied();
        ReferralStorage::set_trader_referral_code(self.owners.get(&code).copied(), &mut entry, code)?;
        self.trader_codes.insert(trader, entry.unwrap());
        Ok(())
    }

    fn transfer_code_ownership(&mut self, from: Addr, to: Addr, code: Hash32) -> Result<(), Error> {
        let mut entry = self.owners.get(&code).copied();
        ReferralStorage::transfer_code_ownership(&mut entry, from, to)?;
        self.owners.insert(code, entry.unwrap());
        Ok(())
    }

    fn set_tier_config(&mut self, admin: Addr, tier: u32, config: TierConfig) -> Result<(), Error> {
        let mut entry = if tier <= 2 { self.configs[tier as usize] } else { None };
        self.c.set_tier_config(admin, tier, config, &mut entry)?;
        self.configs[tier as usize] = entry;
        Ok(())
    }

    fn set_referrer_tier(&mut self, admin: Addr, referrer: Addr, tier: u32) -> Result<(), Error> {
        let mut entry = self.tiers.get(&referrer).copied();
        self.c.set_referrer_tier(admin, tier, &mut entry)?;
        self.tiers.insert(referrer, entry.unwrap());
        Ok(())
    }

    fn get_code_owner(&self, code: Hash32) -> Option<Addr> {
        self.owners.get(&code).copied()
    }

    fn get_trader_referrer(&self, trader: Addr) -> Option<Addr> {
        let c = self.trader_codes.get(&trader).copied();
        ReferralStorage::get_trader_referrer(c, c.and_then(|c| self.owners.get(&c).copied()))
    }

    fn get_trader_discount_bps(&self, trader: Addr) -> u32 {
        let c = self.trader_codes.get(&trader).copied();
        let owner = c.and_then(|c| self.owners.get(&c).copied());
        let tier = owner.and_then(|o| self.tiers.get(&o).copied());
        ReferralStorage::get_trader_discount_bps(c, owner, tier, self.configs)
    }
}

#[test]
fn test_transfer_code_ownership_success() {
    let mut r = Referrals::new(addr(1));
    let (alice, bob) = (addr(10), addr(11));
    r.register_code(alice, code(1)).unwrap();
    assert_eq!(r.get_code_owner(code(1)), Some(alice));
    r.transfer_code_ownership(alice, bob, code(1)).unwrap();
    assert_eq!(r.get_code_owner(code(1)), Some(bob));
}

#[test]
fn test_transfer_code_ownership_non_owner_rejected() {
    let mut r = Referrals::new(addr(1));
    let (alice, charlie) = (addr(10), addr(12));
    r.register_code(alice, code(2)).unwrap();
    assert_eq!(r.transfer_code_ownership(charlie, alice, code(2)), Err(Error::NotCodeOwner));
}

#[test]
fn test_transfer_code_ownership_missing_code_rejected() {
    let mut r = Referrals::new(addr(1));
    assert_eq!(r.transfer_code_ownership(addr(10), addr(11), code(3)), Err(Error::CodeNotFound));
}

#[test]
fn test_get_code_owner_returns_none_for_unregistered() {
    let r = Referrals::new(addr(1));
    assert_eq!(r.get_code_owner(code(4)), None);
}

#[test]
fn test_trader_discount_follows_new_owner_tier() {
    let admin = addr(1);
    let mut r = Referrals::new(admin);
    let (alice, bob, trader) = (addr(10), addr(11), addr(20));
    r.set_tier_config(admin, 0, TierConfig { total_rebate_bps: 1000, discount_share_bps: 5000 }).unwrap();
    r.set_tier_config(admin, 1, TierConfig { total_rebate_bps: 2000, discount_share_bps: 5000 }).unwrap();
    r.register_code(alice, code(5)).unwrap();
    r.set_trader_referral_code(trader, code(5)).unwrap();
    r.transfer_code_ownership(alice, bob, code(5)).unwrap();
    assert_eq!(r.get_trader_discount_bps(trader), 500);
}

#[test]
fn referral_codes_are_single_owner_and_must_exist() {
    let mut r = Referrals::new(addr(1));
    r.register_code(addr(10), code(6)).unwrap();
    assert_eq!(r.register_code(addr(11), code(6)), Err(Error::CodeAlreadyTaken));
    assert_eq!(r.set_trader_referral_code(addr(20), code(7)), Err(Error::CodeNotFound));
    r.set_trader_referral_code(addr(20), code(6)).unwrap();
    assert_eq!(r.get_trader_referrer(addr(20)), Some(addr(10)));
    assert_eq!(r.get_trader_referrer(addr(21)), None);
    assert_eq!(r.get_trader_discount_bps(addr(21)), 0);
}

#[test]
fn tiers_and_configs_are_admin_only_and_bounded() {
    let admin = addr(1);
    let mut r = Referrals::new(admin);
    let cfg = TierConfig { total_rebate_bps: 2000, discount_share_bps: 2500 };
    assert_eq!(r.set_tier_config(addr(2), 1, cfg), Err(Error::Unauthorized));
    assert_eq!(r.set_tier_config(admin, 3, cfg), Err(Error::InvalidTier));
    let too_much = TierConfig { total_rebate_bps: 10_001, discount_share_bps: 0 };
    assert_eq!(r.set_tier_config(admin, 1, too_much), Err(Error::InvalidInput));
    assert_eq!(r.set_referrer_tier(admin, addr(10), 3), Err(Error::InvalidTier));
    r.set_tier_config(admin, 1, cfg).unwrap();
    r.set_referrer_tier(admin, addr(10), 1).unwrap();
    r.register_code(addr(10), code(8)).unwrap();
    r.set_trader_referral_code(addr(20), code(8)).unwrap();
    // 2000 * 2500 / 10000 = 500
    assert_eq!(r.get_trader_discount_bps(addr(20)), 500);
    let mut again = ReferralStorage::fresh();
    again.initialize(admin).unwrap();
    assert_eq!(again.initialize(admin), Err(Error::AlreadyInitialized));
    assert_eq!(ReferralStorage::fresh().upgrade(), Err(Error::NotInitialized));
}

#[test]
fn test_default_price() {
    let mut o = MockOracle::fresh();
    o.initialize(addr(1));
    let pd = MockOracle::lastprice(None, 42).unwrap();
    assert_eq!(pd.price, 10_000_000);
    assert_eq!(MockOracle::decimals(), 7);
    assert_eq!(o.admin(), addr(1));
}

#[test]
fn test_set_price() {
    let mut o = MockOracle::fresh();
    o.initialize(addr(1));
    let mut stored: Option<i128> = None;
    o.set_price(&mut stored, 600_000_000_000);
    let pd = MockOracle::lastprice(stored, 42).unwrap();
    assert_eq!(pd.price, 600_000_000_000);
    assert_eq!(pd, PriceData { price: 600_000_000_000, timestamp: 42 });
    assert_eq!(DEFAULT_PRICE, 10_000_000);
}
