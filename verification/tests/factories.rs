use astrion::ids::{address_xdr, Addr, Hash32};
use astrion::market::IsolatedMarketConfig;
use astrion::market_factory::{
    compute_id, market_params, params_key, params_key_xdr, FactoryError,
    MarketFactoryContract,
};
use astrion::vault_factory::{salt_key_xdr, VaultFactoryContract, VaultFactoryError};
use soroban_sdk::xdr::{FromXdr, ToXdr};
use soroban_sdk::{Address, Bytes, BytesN, Env, IntoVal, Symbol, Val};

fn addr(n: u64) -> Addr {
    Addr { kind: 0, k0: n, k1: 0, k2: 0, k3: 0 }
}

fn hash(b: u64) -> Hash32 {
    Hash32 { w0: b, w1: b, w2: b, w3: b }
}

const LLTV: i128 = 800_000_000_000_000_000;

fn cfg(loan: Addr, collateral: Addr, irm: Addr, lltv: i128) -> IsolatedMarketConfig {
    IsolatedMarketConfig {
        collateral_asset: collateral,
        loan_asset: loan,
        oracle_adapter: addr(90),
        rate_model: irm,
        treasury: addr(91),
        lltv,
        liquidation_bonus: 0,
        reserve_factor: 0,
        supply_cap: 0,
        borrow_cap: 0,
    }
}

fn factory() -> MarketFactoryContract {
    let mut f = MarketFactoryContract::fresh();
    f.initialize(addr(1), hash(7)).unwrap();
    f
}

#[test]
fn test_irm_registry_roundtrip() {
    let f = factory();
    let mut flag: Option<bool> = None;
    assert!(!MarketFactoryContract::is_irm_enabled(flag));
    let mut set = flag.unwrap_or(false);
    f.enable_irm(&mut set).unwrap();
    flag = Some(set);
    assert!(MarketFactoryContract::is_irm_enabled(flag));
    assert!(!MarketFactoryContract::is_irm_enabled(None));
}

#[test]
fn test_lltv_registry_roundtrip() {
    let f = factory();
    let mut enabled: Option<bool> = None;
    assert!(!MarketFactoryContract::is_lltv_enabled(enabled));
    let mut set = false;
    f.enable_lltv(&mut set).unwrap();
    enabled = Some(set);
    assert!(MarketFactoryContract::is_lltv_enabled(enabled));
    let other_lltv: Option<bool> = None;
    assert!(!MarketFactoryContract::is_lltv_enabled(other_lltv));
}

#[test]
fn test_enable_irm_before_init_fails() {
    let f = MarketFactoryContract::fresh();
    let mut set = false;
    assert_eq!(f.enable_irm(&mut set), Err(FactoryError::NotInitialized));
    assert!(!set);
}

#[test]
fn test_create_market_before_init_fails() {
    let f = MarketFactoryContract::fresh();
    let c = cfg(addr(10), addr(11), addr(12), LLTV);
    assert_eq!(f.create_market(&c, true, true, None), Err(FactoryError::NotInitialized));
}

#[test]
fn test_create_market_rejects_same_asset() {
    let f = factory();
    let c = cfg(addr(10), addr(10), addr(12), LLTV);
    assert_eq!(f.create_market(&c, true, true, None), Err(FactoryError::InvalidMarketParams));
}

#[test]
fn test_create_market_rejects_disabled_lltv() {
    let f = factory();
    let c = cfg(addr(10), addr(11), addr(12), LLTV);
    assert_eq!(f.create_market(&c, false, true, None), Err(FactoryError::LltvNotEnabled));
}

#[test]
fn test_create_market_rejects_disabled_irm() {
    let f = factory();
    let c = cfg(addr(10), addr(11), addr(12), LLTV);
    assert_eq!(f.create_market(&c, true, false, None), Err(FactoryError::IrmNotEnabled));
}

#[test]
fn test_market_id_is_deterministic_and_param_sensitive() {
    let env = Env::default();
    let (loan, collateral, oracle, irm) = (addr(10), addr(11), addr(12), addr(13));
    let id1 = MarketFactoryContract::market_id(&env, loan, collateral, oracle, irm, LLTV);
    let id2 = MarketFactoryContract::market_id(&env, loan, collateral, oracle, irm, LLTV);
    assert_eq!(id1, id2, "same params -> same id");
    let id3 = MarketFactoryContract::market_id(&env, loan, collateral, oracle, irm, LLTV + 1);
    assert_ne!(id1, id3);
    let id4 = MarketFactoryContract::market_id(&env, collateral, loan, oracle, irm, LLTV);
    assert_ne!(id1, id4);
}

#[test]
fn created_markets_are_registered_and_ids_single_use() {
    let mut f = factory();
    let c = cfg(addr(10), addr(11), addr(12), LLTV);
    assert_eq!(f.create_market(&c, true, true, None), Ok(hash(7)));
    let mut by_id: Option<Addr> = None;
    f.register_market(addr(500), &mut by_id);
    assert_eq!(by_id, Some(addr(500)));
    assert_eq!(f.get_markets(), vec![addr(500)]);
    assert_eq!(f.create_market(&c, true, true, by_id), Err(FactoryError::MarketAlreadyExists));
    // the id looked up for a second creation with the same parameters is the same id
    let env = Env::default();
    let again = IsolatedMarketConfig { treasury: addr(92), supply_cap: 5, ..c };
    assert_eq!(compute_id(&env, &again), compute_id(&env, &c));
    assert_eq!(
        compute_id(&env, &c),
        MarketFactoryContract::market_id(&env, c.loan_asset, c.collateral_asset, c.oracle_adapter, c.rate_model, c.lltv)
    );
    let key = params_key(&c);
    assert_eq!(key, market_params(addr(10), addr(11), addr(90), addr(12), LLTV));
}

#[test]
fn market_factory_admin_operations() {
    let mut f = factory();
    f.update_market_wasm(hash(8)).unwrap();
    assert_eq!(f.market_wasm_hash, Some(hash(8)));
    f.transfer_admin(addr(2)).unwrap();
    assert_eq!(f.admin(), Some(addr(2)));
    assert_eq!(f.upgrade(), Ok(()));
    let mut g = MarketFactoryContract::fresh();
    assert_eq!(g.update_market_wasm(hash(8)), Err(FactoryError::NotInitialized));
    assert_eq!(f.initialize(addr(1), hash(7)), Err(FactoryError::AlreadyInitialized));
}

fn vault_factory() -> VaultFactoryContract {
    let mut f = VaultFactoryContract::fresh();
    f.initialize(addr(1), hash(7)).unwrap();
    f
}

#[test]
fn vault_factory_initialize_success() {
    let f = vault_factory();
    assert_eq!(f.owner(), Some(addr(1)));
    assert_eq!(f.vault_wasm_hash(), Some(hash(7)));
}

#[test]
fn test_create_vault_before_init_fails() {
    let f = VaultFactoryContract::fresh();
    assert_eq!(f.create_vault(None), Err(VaultFactoryError::NotInitialized));
}

#[test]
fn test_owner_updates_wasm_hash() {
    let mut f = vault_factory();
    f.set_vault_wasm_hash(hash(2)).unwrap();
    assert_eq!(f.vault_wasm_hash(), Some(hash(2)));
}

#[test]
fn test_deployment_salt_depends_on_full_key() {
    let env = Env::default();
    let a = VaultFactoryContract::deployment_salt(&env, addr(1), addr(10), hash(3));
    let b = VaultFactoryContract::deployment_salt(&env, addr(2), addr(10), hash(3));
    assert_ne!(a, b);
    assert_eq!(a, VaultFactoryContract::deployment_salt(&env, addr(1), addr(10), hash(3)));
    let c = VaultFactoryContract::deployment_salt(&env, addr(1), addr(10), hash(4));
    assert_ne!(a, c);
}

#[test]
fn vaults_are_recorded_once_per_key() {
    let f = vault_factory();
    assert_eq!(f.create_vault(None), Ok(hash(7)));
    let mut entry: Option<Addr> = None;
    let mut is_vault = false;
    VaultFactoryContract::record_vault(&mut entry, &mut is_vault, addr(300));
    assert!(is_vault);
    assert!(VaultFactoryContract::is_vault(Some(is_vault)));
    assert!(!VaultFactoryContract::is_vault(None));
    assert_eq!(f.create_vault(entry), Err(VaultFactoryError::VaultAlreadyExists));
}

#[test]
fn vault_factory_owner_operations() {
    let mut f = vault_factory();
    f.transfer_owner(addr(4)).unwrap();
    assert_eq!(f.owner(), Some(addr(4)));
    assert_eq!(f.upgrade(), Ok(()));
    let mut g = VaultFactoryContract::fresh();
    assert_eq!(g.transfer_owner(addr(4)), Err(VaultFactoryError::NotInitialized));
    assert_eq!(f.initialize(addr(1), hash(7)), Err(VaultFactoryError::AlreadyInitialized));
}

/// The ledger's own address value for `a`.
fn ledger_address(env: &Env, a: Addr) -> Address {
    let xdr = address_xdr(a);
    Address::from_xdr(env, &Bytes::from_slice(env, &xdr)).unwrap()
}

fn bytes_of(b: &Bytes) -> Vec<u8> {
    b.iter().collect()
}

fn words(h: &Hash32) -> [u8; 32] {
    let mut out = [0u8; 32];
    out[0..8].copy_from_slice(&h.w0.to_be_bytes());
    out[8..16].copy_from_slice(&h.w1.to_be_bytes());
    out[16..24].copy_from_slice(&h.w2.to_be_bytes());
    out[24..32].copy_from_slice(&h.w3.to_be_bytes());
    out
}

#[test]
fn market_id_hashes_the_ledger_encoding_of_the_key() {
    let env = Env::default();
    let loan = Addr { kind: 1, k0: 1, k1: 2, k2: 3, k3: 4 };
    let collateral = Addr { kind: 0, k0: 9, k1: 8, k2: 7, k3: 6 };
    let oracle = Addr { kind: 1, k0: 0, k1: 0, k2: 0, k3: 12 };
    let irm = Addr { kind: 1, k0: 0, k1: 0, k2: 0, k3: 13 };
    for lltv in [LLTV, -LLTV, 0, i128::MAX, i128::MIN] {
        let key = market_params(loan, collateral, oracle, irm, lltv);
        let mut m = soroban_sdk::Map::<Symbol, Val>::new(&env);
        m.set(Symbol::new(&env, "loan_asset"), ledger_address(&env, loan).into_val(&env));
        m.set(Symbol::new(&env, "collateral_asset"), ledger_address(&env, collateral).into_val(&env));
        m.set(Symbol::new(&env, "oracle"), ledger_address(&env, oracle).into_val(&env));
        m.set(Symbol::new(&env, "irm"), ledger_address(&env, irm).into_val(&env));
        m.set(Symbol::new(&env, "lltv"), lltv.into_val(&env));
        let sdk = m.to_xdr(&env);
        assert_eq!(params_key_xdr(&key), bytes_of(&sdk));
        let expected = env.crypto().sha256(&sdk).to_array();
        assert_eq!(words(&MarketFactoryContract::market_id(&env, loan, collateral, oracle, irm, lltv)), expected);
    }
}

#[test]
fn deployment_salt_hashes_the_ledger_encoding_of_the_key() {
    let env = Env::default();
    let owner = Addr { kind: 0, k0: 5, k1: 0, k2: 0, k3: 1 };
    let asset = Addr { kind: 1, k0: 0, k1: 0, k2: 0, k3: 10 };
    let salt = Hash32 { w0: 1, w1: u64::MAX, w2: 3, w3: 4 };
    let mut m = soroban_sdk::Map::<Symbol, Val>::new(&env);
    m.set(Symbol::new(&env, "owner"), ledger_address(&env, owner).into_val(&env));
    m.set(Symbol::new(&env, "asset"), ledger_address(&env, asset).into_val(&env));
    m.set(Symbol::new(&env, "salt"), BytesN::from_array(&env, &words(&salt)).into_val(&env));
    let sdk = m.to_xdr(&env);
    assert_eq!(salt_key_xdr(owner, asset, salt), bytes_of(&sdk));
    let expected = env.crypto().sha256(&sdk).to_array();
    assert_eq!(words(&VaultFactoryContract::deployment_salt(&env, owner, asset, salt)), expected);
}
