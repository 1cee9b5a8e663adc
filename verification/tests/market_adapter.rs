use astrion::ids::{address_xdr, Addr};
use astrion::market::{IsolatedMarketConfig, IsolatedMarketState};
use astrion::market_adapter::{
    allocate_market, allocation_ids, deallocate_shares, decode_market, AdapterError,
    MarketAdapterContract, MarketHolding,
};
use astrion::math::{to_assets_down, WAD};
use soroban_sdk::xdr::{FromXdr, ToXdr};
use soroban_sdk::{Address, Bytes, Env, Symbol};

fn addr(n: u64) -> Addr {
    Addr { kind: 0, k0: n, k1: 0, k2: 0, k3: 0 }
}

const VAULT: u64 = 1;
const ASSET: u64 = 10;
const MARKET: u64 = 50;
const ADAPTER: u64 = 7;

fn market_config(loan_asset: Addr) -> IsolatedMarketConfig {
    IsolatedMarketConfig {
        collateral_asset: addr(11),
        loan_asset,
        oracle_adapter: addr(2),
        rate_model: addr(3),
        treasury: addr(4),
        lltv: WAD / 2,
        liquidation_bonus: 0,
        reserve_factor: 0,
        supply_cap: 0,
        borrow_cap: 0,
    }
}

fn empty_state() -> IsolatedMarketState {
    IsolatedMarketState {
        total_supply_assets: 0,
        total_supply_shares: 0,
        total_borrow_assets: 0,
        total_borrow_shares: 0,
        total_collateral: 0,
        fee_assets: 0,
        last_update_timestamp: 0,
    }
}

fn adapter() -> MarketAdapterContract {
    let mut a = MarketAdapterContract::fresh();
    a.initialize(addr(VAULT), addr(ASSET), addr(5)).unwrap();
    a
}

/// The market's own supply accounting: shares minted rounded down with
/// virtual amounts, assets paid for shares rounded down.
fn market_supply(state: &mut IsolatedMarketState, assets: i128) -> i128 {
    let shares = assets * (state.total_supply_shares + 1_000_000) / (state.total_supply_assets + 1);
    state.total_supply_assets += assets;
    state.total_supply_shares += shares;
    shares
}

fn market_withdraw(state: &mut IsolatedMarketState, shares: i128) -> (i128, i128) {
    let assets = to_assets_down(shares, state.total_supply_assets, state.total_supply_shares);
    state.total_supply_assets -= assets;
    state.total_supply_shares -= shares;
    (assets, shares)
}

#[test]
fn test_allocate_deallocate_and_real_assets() {
    let mut a = adapter();
    let mut state = empty_state();
    let mut stored: i128 = 0;
    let cfg = Some(market_config(addr(ASSET)));

    a.check_caller(addr(VAULT), 500).unwrap();
    allocate_market(&a.config.unwrap(), cfg).unwrap();
    let minted = market_supply(&mut state, 500);
    let env = Env::default();
    let change = a
        .allocate(&env, addr(ADAPTER), addr(VAULT), 500, &address_xdr(addr(MARKET)), cfg, &mut stored, minted)
        .unwrap();
    assert_eq!(change.change, 500);
    assert_eq!(change.ids.len(), 3);
    assert_eq!(change.ids, allocation_ids(&env, addr(ADAPTER), &cfg.unwrap(), addr(MARKET)));
    assert_eq!(stored, 500_000_000);
    let holdings = vec![MarketHolding { shares: stored, state: Some(state) }];
    assert_eq!(MarketAdapterContract::real_assets(&holdings), 500);

    let before = state;
    let shares = deallocate_shares(Some(before), stored, 200).unwrap();
    let (withdrawn, burned) = market_withdraw(&mut state, shares);
    let out = a
        .deallocate(&env, addr(ADAPTER), addr(VAULT), 200, &address_xdr(addr(MARKET)), cfg, Some(before), &mut stored, withdrawn, burned)
        .unwrap();
    assert_eq!(out.change, -200);
    assert_eq!(out.ids, change.ids);
    assert_eq!(stored, 300_000_000);
    let holdings = vec![MarketHolding { shares: stored, state: Some(state) }];
    assert_eq!(MarketAdapterContract::real_assets(&holdings), 300);
    assert_eq!(withdrawn, 200);
    assert_eq!(a.get_market_ids(), vec![addr(MARKET)]);
}

#[test]
fn allocation_checks_caller_amount_and_market() {
    let env = Env::default();
    let mut a = adapter();
    let mut stored: i128 = 0;
    let cfg = Some(market_config(addr(ASSET)));
    let m = &address_xdr(addr(MARKET));
    let garbage: Vec<u8> = vec![0, 0, 0, 18, 0, 0, 0, 7];
    let me = addr(ADAPTER);
    let err = |r: Result<astrion::market_adapter::AdapterChange, AdapterError>| r.unwrap_err();
    assert_eq!(err(a.allocate(&env, me, addr(9), 5, m, cfg, &mut stored, 5)), AdapterError::Unauthorized);
    assert_eq!(err(a.allocate(&env, me, addr(VAULT), 0, m, cfg, &mut stored, 5)), AdapterError::InvalidAmount);
    assert_eq!(err(a.allocate(&env, me, addr(VAULT), 5, &garbage, cfg, &mut stored, 5)), AdapterError::InvalidData);
    assert_eq!(err(a.allocate(&env, me, addr(VAULT), 5, &vec![], None, &mut stored, 5)), AdapterError::InvalidData);
    assert_eq!(err(a.allocate(&env, me, addr(VAULT), 5, m, None, &mut stored, 5)), AdapterError::InvalidMarket);
    let other = Some(market_config(addr(12)));
    assert_eq!(err(a.allocate(&env, me, addr(VAULT), 5, m, other, &mut stored, 5)), AdapterError::InvalidMarket);
    assert_eq!(err(a.allocate(&env, me, addr(VAULT), 5, m, cfg, &mut stored, 0)), AdapterError::InvalidAmount);
    assert_eq!(stored, 0);
    assert!(a.get_market_ids().is_empty());
    let fresh = MarketAdapterContract::fresh();
    assert_eq!(fresh.check_caller(addr(VAULT), 5), Err(AdapterError::NotInitialized));
}

#[test]
fn markets_are_remembered_once() {
    let env = Env::default();
    let mut a = adapter();
    let mut stored: i128 = 0;
    let cfg = Some(market_config(addr(ASSET)));
    let me = addr(ADAPTER);
    a.allocate(&env, me, addr(VAULT), 5, &address_xdr(addr(MARKET)), cfg, &mut stored, 5).unwrap();
    a.allocate(&env, me, addr(VAULT), 5, &address_xdr(addr(MARKET)), cfg, &mut stored, 5).unwrap();
    a.allocate(&env, me, addr(VAULT), 5, &address_xdr(addr(MARKET + 1)), cfg, &mut stored, 5).unwrap();
    assert_eq!(a.get_market_ids(), vec![addr(MARKET), addr(MARKET + 1)]);
    assert_eq!(stored, 15);
}

#[test]
fn deallocation_is_capped_at_held_shares() {
    let mut state = empty_state();
    let _ = market_supply(&mut state, 1_000);
    // 200 assets would need 200_000_000 shares; only 1_000 are held
    assert_eq!(deallocate_shares(Some(state), 1_000, 200), Ok(1_000));
    assert_eq!(deallocate_shares(Some(state), 0, 200), Err(AdapterError::InsufficientShares));
    assert_eq!(deallocate_shares(None, 10, 200), Err(AdapterError::InvalidMarket));
}

#[test]
fn real_assets_skips_empty_and_unknown_markets() {
    let mut state = empty_state();
    let s = market_supply(&mut state, 1_000);
    let holdings = vec![
        MarketHolding { shares: 0, state: Some(state) },
        MarketHolding { shares: s, state: None },
        MarketHolding { shares: s, state: Some(state) },
    ];
    assert_eq!(MarketAdapterContract::real_assets(&holdings), 1_000);
    assert_eq!(MarketAdapterContract::real_assets(&vec![]), 0);
}

#[test]
fn adapter_initialises_once() {
    let mut a = adapter();
    assert_eq!(a.initialize(addr(VAULT), addr(ASSET), addr(5)), Err(AdapterError::AlreadyInitialized));
}

#[test]
fn deallocation_refuses_undecodable_data_and_unknown_markets() {
    let env = Env::default();
    let a = adapter();
    let mut state = empty_state();
    let _ = market_supply(&mut state, 1_000);
    let cfg = Some(market_config(addr(ASSET)));
    let mut stored: i128 = 1_000;
    let me = addr(ADAPTER);
    let r = a.deallocate(&env, me, addr(VAULT), 200, &vec![1, 2, 3], cfg, Some(state), &mut stored, 0, 0);
    assert_eq!(r.unwrap_err(), AdapterError::InvalidData);
    let r = a.deallocate(&env, me, addr(VAULT), 200, &address_xdr(addr(MARKET)), None, Some(state), &mut stored, 0, 0);
    assert_eq!(r.unwrap_err(), AdapterError::InvalidMarket);
    let r = a.deallocate(&env, me, addr(9), 200, &vec![], cfg, Some(state), &mut stored, 0, 0);
    assert_eq!(r.unwrap_err(), AdapterError::Unauthorized);
    assert_eq!(stored, 1_000);
}

/// The ledger address of a contract whose key is `n` in its last word.
fn contract_address(env: &Env, n: u64) -> Address {
    let mut xdr = [0u8; 40];
    xdr[3] = 18;
    xdr[7] = 1;
    xdr[32..40].copy_from_slice(&n.to_be_bytes());
    Address::from_xdr(env, &Bytes::from_slice(env, &xdr)).unwrap()
}

#[test]
fn risk_ids_hash_the_tagged_addresses() {
    let env = Env::default();
    let market = Addr { kind: 1, k0: 0, k1: 0, k2: 0, k3: MARKET };
    let adapter_addr = Addr { kind: 1, k0: 0, k1: 0, k2: 0, k3: ADAPTER };
    let cfg = market_config(addr(ASSET));
    let ids = allocation_ids(&env, adapter_addr, &cfg, market);
    let expected = env
        .crypto()
        .sha256(&(Symbol::new(&env, "market"), contract_address(&env, MARKET)).to_xdr(&env))
        .to_array();
    let got = ids[2];
    let mut bytes = [0u8; 32];
    bytes[0..8].copy_from_slice(&got.w0.to_be_bytes());
    bytes[8..16].copy_from_slice(&got.w1.to_be_bytes());
    bytes[16..24].copy_from_slice(&got.w2.to_be_bytes());
    bytes[24..32].copy_from_slice(&got.w3.to_be_bytes());
    assert_eq!(bytes, expected);
    assert_ne!(ids[0], ids[2]);
    assert_ne!(ids[1], ids[2]);
    let again = allocation_ids(&env, adapter_addr, &cfg, market);
    assert_eq!(ids, again);
    let tag_matters = allocation_ids(&env, market, &cfg, market);
    assert_ne!(tag_matters[0], tag_matters[2]);
}

#[test]
fn decode_market_reads_ledger_address_xdr() {
    let env = Env::default();
    let contract = Addr { kind: 1, k0: 1, k1: 2, k2: 3, k3: MARKET };
    let account = Addr { kind: 0, k0: u64::MAX, k1: 0, k2: 7, k3: 1 << 63 };
    assert_eq!(decode_market(&address_xdr(contract)), Some(contract));
    assert_eq!(decode_market(&address_xdr(account)), Some(account));
    // the bytes the ledger itself produces for an address
    let sdk: Vec<u8> = contract_address(&env, MARKET).to_xdr(&env).iter().collect();
    assert_eq!(decode_market(&sdk), Some(Addr { kind: 1, k0: 0, k1: 0, k2: 0, k3: MARKET }));
    // not an address: wrong tag, wrong kind, wrong length, nothing
    let mut wrong_tag = address_xdr(contract);
    wrong_tag[3] = 17;
    assert_eq!(decode_market(&wrong_tag), None);
    let mut wrong_kind = address_xdr(contract);
    wrong_kind[7] = 2;
    assert_eq!(decode_market(&wrong_kind), None);
    let mut too_long = address_xdr(contract);
    too_long.push(0);
    assert_eq!(decode_market(&too_long), None);
    assert_eq!(decode_market(&vec![]), None);
}
