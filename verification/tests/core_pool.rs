use std::collections::HashMap;

use astrion::core_pool::{
    append_market, AccountSlot, CorePoolContract, HealthRow, MarketConfig, MarketState, PoolError,
};
use astrion::ids::Addr;
use astrion::math::WAD;
use astrion::rate_model::RateSnapshot;

fn addr(n: u64) -> Addr {
    Addr { kind: 0, k0: n, k1: 0, k2: 0, k3: 0 }
}

const EMPTY: AccountSlot = AccountSlot {
    scaled_supply: None,
    scaled_borrow: None,
    collateral_enabled: None,
};

/// The pool's stored values, its token balances and the prices and rates the
/// outside contracts report, driven through the library.
struct Pool {
    c: CorePoolContract,
    configs: HashMap<Addr, MarketConfig>,
    states: HashMap<Addr, MarketState>,
    accounts: HashMap<Addr, HashMap<Addr, AccountSlot>>,
    markets: Vec<Addr>,
    prices: HashMap<Addr, i128>,
    tokens: HashMap<(Addr, Addr), i128>,
    now: u64,
}

const POOL: u64 = 999;

impl Pool {
    fn rates() -> RateSnapshot {
        RateSnapshot { borrow_rate: WAD * 5 / 100, supply_rate: WAD * 4 / 100, utilization: 0 }
    }

    fn slot(&self, user: Addr, asset: Addr) -> AccountSlot {
        self.accounts.get(&user).and_then(|m| m.get(&asset).copied()).unwrap_or(EMPTY)
    }

    fn has_account(&self, user: Addr) -> bool {
        self.accounts.contains_key(&user)
    }

    fn rows(&self, user: Addr) -> Vec<HealthRow> {
        self.markets
            .iter()
            .map(|a| HealthRow {
                asset: *a,
                state: self.states.get(a).copied(),
                config: self.configs.get(a).copied(),
                price: *self.prices.get(a).unwrap_or(&WAD),
                slot: self.slot(user, *a),
            })
            .collect()
    }

    fn rates_for(&self, asset: Addr) -> Option<RateSnapshot> {
        let st = self.states.get(&asset).copied();
        if CorePoolContract::needs_rates(st, self.now) {
            Some(Self::rates())
        } else {
            None
        }
    }

    fn set_slot(&mut self, user: Addr, asset: Addr, slot: AccountSlot) {
        self.accounts.entry(user).or_default().insert(asset, slot);
    }

    fn transfer(&mut self, token: Addr, from: Addr, to: Addr, amount: i128) {
        *self.tokens.entry((token, from)).or_insert(0) -= amount;
        *self.tokens.entry((token, to)).or_insert(0) += amount;
    }

    fn mint(&mut self, token: Addr, to: Addr, amount: i128) {
        *self.tokens.entry((token, to)).or_insert(0) += amount;
    }

    fn balance(&self, token: Addr, who: Addr) -> i128 {
        *self.tokens.get(&(token, who)).unwrap_or(&0)
    }

    fn add_market(&mut self, config: MarketConfig) -> Result<(), PoolError> {
        let existing = self.configs.get(&config.asset).copied();
        let state = self.c.add_market(&config, existing, self.now)?;
        self.states.insert(config.asset, state);
        self.configs.insert(config.asset, config);
        append_market(&mut self.markets, config.asset);
        Ok(())
    }

    fn supply(&mut self, user: Addr, asset: Addr, amount: i128) -> Result<(), PoolError> {
        let config = self.configs.get(&asset).copied();
        let mut state = self.states.get(&asset).copied();
        let mut slot = self.slot(user, asset);
        let rates = self.rates_for(asset);
        self.c.supply(config, &mut state, &mut slot, amount, self.now, rates)?;
        self.states.insert(asset, state.unwrap());
        self.set_slot(user, asset, slot);
        self.transfer(asset, user, addr(POOL), amount);
        Ok(())
    }

    fn withdraw(&mut self, user: Addr, asset: Addr, amount: i128) -> Result<(), PoolError> {
        let config = self.configs.get(&asset).copied();
        let mut state = self.states.get(&asset).copied();
        let mut slot = self.slot(user, asset);
        let rates = self.rates_for(asset);
        let rows = self.rows(user);
        let has = self.has_account(user);
        self.c.withdraw(config, &mut state, has, &mut slot, amount, self.now, rates, &rows)?;
        self.states.insert(asset, state.unwrap());
        self.set_slot(user, asset, slot);
        self.transfer(asset, addr(POOL), user, amount);
        Ok(())
    }

    fn borrow(&mut self, user: Addr, asset: Addr, amount: i128) -> Result<(), PoolError> {
        let config = self.configs.get(&asset).copied();
        let mut state = self.states.get(&asset).copied();
        let mut slot = self.slot(user, asset);
        let rates = self.rates_for(asset);
        let rows = self.rows(user);
        self.c.borrow(config, &mut state, &mut slot, amount, self.now, rates, &rows)?;
        self.states.insert(asset, state.unwrap());
        self.set_slot(user, asset, slot);
        self.transfer(asset, addr(POOL), user, amount);
        Ok(())
    }

    fn repay(&mut self, payer: Addr, user: Addr, asset: Addr, amount: i128) -> Result<i128, PoolError> {
        let config = self.configs.get(&asset).copied();
        let mut state = self.states.get(&asset).copied();
        let mut slot = self.slot(user, asset);
        let rates = self.rates_for(asset);
        let has = self.has_account(user);
        let paid = self.c.repay(config, &mut state, has, &mut slot, amount, self.now, rates)?;
        self.states.insert(asset, state.unwrap());
        if paid > 0 {
            self.set_slot(user, asset, slot);
            self.transfer(asset, payer, addr(POOL), paid);
        }
        Ok(paid)
    }

    fn enable_collateral(&mut self, user: Addr, asset: Addr) -> Result<(), PoolError> {
        let config = self.configs.get(&asset).copied();
        let mut slot = self.slot(user, asset);
        self.c.enable_collateral(config, &mut slot)?;
        self.set_slot(user, asset, slot);
        Ok(())
    }

    fn disable_collateral(&mut self, user: Addr, asset: Addr) -> Result<(), PoolError> {
        let mut slot = self.slot(user, asset);
        let rows = self.rows(user);
        self.c.disable_collateral(asset, &mut slot, &rows)?;
        self.set_slot(user, asset, slot);
        Ok(())
    }

    fn accrue_interest(&mut self, asset: Addr) -> Result<(), PoolError> {
        let config = self.configs.get(&asset).copied();
        let mut state = self.states.get(&asset).copied();
        let rates = self.rates_for(asset);
        CorePoolContract::accrue_interest(config, &mut state, self.now, rates)?;
        self.states.insert(asset, state.unwrap());
        Ok(())
    }

    fn get_health_factor(&self, user: Addr) -> Result<i128, PoolError> {
        CorePoolContract::get_health_factor(self.has_account(user), &self.rows(user))
    }

    fn get_supply_balance(&self, user: Addr, asset: Addr) -> i128 {
        CorePoolContract::get_supply_balance(self.states.get(&asset).copied(), self.slot(user, asset))
    }

    fn get_borrow_balance(&self, user: Addr, asset: Addr) -> i128 {
        CorePoolContract::get_borrow_balance(self.states.get(&asset).copied(), self.slot(user, asset))
    }

    fn assert_market_invariants(&self, asset: Addr) -> Result<(), PoolError> {
        CorePoolContract::assert_market_invariants(
            self.configs.get(&asset).copied(),
            self.states.get(&asset).copied(),
        )
    }
}

const ADMIN: u64 = 1;
const USDC: u64 = 10;
const WBTC: u64 = 11;

fn mkt(asset: Addr, ltv: i128, liq_threshold: i128) -> MarketConfig {
    MarketConfig {
        asset,
        ltv,
        liquidation_threshold: liq_threshold,
        liquidation_bonus: WAD * 5 / 100,
        reserve_factor: WAD / 10,
        supply_cap: 0,
        borrow_cap: 0,
        is_active: true,
        is_borrowable: true,
    }
}

/// USDC at 1 WAD and WBTC at 10 WAD, both at LTV 70% and threshold 80%.
fn setup() -> Pool {
    let mut c = CorePoolContract::fresh();
    c.initialize(addr(ADMIN), addr(2), addr(3), addr(ADMIN)).unwrap();
    let mut p = Pool {
        c,
        configs: HashMap::new(),
        states: HashMap::new(),
        accounts: HashMap::new(),
        markets: Vec::new(),
        prices: HashMap::new(),
        tokens: HashMap::new(),
        now: 0,
    };
    p.prices.insert(addr(USDC), WAD);
    p.prices.insert(addr(WBTC), 10 * WAD);
    p.add_market(mkt(addr(USDC), WAD * 70 / 100, WAD * 80 / 100)).unwrap();
    p.add_market(mkt(addr(WBTC), WAD * 70 / 100, WAD * 80 / 100)).unwrap();
    p
}

/// A supplier of 1000 USDC and a borrower of 700 USDC against 100 WBTC.
fn setup_with_borrow(supplied: i128) -> (Pool, Addr, Addr) {
    let mut p = setup();
    let supplier = addr(100);
    p.mint(addr(USDC), supplier, supplied);
    p.supply(supplier, addr(USDC), supplied).unwrap();
    let borrower = addr(101);
    p.mint(addr(WBTC), borrower, 100);
    p.supply(borrower, addr(WBTC), 100).unwrap();
    p.borrow(borrower, addr(USDC), 700).unwrap();
    (p, supplier, borrower)
}

#[test]
fn core_pool_initialize_success() {
    let p = setup();
    assert!(p.c.initialized);
    assert!(!p.c.paused);
    assert_eq!(p.c.admin, Some(addr(ADMIN)));
}

#[test]
fn test_test_double_initialize_fails() {
    let mut p = setup();
    let result = p.c.initialize(addr(ADMIN), addr(2), addr(POOL), addr(ADMIN));
    assert_eq!(result, Err(PoolError::AlreadyInitialized));
}

#[test]
fn test_pause_unpause() {
    let mut p = setup();
    p.c.pause().unwrap();
    assert!(p.c.paused);
    p.c.unpause().unwrap();
    assert!(!p.c.paused);
}

#[test]
fn test_pause_blocks_supply() {
    let mut p = setup();
    p.c.pause().unwrap();
    let user = addr(100);
    p.mint(addr(USDC), user, 1_000);
    assert_eq!(p.supply(user, addr(USDC), 100), Err(PoolError::Paused));
}

#[test]
fn test_add_market_already_exists() {
    let mut p = setup();
    let result = p.add_market(mkt(addr(USDC), WAD * 70 / 100, WAD * 80 / 100));
    assert_eq!(result, Err(PoolError::MarketAlreadyExists));
}

#[test]
fn test_add_market_invalid_ltv_fails() {
    let mut p = setup();
    let bad = MarketConfig {
        asset: addr(12),
        ltv: WAD * 90 / 100,
        liquidation_threshold: WAD * 80 / 100,
        liquidation_bonus: WAD * 5 / 100,
        reserve_factor: WAD / 10,
        supply_cap: 0,
        borrow_cap: 0,
        is_active: true,
        is_borrowable: true,
    };
    assert_eq!(p.add_market(bad), Err(PoolError::InvalidAmount));
}

#[test]
fn test_get_markets() {
    let p = setup();
    assert_eq!(p.markets.len(), 2);
    assert!(p.markets.contains(&addr(USDC)));
    assert!(p.markets.contains(&addr(WBTC)));
}

#[test]
fn test_supply_basic() {
    let mut p = setup();
    let user = addr(100);
    p.mint(addr(USDC), user, 1_000);
    p.supply(user, addr(USDC), 1_000).unwrap();
    assert_eq!(p.get_supply_balance(user, addr(USDC)), 1_000);
    assert_eq!(p.balance(addr(USDC), user), 0);
}

#[test]
fn test_supply_zero_fails() {
    let mut p = setup();
    assert_eq!(p.supply(addr(100), addr(USDC), 0), Err(PoolError::InvalidAmount));
}

#[test]
fn test_supply_cap_enforced() {
    let mut p = setup();
    let asset = addr(12);
    p.prices.insert(asset, WAD);
    p.add_market(MarketConfig { supply_cap: 500, ..mkt(asset, WAD * 70 / 100, WAD * 80 / 100) })
        .unwrap();
    let user = addr(100);
    p.mint(asset, user, 1_000);
    p.supply(user, asset, 500).unwrap();
    assert_eq!(p.supply(user, asset, 1), Err(PoolError::SupplyCapExceeded));
}

#[test]
fn test_withdraw_basic() {
    let mut p = setup();
    let user = addr(100);
    p.mint(addr(USDC), user, 1_000);
    p.supply(user, addr(USDC), 1_000).unwrap();
    p.withdraw(user, addr(USDC), 1_000).unwrap();
    assert_eq!(p.get_supply_balance(user, addr(USDC)), 0);
    assert_eq!(p.balance(addr(USDC), user), 1_000);
}

#[test]
fn test_withdraw_more_than_supplied_fails() {
    let mut p = setup();
    let user = addr(100);
    p.mint(addr(USDC), user, 1_000);
    p.supply(user, addr(USDC), 500).unwrap();
    assert_eq!(p.withdraw(user, addr(USDC), 600), Err(PoolError::InvalidAmount));
}

#[test]
fn test_withdraw_insufficient_liquidity_fails() {
    let (mut p, supplier, _) = setup_with_borrow(1_000);
    assert_eq!(p.withdraw(supplier, addr(USDC), 400), Err(PoolError::InsufficientLiquidity));
}

#[test]
fn test_borrow_basic() {
    let (p, _, borrower) = setup_with_borrow(1_000);
    assert_eq!(p.get_borrow_balance(borrower, addr(USDC)), 700);
    assert_eq!(p.balance(addr(USDC), borrower), 700);
}

#[test]
fn test_borrow_no_collateral_fails() {
    let mut p = setup();
    let supplier = addr(100);
    p.mint(addr(USDC), supplier, 1_000);
    p.supply(supplier, addr(USDC), 1_000).unwrap();
    assert_eq!(p.borrow(addr(101), addr(USDC), 100), Err(PoolError::HealthFactorTooLow));
}

#[test]
fn test_borrow_exceeds_collateral_fails() {
    let mut p = setup();
    let supplier = addr(100);
    p.mint(addr(USDC), supplier, 2_000);
    p.supply(supplier, addr(USDC), 2_000).unwrap();
    let borrower = addr(101);
    p.mint(addr(WBTC), borrower, 100);
    p.supply(borrower, addr(WBTC), 100).unwrap();
    assert_eq!(p.borrow(borrower, addr(USDC), 900), Err(PoolError::HealthFactorTooLow));
}

#[test]
fn test_borrow_cap_enforced() {
    let mut p = setup();
    let asset = addr(12);
    p.prices.insert(asset, WAD);
    p.add_market(MarketConfig { borrow_cap: 400, ..mkt(asset, WAD * 70 / 100, WAD * 80 / 100) })
        .unwrap();
    let supplier = addr(100);
    p.mint(asset, supplier, 2_000);
    p.supply(supplier, asset, 2_000).unwrap();
    let borrower = addr(101);
    p.mint(addr(WBTC), borrower, 1_000);
    p.supply(borrower, addr(WBTC), 1_000).unwrap();
    p.borrow(borrower, asset, 400).unwrap();
    assert_eq!(p.borrow(borrower, asset, 1), Err(PoolError::BorrowCapExceeded));
}

#[test]
fn test_repay_full() {
    let (mut p, _, borrower) = setup_with_borrow(1_000);
    p.mint(addr(USDC), borrower, 200);
    let paid = p.repay(borrower, borrower, addr(USDC), 2_000).unwrap();
    assert_eq!(paid, 700);
    assert_eq!(p.get_borrow_balance(borrower, addr(USDC)), 0);
}

#[test]
fn test_repay_partial() {
    let (mut p, _, borrower) = setup_with_borrow(1_000);
    p.repay(borrower, borrower, addr(USDC), 300).unwrap();
    let remaining = p.get_borrow_balance(borrower, addr(USDC));
    assert!(remaining >= 399 && remaining <= 401);
}

#[test]
fn test_disable_collateral_with_debt_fails() {
    let (mut p, _, borrower) = setup_with_borrow(1_000);
    assert_eq!(p.disable_collateral(borrower, addr(WBTC)), Err(PoolError::HealthFactorTooLow));
}

#[test]
fn test_enable_disable_collateral_no_debt() {
    let mut p = setup();
    let user = addr(100);
    p.mint(addr(USDC), user, 500);
    p.supply(user, addr(USDC), 500).unwrap();
    p.disable_collateral(user, addr(USDC)).unwrap();
    assert_eq!(p.slot(user, addr(USDC)).collateral_enabled, Some(false));
    p.enable_collateral(user, addr(USDC)).unwrap();
    assert_eq!(p.slot(user, addr(USDC)).collateral_enabled, Some(true));
}

#[test]
fn test_interest_accrual_advances_indexes() {
    let (mut p, _, _) = setup_with_borrow(2_000);
    let before = p.states[&addr(USDC)];
    assert_eq!(before.borrow_index, WAD);
    assert_eq!(before.supply_index, WAD);
    p.now = 31_536_000;
    p.accrue_interest(addr(USDC)).unwrap();
    let after = p.states[&addr(USDC)];
    assert!(after.borrow_index > WAD);
    assert!(after.supply_index > WAD);
    assert!(after.borrow_index > after.supply_index);
}

#[test]
fn test_interest_accrual_same_block_is_noop() {
    let (mut p, _, _) = setup_with_borrow(2_000);
    let before = p.states[&addr(USDC)];
    p.accrue_interest(addr(USDC)).unwrap();
    let after = p.states[&addr(USDC)];
    assert_eq!(before.borrow_index, after.borrow_index);
    assert_eq!(before.supply_index, after.supply_index);
}

#[test]
fn test_get_health_factor_no_debt_returns_max() {
    let p = setup();
    assert_eq!(p.get_health_factor(addr(100)), Ok(i128::MAX));
}

#[test]
fn test_get_health_factor_with_debt() {
    let (p, _, borrower) = setup_with_borrow(1_000);
    let hf = p.get_health_factor(borrower).unwrap();
    assert!(hf > WAD);
    assert!(hf < WAD * 2);
}

#[test]
fn test_assert_market_invariants_after_operations() {
    let (p, _, _) = setup_with_borrow(1_000);
    assert_eq!(p.assert_market_invariants(addr(USDC)), Ok(()));
    assert_eq!(p.assert_market_invariants(addr(WBTC)), Ok(()));
}

#[test]
fn accrual_over_a_year_at_five_percent_gives_exact_indexes() {
    let (mut p, _, _) = setup_with_borrow(2_000);
    p.now = 31_536_000;
    p.accrue_interest(addr(USDC)).unwrap();
    let s = p.states[&addr(USDC)];
    // per-second rates truncate: 5e16 / 31_536_000 = 1_585_489_599 per second
    assert_eq!(s.borrow_index, WAD + 1_585_489_599 * 31_536_000);
    assert_eq!(s.supply_index, WAD + 1_268_391_679 * 31_536_000);
    assert_eq!(s.last_update_timestamp, 31_536_000);
    assert!(s.protocol_reserves >= 0);
}

#[test]
fn accrual_without_borrows_keeps_indexes_and_stamps_time() {
    let mut p = setup();
    let user = addr(100);
    p.mint(addr(USDC), user, 1_000);
    p.supply(user, addr(USDC), 1_000).unwrap();
    p.now = 500;
    p.accrue_interest(addr(USDC)).unwrap();
    let s = p.states[&addr(USDC)];
    assert_eq!(s.supply_index, WAD);
    assert_eq!(s.borrow_index, WAD);
    assert_eq!(s.last_update_timestamp, 500);
}

#[test]
fn borrow_moves_account_and_total_by_the_same_scaled_debt() {
    let (mut p, _, borrower) = setup_with_borrow(2_000);
    p.now = 1_000;
    let before_total = p.rates_for(addr(USDC));
    assert!(before_total.is_some());
    let before_slot = p.slot(borrower, addr(USDC)).scaled_borrow.unwrap();
    let st0 = p.states[&addr(USDC)].total_scaled_borrow;
    p.borrow(borrower, addr(USDC), 50).unwrap();
    let after_slot = p.slot(borrower, addr(USDC)).scaled_borrow.unwrap();
    let st1 = p.states[&addr(USDC)].total_scaled_borrow;
    assert_eq!(after_slot - before_slot, st1 - st0);
    assert!(after_slot > before_slot);
}

#[test]
fn repay_without_account_is_invalid_and_without_debt_pays_nothing() {
    let mut p = setup();
    assert_eq!(p.repay(addr(100), addr(100), addr(USDC), 10), Err(PoolError::InvalidAmount));
    let user = addr(100);
    p.mint(addr(USDC), user, 10);
    p.supply(user, addr(USDC), 10).unwrap();
    assert_eq!(p.repay(user, user, addr(USDC), 10), Ok(0));
}

#[test]
fn operations_on_unknown_or_inactive_markets_fail() {
    let mut p = setup();
    assert_eq!(p.supply(addr(100), addr(77), 10), Err(PoolError::MarketNotFound));
    let asset = addr(12);
    p.add_market(MarketConfig { is_active: false, ..mkt(asset, WAD / 2, WAD * 6 / 10) }).unwrap();
    assert_eq!(p.supply(addr(100), asset, 10), Err(PoolError::MarketInactive));
    let asset2 = addr(13);
    p.prices.insert(asset2, WAD);
    p.add_market(MarketConfig { is_borrowable: false, ..mkt(asset2, WAD / 2, WAD * 6 / 10) })
        .unwrap();
    assert_eq!(p.borrow(addr(100), asset2, 10), Err(PoolError::BorrowingDisabled));
}

#[test]
fn uninitialized_pool_refuses_everything() {
    let mut c = CorePoolContract::fresh();
    assert_eq!(c.pause(), Err(PoolError::NotInitialized));
    assert_eq!(c.transfer_admin(addr(5)), Err(PoolError::NotInitialized));
    assert_eq!(c.upgrade(), Err(PoolError::NotInitialized));
    assert_eq!(c.guard_user_live(), Err(PoolError::NotInitialized));
    let cfg = mkt(addr(USDC), WAD / 2, WAD * 6 / 10);
    assert_eq!(c.add_market(&cfg, None, 0), Err(PoolError::NotInitialized));
}

#[test]
fn market_invariants_flag_broken_state() {
    let cfg = mkt(addr(USDC), WAD / 2, WAD * 6 / 10);
    let bad = MarketState {
        supply_index: WAD - 1,
        borrow_index: WAD,
        total_scaled_supply: 0,
        total_scaled_borrow: 0,
        protocol_reserves: 0,
        last_update_timestamp: 0,
    };
    assert_eq!(
        CorePoolContract::assert_market_invariants(Some(cfg), Some(bad)),
        Err(PoolError::InvariantViolation)
    );
    let over = MarketState { supply_index: WAD, total_scaled_supply: 5, total_scaled_borrow: 6, ..bad };
    assert_eq!(
        CorePoolContract::assert_market_invariants(Some(cfg), Some(over)),
        Err(PoolError::InvariantViolation)
    );
    assert_eq!(CorePoolContract::assert_market_invariants(None, Some(over)), Err(PoolError::MarketNotFound));
}

#[test]
fn health_check_with_missing_state_reports_market_not_found() {
    let rows = vec![HealthRow { asset: addr(1), state: None, config: None, price: WAD, slot: EMPTY }];
    assert_eq!(CorePoolContract::get_health_factor(true, &rows), Err(PoolError::MarketNotFound));
}

/// The runtime invariants of a market and one account's place in it.
fn holds_invariants(p: &Pool, user: Addr, asset: Addr) -> bool {
    let s = p.states[&asset];
    let slot = p.slot(user, asset);
    let supplied = slot.scaled_supply.unwrap_or(0);
    let borrowed = slot.scaled_borrow.unwrap_or(0);
    s.supply_index >= WAD
        && s.borrow_index >= WAD
        && s.total_scaled_supply >= 0
        && s.total_scaled_borrow >= 0
        && s.protocol_reserves >= 0
        && 0 <= supplied
        && supplied <= s.total_scaled_supply
        && 0 <= borrowed
        && borrowed <= s.total_scaled_borrow
}

#[test]
fn every_operation_keeps_the_runtime_invariants() {
    let (mut p, supplier, borrower) = setup_with_borrow(2_000);
    let usdc = addr(USDC);
    assert!(holds_invariants(&p, borrower, usdc) && holds_invariants(&p, supplier, usdc));
    p.now = 10_000_000;
    p.mint(usdc, borrower, 1_000);
    p.repay(borrower, borrower, usdc, 300).unwrap();
    assert!(holds_invariants(&p, borrower, usdc));
    p.now = 20_000_000;
    p.borrow(borrower, usdc, 100).unwrap();
    assert!(holds_invariants(&p, borrower, usdc));
    p.now = 30_000_000;
    p.withdraw(supplier, usdc, 500).unwrap();
    assert!(holds_invariants(&p, supplier, usdc));
    p.supply(borrower, usdc, 200).unwrap();
    assert!(holds_invariants(&p, borrower, usdc));
    let paid = p.repay(borrower, borrower, usdc, 10_000).unwrap();
    assert!(paid > 0 && paid < 10_000);
    assert!(holds_invariants(&p, borrower, usdc));
}

#[test]
fn supply_then_withdraw_at_once_restores_the_scaled_balance() {
    let (mut p, supplier, _) = setup_with_borrow(2_000);
    let usdc = addr(USDC);
    p.now = 5_000_000;
    p.accrue_interest(usdc).unwrap();
    let before = p.slot(supplier, usdc).scaled_supply.unwrap();
    let total = p.states[&usdc].total_scaled_supply;
    p.mint(usdc, supplier, 300);
    p.supply(supplier, usdc, 300).unwrap();
    assert!(p.slot(supplier, usdc).scaled_supply.unwrap() > before);
    p.withdraw(supplier, usdc, 300).unwrap();
    assert_eq!(p.slot(supplier, usdc).scaled_supply.unwrap(), before);
    assert_eq!(p.states[&usdc].total_scaled_supply, total);
}

#[test]
fn pool_accrual_twice_in_one_ledger_changes_nothing() {
    let (mut p, _, _) = setup_with_borrow(2_000);
    p.now = 31_536_000;
    p.accrue_interest(addr(USDC)).unwrap();
    let once = p.states[&addr(USDC)];
    assert!(once.borrow_index > WAD);
    // the second accrual needs no rates and leaves the whole state as it was
    let config = p.configs.get(&addr(USDC)).copied();
    let mut state = Some(once);
    assert!(!CorePoolContract::needs_rates(state, p.now));
    assert_eq!(CorePoolContract::accrue_interest(config, &mut state, p.now, None), Ok(()));
    assert_eq!(state, Some(once));
}
