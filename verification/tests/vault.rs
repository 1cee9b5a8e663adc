use astrion::ids::Addr;
use astrion::vault::{VaultContract, VaultError, VaultState, DEFAULT_MAX_RATE};

fn addr(n: u64) -> Addr {
    Addr { kind: 0, k0: n, k1: 0, k2: 0, k3: 0 }
}

fn vault(decimals: u32) -> VaultContract {
    let mut v = VaultContract::fresh();
    v.initialize(
        addr(1),
        addr(2),
        String::from("Astrion USDC Vault"),
        String::from("asUSDC"),
        decimals,
        addr(3),
        0,
    )
    .unwrap();
    v
}

#[test]
fn vault_initialize_success() {
    let v = vault(7);
    let config = v.config.clone().unwrap();
    assert_eq!(config.owner, addr(1));
    assert_eq!(config.asset, addr(2));
    assert_eq!(config.virtual_shares, 100_000_000_000);
    let state = v.get_state().unwrap();
    assert_eq!(state.total_assets, 0);
    assert_eq!(state.total_shares, 0);
}

#[test]
fn vault_initialize_defaults() {
    let v = vault(18);
    let config = v.config.clone().unwrap();
    assert_eq!(config.virtual_shares, 1);
    assert_eq!(config.max_rate, DEFAULT_MAX_RATE);
    assert_eq!(DEFAULT_MAX_RATE, 2 * 1_000_000_000_000_000_000 / 31_536_000);
    assert_eq!(config.performance_fee_recipient, addr(3));
    assert_eq!(config.name, "Astrion USDC Vault");
    assert_eq!(vault(24).config.unwrap().virtual_shares, 1);
    let mut again = vault(7);
    let r = again.initialize(addr(1), addr(2), String::new(), String::new(), 7, addr(3), 0);
    assert_eq!(r, Err(VaultError::AlreadyInitialized));
}

#[test]
fn deposit_mints_shares_rounded_down_and_locks_until_exit() {
    let mut v = vault(7);
    let mut bal: i128 = 0;
    let shares = v.deposit(1_000, &mut bal).unwrap();
    // 1000 * (0 + 1e11) / (0 + 1)
    assert_eq!(shares, 100_000_000_000_000);
    assert_eq!(bal, shares);
    assert!(v.locked);
    let mut other: i128 = 0;
    assert_eq!(v.deposit(1, &mut other), Err(VaultError::Reentrant));
    v.exit();
    assert!(!v.locked);
    assert_eq!(v.total_assets(), 1_000);
    assert_eq!(v.total_supply(), shares);
}

#[test]
fn deposit_then_redeem_returns_no_more_than_deposited() {
    let mut v = vault(7);
    let mut bal: i128 = 0;
    let shares = v.deposit(1_000, &mut bal).unwrap();
    v.exit();
    let mut allowance: i128 = 0;
    let assets = v.redeem(addr(5), addr(5), shares, &mut bal, &mut allowance, 1_000).unwrap();
    v.exit();
    assert!(assets <= 1_000);
    assert_eq!(assets, 1_000);
    assert_eq!(bal, 0);
    assert_eq!(v.total_supply(), 0);
}

#[test]
fn mint_charges_assets_rounded_up() {
    let mut v = vault(18);
    let mut seed_bal: i128 = 0;
    v.deposit(10, &mut seed_bal).unwrap();
    v.exit();
    // totals: 10 assets, 10 shares; 3 shares cost ceil(3 * 11 / 11) = 3
    let mut bal: i128 = 0;
    assert_eq!(v.mint(3, &mut bal), Ok(3));
    v.exit();
    assert_eq!(bal, 3);
    let st = v.get_state().unwrap();
    assert_eq!(st, VaultState { total_assets: 13, total_shares: 13, last_update_timestamp: 0 });
}

#[test]
fn withdraw_burns_shares_rounded_up_and_spends_allowance() {
    let mut v = vault(18);
    let mut owner_bal: i128 = 0;
    v.deposit(100, &mut owner_bal).unwrap();
    v.exit();
    let mut allowance: i128 = 40;
    let burned = v.withdraw(addr(6), addr(5), 30, &mut owner_bal, &mut allowance, 100).unwrap();
    v.exit();
    assert_eq!(burned, 30);
    assert_eq!(owner_bal, 70);
    assert_eq!(allowance, 10);
    let r = v.withdraw(addr(6), addr(5), 30, &mut owner_bal, &mut allowance, 100);
    assert_eq!(r, Err(VaultError::InsufficientAllowance));
    assert_eq!(owner_bal, 70);
}

#[test]
fn withdraw_failures_change_nothing() {
    let mut v = vault(18);
    let mut bal: i128 = 0;
    v.deposit(100, &mut bal).unwrap();
    v.exit();
    let mut allowance: i128 = 0;
    assert_eq!(
        v.withdraw(addr(5), addr(5), 50, &mut bal, &mut allowance, 10),
        Err(VaultError::InsufficientLiquidity)
    );
    let mut small: i128 = 5;
    assert_eq!(
        v.redeem(addr(5), addr(5), 10, &mut small, &mut allowance, 100),
        Err(VaultError::InsufficientBalance)
    );
    assert_eq!(v.withdraw(addr(5), addr(5), 0, &mut bal, &mut allowance, 100), Err(VaultError::InvalidAmount));
    assert_eq!(bal, 100);
    assert_eq!(v.total_assets(), 100);
    assert!(!v.locked);
}

#[test]
fn approvals_refuse_negative_allowances() {
    let mut a: i128 = 7;
    assert_eq!(VaultContract::approve(&mut a, -1), Err(VaultError::InvalidAmount));
    assert_eq!(a, 7);
    assert_eq!(VaultContract::approve(&mut a, 0), Ok(()));
    assert_eq!(a, 0);
}

#[test]
fn uninitialised_vault_refuses_deposits() {
    let mut v = VaultContract::fresh();
    let mut bal: i128 = 0;
    assert_eq!(v.deposit(10, &mut bal), Err(VaultError::NotInitialized));
    assert_eq!(v.total_assets(), 0);
    assert_eq!(v.enter(), Ok(()));
    assert_eq!(v.enter(), Err(VaultError::Reentrant));
}

#[test]
fn conversions_round_in_the_vaults_favour() {
    let st = VaultState { total_assets: 10, total_shares: 7, last_update_timestamp: 0 };
    assert_eq!(VaultContract::to_shares_down(5, &st, 1), 3);
    assert_eq!(VaultContract::to_shares_up(5, &st, 1), 4);
    assert_eq!(VaultContract::to_assets_down(5, &st, 1), 6);
    assert_eq!(VaultContract::to_assets_up(5, &st, 1), 7);
}
