//! ERC-4626-style vault share accounting.
//!
//! Shares and assets convert through virtual amounts: one virtual asset and
//! `virtual_shares = 10^(18 - decimals)` virtual shares, so that the first
//! depositor cannot inflate the share price. Deposits and redemptions round in
//! the vault's favour (down), mints and withdrawals round against the caller (up).
//!
//! Share balances and allowances live in per-account storage entries; each
//! operation takes the entries it touches. The asset transfer happens after the
//! operation, while the vault is still locked against re-entry; `exit` releases
//! the lock.
use vstd::prelude::*;
use crate::ids::{Addr, Hash32};
use crate::math::{
    fits, mul_div_down, mul_div_down_spec, mul_div_up, mul_div_up_spec, pow10, pow10_spec, WAD,
};

verus! {

pub const SECONDS_PER_YEAR: i128 = 31_536_000;

/// Default ceiling on share-price growth per second: 200% a year, that is
/// `2 * WAD / SECONDS_PER_YEAR` rounded down.
pub const DEFAULT_MAX_RATE: i128 = 63_419_583_967;

pub const VIRTUAL_ASSETS: i128 = 1;

/// A change of allocation reported by an adapter, per risk id.
#[derive(Clone, Debug)]
pub struct AdapterChange {
    pub ids: Vec<Hash32>,
    pub change: i128,
}

/// Allocation caps of one risk id.
#[derive(Clone, Copy, Debug, PartialEq, Eq, Structural)]
pub struct Caps {
    pub allocation: i128,
    pub absolute_cap: i128,
    pub relative_cap: i128,
}

/// Optional gate contracts for share and asset movements.
#[derive(Clone, Copy, Debug, PartialEq, Eq, Structural)]
pub struct GateConfig {
    pub receive_shares: Option<Addr>,
    pub send_shares: Option<Addr>,
    pub receive_assets: Option<Addr>,
    pub send_assets: Option<Addr>,
}

#[derive(Clone, Debug)]
pub struct VaultConfig {
    pub owner: Addr,
    pub curator: Addr,
    pub asset: Addr,
    pub name: String,
    pub symbol: String,
    pub decimals: u32,
    pub virtual_shares: i128,
    pub performance_fee: i128,
    pub performance_fee_recipient: Addr,
    pub management_fee: i128,
    pub management_fee_recipient: Addr,
    /// Maximum share-price growth rate per second, WAD-scaled.
    pub max_rate: i128,
    pub gates: GateConfig,
    /// Optional adapter registry that newly enabled adapters must be listed in.
    pub adapter_registry: Option<Addr>,
}

#[derive(Clone, Copy, Debug, PartialEq, Eq, Structural)]
pub struct VaultState {
    pub total_assets: i128,
    pub total_shares: i128,
    pub last_update_timestamp: u64,
}

#[derive(Clone, Copy, Debug, PartialEq, Eq, Structural)]
pub struct AccrualPreview {
    pub new_total_assets: i128,
    pub performance_fee_shares: i128,
    pub management_fee_shares: i128,
}

#[derive(Clone, Copy, Debug, PartialEq, Eq, Structural)]
pub enum VaultError {
    AlreadyInitialized,
    NotInitialized,
    Unauthorized,
    Paused,
    Reentrant,
    InvalidAmount,
    InsufficientBalance,
    InsufficientAllowance,
    InsufficientLiquidity,
    InconsistentInput,
    FeeTooHigh,
    RateTooHigh,
    FeeInvariantBroken,
    DataAlreadyPending,
    DataNotTimelocked,
    TimelockNotExpired,
    Abdicated,
}

/// `10^(18 - decimals)`, and 1 for tokens with 18 or more decimals.
pub open spec fn virtual_shares_for(decimals: u32) -> int {
    if decimals >= 18 {
        1
    } else {
        pow10_spec((18 - decimals) as nat)
    }
}

/// Totals are never negative.
pub open spec fn vault_state_wf(st: VaultState) -> bool {
    st.total_assets >= 0 && st.total_shares >= 0
}

/// Assets to shares, rounded down.
pub open spec fn shares_down(assets: int, st: VaultState, vs: int) -> int {
    mul_div_down_spec(assets, st.total_shares + vs, st.total_assets + VIRTUAL_ASSETS)
}

/// Assets to shares, rounded up.
pub open spec fn shares_up(assets: int, st: VaultState, vs: int) -> int {
    mul_div_up_spec(assets, st.total_shares + vs, st.total_assets + VIRTUAL_ASSETS)
}

/// Shares to assets, rounded down.
pub open spec fn assets_down(shares: int, st: VaultState, vs: int) -> int {
    mul_div_down_spec(shares, st.total_assets + VIRTUAL_ASSETS, st.total_shares + vs)
}

/// Shares to assets, rounded up.
pub open spec fn assets_up(shares: int, st: VaultState, vs: int) -> int {
    mul_div_up_spec(shares, st.total_assets + VIRTUAL_ASSETS, st.total_shares + vs)
}

/// The conversions of `x` against these totals do not overflow.
pub open spec fn conversion_ok(x: int, st: VaultState, vs: int) -> bool {
    &&& fits(st.total_shares + vs)
    &&& fits(st.total_assets + VIRTUAL_ASSETS)
    &&& fits(x * (st.total_shares + vs))
    &&& fits(x * (st.total_shares + vs) + st.total_assets + VIRTUAL_ASSETS - 1)
    &&& fits(x * (st.total_assets + VIRTUAL_ASSETS))
    &&& fits(x * (st.total_assets + VIRTUAL_ASSETS) + st.total_shares + vs - 1)
}

/// The vault's stored configuration, totals and re-entrancy lock.
pub struct VaultContract {
    pub initialized: bool,
    pub locked: bool,
    pub config: Option<VaultConfig>,
    pub state: Option<VaultState>,
}

impl VaultContract {
    pub open spec fn wf(&self) -> bool {
        &&& self.config is Some <==> self.state is Some
        &&& self.config matches Some(c) ==> c.virtual_shares >= 1
        &&& self.state matches Some(s) ==> vault_state_wf(s)
    }

    pub open spec fn vs(&self) -> int {
        self.config->0.virtual_shares as int
    }

    pub open spec fn st(&self) -> VaultState {
        self.state->0
    }

    /// The error an operation stops with before any conversion, if any.
    pub open spec fn entry_error(&self, amount: int) -> Option<VaultError> {
        if self.locked {
            Some(VaultError::Reentrant)
        } else if amount <= 0 {
            Some(VaultError::InvalidAmount)
        } else if self.config is None || self.state is None {
            Some(VaultError::NotInitialized)
        } else {
            None
        }
    }

    /// Nothing stored yet.
    pub fn fresh() -> (r: Self)
        ensures
            !r.initialized && !r.locked && r.config is None && r.state is None,
            r.wf(),
    {
        VaultContract { initialized: false, locked: false, config: None, state: None }
    }

    /// Configure the vault once; `vault` is the vault's own address, which
    /// receives the (zero) fees until recipients are set.
    pub fn initialize(
        &mut self,
        owner: Addr,
        asset: Addr,
        name: String,
        symbol: String,
        decimals: u32,
        vault: Addr,
        now: u64,
    ) -> (r: Result<(), VaultError>)
        requires
            old(self).wf(),
        ensures
            final(self).wf(),
            old(self).initialized ==> r == Err::<(), _>(VaultError::AlreadyInitialized)
                && *final(self) == *old(self),
            !old(self).initialized ==> {
                &&& r is Ok
                &&& final(self).initialized
                &&& final(self).locked == old(self).locked
                &&& final(self).state == Some(
                    VaultState { total_assets: 0, total_shares: 0, last_update_timestamp: now },
                )
                &&& final(self).config matches Some(c) && c.owner == owner && c.curator == owner
                    && c.asset == asset && c.name@ == name@ && c.symbol@ == symbol@ && c.decimals
                    == decimals && c.virtual_shares == virtual_shares_for(decimals)
                    && c.performance_fee == 0 && c.performance_fee_recipient == vault
                    && c.management_fee == 0 && c.management_fee_recipient == vault && c.max_rate
                    == DEFAULT_MAX_RATE && c.gates == (GateConfig {
                    receive_shares: None,
                    send_shares: None,
                    receive_assets: None,
                    send_assets: None,
                }) && c.adapter_registry is None
            },
    {
        if self.initialized {
            return Err(VaultError::AlreadyInitialized);
        }
        let exp: u32 = if decimals >= 18 {
            0
        } else {
            18 - decimals
        };
        let virtual_shares = pow10(exp);
        proof {
            crate::math::lemma_pow10_positive(exp as nat);
        }
        let config = VaultConfig {
            owner,
            curator: owner,
            asset,
            name,
            symbol,
            decimals,
            virtual_shares,
            performance_fee: 0,
            performance_fee_recipient: vault,
            management_fee: 0,
            management_fee_recipient: vault,
            max_rate: DEFAULT_MAX_RATE,
            gates: GateConfig {
                receive_shares: None,
                send_shares: None,
                receive_assets: None,
                send_assets: None,
            },
            adapter_registry: None,
        };
        self.config = Some(config);
        self.state = Some(VaultState { total_assets: 0, total_shares: 0, last_update_timestamp: now });
        self.initialized = true;
        Ok(())
    }

    /// Total shares in issue; 0 before initialisation.
    pub fn total_supply(&self) -> (r: i128)
        ensures
            r == (match self.state {
                Some(s) => s.total_shares,
                None => 0,
            }),
    {
        match self.state {
            Some(s) => s.total_shares,
            None => 0,
        }
    }

    /// Total assets under management; 0 before initialisation.
    pub fn total_assets(&self) -> (r: i128)
        ensures
            r == (match self.state {
                Some(s) => s.total_assets,
                None => 0,
            }),
    {
        match self.state {
            Some(s) => s.total_assets,
            None => 0,
        }
    }

    pub fn get_state(&self) -> (r: Option<VaultState>)
        ensures
            r == self.state,
    {
        self.state
    }

    /// Take the re-entrancy lock.
    pub fn enter(&mut self) -> (r: Result<(), VaultError>)
        ensures
            old(self).locked ==> r == Err::<(), _>(VaultError::Reentrant)
                && *final(self) == *old(self),
            !old(self).locked ==> r is Ok && *final(self) == (VaultContract {
                locked: true,
                ..*old(self)
            }),
    {
        if self.locked {
            return Err(VaultError::Reentrant);
        }
        self.locked = true;
        Ok(())
    }

    /// Release the re-entrancy lock.
    pub fn exit(&mut self)
        ensures
            *final(self) == (VaultContract { locked: false, ..*old(self) }),
    {
        self.locked = false;
    }

    /// Deposit `assets` for `receiver`, minting shares rounded down. On success
    /// the vault stays locked until the assets have been transferred in.
    pub fn deposit(&mut self, assets: i128, receiver_balance: &mut i128) -> (r: Result<i128, VaultError>)
        requires
            old(self).wf(),
            old(self).entry_error(assets as int) is None ==> {
                let st = old(self).st();
                let s = shares_down(assets as int, st, old(self).vs());
                &&& conversion_ok(assets as int, st, old(self).vs())
                &&& fits(*old(receiver_balance) + s)
                &&& fits(st.total_shares + s)
                &&& fits(st.total_assets + assets)
            },
        ensures
            final(self).wf(),
            ({
                let st = old(self).st();
                let s = shares_down(assets as int, st, old(self).vs());
                if old(self).entry_error(assets as int) is Some {
                    r == Err::<i128, _>(old(self).entry_error(assets as int)->0)
                        && *final(self) == *old(self) && *final(receiver_balance) == *old(
                        receiver_balance)
                } else if s <= 0 {
                    r == Err::<i128, _>(VaultError::InvalidAmount) && *final(self) == *old(self)
                        && *final(receiver_balance) == *old(receiver_balance)
                } else {
                    &&& r == Ok::<i128, VaultError>(s as i128)
                    &&& *final(receiver_balance) == *old(receiver_balance) + s
                    &&& *final(self) == (VaultContract {
                        locked: true,
                        state: Some(
                            VaultState {
                                total_assets: (st.total_assets + assets) as i128,
                                total_shares: (st.total_shares + s) as i128,
                                ..st
                            },
                        ),
                        ..*old(self)
                    })
                }
            }),
    {
        if self.locked {
            return Err(VaultError::Reentrant);
        }
        if assets <= 0 {
            return Err(VaultError::InvalidAmount);
        }
        let vs = match &self.config {
            Some(c) => c.virtual_shares,
            None => return Err(VaultError::NotInitialized),
        };
        let mut state = match self.state {
            Some(s) => s,
            None => return Err(VaultError::NotInitialized),
        };
        let shares = Self::to_shares_down(assets, &state, vs);
        if shares <= 0 {
            return Err(VaultError::InvalidAmount);
        }
        Self::mint_shares(receiver_balance, shares, &mut state);
        state.total_assets = state.total_assets + assets;
        self.state = Some(state);
        self.locked = true;
        Ok(shares)
    }

    /// Mint exactly `shares` for `receiver`, charging assets rounded up. Returns
    /// the assets owed; on success the vault stays locked until they arrive.
    pub fn mint(&mut self, shares: i128, receiver_balance: &mut i128) -> (r: Result<i128, VaultError>)
        requires
            old(self).wf(),
            old(self).entry_error(shares as int) is None ==> {
                let st = old(self).st();
                let a = assets_up(shares as int, st, old(self).vs());
                &&& conversion_ok(shares as int, st, old(self).vs())
                &&& fits(*old(receiver_balance) + shares)
                &&& fits(st.total_shares + shares)
                &&& fits(st.total_assets + a)
            },
        ensures
            final(self).wf(),
            ({
                let st = old(self).st();
                let a = assets_up(shares as int, st, old(self).vs());
                if old(self).entry_error(shares as int) is Some {
                    r == Err::<i128, _>(old(self).entry_error(shares as int)->0)
                        && *final(self) == *old(self) && *final(receiver_balance) == *old(
                        receiver_balance)
                } else if a <= 0 {
                    r == Err::<i128, _>(VaultError::InvalidAmount) && *final(self) == *old(self)
                        && *final(receiver_balance) == *old(receiver_balance)
                } else {
                    &&& r == Ok::<i128, VaultError>(a as i128)
                    &&& *final(receiver_balance) == *old(receiver_balance) + shares
                    &&& *final(self) == (VaultContract {
                        locked: true,
                        state: Some(
                            VaultState {
                                total_assets: (st.total_assets + a) as i128,
                                total_shares: (st.total_shares + shares) as i128,
                                ..st
                            },
                        ),
                        ..*old(self)
                    })
                }
            }),
    {
        if self.locked {
            return Err(VaultError::Reentrant);
        }
        if shares <= 0 {
            return Err(VaultError::InvalidAmount);
        }
        let vs = match &self.config {
            Some(c) => c.virtual_shares,
            None => return Err(VaultError::NotInitialized),
        };
        let mut state = match self.state {
            Some(s) => s,
            None => return Err(VaultError::NotInitialized),
        };
        let assets = Self::to_assets_up(shares, &state, vs);
        if assets <= 0 {
            return Err(VaultError::InvalidAmount);
        }
        Self::mint_shares(receiver_balance, shares, &mut state);
        state.total_assets = state.total_assets + assets;
        self.state = Some(state);
        self.locked = true;
        Ok(assets)
    }

    /// Withdraw exactly `assets` from `owner`'s position, burning shares rounded
    /// up; a caller other than the owner spends the owner's allowance. Returns
    /// the shares burned; on success the vault stays locked until the assets
    /// have been sent.
    pub fn withdraw(
        &mut self,
        caller: Addr,
        owner: Addr,
        assets: i128,
        owner_balance: &mut i128,
        allowance: &mut i128,
        vault_asset_balance: i128,
    ) -> (r: Result<i128, VaultError>)
        requires
            old(self).wf(),
            old(self).entry_error(assets as int) is None ==> conversion_ok(
                assets as int,
                old(self).st(),
                old(self).vs(),
            ) && *old(owner_balance) <= old(self).st().total_shares,
        ensures
            final(self).wf(),
            ({
                let st = old(self).st();
                let s = shares_up(assets as int, st, old(self).vs());
                let spends = caller != owner;
                let unchanged = *final(self) == *old(self) && *final(owner_balance) == *old(
                    owner_balance) && *final(allowance) == *old(allowance);
                if old(self).entry_error(assets as int) is Some {
                    r == Err::<i128, _>(old(self).entry_error(assets as int)->0) && unchanged
                } else if s <= 0 {
                    r == Err::<i128, _>(VaultError::InvalidAmount) && unchanged
                } else if spends && *old(allowance) < s {
                    r == Err::<i128, _>(VaultError::InsufficientAllowance) && unchanged
                } else if *old(owner_balance) < s {
                    r == Err::<i128, _>(VaultError::InsufficientBalance) && unchanged
                } else if assets > vault_asset_balance {
                    r == Err::<i128, _>(VaultError::InsufficientLiquidity) && unchanged
                } else {
                    &&& r == Ok::<i128, VaultError>(s as i128)
                    &&& *final(owner_balance) == *old(owner_balance) - s
                    &&& *final(allowance) == if spends {
                        *old(allowance) - s
                    } else {
                        *old(allowance) as int
                    }
                    &&& *final(self) == (VaultContract {
                        locked: true,
                        state: Some(
                            VaultState {
                                total_assets: (st.total_assets - assets) as i128,
                                total_shares: (st.total_shares - s) as i128,
                                ..st
                            },
                        ),
                        ..*old(self)
                    })
                }
            }),
    {
        if self.locked {
            return Err(VaultError::Reentrant);
        }
        if assets <= 0 {
            return Err(VaultError::InvalidAmount);
        }
        let vs = match &self.config {
            Some(c) => c.virtual_shares,
            None => return Err(VaultError::NotInitialized),
        };
        let mut state = match self.state {
            Some(s) => s,
            None => return Err(VaultError::NotInitialized),
        };
        let shares = Self::to_shares_up(assets, &state, vs);
        if shares <= 0 {
            return Err(VaultError::InvalidAmount);
        }
        let mut new_allowance = *allowance;
        Self::spend_allowance_if_needed(caller, owner, &mut new_allowance, shares)?;
        let mut new_balance = *owner_balance;
        Self::burn_shares(&mut new_balance, shares, &mut state)?;
        if assets > vault_asset_balance {
            return Err(VaultError::InsufficientLiquidity);
        }
        proof {
            lemma_withdraw_within_assets(assets as int, self.st(), vs as int);
        }
        state.total_assets = state.total_assets - assets;
        *allowance = new_allowance;
        *owner_balance = new_balance;
        self.state = Some(state);
        self.locked = true;
        Ok(shares)
    }

    /// Redeem exactly `shares` from `owner`'s position for assets rounded down;
    /// a caller other than the owner spends the owner's allowance. Returns the
    /// assets paid out; on success the vault stays locked until they are sent.
    pub fn redeem(
        &mut self,
        caller: Addr,
        owner: Addr,
        shares: i128,
        owner_balance: &mut i128,
        allowance: &mut i128,
        vault_asset_balance: i128,
    ) -> (r: Result<i128, VaultError>)
        requires
            old(self).wf(),
            old(self).entry_error(shares as int) is None ==> conversion_ok(
                shares as int,
                old(self).st(),
                old(self).vs(),
            ) && *old(owner_balance) <= old(self).st().total_shares,
        ensures
            final(self).wf(),
            ({
                let st = old(self).st();
                let a = assets_down(shares as int, st, old(self).vs());
                let spends = caller != owner;
                let unchanged = *final(self) == *old(self) && *final(owner_balance) == *old(
                    owner_balance) && *final(allowance) == *old(allowance);
                if old(self).entry_error(shares as int) is Some {
                    r == Err::<i128, _>(old(self).entry_error(shares as int)->0) && unchanged
                } else if a <= 0 {
                    r == Err::<i128, _>(VaultError::InvalidAmount) && unchanged
                } else if spends && *old(allowance) < shares {
                    r == Err::<i128, _>(VaultError::InsufficientAllowance) && unchanged
                } else if *old(owner_balance) < shares {
                    r == Err::<i128, _>(VaultError::InsufficientBalance) && unchanged
                } else if a > vault_asset_balance {
                    r == Err::<i128, _>(VaultError::InsufficientLiquidity) && unchanged
                } else {
                    &&& r == Ok::<i128, VaultError>(a as i128)
                    &&& *final(owner_balance) == *old(owner_balance) - shares
                    &&& *final(allowance) == if spends {
                        *old(allowance) - shares
                    } else {
                        *old(allowance) as int
                    }
                    &&& *final(self) == (VaultContract {
                        locked: true,
                        state: Some(
                            VaultState {
                                total_assets: (st.total_assets - a) as i128,
                                total_shares: (st.total_shares - shares) as i128,
                                ..st
                            },
                        ),
                        ..*old(self)
                    })
                }
            }),
    {
        if self.locked {
            return Err(VaultError::Reentrant);
        }
        if shares <= 0 {
            return Err(VaultError::InvalidAmount);
        }
        let vs = match &self.config {
            Some(c) => c.virtual_shares,
            None => return Err(VaultError::NotInitialized),
        };
        let mut state = match self.state {
            Some(s) => s,
            None => return Err(VaultError::NotInitialized),
        };
        let assets = Self::to_assets_down(shares, &state, vs);
        if assets <= 0 {
            return Err(VaultError::InvalidAmount);
        }
        let mut new_allowance = *allowance;
        Self::spend_allowance_if_needed(caller, owner, &mut new_allowance, shares)?;
        let mut new_balance = *owner_balance;
        Self::burn_shares(&mut new_balance, shares, &mut state)?;
        if assets > vault_asset_balance {
            return Err(VaultError::InsufficientLiquidity);
        }
        proof {
            lemma_redeem_within_assets(shares as int, self.st(), vs as int);
        }
        state.total_assets = state.total_assets - assets;
        *allowance = new_allowance;
        *owner_balance = new_balance;
        self.state = Some(state);
        self.locked = true;
        Ok(assets)
    }
}

impl VaultContract {
    /// Set `owner`'s allowance for a spender; negative allowances are refused.
    pub fn approve(allowance: &mut i128, shares: i128) -> (r: Result<(), VaultError>)
        ensures
            shares < 0 ==> r == Err::<(), _>(VaultError::InvalidAmount) && *final(allowance) == *old(
                allowance),
            shares >= 0 ==> r is Ok && *final(allowance) == shares,
    {
        if shares < 0 {
            return Err(VaultError::InvalidAmount);
        }
        *allowance = shares;
        Ok(())
    }

    /// Credit `shares` to a balance and to the total supply.
    pub fn mint_shares(balance: &mut i128, shares: i128, state: &mut VaultState)
        requires
            fits(*old(balance) + shares),
            fits(old(state).total_shares + shares),
        ensures
            *final(balance) == *old(balance) + shares,
            *final(state) == (VaultState { total_shares: (old(state).total_shares + shares) as i128, ..*old(state) }),
    {
        *balance = *balance + shares;
        state.total_shares = state.total_shares + shares;
    }

    /// Debit `shares` from a balance and from the total supply, refusing to go
    /// below a zero balance.
    pub fn burn_shares(balance: &mut i128, shares: i128, state: &mut VaultState) -> (r: Result<(), VaultError>)
        requires
            vault_state_wf(*old(state)),
            shares > 0,
        ensures
            *old(balance) < shares ==> r == Err::<(), _>(VaultError::InsufficientBalance)
                && *final(balance) == *old(balance) && *final(state) == *old(state),
            *old(balance) >= shares ==> r is Ok && *final(balance) == *old(balance) - shares
                && *final(state) == (VaultState {
                total_shares: (old(state).total_shares - shares) as i128,
                ..*old(state)
            }),
    {
        if *balance < shares {
            return Err(VaultError::InsufficientBalance);
        }
        *balance = *balance - shares;
        state.total_shares = state.total_shares - shares;
        Ok(())
    }

    /// A caller acting for another owner spends that owner's allowance.
    pub fn spend_allowance_if_needed(caller: Addr, owner: Addr, allowance: &mut i128, shares: i128) -> (r:
        Result<(), VaultError>)
        requires
            shares > 0,
        ensures
            caller == owner ==> r is Ok && *final(allowance) == *old(allowance),
            caller != owner && *old(allowance) < shares ==> r == Err::<(), _>(
                VaultError::InsufficientAllowance,
            ) && *final(allowance) == *old(allowance),
            caller != owner && *old(allowance) >= shares ==> r is Ok && *final(allowance) == *old(
                allowance) - shares,
    {
        if caller == owner {
            return Ok(());
        }
        if *allowance < shares {
            return Err(VaultError::InsufficientAllowance);
        }
        *allowance = *allowance - shares;
        Ok(())
    }

    /// Assets to shares, rounded down.
    pub fn to_shares_down(assets: i128, state: &VaultState, virtual_shares: i128) -> (r: i128)
        requires
            vault_state_wf(*state),
            virtual_shares >= 1,
            conversion_ok(assets as int, *state, virtual_shares as int),
        ensures
            r == shares_down(assets as int, *state, virtual_shares as int),
    {
        mul_div_down(assets, state.total_shares + virtual_shares, state.total_assets + VIRTUAL_ASSETS)
    }

    /// Assets to shares, rounded up.
    pub fn to_shares_up(assets: i128, state: &VaultState, virtual_shares: i128) -> (r: i128)
        requires
            vault_state_wf(*state),
            virtual_shares >= 1,
            conversion_ok(assets as int, *state, virtual_shares as int),
        ensures
            r == shares_up(assets as int, *state, virtual_shares as int),
    {
        mul_div_up(assets, state.total_shares + virtual_shares, state.total_assets + VIRTUAL_ASSETS)
    }

    /// Shares to assets, rounded down.
    pub fn to_assets_down(shares: i128, state: &VaultState, virtual_shares: i128) -> (r: i128)
        requires
            vault_state_wf(*state),
            virtual_shares >= 1,
            conversion_ok(shares as int, *state, virtual_shares as int),
        ensures
            r == assets_down(shares as int, *state, virtual_shares as int),
    {
        mul_div_down(shares, state.total_assets + VIRTUAL_ASSETS, state.total_shares + virtual_shares)
    }

    /// Shares to assets, rounded up.
    pub fn to_assets_up(shares: i128, state: &VaultState, virtual_shares: i128) -> (r: i128)
        requires
            vault_state_wf(*state),
            virtual_shares >= 1,
            conversion_ok(shares as int, *state, virtual_shares as int),
        ensures
            r == assets_up(shares as int, *state, virtual_shares as int),
    {
        mul_div_up(shares, state.total_assets + VIRTUAL_ASSETS, state.total_shares + virtual_shares)
    }
}

/// Whether converting `x` against these totals stays within range.
pub fn conversion_computable(x: i128, st: &VaultState, vs: i128) -> (b: bool)
    requires
        vault_state_wf(*st),
        vs >= 1,
    ensures
        b == conversion_ok(x as int, *st, vs as int),
{
    let d = match st.total_shares.checked_add(vs) {
        Some(v) => v,
        None => return false,
    };
    let c = match st.total_assets.checked_add(VIRTUAL_ASSETS) {
        Some(v) => v,
        None => return false,
    };
    let xd = match x.checked_mul(d) {
        Some(v) => v,
        None => return false,
    };
    let xc = match x.checked_mul(c) {
        Some(v) => v,
        None => return false,
    };
    xd.checked_add(c - 1).is_some() && xc.checked_add(d - 1).is_some()
}

impl VaultContract {
    /// Whether `deposit` runs on these values without overflow.
    pub fn deposit_computable(&self, assets: i128, receiver_balance: i128) -> (b: bool)
        requires
            self.wf(),
        ensures
            b == (self.entry_error(assets as int) is None ==> {
                let st = self.st();
                let s = shares_down(assets as int, st, self.vs());
                &&& conversion_ok(assets as int, st, self.vs())
                &&& fits(receiver_balance + s)
                &&& fits(st.total_shares + s)
                &&& fits(st.total_assets + assets)
            }),
    {
        if self.locked || assets <= 0 {
            return true;
        }
        let vs = match &self.config {
            Some(c) => c.virtual_shares,
            None => return true,
        };
        let st = match self.state {
            Some(s) => s,
            None => return true,
        };
        if !conversion_computable(assets, &st, vs) {
            return false;
        }
        let s = Self::to_shares_down(assets, &st, vs);
        receiver_balance.checked_add(s).is_some() && st.total_shares.checked_add(s).is_some()
            && st.total_assets.checked_add(assets).is_some()
    }

    /// Whether `mint` runs on these values without overflow.
    pub fn mint_computable(&self, shares: i128, receiver_balance: i128) -> (b: bool)
        requires
            self.wf(),
        ensures
            b == (self.entry_error(shares as int) is None ==> {
                let st = self.st();
                let a = assets_up(shares as int, st, self.vs());
                &&& conversion_ok(shares as int, st, self.vs())
                &&& fits(receiver_balance + shares)
                &&& fits(st.total_shares + shares)
                &&& fits(st.total_assets + a)
            }),
    {
        if self.locked || shares <= 0 {
            return true;
        }
        let vs = match &self.config {
            Some(c) => c.virtual_shares,
            None => return true,
        };
        let st = match self.state {
            Some(s) => s,
            None => return true,
        };
        if !conversion_computable(shares, &st, vs) {
            return false;
        }
        let a = Self::to_assets_up(shares, &st, vs);
        receiver_balance.checked_add(shares).is_some() && st.total_shares.checked_add(
            shares,
        ).is_some() && st.total_assets.checked_add(a).is_some()
    }

    /// Whether `withdraw` (of `amount` assets) or `redeem` (of `amount` shares)
    /// runs on these values: the conversion stays in range and the owner's
    /// balance is part of the supply.
    pub fn exit_computable(&self, amount: i128, owner_balance: i128) -> (b: bool)
        requires
            self.wf(),
        ensures
            b == (self.entry_error(amount as int) is None ==> conversion_ok(
                amount as int,
                self.st(),
                self.vs(),
            ) && owner_balance <= self.st().total_shares),
    {
        if self.locked || amount <= 0 {
            return true;
        }
        let vs = match &self.config {
            Some(c) => c.virtual_shares,
            None => return true,
        };
        let st = match self.state {
            Some(s) => s,
            None => return true,
        };
        conversion_computable(amount, &st, vs) && owner_balance <= st.total_shares
    }
}

/// Redeeming no more shares than exist pays out no more than the vault holds.
proof fn lemma_redeem_within_assets(shares: int, st: VaultState, vs: int)
    requires
        vault_state_wf(st),
        vs >= 1,
        0 < shares <= st.total_shares,
    ensures
        assets_down(shares, st, vs) <= st.total_assets,
{
    let c = st.total_assets + VIRTUAL_ASSETS;
    let d = st.total_shares + vs;
    let p = shares * c;
    assert(0 <= p <= st.total_shares * c) by (nonlinear_arith)
        requires
            p == shares * c,
            0 < shares <= st.total_shares,
            c >= 1,
    ;
    crate::math::lemma_tdiv_pos_bounds(p, d);
    let q = assets_down(shares, st, vs);
    assert(q < c) by (nonlinear_arith)
        requires
            q * d <= p,
            p <= st.total_shares * c,
            d == st.total_shares + vs,
            vs >= 1,
            c >= 1,
            st.total_shares >= 0,
    ;
}

/// Withdrawing assets whose shares the owner holds never takes more than the
/// vault holds.
proof fn lemma_withdraw_within_assets(assets: int, st: VaultState, vs: int)
    requires
        vault_state_wf(st),
        vs >= 1,
        assets > 0,
        shares_up(assets, st, vs) <= st.total_shares,
    ensures
        assets <= st.total_assets,
{
    let c = st.total_assets + VIRTUAL_ASSETS;
    let d = st.total_shares + vs;
    let p = assets * d;
    assert(p >= 0) by (nonlinear_arith)
        requires
            p == assets * d,
            assets > 0,
            d >= 1,
    ;
    crate::math::lemma_tdiv_pos_bounds(p + c - 1, c);
    let u = shares_up(assets, st, vs);
    assert(assets < c) by (nonlinear_arith)
        requires
            p + c - 1 < u * c + c,
            u <= st.total_shares,
            p == assets * d,
            d == st.total_shares + vs,
            vs >= 1,
            c >= 1,
            st.total_shares >= 0,
    ;
}


/// The totals after `assets` came in for `shares`.
pub open spec fn after_entry(st: VaultState, assets: int, shares: int) -> VaultState {
    VaultState {
        total_assets: (st.total_assets + assets) as i128,
        total_shares: (st.total_shares + shares) as i128,
        ..st
    }
}

/// Conversions round in the vault's favour: rounding up gives at least, and at
/// most one unit more than, rounding down.
pub proof fn law_vault_rounding(x: int, st: VaultState, vs: int)
    requires
        vault_state_wf(st),
        vs >= 1,
        x >= 0,
    ensures
        shares_down(x, st, vs) <= shares_up(x, st, vs) <= shares_down(x, st, vs) + 1,
        assets_down(x, st, vs) <= assets_up(x, st, vs) <= assets_down(x, st, vs) + 1,
{
    assert(x * (st.total_shares + vs) >= 0 && x * (st.total_assets + VIRTUAL_ASSETS) >= 0)
        by (nonlinear_arith)
        requires
            x >= 0,
            st.total_shares + vs >= 1,
            st.total_assets + VIRTUAL_ASSETS >= 1,
    ;
    crate::math::law_mul_div_rounding(x, st.total_shares + vs, st.total_assets + VIRTUAL_ASSETS);
    crate::math::law_mul_div_rounding(x, st.total_assets + VIRTUAL_ASSETS, st.total_shares + vs);
}

/// At the level of the vault's calls: after a successful deposit, once the
/// vault is unlocked again and nothing else has changed it, redeeming the
/// shares the deposit minted passes the entry checks and pays out no more than
/// was deposited.
pub proof fn law_deposit_then_redeem_no_gain(v: VaultContract, assets: int)
    requires
        v.wf(),
        v.entry_error(assets) is None,
        shares_down(assets, v.st(), v.vs()) > 0,
        fits(v.st().total_assets + assets),
        fits(v.st().total_shares + shares_down(assets, v.st(), v.vs())),
    ensures
        ({
            let s = shares_down(assets, v.st(), v.vs());
            let after = VaultContract {
                locked: false,
                state: Some(after_entry(v.st(), assets, s)),
                ..v
            };
            &&& after.wf()
            &&& after.entry_error(s) is None
            &&& assets_down(s, after.st(), after.vs()) <= assets
        }),
{
    law_deposit_round_trip_no_gain(assets, v.st(), v.vs());
}

/// Depositing assets and then redeeming the shares received, or withdrawing the
/// same assets, never gains: the redemption pays at most what went in, and the
/// withdrawal burns at least the shares that were minted.
pub proof fn law_deposit_round_trip_no_gain(assets: int, st: VaultState, vs: int)
    requires
        vault_state_wf(st),
        vs >= 1,
        assets >= 0,
        fits(st.total_assets + assets),
        fits(st.total_shares + shares_down(assets, st, vs)),
    ensures
        ({
            let s = shares_down(assets, st, vs);
            let st2 = after_entry(st, assets, s);
            &&& s >= 0
            &&& assets_down(s, st2, vs) <= assets
            &&& shares_up(assets, st2, vs) >= s
        }),
{
    let c = st.total_assets + VIRTUAL_ASSETS;
    let d = st.total_shares + vs;
    let p = assets * d;
    assert(p >= 0) by (nonlinear_arith)
        requires
            p == assets * d,
            assets >= 0,
            d >= 1,
    ;
    crate::math::lemma_tdiv_pos_bounds(p, c);
    let s = shares_down(assets, st, vs);
    let st2 = after_entry(st, assets, s);
    let c2 = c + assets;
    let d2 = d + s;
    assert(st2.total_assets + VIRTUAL_ASSETS == c2);
    assert(st2.total_shares + vs == d2);
    assert(s * c2 <= assets * d2) by (nonlinear_arith)
        requires
            s * c <= p,
            p == assets * d,
            c2 == c + assets,
            d2 == d + s,
    ;
    let p2 = s * c2;
    assert(p2 >= 0) by (nonlinear_arith)
        requires
            p2 == s * c2,
            s >= 0,
            c2 >= 1,
    ;
    crate::math::lemma_tdiv_pos_bounds(p2, d2);
    let q = assets_down(s, st2, vs);
    assert(q <= assets) by (nonlinear_arith)
        requires
            q * d2 <= p2,
            p2 <= assets * d2,
            d2 >= 1,
    ;
    let p3 = assets * d2;
    assert(p3 >= 0) by (nonlinear_arith)
        requires
            p3 == assets * d2,
            assets >= 0,
            d2 >= 1,
    ;
    crate::math::lemma_tdiv_pos_bounds(p3 + c2 - 1, c2);
    let u = shares_up(assets, st2, vs);
    assert(u >= s) by (nonlinear_arith)
        requires
            p3 + c2 - 1 < u * c2 + c2,
            s * c2 <= p3,
            c2 >= 1,
    ;
}

/// Minting shares and redeeming them at once returns at most what the mint
/// charged.
pub proof fn law_mint_redeem_no_gain(shares: int, st: VaultState, vs: int)
    requires
        vault_state_wf(st),
        vs >= 1,
        shares >= 0,
        fits(st.total_assets + assets_up(shares, st, vs)),
        fits(st.total_shares + shares),
    ensures
        ({
            let a = assets_up(shares, st, vs);
            &&& a >= 0
            &&& assets_down(shares, after_entry(st, a, shares), vs) <= a
        }),
{
    let c = st.total_assets + VIRTUAL_ASSETS;
    let d = st.total_shares + vs;
    let p = shares * c;
    assert(p >= 0) by (nonlinear_arith)
        requires
            p == shares * c,
            shares >= 0,
            c >= 1,
    ;
    crate::math::lemma_tdiv_pos_bounds(p + d - 1, d);
    let a = assets_up(shares, st, vs);
    assert(a * d >= p) by (nonlinear_arith)
        requires
            p + d - 1 < a * d + d,
    ;
    let st2 = after_entry(st, a, shares);
    let c2 = c + a;
    let d2 = d + shares;
    assert(st2.total_assets + VIRTUAL_ASSETS == c2);
    assert(st2.total_shares + vs == d2);
    let p2 = shares * c2;
    assert(0 <= p2 <= a * d2) by (nonlinear_arith)
        requires
            p2 == shares * c2,
            a * d >= p,
            p == shares * c,
            c2 == c + a,
            d2 == d + shares,
            shares >= 0,
            c2 >= 1,
    ;
    crate::math::lemma_tdiv_pos_bounds(p2, d2);
    let q = assets_down(shares, st2, vs);
    assert(q <= a) by (nonlinear_arith)
        requires
            q * d2 <= p2,
            p2 <= a * d2,
            d2 >= 1,
    ;
}

} // verus!
