//! Vault adapter that lends a vault's asset into isolated markets.
//!
//! The adapter holds supply shares in each market it allocated to and reports
//! its real assets as the value of those shares. Allocation and deallocation
//! are driven by the parent vault, which names the market by its address in
//! XDR; between the checks below the adapter calls the market (`supply` /
//! `withdraw`), and the record steps take what the market answered. Each
//! change is reported for three risk ids: the adapter, the market's collateral
//! asset and the market.
use soroban_sdk::xdr::{FromXdr, ToXdr};
use soroban_sdk::{Address, Bytes, Env, Symbol};
use vstd::prelude::*;
use crate::ids::{
    address_from_xdr, address_of_xdr, address_xdr, address_xdr_spec, copy_addrs, ledger_addr,
    push_unique, Addr, Hash32,
};
use crate::ledger::symbol_ok;
use crate::market::{IsolatedMarketConfig, IsolatedMarketState};
use crate::math::{
    fits, mul_div_down_spec, mul_div_up_spec, to_assets_down, to_shares_up, VIRTUAL_ASSETS,
    VIRTUAL_SHARES,
};

verus! {

/// The adapter's fixed wiring.
#[derive(Clone, Copy, Debug, PartialEq, Eq, Structural)]
pub struct AdapterConfig {
    pub parent_vault: Addr,
    pub asset: Addr,
    pub market_factory: Addr,
}

/// Change of allocation reported to the vault, per risk id.
#[derive(Clone, Debug)]
pub struct AdapterChange {
    pub ids: Vec<Hash32>,
    pub change: i128,
}

/// The id of a risk: the sha256 of the ledger encoding of the pair
/// (symbol `tag`, the address whose XDR is `address`).
pub uninterp spec fn risk_id_of(tag: Seq<char>, address: Seq<u8>) -> Hash32;

/// `Crypto::sha256` of the XDR (`ToXdr::to_xdr`) of the pair
/// `(Symbol::new(tag), Address::from_xdr(address))`. Claimed: the result is
/// the named id of `tag` and `address`, a function of those two alone. The
/// ledger traps on a tag that is no symbol and on bytes that encode no
/// address; `requires` leaves both out.
#[verifier::external_body]
fn risk_id(env: &Env, tag: &str, address: &Vec<u8>) -> (r: Hash32)
    requires
        symbol_ok(tag@),
        exists|a: Addr| ledger_addr(a) && address@ == address_xdr_spec(a),
    ensures
        r == risk_id_of(tag@, address@),
{
    let a = Address::from_xdr(env, &Bytes::from_slice(env, address.as_slice())).unwrap();
    let h = env.crypto().sha256(&(Symbol::new(env, tag), a).to_xdr(env)).to_array();
    let w: Vec<u64> = h.chunks(8).map(|c| u64::from_be_bytes(c.try_into().unwrap())).collect();
    Hash32 { w0: w[0], w1: w[1], w2: w[2], w3: w[3] }
}

/// The three risks an allocation to `market` touches: this adapter, the
/// market's collateral asset, and the market itself.
pub open spec fn allocation_ids_spec(adapter: Addr, config: IsolatedMarketConfig, market: Addr) -> Seq<Hash32> {
    seq![
        risk_id_of("adapter"@, address_xdr_spec(adapter)),
        risk_id_of("collat"@, address_xdr_spec(config.collateral_asset)),
        risk_id_of("market"@, address_xdr_spec(market)),
    ]
}

/// The risk ids of an allocation to `market` by the adapter at `adapter`.
pub fn allocation_ids(env: &Env, adapter: Addr, config: &IsolatedMarketConfig, market: Addr) -> (r: Vec<Hash32>)
    requires
        ledger_addr(adapter),
        ledger_addr(config.collateral_asset),
        ledger_addr(market),
    ensures
        r@ == allocation_ids_spec(adapter, *config, market),
{
    proof {
        reveal_strlit("adapter");
        reveal_strlit("collat");
        reveal_strlit("market");
    }
    let mut ids: Vec<Hash32> = Vec::new();
    ids.push(risk_id(env, "adapter", &address_xdr(adapter)));
    ids.push(risk_id(env, "collat", &address_xdr(config.collateral_asset)));
    ids.push(risk_id(env, "market", &address_xdr(market)));
    ids
}

/// Errors a market reports to the adapter.
#[derive(Clone, Copy, Debug, PartialEq, Eq, Structural)]
pub enum MarketError {
    AlreadyInitialized,
    NotInitialized,
    Unauthorized,
    Paused,
    InvalidAmount,
    InsufficientLiquidity,
    InsufficientCollateral,
    SupplyCapExceeded,
    BorrowCapExceeded,
    InsufficientSupply,
    InconsistentInput,
    HealthFactorTooLow,
    HealthFactorOk,
    SlippageExceeded,
    DeadlineExpired,
    OracleCallFailed,
}

/// Why the adapter refuses a call.
#[derive(Clone, Copy, Debug, PartialEq, Eq, Structural)]
pub enum AdapterError {
    AlreadyInitialized,
    NotInitialized,
    Unauthorized,
    InvalidAmount,
    InvalidMarket,
    InvalidData,
    InsufficientShares,
}

/// The adapter's supply shares in one market and that market's state, if the
/// market reports one.
#[derive(Clone, Copy, Debug, PartialEq, Eq, Structural)]
pub struct MarketHolding {
    pub shares: i128,
    pub state: Option<IsolatedMarketState>,
}

/// Shares → assets with virtual amounts, rounded down.
pub open spec fn virtual_assets_down(shares: int, s: IsolatedMarketState) -> int {
    mul_div_down_spec(
        shares,
        s.total_supply_assets + VIRTUAL_ASSETS,
        s.total_supply_shares + VIRTUAL_SHARES,
    )
}

/// Assets → shares with virtual amounts, rounded up.
pub open spec fn virtual_shares_up(assets: int, s: IsolatedMarketState) -> int {
    mul_div_up_spec(
        assets,
        s.total_supply_shares + VIRTUAL_SHARES,
        s.total_supply_assets + VIRTUAL_ASSETS,
    )
}

/// A market's supply totals are non-negative and convert without overflow.
pub open spec fn supply_totals_ok(s: IsolatedMarketState) -> bool {
    &&& s.total_supply_assets >= 0
    &&& s.total_supply_shares >= 0
    &&& fits(s.total_supply_assets + VIRTUAL_ASSETS)
    &&& fits(s.total_supply_shares + VIRTUAL_SHARES)
}

/// Whether one holding counts toward real assets.
pub open spec fn holding_counts(h: MarketHolding) -> bool {
    h.shares != 0 && h.state is Some
}

/// The value of the holdings: each market's shares at its current rate.
pub open spec fn real_assets_spec(hs: Seq<MarketHolding>) -> int
    decreases hs.len(),
{
    if hs.len() == 0 {
        0
    } else {
        let h = hs.last();
        real_assets_spec(hs.drop_last()) + if holding_counts(h) {
            virtual_assets_down(h.shares as int, h.state->0)
        } else {
            0
        }
    }
}

/// Every holding converts without overflow and every prefix sum fits.
pub open spec fn real_assets_ok(hs: Seq<MarketHolding>) -> bool {
    &&& forall|i: int|
        0 <= i < hs.len() && #[trigger] holding_counts(hs[i]) ==> {
            &&& supply_totals_ok(hs[i].state->0)
            &&& fits(hs[i].shares * (hs[i].state->0.total_supply_assets + VIRTUAL_ASSETS))
        }
    &&& forall|k: int| 0 <= k <= hs.len() ==> fits(#[trigger] real_assets_spec(hs.take(k)))
}

/// The adapter's stored configuration and the markets it has supplied to.
pub struct MarketAdapterContract {
    pub initialized: bool,
    pub config: Option<AdapterConfig>,
    pub markets: Vec<Addr>,
}

impl MarketAdapterContract {
    /// What the parent vault's call checks first: an initialised adapter, the
    /// parent vault as sender, a positive amount.
    pub open spec fn caller_result(&self, sender: Addr, assets: int) -> Result<AdapterConfig, AdapterError> {
        if self.config is None {
            Err(AdapterError::NotInitialized)
        } else if sender != self.config->0.parent_vault {
            Err(AdapterError::Unauthorized)
        } else if assets <= 0 {
            Err(AdapterError::InvalidAmount)
        } else {
            Ok(self.config->0)
        }
    }

    /// Nothing stored yet.
    pub fn fresh() -> (r: Self)
        ensures
            !r.initialized && r.config is None && r.markets@.len() == 0,
    {
        MarketAdapterContract { initialized: false, config: None, markets: Vec::new() }
    }

    /// Configure the adapter once.
    pub fn initialize(&mut self, parent_vault: Addr, asset: Addr, market_factory: Addr) -> (r:
        Result<(), AdapterError>)
        ensures
            old(self).initialized ==> r == Err::<(), _>(AdapterError::AlreadyInitialized)
                && final(self).initialized == old(self).initialized && final(self).config == old(
                self).config && final(self).markets@ == old(self).markets@,
            !old(self).initialized ==> r is Ok && final(self).initialized && final(self).config
                == Some(AdapterConfig { parent_vault, asset, market_factory })
                && final(self).markets@ == old(self).markets@,
    {
        if self.initialized {
            return Err(AdapterError::AlreadyInitialized);
        }
        self.config = Some(AdapterConfig { parent_vault, asset, market_factory });
        self.initialized = true;
        Ok(())
    }

    pub fn get_config(&self) -> (r: Option<AdapterConfig>)
        ensures
            r == self.config,
    {
        self.config
    }

    /// The markets the adapter has supplied to, in first-supply order.
    pub fn get_market_ids(&self) -> (r: Vec<Addr>)
        ensures
            r@ == self.markets@,
    {
        copy_addrs(&self.markets)
    }

    /// The first checks of `allocate` and `deallocate`.
    pub fn check_caller(&self, sender: Addr, assets: i128) -> (r: Result<AdapterConfig, AdapterError>)
        ensures
            r == self.caller_result(sender, assets as int),
    {
        let config = match self.config {
            Some(c) => c,
            None => return Err(AdapterError::NotInitialized),
        };
        if sender != config.parent_vault {
            return Err(AdapterError::Unauthorized);
        }
        if assets <= 0 {
            return Err(AdapterError::InvalidAmount);
        }
        Ok(config)
    }

    /// Note a market the adapter holds shares in.
    pub fn remember_market(&mut self, market: Addr)
        ensures
            final(self).initialized == old(self).initialized,
            final(self).config == old(self).config,
            old(self).markets@.contains(market) ==> final(self).markets@ == old(self).markets@,
            !old(self).markets@.contains(market) ==> final(self).markets@ == old(
                self,
            ).markets@.push(market),
    {
        push_unique(&mut self.markets, market);
    }

    /// Record the shares a market minted for an allocation.
    pub fn record_allocation(&mut self, market: Addr, supply_shares: &mut i128, shares: i128) -> (r:
        Result<(), AdapterError>)
        requires
            shares > 0 ==> fits(*old(supply_shares) + shares),
        ensures
            shares <= 0 ==> r == Err::<(), _>(AdapterError::InvalidAmount)
                && *final(supply_shares) == *old(supply_shares) && final(self).markets@ == old(
                self,
            ).markets@,
            shares > 0 ==> r is Ok && *final(supply_shares) == *old(supply_shares) + shares
                && final(self).markets@ == if old(self).markets@.contains(market) {
                old(self).markets@
            } else {
                old(self).markets@.push(market)
            },
            final(self).initialized == old(self).initialized,
            final(self).config == old(self).config,
    {
        if shares <= 0 {
            return Err(AdapterError::InvalidAmount);
        }
        *supply_shares = *supply_shares + shares;
        self.remember_market(market);
        Ok(())
    }

    /// What an allocation decides before the market's `supply` answer is
    /// recorded: the caller and amount checks, the decoded market (`None` when
    /// `data` held no address), the market's own checks and the shares minted.
    pub open spec fn allocate_result(
        &self,
        sender: Addr,
        assets: int,
        market: Option<Addr>,
        market_config: Option<IsolatedMarketConfig>,
        shares_minted: int,
    ) -> Result<(Addr, IsolatedMarketConfig), AdapterError> {
        match self.caller_result(sender, assets) {
            Err(e) => Err(e),
            Ok(c) => match market {
                None => Err(AdapterError::InvalidData),
                Some(m) => match allocate_market_result(c, market_config) {
                    Err(e) => Err(e),
                    Ok(mc) => if shares_minted <= 0 {
                        Err(AdapterError::InvalidAmount)
                    } else {
                        Ok((m, mc))
                    },
                },
            },
        }
    }

    /// An allocation of `assets` to the market whose address `data` encodes,
    /// given the market's config and the shares its `supply` minted. Returns
    /// the change, `assets`, for the three risk ids of the allocation.
    pub fn allocate(
        &mut self,
        env: &Env,
        adapter: Addr,
        sender: Addr,
        assets: i128,
        data: &Vec<u8>,
        market_config: Option<IsolatedMarketConfig>,
        supply_shares: &mut i128,
        shares_minted: i128,
    ) -> (r: Result<AdapterChange, AdapterError>)
        requires
            shares_minted > 0 ==> fits(*old(supply_shares) + shares_minted),
            ledger_addr(adapter),
            market_config matches Some(c) ==> ledger_addr(c.collateral_asset),
        ensures
            ({
                let pre = old(self).allocate_result(
                    sender,
                    assets as int,
                    address_of_xdr(data@),
                    market_config,
                    shares_minted as int,
                );
                &&& pre is Err ==> r is Err && r->Err_0 == pre->Err_0 && *final(supply_shares)
                    == *old(supply_shares) && final(self).markets@ == old(self).markets@
                &&& pre matches Ok((m, mc)) ==> {
                    &&& r is Ok
                    &&& r->Ok_0.change == assets
                    &&& r->Ok_0.ids@ == allocation_ids_spec(adapter, mc, m)
                    &&& *final(supply_shares) == *old(supply_shares) + shares_minted
                    &&& final(self).markets@ == if old(self).markets@.contains(m) {
                        old(self).markets@
                    } else {
                        old(self).markets@.push(m)
                    }
                }
            }),
            final(self).initialized == old(self).initialized,
            final(self).config == old(self).config,
    {
        let config = self.check_caller(sender, assets)?;
        let m = match decode_market(data) {
            Some(m) => m,
            None => return Err(AdapterError::InvalidData),
        };
        let mc = allocate_market(&config, market_config)?;
        self.record_allocation(m, supply_shares, shares_minted)?;
        Ok(AdapterChange { ids: allocation_ids(env, adapter, &mc, m), change: assets })
    }

    /// What a deallocation decides: the caller and amount checks, the decoded
    /// market (`None` when `data` held no address), the market's config and
    /// state, and the shares to redeem.
    pub open spec fn deallocate_result(
        &self,
        sender: Addr,
        assets: int,
        market: Option<Addr>,
        market_config: Option<IsolatedMarketConfig>,
        state: Option<IsolatedMarketState>,
        stored: int,
    ) -> Result<(Addr, IsolatedMarketConfig), AdapterError> {
        match self.caller_result(sender, assets) {
            Err(e) => Err(e),
            Ok(_) => match market {
                None => Err(AdapterError::InvalidData),
                Some(m) => match market_config {
                    None => Err(AdapterError::InvalidMarket),
                    Some(mc) => match deallocate_shares_result(state, stored, assets) {
                        Err(e) => Err(e),
                        Ok(_) => Ok((m, mc)),
                    },
                },
            },
        }
    }

    /// A deallocation of `assets` from the market whose address `data`
    /// encodes, given the market's config and state and what its `withdraw`
    /// paid and burned for the shares requested. Returns minus the assets
    /// withdrawn, for the three risk ids of the allocation.
    pub fn deallocate(
        &self,
        env: &Env,
        adapter: Addr,
        sender: Addr,
        assets: i128,
        data: &Vec<u8>,
        market_config: Option<IsolatedMarketConfig>,
        state: Option<IsolatedMarketState>,
        supply_shares: &mut i128,
        withdrawn_assets: i128,
        burned_shares: i128,
    ) -> (r: Result<AdapterChange, AdapterError>)
        requires
            self.caller_result(sender, assets as int) is Ok && address_of_xdr(data@) is Some
                && market_config is Some && state is Some ==> deallocate_ok(
                state->0,
                assets as int,
            ),
            fits(*old(supply_shares) - burned_shares),
            fits(-withdrawn_assets),
            ledger_addr(adapter),
            market_config matches Some(c) ==> ledger_addr(c.collateral_asset),
        ensures
            ({
                let pre = self.deallocate_result(
                    sender,
                    assets as int,
                    address_of_xdr(data@),
                    market_config,
                    state,
                    *old(supply_shares) as int,
                );
                &&& pre is Err ==> r is Err && r->Err_0 == pre->Err_0 && *final(supply_shares)
                    == *old(supply_shares)
                &&& pre matches Ok((m, mc)) ==> {
                    &&& r is Ok
                    &&& r->Ok_0.change == -withdrawn_assets
                    &&& r->Ok_0.ids@ == allocation_ids_spec(adapter, mc, m)
                    &&& *final(supply_shares) == *old(supply_shares) - burned_shares
                }
            }),
    {
        self.check_caller(sender, assets)?;
        let m = match decode_market(data) {
            Some(m) => m,
            None => return Err(AdapterError::InvalidData),
        };
        let mc = match market_config {
            Some(c) => c,
            None => return Err(AdapterError::InvalidMarket),
        };
        deallocate_shares(state, *supply_shares, assets)?;
        record_deallocation(supply_shares, burned_shares);
        Ok(AdapterChange { ids: allocation_ids(env, adapter, &mc, m), change: -withdrawn_assets })
    }
}

/// The market address the vault passed as `data`: an address in XDR, or
/// `None` when `data` encodes no address.
pub fn decode_market(data: &Vec<u8>) -> (r: Option<Addr>)
    ensures
        r == address_of_xdr(data@),
        r matches Some(a) ==> ledger_addr(a) && data@ == address_xdr_spec(a),
        r is None ==> forall|a: Addr| ledger_addr(a) ==> data@ != address_xdr_spec(a),
{
    address_from_xdr(data)
}

/// The market an allocation goes to must exist and lend the adapter's asset.
pub open spec fn allocate_market_result(config: AdapterConfig, market_config: Option<IsolatedMarketConfig>) -> Result<IsolatedMarketConfig, AdapterError> {
    match market_config {
        None => Err(AdapterError::InvalidMarket),
        Some(mc) => if mc.loan_asset != config.asset {
            Err(AdapterError::InvalidMarket)
        } else {
            Ok(mc)
        },
    }
}

/// Check the market an allocation goes to.
pub fn allocate_market(config: &AdapterConfig, market_config: Option<IsolatedMarketConfig>) -> (r:
    Result<IsolatedMarketConfig, AdapterError>)
    ensures
        r == allocate_market_result(*config, market_config),
{
    let mc = match market_config {
        Some(c) => c,
        None => return Err(AdapterError::InvalidMarket),
    };
    if mc.loan_asset != config.asset {
        return Err(AdapterError::InvalidMarket);
    }
    Ok(mc)
}

/// The shares to redeem for `assets`: rounded up, capped at what the adapter
/// holds, and refused when nothing would be redeemed.
pub open spec fn deallocate_shares_result(state: Option<IsolatedMarketState>, stored: int, assets: int) -> Result<(), AdapterError> {
    match state {
        None => Err(AdapterError::InvalidMarket),
        Some(s) => {
            let wanted = virtual_shares_up(assets, s);
            let shares = if wanted > stored { stored } else { wanted };
            if shares <= 0 {
                Err(AdapterError::InsufficientShares)
            } else {
                Ok(())
            }
        },
    }
}

/// The share amount `deallocate` asks the market to redeem.
pub open spec fn dealloc_shares_spec(s: IsolatedMarketState, stored: int, assets: int) -> int {
    let wanted = virtual_shares_up(assets, s);
    if wanted > stored { stored } else { wanted }
}

pub open spec fn deallocate_ok(s: IsolatedMarketState, assets: int) -> bool {
    &&& supply_totals_ok(s)
    &&& fits(assets * (s.total_supply_shares + VIRTUAL_SHARES))
    &&& fits(
        assets * (s.total_supply_shares + VIRTUAL_SHARES) + s.total_supply_assets + VIRTUAL_ASSETS
            - 1,
    )
}

/// The shares to redeem from a market for `assets`.
pub fn deallocate_shares(state: Option<IsolatedMarketState>, stored_shares: i128, assets: i128) -> (r:
    Result<i128, AdapterError>)
    requires
        state is Some ==> deallocate_ok(state->0, assets as int),
    ensures
        match state {
            None => r == Err::<i128, _>(AdapterError::InvalidMarket),
            Some(s) => {
                let shares = dealloc_shares_spec(s, stored_shares as int, assets as int);
                &&& shares <= 0 ==> r == Err::<i128, _>(AdapterError::InsufficientShares)
                &&& shares > 0 ==> r == Ok::<i128, AdapterError>(shares as i128)
                &&& shares <= stored_shares
            },
        },
{
    let s = match state {
        Some(s) => s,
        None => return Err(AdapterError::InvalidMarket),
    };
    let mut shares = to_shares_up(assets, s.total_supply_assets, s.total_supply_shares);
    if shares > stored_shares {
        shares = stored_shares;
    }
    if shares <= 0 {
        return Err(AdapterError::InsufficientShares);
    }
    Ok(shares)
}

/// Record the shares a market burned for a deallocation.
pub fn record_deallocation(supply_shares: &mut i128, burned_shares: i128)
    requires
        fits(*old(supply_shares) - burned_shares),
    ensures
        *final(supply_shares) == *old(supply_shares) - burned_shares,
{
    *supply_shares = *supply_shares - burned_shares;
}

impl MarketAdapterContract {
    /// The adapter's real assets: the value of its shares in every market that
    /// reports a state.
    pub fn real_assets(holdings: &Vec<MarketHolding>) -> (r: i128)
        requires
            real_assets_ok(holdings@),
        ensures
            r == real_assets_spec(holdings@),
    {
        let mut total: i128 = 0;
        let mut i: usize = 0;
        while i < holdings.len()
            invariant
                i <= holdings.len(),
                real_assets_ok(holdings@),
                total == real_assets_spec(holdings@.take(i as int)),
            decreases holdings.len() - i,
        {
            let h = holdings[i];
            proof {
                assert(holdings@.take(i + 1).drop_last() =~= holdings@.take(i as int));
                assert(holdings@.take(i + 1).last() == h);
                assert(fits(real_assets_spec(holdings@.take(i + 1))));
            }
            if h.shares != 0 {
                match h.state {
                    Some(s) => {
                        proof {
                            assert(holding_counts(holdings@[i as int]));
                        }
                        let v = to_assets_down(h.shares, s.total_supply_assets, s.total_supply_shares);
                        total = total + v;
                    },
                    None => {},
                }
            }
            i = i + 1;
        }
        proof {
            assert(holdings@.take(holdings.len() as int) =~= holdings@);
        }
        total
    }
}

/// Whether the shares to redeem for `assets` are computable against `s`.
pub fn deallocate_computable(s: &IsolatedMarketState, assets: i128) -> (b: bool)
    ensures
        b == deallocate_ok(*s, assets as int),
{
    if s.total_supply_assets < 0 || s.total_supply_shares < 0 {
        return false;
    }
    let c = match s.total_supply_assets.checked_add(VIRTUAL_ASSETS) {
        Some(v) => v,
        None => return false,
    };
    let d = match s.total_supply_shares.checked_add(VIRTUAL_SHARES) {
        Some(v) => v,
        None => return false,
    };
    let p = match assets.checked_mul(d) {
        Some(v) => v,
        None => return false,
    };
    p.checked_add(c - 1).is_some()
}

impl MarketAdapterContract {
    /// Whether the real assets of these holdings are computable.
    pub fn real_assets_computable(holdings: &Vec<MarketHolding>) -> (b: bool)
        ensures
            b == real_assets_ok(holdings@),
    {
        let mut total: i128 = 0;
        let mut i: usize = 0;
        while i < holdings.len()
            invariant
                i <= holdings.len(),
                forall|j: int|
                    0 <= j < i && #[trigger] holding_counts(holdings@[j]) ==> {
                        &&& supply_totals_ok(holdings@[j].state->0)
                        &&& fits(
                            holdings@[j].shares * (holdings@[j].state->0.total_supply_assets
                                + VIRTUAL_ASSETS),
                        )
                    },
                forall|k: int| 0 <= k <= i ==> fits(#[trigger] real_assets_spec(holdings@.take(k))),
                total == real_assets_spec(holdings@.take(i as int)),
            decreases holdings.len() - i,
        {
            let h = holdings[i];
            proof {
                assert(holdings@.take(i + 1).drop_last() =~= holdings@.take(i as int));
                assert(holdings@.take(i + 1).last() == h);
            }
            if h.shares != 0 {
                match h.state {
                    Some(s) => {
                        proof {
                            assert(holding_counts(holdings@[i as int]));
                        }
                        if s.total_supply_assets < 0 || s.total_supply_shares < 0 {
                            return false;
                        }
                        let c = match s.total_supply_assets.checked_add(VIRTUAL_ASSETS) {
                            Some(v) => v,
                            None => return false,
                        };
                        if s.total_supply_shares.checked_add(VIRTUAL_SHARES).is_none() {
                            return false;
                        }
                        if h.shares.checked_mul(c).is_none() {
                            return false;
                        }
                        let v = to_assets_down(h.shares, s.total_supply_assets, s.total_supply_shares);
                        total = match total.checked_add(v) {
                            Some(t) => t,
                            None => {
                                proof {
                                    assert(!fits(real_assets_spec(holdings@.take(i + 1))));
                                }
                                return false;
                            },
                        };
                    },
                    None => {},
                }
            }
            proof {
                assert forall|k: int| 0 <= k <= i + 1 implies fits(
                    #[trigger] real_assets_spec(holdings@.take(k)),
                ) by {
                    if k == i + 1 {
                        assert(total == real_assets_spec(holdings@.take(i + 1)));
                    }
                }
            }
            i = i + 1;
        }
        proof {
            assert(holdings@.take(holdings.len() as int) =~= holdings@);
        }
        true
    }
}

/// Holdings of non-negative shares in markets with non-negative totals are
/// worth a non-negative amount.
pub proof fn law_real_assets_nonneg(hs: Seq<MarketHolding>)
    requires
        forall|i: int|
            0 <= i < hs.len() ==> hs[i].shares >= 0 && (hs[i].state matches Some(s)
                ==> s.total_supply_assets >= 0 && s.total_supply_shares >= 0),
    ensures
        real_assets_spec(hs) >= 0,
    decreases hs.len(),
{
    if hs.len() > 0 {
        let h = hs.last();
        assert forall|i: int| 0 <= i < hs.drop_last().len() implies hs.drop_last()[i].shares >= 0
            && (hs.drop_last()[i].state matches Some(s) ==> s.total_supply_assets >= 0
            && s.total_supply_shares >= 0) by {
            assert(hs.drop_last()[i] == hs[i]);
        }
        law_real_assets_nonneg(hs.drop_last());
        assert(h == hs[hs.len() - 1]);
        if holding_counts(h) {
            let s = h.state->0;
            let p = h.shares * (s.total_supply_assets + VIRTUAL_ASSETS);
            assert(p >= 0) by (nonlinear_arith)
                requires
                    p == h.shares * (s.total_supply_assets + VIRTUAL_ASSETS),
                    h.shares >= 0,
                    s.total_supply_assets + VIRTUAL_ASSETS >= 1,
            ;
            crate::math::lemma_tdiv_pos_bounds(p, s.total_supply_shares + VIRTUAL_SHARES);
        }
    }
}

} // verus!
