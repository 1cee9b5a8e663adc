//! Permissionless, parameter-bounded creation of isolated markets.
//!
//! Anyone may create a market, but only with an interest rate model and a
//! liquidation LTV that governance enabled. A market is identified by the hash
//! of its `MarketParamsKey` (loan asset, collateral asset, oracle, rate model,
//! LLTV); one id serves one market.
use vstd::prelude::*;
use crate::ids::{
    address_xdr_spec, copy_addrs, lemma_address_xdr_prefix_free, ledger_addr, push_address, Addr,
    Hash32,
};
use crate::ledger::{
    i128_xdr_spec, lemma_i128_xdr_injective, lemma_same_length_part, map_head_spec, push_i128,
    push_map_head, push_symbol, sha256_bytes, sha256_of, symbol_xdr_spec,
};
use crate::market::IsolatedMarketConfig;
use soroban_sdk::Env;

verus! {

/// The identity-defining parameters of a market; the direction of the asset
/// pair matters.
#[derive(Clone, Copy, Debug, PartialEq, Eq, Structural)]
pub struct MarketParamsKey {
    pub loan_asset: Addr,
    pub collateral_asset: Addr,
    pub oracle: Addr,
    pub irm: Addr,
    pub lltv: i128,
}

#[derive(Clone, Copy, Debug, PartialEq, Eq, Structural)]
pub enum FactoryError {
    AlreadyInitialized,
    NotInitialized,
    Unauthorized,
    MarketAlreadyExists,
    MarketNotFound,
    InvalidWasmHash,
    IrmNotEnabled,
    LltvNotEnabled,
    InvalidMarketParams,
}

/// The key a market with this config is identified by.
pub open spec fn params_key_spec(config: IsolatedMarketConfig) -> MarketParamsKey {
    MarketParamsKey {
        loan_asset: config.loan_asset,
        collateral_asset: config.collateral_asset,
        oracle: config.oracle_adapter,
        irm: config.rate_model,
        lltv: config.lltv,
    }
}

/// The factory's admin, the market code it deploys, and every market deployed.
pub struct MarketFactoryContract {
    pub initialized: bool,
    pub admin: Option<Addr>,
    pub market_wasm_hash: Option<Hash32>,
    pub markets: Vec<Addr>,
}

impl MarketFactoryContract {
    pub open spec fn wf(&self) -> bool {
        self.initialized ==> self.admin is Some
    }

    /// Whether a market with `config` may be created, given whether its LLTV and
    /// rate model are enabled and the market stored under its id, if any; on
    /// success, the code to deploy.
    pub open spec fn create_result(
        &self,
        config: IsolatedMarketConfig,
        lltv_enabled: bool,
        irm_enabled: bool,
        existing: Option<Addr>,
    ) -> Result<Hash32, FactoryError> {
        if !self.initialized {
            Err(FactoryError::NotInitialized)
        } else if config.loan_asset == config.collateral_asset {
            Err(FactoryError::InvalidMarketParams)
        } else if !lltv_enabled {
            Err(FactoryError::LltvNotEnabled)
        } else if !irm_enabled {
            Err(FactoryError::IrmNotEnabled)
        } else if existing is Some {
            Err(FactoryError::MarketAlreadyExists)
        } else if self.market_wasm_hash is None {
            Err(FactoryError::InvalidWasmHash)
        } else {
            Ok(self.market_wasm_hash->0)
        }
    }

    /// Nothing stored yet.
    pub fn fresh() -> (r: Self)
        ensures
            !r.initialized && r.admin is None && r.market_wasm_hash is None && r.markets@.len()
                == 0,
            r.wf(),
    {
        MarketFactoryContract {
            initialized: false,
            admin: None,
            market_wasm_hash: None,
            markets: Vec::new(),
        }
    }

    /// Set the admin and the market code once, with no markets.
    pub fn initialize(&mut self, admin: Addr, market_wasm_hash: Hash32) -> (r: Result<(), FactoryError>)
        requires
            old(self).wf(),
        ensures
            final(self).wf(),
            old(self).initialized ==> r == Err::<(), _>(FactoryError::AlreadyInitialized)
                && final(self).initialized == old(self).initialized && final(self).admin == old(
                self).admin && final(self).market_wasm_hash == old(self).market_wasm_hash
                && final(self).markets@ == old(self).markets@,
            !old(self).initialized ==> r is Ok && final(self).initialized && final(self).admin
                == Some(admin) && final(self).market_wasm_hash == Some(market_wasm_hash) && final(
                self).markets@.len() == 0,
    {
        if self.initialized {
            return Err(FactoryError::AlreadyInitialized);
        }
        self.admin = Some(admin);
        self.market_wasm_hash = Some(market_wasm_hash);
        self.markets = Vec::new();
        self.initialized = true;
        Ok(())
    }

    pub fn require_initialized(&self) -> (r: Result<(), FactoryError>)
        ensures
            r == (if self.initialized {
                Ok(())
            } else {
                Err(FactoryError::NotInitialized)
            }),
    {
        if !self.initialized {
            return Err(FactoryError::NotInitialized);
        }
        Ok(())
    }

    /// The admin who must authorise an admin call.
    pub fn require_live_admin(&self) -> (r: Result<Addr, FactoryError>)
        requires
            self.wf(),
        ensures
            r == (if self.initialized {
                Ok(self.admin->0)
            } else {
                Err(FactoryError::NotInitialized)
            }),
    {
        if !self.initialized {
            return Err(FactoryError::NotInitialized);
        }
        match self.admin {
            Some(a) => Ok(a),
            None => Err(FactoryError::NotInitialized),
        }
    }

    /// Whether a market with `config` may be created, given the market stored
    /// under its id (`compute_id`), if any; returns the code to deploy.
    pub fn create_market(
        &self,
        config: &IsolatedMarketConfig,
        lltv_enabled: bool,
        irm_enabled: bool,
        existing: Option<Addr>,
    ) -> (r: Result<Hash32, FactoryError>)
        ensures
            r == self.create_result(*config, lltv_enabled, irm_enabled, existing),
    {
        self.require_initialized()?;
        if config.loan_asset == config.collateral_asset {
            return Err(FactoryError::InvalidMarketParams);
        }
        if !lltv_enabled {
            return Err(FactoryError::LltvNotEnabled);
        }
        if !irm_enabled {
            return Err(FactoryError::IrmNotEnabled);
        }
        if existing.is_some() {
            return Err(FactoryError::MarketAlreadyExists);
        }
        match self.market_wasm_hash {
            Some(h) => Ok(h),
            None => Err(FactoryError::InvalidWasmHash),
        }
    }

    /// Register a freshly deployed market: list it and map its id to it.
    pub fn register_market(&mut self, market: Addr, by_id: &mut Option<Addr>)
        ensures
            final(self).initialized == old(self).initialized,
            final(self).admin == old(self).admin,
            final(self).market_wasm_hash == old(self).market_wasm_hash,
            final(self).markets@ == old(self).markets@.push(market),
            *final(by_id) == Some(market),
    {
        self.markets.push(market);
        *by_id = Some(market);
    }

    /// Approve an interest rate model for new markets (the admin only).
    pub fn enable_irm(&self, flag: &mut bool) -> (r: Result<(), FactoryError>)
        requires
            self.wf(),
        ensures
            !self.initialized ==> r == Err::<(), _>(FactoryError::NotInitialized) && *final(flag)
                == *old(flag),
            self.initialized ==> r is Ok && *final(flag),
    {
        self.require_live_admin()?;
        *flag = true;
        Ok(())
    }

    /// Approve a liquidation LTV for new markets (the admin only).
    pub fn enable_lltv(&self, flag: &mut bool) -> (r: Result<(), FactoryError>)
        requires
            self.wf(),
        ensures
            !self.initialized ==> r == Err::<(), _>(FactoryError::NotInitialized) && *final(flag)
                == *old(flag),
            self.initialized ==> r is Ok && *final(flag),
    {
        self.require_live_admin()?;
        *flag = true;
        Ok(())
    }

    /// Replace the market code used for future deployments (the admin only).
    pub fn update_market_wasm(&mut self, new_wasm_hash: Hash32) -> (r: Result<(), FactoryError>)
        requires
            old(self).wf(),
        ensures
            final(self).wf(),
            final(self).initialized == old(self).initialized,
            final(self).admin == old(self).admin,
            final(self).markets@ == old(self).markets@,
            !old(self).initialized ==> r == Err::<(), _>(FactoryError::NotInitialized) && final(
                self).market_wasm_hash == old(self).market_wasm_hash,
            old(self).initialized ==> r is Ok && final(self).market_wasm_hash == Some(
                new_wasm_hash,
            ),
    {
        self.require_live_admin()?;
        self.market_wasm_hash = Some(new_wasm_hash);
        Ok(())
    }

    /// Hand admin rights to `new_admin` (the admin only).
    pub fn transfer_admin(&mut self, new_admin: Addr) -> (r: Result<(), FactoryError>)
        requires
            old(self).wf(),
        ensures
            final(self).wf(),
            final(self).initialized == old(self).initialized,
            final(self).market_wasm_hash == old(self).market_wasm_hash,
            final(self).markets@ == old(self).markets@,
            !old(self).initialized ==> r == Err::<(), _>(FactoryError::NotInitialized) && final(
                self).admin == old(self).admin,
            old(self).initialized ==> r is Ok && final(self).admin == Some(new_admin),
    {
        self.require_live_admin()?;
        self.admin = Some(new_admin);
        Ok(())
    }

    /// Whether the factory's code may be upgraded (the admin authorises).
    pub fn upgrade(&self) -> (r: Result<(), FactoryError>)
        requires
            self.wf(),
        ensures
            r == (if self.initialized {
                Ok(())
            } else {
                Err(FactoryError::NotInitialized)
            }),
    {
        self.require_live_admin()?;
        Ok(())
    }

    /// Every market deployed, in creation order.
    pub fn get_markets(&self) -> (r: Vec<Addr>)
        ensures
            r@ == self.markets@,
    {
        copy_addrs(&self.markets)
    }

    pub fn admin(&self) -> (r: Option<Addr>)
        ensures
            r == self.admin,
    {
        self.admin
    }
}

impl MarketFactoryContract {
    /// The id of the market with these parameters, without creating anything:
    /// the sha256 of the ledger encoding of their parameter key.
    pub fn market_id(
        env: &Env,
        loan_asset: Addr,
        collateral_asset: Addr,
        oracle: Addr,
        irm: Addr,
        lltv: i128,
    ) -> (r: Hash32)
        ensures
            r == market_id_spec(MarketParamsKey { loan_asset, collateral_asset, oracle, irm, lltv }),
    {
        let key = market_params(loan_asset, collateral_asset, oracle, irm, lltv);
        sha256_bytes(env, &params_key_xdr(&key))
    }

    /// Whether a rate model is enabled; unknown ones are not.
    pub fn is_irm_enabled(flag: Option<bool>) -> (r: bool)
        ensures
            r == (flag == Some(true)),
    {
        match flag {
            Some(b) => b,
            None => false,
        }
    }

    /// Whether an LLTV is enabled; unknown ones are not.
    pub fn is_lltv_enabled(flag: Option<bool>) -> (r: bool)
        ensures
            r == (flag == Some(true)),
    {
        match flag {
            Some(b) => b,
            None => false,
        }
    }
}

/// The key a market with this config is identified by.
pub fn params_key(config: &IsolatedMarketConfig) -> (r: MarketParamsKey)
    ensures
        r == params_key_spec(*config),
{
    MarketParamsKey {
        loan_asset: config.loan_asset,
        collateral_asset: config.collateral_asset,
        oracle: config.oracle_adapter,
        irm: config.rate_model,
        lltv: config.lltv,
    }
}

/// The key of a market by its parameters.
pub fn market_params(loan_asset: Addr, collateral_asset: Addr, oracle: Addr, irm: Addr, lltv: i128) -> (r:
    MarketParamsKey)
    ensures
        r == (MarketParamsKey { loan_asset, collateral_asset, oracle, irm, lltv }),
{
    MarketParamsKey { loan_asset, collateral_asset, oracle, irm, lltv }
}

/// Markets that differ in any identity parameter, or only in the direction of
/// the asset pair, have different keys; the same parameters give the same key.
pub proof fn law_params_key_identity(a: IsolatedMarketConfig, b: IsolatedMarketConfig)
    ensures
        params_key_spec(a) == params_key_spec(b) <==> (a.loan_asset == b.loan_asset
            && a.collateral_asset == b.collateral_asset && a.oracle_adapter == b.oracle_adapter
            && a.rate_model == b.rate_model && a.lltv == b.lltv),
{
}

/// The ledger encoding of a parameter key: a map from the field names, in
/// sorted order, to the field values.
pub open spec fn params_key_xdr_spec(k: MarketParamsKey) -> Seq<u8> {
    map_head_spec(5) + symbol_xdr_spec("collateral_asset"@) + address_xdr_spec(k.collateral_asset)
        + (symbol_xdr_spec("irm"@) + address_xdr_spec(k.irm) + (symbol_xdr_spec("lltv"@)
        + i128_xdr_spec(k.lltv) + (symbol_xdr_spec("loan_asset"@) + address_xdr_spec(k.loan_asset)
        + (symbol_xdr_spec("oracle"@) + address_xdr_spec(k.oracle)))))
}

/// The id of the market with parameter key `k`.
pub open spec fn market_id_spec(k: MarketParamsKey) -> Hash32 {
    sha256_of(params_key_xdr_spec(k))
}

/// The ledger encoding of a parameter key.
pub fn params_key_xdr(k: &MarketParamsKey) -> (r: Vec<u8>)
    ensures
        r@ == params_key_xdr_spec(*k),
{
    proof {
        reveal_strlit("collateral_asset");
        reveal_strlit("irm");
        reveal_strlit("lltv");
        reveal_strlit("loan_asset");
        reveal_strlit("oracle");
    }
    let mut out: Vec<u8> = Vec::new();
    push_map_head(&mut out, 5);
    push_symbol(&mut out, "collateral_asset");
    push_address(&mut out, k.collateral_asset);
    push_symbol(&mut out, "irm");
    push_address(&mut out, k.irm);
    push_symbol(&mut out, "lltv");
    push_i128(&mut out, k.lltv);
    push_symbol(&mut out, "loan_asset");
    push_address(&mut out, k.loan_asset);
    push_symbol(&mut out, "oracle");
    push_address(&mut out, k.oracle);
    proof {
        assert(out@ =~= params_key_xdr_spec(*k));
    }
    out
}

/// The id of the market `config` describes: the sha256 of the ledger encoding
/// of its parameter key.
pub fn compute_id(env: &Env, config: &IsolatedMarketConfig) -> (r: Hash32)
    ensures
        r == market_id_spec(params_key_spec(*config)),
{
    sha256_bytes(env, &params_key_xdr(&params_key(config)))
}

/// A market id serves one market: once a market is stored under the id of a
/// config's parameters, creating a market with the same parameters, whatever
/// its other settings, is refused.
pub proof fn law_market_id_single_use(
    factory: MarketFactoryContract,
    config: IsolatedMarketConfig,
    again: IsolatedMarketConfig,
    lltv_enabled: bool,
    irm_enabled: bool,
    by_id: Map<Hash32, Addr>,
    market: Addr,
)
    requires
        factory.create_result(
            config,
            lltv_enabled,
            irm_enabled,
            by_id.get(market_id_spec(params_key_spec(config))),
        ) is Ok,
        params_key_spec(again) == params_key_spec(config),
    ensures
        factory.create_result(
            again,
            lltv_enabled,
            irm_enabled,
            by_id.insert(market_id_spec(params_key_spec(config)), market).get(
                market_id_spec(params_key_spec(again)),
            ),
        ) == Err::<Hash32, FactoryError>(FactoryError::MarketAlreadyExists),
{
}

/// Market ids are keyed by all five parameters, in their direction: different
/// parameter keys (over ledger addresses) have different encodings, so their
/// ids differ unless sha256 collides.
#[verifier::spinoff_prover]
#[verifier::rlimit(40)]
pub proof fn law_params_key_encoding_injective(k1: MarketParamsKey, k2: MarketParamsKey)
    requires
        ledger_addr(k1.loan_asset),
        ledger_addr(k1.collateral_asset),
        ledger_addr(k1.oracle),
        ledger_addr(k1.irm),
        ledger_addr(k2.loan_asset),
        ledger_addr(k2.collateral_asset),
        ledger_addr(k2.oracle),
        ledger_addr(k2.irm),
        params_key_xdr_spec(k1) == params_key_xdr_spec(k2),
    ensures
        k1 == k2,
{
    let so = symbol_xdr_spec("oracle"@);
    let r4a = so + address_xdr_spec(k1.oracle);
    let r4b = so + address_xdr_spec(k2.oracle);
    let sl = symbol_xdr_spec("loan_asset"@);
    let r3a = sl + address_xdr_spec(k1.loan_asset) + r4a;
    let r3b = sl + address_xdr_spec(k2.loan_asset) + r4b;
    let sv = symbol_xdr_spec("lltv"@);
    let r2a = sv + i128_xdr_spec(k1.lltv) + r3a;
    let r2b = sv + i128_xdr_spec(k2.lltv) + r3b;
    let si = symbol_xdr_spec("irm"@);
    let r1a = si + address_xdr_spec(k1.irm) + r2a;
    let r1b = si + address_xdr_spec(k2.irm) + r2b;
    let head = map_head_spec(5) + symbol_xdr_spec("collateral_asset"@);
    lemma_address_xdr_prefix_free(head, k1.collateral_asset, r1a, k2.collateral_asset, r1b);
    lemma_address_xdr_prefix_free(si, k1.irm, r2a, k2.irm, r2b);
    lemma_same_length_part(sv, i128_xdr_spec(k1.lltv), r3a, i128_xdr_spec(k2.lltv), r3b);
    lemma_i128_xdr_injective(k1.lltv, k2.lltv);
    lemma_address_xdr_prefix_free(sl, k1.loan_asset, r4a, k2.loan_asset, r4b);
    assert(r4a =~= so + address_xdr_spec(k1.oracle) + Seq::<u8>::empty());
    assert(r4b =~= so + address_xdr_spec(k2.oracle) + Seq::<u8>::empty());
    lemma_address_xdr_prefix_free(so, k1.oracle, Seq::empty(), k2.oracle, Seq::empty());
}

} // verus!
