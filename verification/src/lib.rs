//! Verified core of the Astrion lending protocol.
pub mod ids;
pub mod ledger;
pub mod math;
pub mod rate_model;
pub mod oracle_adapter;
pub mod market;
pub mod core_pool;
pub mod liquidation_engine;
pub mod vault;
pub mod market_adapter;
pub mod adapter_registry;
pub mod vault_factory;
pub mod market_factory;
pub mod referral_storage;
pub mod mock_oracle;
