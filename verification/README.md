# astrion

The decision logic of the Astrion lending protocol on Soroban, verified with
Verus, and the contracts that run it.

- `src/` — the verified library. Every public function states in its contract
  what it returns and how it changes the values it is given; the `law_*` proof
  functions state properties across operations (interest accrual never lowers
  an index, every pool operation keeps the runtime invariants, liquidations stay
  within the close factor, vault round trips never gain, registries only grow,
  ids are used once).
  - `ids`, `ledger` — addresses and 32-byte values, their ledger (XDR)
    encodings and decoding, and the sha256 digests that market ids, vault
    deployment salts and risk ids are made of.
  - `math` — WAD fixed point with truncating division, health factor, price
    normalisation, virtual-share conversions.
  - `rate_model` — the kinked two-slope interest-rate curve.
  - `oracle_adapter`, `mock_oracle` — price-feed resolution, staleness and
    bounds checks; a fixed-price test feed.
  - `core_pool` — the multi-asset pool with scaled balances and indexes.
  - `market` — an isolated market with virtual-share accounting.
  - `liquidation_engine` — close factor, collateral seizure, keeper limits.
  - `vault`, `vault_factory`, `market_adapter`, `adapter_registry`,
    `market_factory` — share vaults and the contracts that deploy and feed them.
  - `referral_storage` — referral codes and trading-fee discounts.
- `app/` — the Soroban contracts: ledger storage, authorisation, token
  transfers, deployments, cross-contract calls and events around the library.
- `tests/` — scenario tests of the library.

Contract state lives in plain values (`ids::Addr` for ledger addresses,
`ids::Hash32` for 32-byte values); what another contract or the ledger reports
(prices, rates, balances, time) is handed to the library as arguments, so each
function is verified for every value of it.
