//! Deploys vaults, one per (owner, asset, salt).
//!
//! `create_vault` decides whether a deployment may go ahead and with which code;
//! after the deployment `record_vault` registers the new vault under its key.
//! The deployment salt is the hash of the `VaultSaltKey`.
use vstd::prelude::*;
use crate::ids::{address_xdr_spec, lemma_address_xdr_prefix_free, ledger_addr, push_address, Addr, Hash32};
use crate::ledger::{
    bytes32_xdr_spec, lemma_bytes32_xdr_injective, lemma_cancel_prefix, lemma_regroup,
    map_head_spec, push_bytes32, push_map_head, push_symbol, sha256_bytes, sha256_of,
    symbol_xdr_spec,
};
use soroban_sdk::Env;

verus! {

/// The key a vault is deployed and registered under.
#[derive(Clone, Copy, Debug, PartialEq, Eq, Structural)]
pub struct VaultSaltKey {
    pub owner: Addr,
    pub asset: Addr,
    pub salt: Hash32,
}

#[derive(Clone, Copy, Debug, PartialEq, Eq, Structural)]
pub enum VaultFactoryError {
    AlreadyInitialized,
    NotInitialized,
    Unauthorized,
    VaultAlreadyExists,
    InvalidWasmHash,
}

/// The factory's owner and the vault code it deploys.
pub struct VaultFactoryContract {
    pub initialized: bool,
    pub owner: Option<Addr>,
    pub vault_wasm_hash: Option<Hash32>,
}

impl VaultFactoryContract {
    pub open spec fn wf(&self) -> bool {
        self.initialized ==> self.owner is Some
    }

    /// Whether a vault may be deployed for a key whose registry entry is
    /// `existing`; on success, the code to deploy.
    pub open spec fn create_result(&self, existing: Option<Addr>) -> Result<Hash32, VaultFactoryError> {
        if !self.initialized {
            Err(VaultFactoryError::NotInitialized)
        } else if existing is Some {
            Err(VaultFactoryError::VaultAlreadyExists)
        } else if self.vault_wasm_hash is None {
            Err(VaultFactoryError::InvalidWasmHash)
        } else {
            Ok(self.vault_wasm_hash->0)
        }
    }

    /// Nothing stored yet.
    pub fn fresh() -> (r: Self)
        ensures
            !r.initialized && r.owner is None && r.vault_wasm_hash is None,
            r.wf(),
    {
        VaultFactoryContract { initialized: false, owner: None, vault_wasm_hash: None }
    }

    /// Set the owner and the vault code once.
    pub fn initialize(&mut self, owner: Addr, vault_wasm_hash: Hash32) -> (r: Result<(), VaultFactoryError>)
        requires
            old(self).wf(),
        ensures
            final(self).wf(),
            old(self).initialized ==> r == Err::<(), _>(VaultFactoryError::AlreadyInitialized)
                && *final(self) == *old(self),
            !old(self).initialized ==> r is Ok && *final(self) == (VaultFactoryContract {
                initialized: true,
                owner: Some(owner),
                vault_wasm_hash: Some(vault_wasm_hash),
            }),
    {
        if self.initialized {
            return Err(VaultFactoryError::AlreadyInitialized);
        }
        self.owner = Some(owner);
        self.vault_wasm_hash = Some(vault_wasm_hash);
        self.initialized = true;
        Ok(())
    }

    pub fn require_initialized(&self) -> (r: Result<(), VaultFactoryError>)
        ensures
            r == (if self.initialized {
                Ok(())
            } else {
                Err(VaultFactoryError::NotInitialized)
            }),
    {
        if self.initialized {
            Ok(())
        } else {
            Err(VaultFactoryError::NotInitialized)
        }
    }

    /// The owner who must authorise an owner call.
    pub fn require_owner(&self) -> (r: Result<Addr, VaultFactoryError>)
        requires
            self.wf(),
        ensures
            r == (if self.initialized {
                Ok(self.owner->0)
            } else {
                Err(VaultFactoryError::NotInitialized)
            }),
    {
        self.require_initialized()?;
        match self.owner {
            Some(o) => Ok(o),
            None => Err(VaultFactoryError::NotInitialized),
        }
    }

    /// Whether a vault may be deployed for a key whose registry entry is
    /// `existing`; returns the code to deploy.
    pub fn create_vault(&self, existing: Option<Addr>) -> (r: Result<Hash32, VaultFactoryError>)
        ensures
            r == self.create_result(existing),
    {
        self.require_initialized()?;
        if existing.is_some() {
            return Err(VaultFactoryError::VaultAlreadyExists);
        }
        match self.vault_wasm_hash {
            Some(h) => Ok(h),
            None => Err(VaultFactoryError::InvalidWasmHash),
        }
    }

    /// Replace the vault code used for future deployments (the owner only).
    pub fn set_vault_wasm_hash(&mut self, new_wasm_hash: Hash32) -> (r: Result<(), VaultFactoryError>)
        requires
            old(self).wf(),
        ensures
            final(self).wf(),
            !old(self).initialized ==> r == Err::<(), _>(VaultFactoryError::NotInitialized)
                && *final(self) == *old(self),
            old(self).initialized ==> r is Ok && *final(self) == (VaultFactoryContract {
                vault_wasm_hash: Some(new_wasm_hash),
                ..*old(self)
            }),
    {
        self.require_owner()?;
        self.vault_wasm_hash = Some(new_wasm_hash);
        Ok(())
    }

    /// Hand ownership to `new_owner` (the owner only).
    pub fn transfer_owner(&mut self, new_owner: Addr) -> (r: Result<(), VaultFactoryError>)
        requires
            old(self).wf(),
        ensures
            final(self).wf(),
            !old(self).initialized ==> r == Err::<(), _>(VaultFactoryError::NotInitialized)
                && *final(self) == *old(self),
            old(self).initialized ==> r is Ok && *final(self) == (VaultFactoryContract {
                owner: Some(new_owner),
                ..*old(self)
            }),
    {
        self.require_owner()?;
        self.owner = Some(new_owner);
        Ok(())
    }

    /// Whether the factory's code may be upgraded (the owner authorises).
    pub fn upgrade(&self) -> (r: Result<(), VaultFactoryError>)
        requires
            self.wf(),
        ensures
            r == (if self.initialized {
                Ok(())
            } else {
                Err(VaultFactoryError::NotInitialized)
            }),
    {
        self.require_owner()?;
        Ok(())
    }

    pub fn owner(&self) -> (r: Option<Addr>)
        ensures
            r == self.owner,
    {
        self.owner
    }

    pub fn vault_wasm_hash(&self) -> (r: Option<Hash32>)
        ensures
            r == self.vault_wasm_hash,
    {
        self.vault_wasm_hash
    }
}

impl VaultFactoryContract {
    /// Register a freshly deployed vault under its key and mark it as a vault.
    pub fn record_vault(entry: &mut Option<Addr>, is_vault: &mut bool, vault: Addr)
        ensures
            *final(entry) == Some(vault),
            *final(is_vault),
    {
        *entry = Some(vault);
        *is_vault = true;
    }

    /// Whether an address was deployed by the factory; unknown addresses are not.
    pub fn is_vault(flag: Option<bool>) -> (r: bool)
        ensures
            r == (flag == Some(true)),
    {
        match flag {
            Some(b) => b,
            None => false,
        }
    }

    /// The salt a vault for (owner, asset, salt) is deployed with: the sha256
    /// of the ledger encoding of its salt key.
    pub fn deployment_salt(env: &Env, owner: Addr, asset: Addr, salt: Hash32) -> (r: Hash32)
        ensures
            r == deployment_salt_spec(owner, asset, salt),
    {
        sha256_bytes(env, &salt_key_xdr(owner, asset, salt))
    }

    /// The key a vault for (owner, asset, salt) is deployed under.
    pub fn salt_key(owner: Addr, asset: Addr, salt: Hash32) -> (r: VaultSaltKey)
        ensures
            r == (VaultSaltKey { owner, asset, salt }),
    {
        VaultSaltKey { owner, asset, salt }
    }
}

/// The ledger encoding of a salt key: a map from the field names, in sorted
/// order, to the field values.
pub open spec fn salt_key_xdr_spec(owner: Addr, asset: Addr, salt: Hash32) -> Seq<u8> {
    map_head_spec(3) + symbol_xdr_spec("asset"@) + address_xdr_spec(asset) + symbol_xdr_spec(
        "owner"@,
    ) + address_xdr_spec(owner) + symbol_xdr_spec("salt"@) + bytes32_xdr_spec(salt)
}

/// The salt the vault for (owner, asset, salt) is deployed with.
pub open spec fn deployment_salt_spec(owner: Addr, asset: Addr, salt: Hash32) -> Hash32 {
    sha256_of(salt_key_xdr_spec(owner, asset, salt))
}

/// The ledger encoding of the salt key of (owner, asset, salt).
pub fn salt_key_xdr(owner: Addr, asset: Addr, salt: Hash32) -> (r: Vec<u8>)
    ensures
        r@ == salt_key_xdr_spec(owner, asset, salt),
{
    proof {
        reveal_strlit("asset");
        reveal_strlit("owner");
        reveal_strlit("salt");
    }
    let mut out: Vec<u8> = Vec::new();
    push_map_head(&mut out, 3);
    push_symbol(&mut out, "asset");
    push_address(&mut out, asset);
    push_symbol(&mut out, "owner");
    push_address(&mut out, owner);
    push_symbol(&mut out, "salt");
    push_bytes32(&mut out, salt);
    proof {
        assert(out@ =~= salt_key_xdr_spec(owner, asset, salt));
    }
    out
}

/// A key serves one vault only: once a vault is recorded under it, every later
/// creation for that key is refused.
pub proof fn law_vault_key_single_use(factory: VaultFactoryContract, vault: Addr)
    requires
        factory.initialized,
    ensures
        factory.create_result(Some(vault)) == Err::<Hash32, VaultFactoryError>(
            VaultFactoryError::VaultAlreadyExists,
        ),
{
}

/// Vault deployments are keyed by the whole (owner, asset, salt): different
/// triples of ledger addresses and salts have different salt-key encodings, so
/// the deployment salts hashed from them differ unless sha256 collides.
#[verifier::spinoff_prover]
pub proof fn law_salt_key_encoding_injective(
    owner1: Addr,
    asset1: Addr,
    salt1: Hash32,
    owner2: Addr,
    asset2: Addr,
    salt2: Hash32,
)
    requires
        ledger_addr(owner1),
        ledger_addr(asset1),
        ledger_addr(owner2),
        ledger_addr(asset2),
        salt_key_xdr_spec(owner1, asset1, salt1) == salt_key_xdr_spec(owner2, asset2, salt2),
    ensures
        owner1 == owner2,
        asset1 == asset2,
        salt1 == salt2,
{
    let head = map_head_spec(3) + symbol_xdr_spec("asset"@);
    let so = symbol_xdr_spec("owner"@);
    let ss = symbol_xdr_spec("salt"@);
    let tail1 = ss + bytes32_xdr_spec(salt1);
    let tail2 = ss + bytes32_xdr_spec(salt2);
    lemma_regroup(head + address_xdr_spec(asset1), so, address_xdr_spec(owner1), ss, bytes32_xdr_spec(salt1));
    lemma_regroup(head + address_xdr_spec(asset2), so, address_xdr_spec(owner2), ss, bytes32_xdr_spec(salt2));
    lemma_address_xdr_prefix_free(
        head,
        asset1,
        so + address_xdr_spec(owner1) + tail1,
        asset2,
        so + address_xdr_spec(owner2) + tail2,
    );
    lemma_address_xdr_prefix_free(so, owner1, tail1, owner2, tail2);
    lemma_cancel_prefix(ss, bytes32_xdr_spec(salt1), bytes32_xdr_spec(salt2));
    lemma_bytes32_xdr_injective(salt1, salt2);
}

} // verus!
