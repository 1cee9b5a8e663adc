//! Add-only registry of vault adapters.
//!
//! Once an adapter is listed it stays listed: there is no removal, and a second
//! registration of the same adapter is refused.
use vstd::prelude::*;
use crate::ids::{contains_addr, copy_addrs, Addr};

verus! {

#[derive(Clone, Copy, Debug, PartialEq, Eq, Structural)]
pub enum AdapterRegistryError {
    AlreadyInitialized,
    NotInitialized,
    Unauthorized,
    AlreadyRegistered,
}

/// What registering `adapter` on behalf of `caller` does to the list of
/// adapters, given the stored owner.
pub open spec fn add_adapter_result(
    stored_owner: Option<Addr>,
    adapters: Seq<Addr>,
    caller: Addr,
    adapter: Addr,
) -> Result<Seq<Addr>, AdapterRegistryError> {
    if stored_owner is None {
        Err(AdapterRegistryError::NotInitialized)
    } else if caller != stored_owner->0 {
        Err(AdapterRegistryError::Unauthorized)
    } else if adapters.contains(adapter) {
        Err(AdapterRegistryError::AlreadyRegistered)
    } else {
        Ok(adapters.push(adapter))
    }
}

/// The registry's owner and its adapters, in registration order.
pub struct AdapterRegistryContract {
    pub initialized: bool,
    pub owner: Option<Addr>,
    pub adapters: Vec<Addr>,
}

impl AdapterRegistryContract {
    /// No adapter is listed twice.
    pub open spec fn wf(&self) -> bool {
        self.adapters@.no_duplicates()
    }

    /// Nothing stored yet.
    pub fn fresh() -> (r: Self)
        ensures
            !r.initialized && r.owner is None && r.adapters@.len() == 0,
            r.wf(),
    {
        AdapterRegistryContract { initialized: false, owner: None, adapters: Vec::new() }
    }

    /// Set the owner once, with no adapters listed.
    pub fn initialize(&mut self, owner: Addr) -> (r: Result<(), AdapterRegistryError>)
        requires
            old(self).wf(),
        ensures
            final(self).wf(),
            old(self).initialized ==> r == Err::<(), _>(AdapterRegistryError::AlreadyInitialized)
                && final(self).initialized == old(self).initialized && final(self).owner == old(
                self).owner && final(self).adapters@ == old(self).adapters@,
            !old(self).initialized ==> r is Ok && final(self).initialized && final(self).owner
                == Some(owner) && final(self).adapters@.len() == 0,
    {
        if self.initialized {
            return Err(AdapterRegistryError::AlreadyInitialized);
        }
        self.owner = Some(owner);
        self.adapters = Vec::new();
        self.initialized = true;
        Ok(())
    }

    /// The stored owner must be the caller (who authorises).
    pub fn require_owner(&self, caller: Addr) -> (r: Result<(), AdapterRegistryError>)
        ensures
            r == (if self.owner is None {
                Err(AdapterRegistryError::NotInitialized)
            } else if caller != self.owner->0 {
                Err(AdapterRegistryError::Unauthorized)
            } else {
                Ok(())
            }),
    {
        let stored = match self.owner {
            Some(o) => o,
            None => return Err(AdapterRegistryError::NotInitialized),
        };
        if caller != stored {
            return Err(AdapterRegistryError::Unauthorized);
        }
        Ok(())
    }

    /// List a new adapter (the owner only).
    pub fn add_adapter(&mut self, owner: Addr, adapter: Addr) -> (r: Result<(), AdapterRegistryError>)
        requires
            old(self).wf(),
        ensures
            final(self).wf(),
            final(self).initialized == old(self).initialized,
            final(self).owner == old(self).owner,
            match add_adapter_result(old(self).owner, old(self).adapters@, owner, adapter) {
                Ok(s) => r is Ok && final(self).adapters@ == s,
                Err(e) => r == Err::<(), AdapterRegistryError>(e) && final(self).adapters@ == old(
                    self,
                ).adapters@,
            },
    {
        self.require_owner(owner)?;
        if contains_addr(&self.adapters, adapter) {
            return Err(AdapterRegistryError::AlreadyRegistered);
        }
        self.adapters.push(adapter);
        Ok(())
    }

    /// Whether `adapter` is listed.
    pub fn is_in_registry(&self, adapter: Addr) -> (r: bool)
        ensures
            r == self.adapters@.contains(adapter),
    {
        contains_addr(&self.adapters, adapter)
    }

    /// All listed adapters, in registration order.
    pub fn adapters(&self) -> (r: Vec<Addr>)
        ensures
            r@ == self.adapters@,
    {
        copy_addrs(&self.adapters)
    }

    pub fn owner(&self) -> (r: Option<Addr>)
        ensures
            r == self.owner,
    {
        self.owner
    }

    /// Hand ownership to `new_owner` (the owner only).
    pub fn transfer_owner(&mut self, owner: Addr, new_owner: Addr) -> (r: Result<(), AdapterRegistryError>)
        ensures
            final(self).initialized == old(self).initialized,
            final(self).adapters@ == old(self).adapters@,
            r == (if old(self).owner is None {
                Err(AdapterRegistryError::NotInitialized)
            } else if owner != old(self).owner->0 {
                Err(AdapterRegistryError::Unauthorized)
            } else {
                Ok(())
            }),
            r is Ok ==> final(self).owner == Some(new_owner),
            r is Err ==> final(self).owner == old(self).owner,
    {
        self.require_owner(owner)?;
        self.owner = Some(new_owner);
        Ok(())
    }

    /// Whether `owner` may upgrade the registry's code.
    pub fn upgrade(&self, owner: Addr) -> (r: Result<(), AdapterRegistryError>)
        ensures
            r == (if self.owner is None {
                Err(AdapterRegistryError::NotInitialized)
            } else if owner != self.owner->0 {
                Err(AdapterRegistryError::Unauthorized)
            } else {
                Ok(())
            }),
    {
        self.require_owner(owner)
    }
}

/// The registry is add-only: a successful registration lists the adapter, keeps
/// every adapter listed before, and refuses the same adapter ever after.
pub proof fn law_registry_add_only(
    stored_owner: Option<Addr>,
    adapters: Seq<Addr>,
    caller: Addr,
    adapter: Addr,
    other: Addr,
)
    requires
        add_adapter_result(stored_owner, adapters, caller, adapter) is Ok,
    ensures
        ({
            let after = add_adapter_result(stored_owner, adapters, caller, adapter)->Ok_0;
            &&& after.contains(adapter)
            &&& adapters.contains(other) ==> after.contains(other)
            &&& add_adapter_result(stored_owner, after, caller, adapter) == Err::<
                Seq<Addr>,
                AdapterRegistryError,
            >(AdapterRegistryError::AlreadyRegistered)
        }),
{
    let after = adapters.push(adapter);
    assert(after[adapters.len() as int] == adapter);
    if adapters.contains(other) {
        let i = choose|i: int| 0 <= i < adapters.len() && adapters[i] == other;
        assert(after[i] == other);
    }
}

} // verus!
