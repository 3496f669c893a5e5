//! The registry singleton: global configuration and the domain-creation
//! counter. Created exactly once by `initialize` (the host's store supplies
//! the run-once guard); afterwards only domain-creation events touch it, and
//! only to increment `domain_count`.

use vstd::prelude::*;

use crate::types::AccountId;
use crate::types::ConflictPolicy;
use crate::types::REGISTRY_VERSION;

verus! {

/// Singleton configuration and counters; root of the authority chain.
#[derive(Clone, Copy, Debug)]
pub struct Registry {
    /// Identity allowed to perform privileged (mirror-path) operations.
    pub authority: AccountId,
    /// 20-byte reference to the mirrored external source registry.
    pub polygon_registry: [u8; 20],
    /// Count of domain-creation events: first-time registrations, post-expiry
    /// re-registrations and first-time mirrors. Never decreases.
    pub domain_count: u64,
    /// Global conflict-resolution rule, fixed at initialization.
    pub conflict_policy: ConflictPolicy,
    /// Schema tag for forward compatibility.
    pub version: u8,
}

impl Registry {
    /// A registry is well-formed when its authority is a real identity: the
    /// zero identity never signs, so it could never exercise the mirror path.
    pub open spec fn wf(self) -> bool {
        !self.authority.is_zero()
    }
}

/// Creates the registry entry. The host runs this exactly once per
/// deployment, authenticated as the caller that becomes the authority; the
/// store's create-once guard rejects a second call before this logic runs.
pub fn initialize(
    authority: AccountId,
    polygon_registry: [u8; 20],
    conflict_policy: ConflictPolicy,
) -> (r: Registry)
    requires
        !authority.is_zero(),
    ensures
        r == (Registry {
            authority,
            polygon_registry,
            domain_count: 0,
            conflict_policy,
            version: REGISTRY_VERSION,
        }),
        r.wf(),
{
    Registry { authority, polygon_registry, domain_count: 0, conflict_policy, version: REGISTRY_VERSION }
}

} // verus!
