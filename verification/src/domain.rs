//! Domain entries and their dual-path lifecycle. The legacy path
//! (`register_domain`, `renew_domain`, `transfer_domain`, `set_resolver`)
//! authenticates the acting delegate and respects expiration; the mirror path
//! (`mirror_domain`, `update_delegate`, `set_wrap_state`) authenticates the
//! single registry authority and overwrites unconditionally, because the
//! external source is authoritative. Every operation either rewrites the
//! entries it was handed or fails with one error kind and changes nothing.

use vstd::prelude::*;

use crate::events::DelegateUpdated;
use crate::events::DomainMirrored;
use crate::events::WrapStateChanged;
use crate::registry::Registry;
use crate::types::zeroed_bytes20;
use crate::types::zeroed_bytes32;
use crate::types::AccountId;
use crate::types::PnsError;
use crate::types::WrapState;
use crate::types::TEN_YEARS_IN_SECONDS;

verus! {

/// One entry per unique name hash. Created on first registration or first
/// mirror; never deleted — an expired domain is overwritten in place by a new
/// registrant, reusing the same derived key.
#[derive(Clone, Copy, Debug)]
pub struct DomainAccount {
    /// 32-byte identity of the name; set by every (re)registration or mirror.
    pub name_hash: [u8; 32],
    /// Local delegate currently authorized to manage this domain ("owner" for
    /// the legacy path). The zero identity means the entry was never written.
    pub owner: AccountId,
    /// Optional resolver target.
    pub resolver: Option<AccountId>,
    /// Absolute time after which the domain is reclaimable by a new
    /// registrant on the legacy path. The mirror path ignores it.
    pub expiration: u64,
    /// 20-byte owner reference as recorded by the external source.
    pub polygon_owner: [u8; 20],
    /// 32-byte reference to the external transaction that produced the most
    /// recent mirrored state (audit trail only).
    pub last_polygon_tx: [u8; 32],
    /// Custody-token reference for a wrapped domain.
    pub nft_mint: Option<AccountId>,
    /// Where the domain's custody token currently exists, if anywhere.
    pub wrap_state: WrapState,
    /// Count of record entries currently existing under this domain.
    pub record_count: u16,
}

impl DomainAccount {
    /// Whether the entry has ever been written: a created domain always has a
    /// non-zero delegate, so the zero identity doubles as the absence marker.
    pub open spec fn created(self) -> bool {
        !self.owner.is_zero()
    }

    /// The value of a freshly allocated, never-written entry.
    pub open spec fn vacant() -> DomainAccount {
        DomainAccount {
            name_hash: zeroed_bytes32(),
            owner: AccountId { bytes: zeroed_bytes32() },
            resolver: None,
            expiration: 0,
            polygon_owner: zeroed_bytes20(),
            last_polygon_tx: zeroed_bytes32(),
            nft_mint: None,
            wrap_state: WrapState::Unwrapped,
            record_count: 0,
        }
    }
}

impl Default for DomainAccount {
    /// The zero-initialized entry the host hands in when no domain has ever
    /// been created at the derived key.
    fn default() -> (r: DomainAccount)
        ensures
            r == DomainAccount::vacant(),
            !r.created(),
    {
        proof {
            crate::types::lemma_zeroed_bytes();
        }
        DomainAccount {
            name_hash: [0u8; 32],
            owner: AccountId { bytes: [0u8; 32] },
            resolver: None,
            expiration: 0,
            polygon_owner: [0u8; 20],
            last_polygon_tx: [0u8; 32],
            nft_mint: None,
            wrap_state: WrapState::Unwrapped,
            record_count: 0,
        }
    }
}

/// A registration or renewal duration must be positive and at most ten years.
pub open spec fn duration_valid(duration: u64) -> bool {
    0 < duration && duration <= TEN_YEARS_IN_SECONDS
}

/// The delegate a mirror write installs: the bridge-supplied local delegate
/// when one is given, otherwise the registry authority itself.
pub open spec fn mirrored_delegate(solana_delegate: Option<AccountId>, authority: AccountId) -> AccountId {
    match solana_delegate {
        Some(d) => d,
        None => authority,
    }
}

/// Legacy registration. Rejects out-of-range durations and names whose domain
/// is still live; an expired (or never-created) entry is (re)populated in
/// full, with every mirror-only field reset to its default, and the
/// registry's domain-creation counter incremented.
///
/// The caller identity is a verified signer, so it is never the zero
/// identity; this keeps a created domain's delegate non-zero.
pub fn register_domain(
    registry: &mut Registry,
    domain: &mut DomainAccount,
    signer: AccountId,
    name_hash: [u8; 32],
    duration: u64,
    resolver: Option<AccountId>,
    now: u64,
) -> (r: Result<(), PnsError>)
    requires
        !signer.is_zero(),
    ensures
        r is Err ==> *final(domain) == *old(domain) && *final(registry) == *old(registry),
        (r == Err::<(), PnsError>(PnsError::InvalidDuration)) <==> !duration_valid(duration),
        (r == Err::<(), PnsError>(PnsError::DomainNotAvailable)) <==> (duration_valid(duration)
            && old(domain).created() && now < old(domain).expiration),
        r is Ok <==> (duration_valid(duration) && (old(domain).created() ==> now >= old(
            domain,
        ).expiration)),
        r is Ok ==> *final(domain) == (DomainAccount {
            name_hash,
            owner: signer,
            resolver,
            expiration: now.saturating_add(duration),
            polygon_owner: zeroed_bytes20(),
            last_polygon_tx: zeroed_bytes32(),
            nft_mint: None,
            wrap_state: WrapState::Unwrapped,
            record_count: 0,
        }),
        r is Ok ==> *final(registry) == (Registry {
            domain_count: old(registry).domain_count.saturating_add(1),
            ..*old(registry)
        }),
        final(registry).domain_count >= old(registry).domain_count,
{
    if duration == 0 || duration > TEN_YEARS_IN_SECONDS {
        return Err(PnsError::InvalidDuration);
    }
    if !domain.owner.is_default() && now < domain.expiration {
        return Err(PnsError::DomainNotAvailable);
    }
    domain.name_hash = name_hash;
    domain.owner = signer;
    domain.resolver = resolver;
    domain.expiration = now.saturating_add(duration);
    domain.polygon_owner = [0u8; 20];
    domain.last_polygon_tx = [0u8; 32];
    domain.nft_mint = None;
    domain.wrap_state = WrapState::Unwrapped;
    domain.record_count = 0;
    registry.domain_count = registry.domain_count.saturating_add(1);
    Ok(())
}

/// Legacy renewal: the stored delegate extends the expiration by `duration`
/// seconds, saturating at the numeric ceiling. Nothing else changes.
pub fn renew_domain(
    domain: &mut DomainAccount,
    signer: AccountId,
    _name_hash: [u8; 32],
    duration: u64,
) -> (r: Result<(), PnsError>)
    ensures
        r is Err ==> *final(domain) == *old(domain),
        (r == Err::<(), PnsError>(PnsError::InvalidDuration)) <==> !duration_valid(duration),
        (r == Err::<(), PnsError>(PnsError::Unauthorized)) <==> (duration_valid(duration) && old(
            domain,
        ).owner != signer),
        r is Ok <==> (duration_valid(duration) && old(domain).owner == signer),
        r is Ok ==> *final(domain) == (DomainAccount {
            expiration: old(domain).expiration.saturating_add(duration),
            ..*old(domain)
        }),
{
    if duration == 0 || duration > TEN_YEARS_IN_SECONDS {
        return Err(PnsError::InvalidDuration);
    }
    if domain.owner != signer {
        return Err(PnsError::Unauthorized);
    }
    domain.expiration = domain.expiration.saturating_add(duration);
    Ok(())
}

/// Legacy transfer: the stored delegate of a live, unexpired domain hands the
/// delegate role to `new_owner`. A created domain's delegate must stay a real
/// identity, so the zero identity is not a valid transfer target.
pub fn transfer_domain(
    domain: &mut DomainAccount,
    signer: AccountId,
    _name_hash: [u8; 32],
    new_owner: AccountId,
    now: u64,
) -> (r: Result<(), PnsError>)
    requires
        !new_owner.is_zero(),
    ensures
        r is Err ==> *final(domain) == *old(domain),
        (r == Err::<(), PnsError>(PnsError::DomainNotAvailable)) <==> !old(domain).created(),
        (r == Err::<(), PnsError>(PnsError::DomainExpired)) <==> (old(domain).created() && now >= old(
            domain,
        ).expiration),
        (r == Err::<(), PnsError>(PnsError::Unauthorized)) <==> (old(domain).created() && now < old(
            domain,
        ).expiration && old(domain).owner != signer),
        r is Ok <==> (old(domain).created() && now < old(domain).expiration && old(domain).owner
            == signer),
        r is Ok ==> *final(domain) == (DomainAccount { owner: new_owner, ..*old(domain) }),
{
    if domain.owner.is_default() {
        return Err(PnsError::DomainNotAvailable);
    }
    if now >= domain.expiration {
        return Err(PnsError::DomainExpired);
    }
    if domain.owner != signer {
        return Err(PnsError::Unauthorized);
    }
    domain.owner = new_owner;
    Ok(())
}

/// Legacy resolver update: the stored delegate replaces the resolver pointer.
pub fn set_resolver(
    domain: &mut DomainAccount,
    signer: AccountId,
    _name_hash: [u8; 32],
    resolver: Option<AccountId>,
) -> (r: Result<(), PnsError>)
    ensures
        r is Err ==> *final(domain) == *old(domain),
        (r == Err::<(), PnsError>(PnsError::Unauthorized)) <==> old(domain).owner != signer,
        r is Ok <==> old(domain).owner == signer,
        r is Ok ==> *final(domain) == (DomainAccount { resolver, ..*old(domain) }),
{
    if domain.owner != signer {
        return Err(PnsError::Unauthorized);
    }
    domain.resolver = resolver;
    Ok(())
}

/// Mirror write: the registry authority replicates external-source state into
/// the domain entry, never blocked by expiry. Delegate, external owner,
/// resolver, expiration and the audit reference are overwritten
/// unconditionally; wrap state and record count are reset only when the entry
/// was never written before, in which case the domain-creation counter also
/// increments. A bridge-supplied delegate is a real identity, as is the
/// authority, so the installed delegate is never zero.
pub fn mirror_domain(
    registry: &mut Registry,
    domain: &mut DomainAccount,
    signer: AccountId,
    name_hash: [u8; 32],
    polygon_owner: [u8; 20],
    solana_delegate: Option<AccountId>,
    expiration: u64,
    resolver: Option<AccountId>,
    polygon_tx: [u8; 32],
) -> (r: Result<DomainMirrored, PnsError>)
    requires
        old(registry).wf(),
        solana_delegate matches Some(d) ==> !d.is_zero(),
    ensures
        r is Err ==> *final(domain) == *old(domain) && *final(registry) == *old(registry),
        r is Err <==> signer != old(registry).authority,
        r is Err ==> r == Err::<DomainMirrored, PnsError>(PnsError::Unauthorized),
        r is Ok ==> *final(domain) == (DomainAccount {
            name_hash,
            owner: mirrored_delegate(solana_delegate, old(registry).authority),
            resolver,
            expiration,
            polygon_owner,
            last_polygon_tx: polygon_tx,
            nft_mint: old(domain).nft_mint,
            wrap_state: if old(domain).created() {
                old(domain).wrap_state
            } else {
                WrapState::Unwrapped
            },
            record_count: if old(domain).created() {
                old(domain).record_count
            } else {
                0
            },
        }),
        r is Ok ==> *final(registry) == (Registry {
            domain_count: if old(domain).created() {
                old(registry).domain_count
            } else {
                old(registry).domain_count.saturating_add(1)
            },
            ..*old(registry)
        }),
        final(registry).domain_count >= old(registry).domain_count,
        r matches Ok(ev) ==> ev == (DomainMirrored {
            name_hash,
            solana_delegate: mirrored_delegate(solana_delegate, old(registry).authority),
            polygon_owner,
            expiration,
        }),
{
    if signer != registry.authority {
        return Err(PnsError::Unauthorized);
    }
    let was_uninitialized = domain.owner.is_default();

    domain.name_hash = name_hash;
    domain.owner = match solana_delegate {
        Some(d) => d,
        None => registry.authority,
    };
    domain.polygon_owner = polygon_owner;
    domain.resolver = resolver;
    domain.expiration = expiration;
    domain.last_polygon_tx = polygon_tx;
    if was_uninitialized {
        domain.wrap_state = WrapState::Unwrapped;
        domain.record_count = 0;
        registry.domain_count = registry.domain_count.saturating_add(1);
    }

    Ok(DomainMirrored { name_hash, solana_delegate: domain.owner, polygon_owner, expiration })
}

/// Mirror-path delegate reassignment: the registry authority replaces only
/// the delegate, leaving every other field untouched. The new delegate must
/// be a real identity.
pub fn update_delegate(
    registry: &Registry,
    domain: &mut DomainAccount,
    signer: AccountId,
    _name_hash: [u8; 32],
    new_delegate: AccountId,
) -> (r: Result<DelegateUpdated, PnsError>)
    requires
        !new_delegate.is_zero(),
    ensures
        r is Err ==> *final(domain) == *old(domain),
        r is Err <==> signer != registry.authority,
        r is Err ==> r == Err::<DelegateUpdated, PnsError>(PnsError::Unauthorized),
        r is Ok ==> *final(domain) == (DomainAccount { owner: new_delegate, ..*old(domain) }),
        r matches Ok(ev) ==> ev == (DelegateUpdated {
            name_hash: old(domain).name_hash,
            delegate: new_delegate,
        }),
{
    if signer != registry.authority {
        return Err(PnsError::Unauthorized);
    }
    domain.owner = new_delegate;
    Ok(DelegateUpdated { name_hash: domain.name_hash, delegate: new_delegate })
}

/// Mirror-path wrap-state update: the registry authority rewrites the wrap
/// state and the custody-token reference together. The caller is trusted to
/// keep the two consistent; no independent validation happens here.
pub fn set_wrap_state(
    registry: &Registry,
    domain: &mut DomainAccount,
    signer: AccountId,
    _name_hash: [u8; 32],
    nft_mint: Option<AccountId>,
    wrap_state: WrapState,
) -> (r: Result<WrapStateChanged, PnsError>)
    ensures
        r is Err ==> *final(domain) == *old(domain),
        r is Err <==> signer != registry.authority,
        r is Err ==> r == Err::<WrapStateChanged, PnsError>(PnsError::Unauthorized),
        r is Ok ==> *final(domain) == (DomainAccount { nft_mint, wrap_state, ..*old(domain) }),
        r matches Ok(ev) ==> ev == (WrapStateChanged {
            name_hash: old(domain).name_hash,
            wrap_state,
            nft_mint,
        }),
{
    if signer != registry.authority {
        return Err(PnsError::Unauthorized);
    }
    domain.nft_mint = nft_mint;
    domain.wrap_state = wrap_state;
    Ok(WrapStateChanged { name_hash: domain.name_hash, wrap_state, nft_mint })
}

} // verus!
