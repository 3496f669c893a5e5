//! Record entries, the conflict resolver, and the record lifecycle. A record
//! is keyed by its owning domain and a field-key hash; it stores a typed
//! payload with provenance and a caller-supplied version. Writes are gated by
//! the shared authorization rule (registry authority or domain delegate) and,
//! for local writes under the PolygonPriority policy, by version
//! monotonicity. Creation and deletion keep the owning domain's record count
//! coherent.

use vstd::prelude::*;

use crate::domain::DomainAccount;
use crate::events::RecordDeleted;
use crate::events::RecordUpdated;
use crate::keys::EntryKey;
use crate::registry::Registry;
use crate::types::zeroed_bytes32;
use crate::types::AccountId;
use crate::types::ChainSource;
use crate::types::ConflictPolicy;
use crate::types::PnsError;
use crate::types::RecordType;
use crate::types::MAX_RECORD_LENGTH;

verus! {

/// Bytes of durable storage a record entry occupies besides its payload: the
/// store's 8-byte entry tag, the two 32-byte keys, the two 1-byte enums, the
/// two 8-byte counters, the 4-byte payload length prefix, and 1 reserved byte.
pub const RECORD_BASE_SIZE: usize = 8 + 32 + 32 + 1 + 1 + 8 + 8 + 4 + 1;

/// One entry per (domain, field-key) pair. Created on first upsert — the
/// back-reference `domain` doubles as the existence marker — and destroyed by
/// an explicit delete, which resets the entry to its never-written value.
#[derive(Clone, Debug)]
pub struct RecordAccount {
    /// Key of the owning domain entry; `None` means the record entry was
    /// never written (or was deleted). A lookup relation, not an ownership
    /// edge: deleting the domain's records is always explicit, per record.
    pub domain: Option<EntryKey>,
    /// 32-byte identity of the record's logical field.
    pub key_hash: [u8; 32],
    /// Typed shape of the payload.
    pub record_type: RecordType,
    /// Which chain produced the value currently stored.
    pub source_chain: ChainSource,
    /// Caller-supplied counter used for conflict resolution.
    pub version: u64,
    /// Store sequence number of the last write: a freshness marker, not
    /// causally linked to `version`.
    pub last_updated_slot: u64,
    /// Payload, at most MAX_RECORD_LENGTH bytes.
    pub data: Vec<u8>,
}

impl RecordAccount {
    /// Whether the entry currently exists: every write installs the owning
    /// domain's key, so a missing back-reference marks a never-written (or
    /// deleted) entry.
    pub open spec fn created(self) -> bool {
        self.domain is Some
    }

    /// Whether this is the value of a freshly allocated or deleted entry.
    pub open spec fn is_vacant(self) -> bool {
        self.domain is None && self.key_hash == zeroed_bytes32() && self.record_type
            == RecordType::Address && self.source_chain == ChainSource::Polygon && self.version
            == 0 && self.last_updated_slot == 0 && self.data@ == Seq::<u8>::empty()
    }

    /// Durable storage a record entry with a `data_len`-byte payload
    /// occupies. Payloads are capped, so the sum stays in bounds.
    pub fn space(data_len: usize) -> (r: usize)
        requires
            data_len <= MAX_RECORD_LENGTH,
        ensures
            r == RECORD_BASE_SIZE + data_len,
    {
        RECORD_BASE_SIZE + data_len
    }
}

impl Default for RecordAccount {
    /// The zero-initialized entry the host hands in when no record has ever
    /// been written at the derived key.
    fn default() -> (r: RecordAccount)
        ensures
            r.is_vacant(),
            !r.created(),
    {
        let r = RecordAccount {
            domain: None,
            key_hash: [0u8; 32],
            record_type: RecordType::Address,
            source_chain: ChainSource::Polygon,
            version: 0,
            last_updated_slot: 0,
            data: Vec::new(),
        };
        proof {
            assert(r.data@ =~= Seq::<u8>::empty());
        }
        r
    }
}

/// The shared authorization rule for record writes: the registry authority
/// may always write, and so may the domain's current delegate.
pub open spec fn record_write_authorized(
    registry: Registry,
    domain: DomainAccount,
    signer: AccountId,
) -> bool {
    signer == registry.authority || signer == domain.owner
}

/// The conflict-resolution rule. A write is refused only when the registry
/// treats the external chain as authoritative (PolygonPriority), the record
/// has already been written with a nonzero version, and a local write asserts
/// a version older than the stored one. External-sourced writes, first
/// writes, and every write under LatestWriteWins overwrite unconditionally.
pub open spec fn write_allowed(
    policy: ConflictPolicy,
    stored_version: u64,
    source_chain: ChainSource,
    version: u64,
) -> bool {
    if policy == ConflictPolicy::PolygonPriority && stored_version > 0
        && source_chain == ChainSource::Solana {
        version >= stored_version
    } else {
        true
    }
}

/// Executable form of the conflict resolver.
pub fn check_write_allowed(
    policy: ConflictPolicy,
    stored_version: u64,
    source_chain: ChainSource,
    version: u64,
) -> (r: bool)
    ensures
        r == write_allowed(policy, stored_version, source_chain, version),
{
    if policy == ConflictPolicy::PolygonPriority && stored_version > 0
        && source_chain == ChainSource::Solana {
        version >= stored_version
    } else {
        true
    }
}

/// Creates or overwrites the record for (domain, field key). On success every
/// record field is replaced by the submitted value, the freshness marker is
/// set to the store's current sequence number, and — when the entry did not
/// exist before — the owning domain's record count increments.
pub fn upsert_record(
    registry: &Registry,
    domain: &mut DomainAccount,
    record: &mut RecordAccount,
    signer: AccountId,
    name_hash: [u8; 32],
    key_hash: [u8; 32],
    record_type: RecordType,
    data: Vec<u8>,
    source_chain: ChainSource,
    version: u64,
    now_slot: u64,
) -> (r: Result<RecordUpdated, PnsError>)
    ensures
        r is Err ==> *final(domain) == *old(domain) && *final(record) == *old(record),
        (r == Err::<RecordUpdated, PnsError>(PnsError::Unauthorized)) <==> !record_write_authorized(
            *registry,
            *old(domain),
            signer,
        ),
        (r == Err::<RecordUpdated, PnsError>(PnsError::RecordTooLarge)) <==> (
        record_write_authorized(*registry, *old(domain), signer) && data.len()
            > MAX_RECORD_LENGTH),
        (r == Err::<RecordUpdated, PnsError>(PnsError::ConflictViolation)) <==> (
        record_write_authorized(*registry, *old(domain), signer) && data.len()
            <= MAX_RECORD_LENGTH && !write_allowed(
            registry.conflict_policy,
            old(record).version,
            source_chain,
            version,
        )),
        r is Ok <==> (record_write_authorized(*registry, *old(domain), signer) && data.len()
            <= MAX_RECORD_LENGTH && write_allowed(
            registry.conflict_policy,
            old(record).version,
            source_chain,
            version,
        )),
        r is Ok ==> *final(record) == (RecordAccount {
            domain: Some(EntryKey::Domain { name_hash }),
            key_hash,
            record_type,
            source_chain,
            version,
            last_updated_slot: now_slot,
            data,
        }),
        r is Ok ==> *final(domain) == (DomainAccount {
            record_count: if old(record).created() {
                old(domain).record_count
            } else {
                old(domain).record_count.saturating_add(1)
            },
            ..*old(domain)
        }),
        r matches Ok(ev) ==> ev == (RecordUpdated {
            name_hash,
            key_hash,
            record_type,
            source_chain,
            version,
        }),
{
    if !(signer == registry.authority || signer == domain.owner) {
        return Err(PnsError::Unauthorized);
    }
    if data.len() > MAX_RECORD_LENGTH {
        return Err(PnsError::RecordTooLarge);
    }
    if !check_write_allowed(registry.conflict_policy, record.version, source_chain, version) {
        return Err(PnsError::ConflictViolation);
    }

    let was_empty = record.domain.is_none();

    record.domain = Some(crate::keys::domain_key(&name_hash));
    record.key_hash = key_hash;
    record.record_type = record_type;
    record.source_chain = source_chain;
    record.version = version;
    record.last_updated_slot = now_slot;
    record.data = data;

    if was_empty {
        domain.record_count = domain.record_count.saturating_add(1);
    }

    Ok(RecordUpdated { name_hash, key_hash, record_type, source_chain, version })
}

/// Destroys the record entry — resetting it to the never-written value whose
/// storage the host then frees — and decrements the owning domain's record
/// count. The decrement saturates at zero: a redundant delete admitted by the
/// host cannot be detected at this layer and still subtracts one.
pub fn delete_record(
    registry: &Registry,
    domain: &mut DomainAccount,
    record: &mut RecordAccount,
    signer: AccountId,
    name_hash: [u8; 32],
    key_hash: [u8; 32],
) -> (r: Result<RecordDeleted, PnsError>)
    ensures
        r is Err ==> *final(domain) == *old(domain) && *final(record) == *old(record),
        r is Err <==> !record_write_authorized(*registry, *old(domain), signer),
        r is Err ==> r == Err::<RecordDeleted, PnsError>(PnsError::Unauthorized),
        r is Ok ==> final(record).is_vacant(),
        r is Ok ==> !final(record).created(),
        r is Ok ==> *final(domain) == (DomainAccount {
            record_count: old(domain).record_count.saturating_sub(1),
            ..*old(domain)
        }),
        r matches Ok(ev) ==> ev == (RecordDeleted { name_hash, key_hash }),
{
    if !(signer == registry.authority || signer == domain.owner) {
        return Err(PnsError::Unauthorized);
    }

    domain.record_count = domain.record_count.saturating_sub(1);
    *record = RecordAccount::default();

    Ok(RecordDeleted { name_hash, key_hash })
}

} // verus!
