//! Deterministic addressing of entries in the durable store. Every logical
//! entry — the registry singleton, one domain per name hash, one record per
//! (domain, field-key) pair — has exactly one key, built from its kind and
//! its identifying seeds. Derivation is pure: identical inputs always yield
//! identical keys, and distinct logical entries always yield distinct keys
//! (`lemma_keys_injective`), so no two entries ever alias one address.

use vstd::prelude::*;

verus! {

/// The derived address of one entry in the store. The host maps each key to
/// one durable storage slot; injectivity of the variants guarantees that
/// logically distinct entries never share a slot.
#[derive(Clone, Copy, PartialEq, Eq, Hash, Debug)]
pub enum EntryKey {
    /// The registry singleton, derived from a fixed seed.
    Registry,
    /// A domain entry, seeded by the 32-byte hash of its name.
    Domain { name_hash: [u8; 32] },
    /// A record entry, seeded by its owning domain's key and the 32-byte
    /// hash of its field key.
    Record { name_hash: [u8; 32], key_hash: [u8; 32] },
}

/// Key of the registry singleton.
pub fn registry_key() -> (r: EntryKey)
    ensures
        r == EntryKey::Registry,
{
    EntryKey::Registry
}

/// Key of the domain entry for a name hash.
pub fn domain_key(name_hash: &[u8; 32]) -> (r: EntryKey)
    ensures
        r == (EntryKey::Domain { name_hash: *name_hash }),
{
    EntryKey::Domain { name_hash: *name_hash }
}

/// Key of the record entry for a field key under a domain, seeded by the
/// domain's own key and the field-key hash.
pub fn record_key(domain: &EntryKey, key_hash: &[u8; 32]) -> (r: EntryKey)
    requires
        domain is Domain,
    ensures
        r == (EntryKey::Record { name_hash: domain->Domain_name_hash, key_hash: *key_hash }),
{
    match domain {
        EntryKey::Domain { name_hash } => EntryKey::Record {
            name_hash: *name_hash,
            key_hash: *key_hash,
        },
        _ => EntryKey::Registry,
    }
}

/// Law: key derivation is injective. Entries of different kinds never share
/// a key, two domains share a key exactly when their name hashes agree, and
/// two records share a key exactly when both their domain and field-key
/// seeds agree.
pub proof fn lemma_keys_injective(nh1: [u8; 32], nh2: [u8; 32], kh1: [u8; 32], kh2: [u8; 32])
    ensures
        EntryKey::Registry != (EntryKey::Domain { name_hash: nh1 }),
        EntryKey::Registry != (EntryKey::Record { name_hash: nh1, key_hash: kh1 }),
        (EntryKey::Domain { name_hash: nh1 }) != (EntryKey::Record {
            name_hash: nh2,
            key_hash: kh2,
        }),
        ((EntryKey::Domain { name_hash: nh1 }) == (EntryKey::Domain { name_hash: nh2 })) == (nh1
            == nh2),
        ((EntryKey::Record { name_hash: nh1, key_hash: kh1 }) == (EntryKey::Record {
            name_hash: nh2,
            key_hash: kh2,
        })) == (nh1 == nh2 && kh1 == kh2),
{
}

} // verus!
