//! Key derivation, the zero identity, and the full mirror-then-record flow.

use pns_core::domain::mirror_domain;
use pns_core::domain::DomainAccount;
use pns_core::keys::domain_key;
use pns_core::keys::record_key;
use pns_core::keys::registry_key;
use pns_core::keys::EntryKey;
use pns_core::record::delete_record;
use pns_core::record::upsert_record;
use pns_core::record::RecordAccount;
use pns_core::registry::initialize;
use pns_core::types::bytes32_eq;
use pns_core::types::AccountId;
use pns_core::types::ChainSource;
use pns_core::types::ConflictPolicy;
use pns_core::types::RecordType;
use pns_core::types::WrapState;

fn id(b: u8) -> AccountId {
    AccountId { bytes: [b; 32] }
}

#[test]
fn key_derivation_is_deterministic_and_injective() {
    assert_eq!(registry_key(), registry_key());
    assert_eq!(domain_key(&[5u8; 32]), domain_key(&[5u8; 32]));
    assert_ne!(domain_key(&[5u8; 32]), domain_key(&[6u8; 32]));
    assert_ne!(registry_key(), domain_key(&[5u8; 32]));
    let dk = domain_key(&[5u8; 32]);
    let rk = record_key(&dk, &[7u8; 32]);
    assert_eq!(rk, EntryKey::Record { name_hash: [5u8; 32], key_hash: [7u8; 32] });
    assert_ne!(rk, dk);
    assert_ne!(rk, registry_key());
    assert_ne!(rk, record_key(&dk, &[8u8; 32]));
    assert_ne!(rk, record_key(&domain_key(&[6u8; 32]), &[7u8; 32]));
}

#[test]
fn identity_equality_and_the_zero_default() {
    assert!(AccountId::zeroed().is_default());
    assert!(!id(1).is_default());
    assert_eq!(id(1), id(1));
    assert_ne!(id(1), id(2));
    let mut almost = [0u8; 32];
    almost[31] = 1;
    assert!(!(AccountId { bytes: almost }).is_default());
    assert!(bytes32_eq(&[3u8; 32], &[3u8; 32]));
    assert!(!bytes32_eq(&[3u8; 32], &almost));
}

#[test]
fn mirror_then_record_flow_end_to_end() {
    let authority = id(1);
    let external_ref = [0xabu8; 20];
    let mut registry = initialize(authority, external_ref, ConflictPolicy::PolygonPriority);

    let name_hash = [5u8; 32];
    let external_owner = [0xcdu8; 20];
    let mut dom = DomainAccount::default();
    mirror_domain(
        &mut registry,
        &mut dom,
        authority,
        name_hash,
        external_owner,
        None,
        777_000,
        None,
        [9u8; 32],
    )
    .unwrap();
    assert_eq!(dom.owner, authority);
    assert_eq!(dom.polygon_owner, external_owner);
    assert_eq!(dom.expiration, 777_000);
    assert_eq!(dom.wrap_state, WrapState::Unwrapped);
    assert_eq!(registry.domain_count, 1);

    let field_key = [6u8; 32];
    let mut rec = RecordAccount::default();
    upsert_record(
        &registry,
        &mut dom,
        &mut rec,
        authority,
        name_hash,
        field_key,
        RecordType::Address,
        vec![0x11; 20],
        ChainSource::Polygon,
        1,
        100,
    )
    .unwrap();
    assert_eq!(dom.record_count, 1);
    assert_eq!(rec.data, vec![0x11; 20]);
    assert_eq!(rec.version, 1);

    delete_record(&registry, &mut dom, &mut rec, authority, name_hash, field_key).unwrap();
    assert_eq!(dom.record_count, 0);
    assert_eq!(rec.domain, None);
}
