//! Record lifecycle: upsert round trips, conflict resolution under both
//! policies, payload size limits, authorization, deletion and the record
//! counter.

use pns_core::domain::register_domain;
use pns_core::domain::DomainAccount;
use pns_core::events::RecordDeleted;
use pns_core::events::RecordUpdated;
use pns_core::keys::EntryKey;
use pns_core::record::delete_record;
use pns_core::record::upsert_record;
use pns_core::record::RecordAccount;
use pns_core::registry::initialize;
use pns_core::registry::Registry;
use pns_core::types::AccountId;
use pns_core::types::ChainSource;
use pns_core::types::ConflictPolicy;
use pns_core::types::PnsError;
use pns_core::types::RecordType;
use pns_core::types::MAX_RECORD_LENGTH;

fn id(b: u8) -> AccountId {
    AccountId { bytes: [b; 32] }
}

/// A registry with authority id(1) and a domain [5; 32] owned by id(2).
fn setup(policy: ConflictPolicy) -> (Registry, DomainAccount) {
    let mut registry = initialize(id(1), [0u8; 20], policy);
    let mut dom = DomainAccount::default();
    register_domain(&mut registry, &mut dom, id(2), [5u8; 32], 1000, None, 50).unwrap();
    (registry, dom)
}

#[test]
fn upsert_then_read_returns_exactly_what_was_submitted() {
    let (registry, mut dom) = setup(ConflictPolicy::PolygonPriority);
    let mut rec = RecordAccount::default();
    let ev = upsert_record(
        &registry,
        &mut dom,
        &mut rec,
        id(2),
        [5u8; 32],
        [6u8; 32],
        RecordType::Text,
        vec![10, 20, 30],
        ChainSource::Solana,
        7,
        4242,
    )
    .unwrap();
    assert_eq!(rec.domain, Some(EntryKey::Domain { name_hash: [5u8; 32] }));
    assert_eq!(rec.key_hash, [6u8; 32]);
    assert_eq!(rec.record_type, RecordType::Text);
    assert_eq!(rec.source_chain, ChainSource::Solana);
    assert_eq!(rec.version, 7);
    assert_eq!(rec.last_updated_slot, 4242);
    assert_eq!(rec.data, vec![10, 20, 30]);
    assert_eq!(dom.record_count, 1);
    assert_eq!(
        ev,
        RecordUpdated {
            name_hash: [5u8; 32],
            key_hash: [6u8; 32],
            record_type: RecordType::Text,
            source_chain: ChainSource::Solana,
            version: 7,
        }
    );
}

#[test]
fn delete_then_read_finds_no_record() {
    let (registry, mut dom) = setup(ConflictPolicy::PolygonPriority);
    let mut rec = RecordAccount::default();
    upsert_record(
        &registry,
        &mut dom,
        &mut rec,
        id(2),
        [5u8; 32],
        [6u8; 32],
        RecordType::Address,
        vec![1; 20],
        ChainSource::Polygon,
        1,
        10,
    )
    .unwrap();
    assert_eq!(dom.record_count, 1);
    let ev = delete_record(&registry, &mut dom, &mut rec, id(2), [5u8; 32], [6u8; 32]).unwrap();
    assert_eq!(rec.domain, None);
    assert_eq!(rec.version, 0);
    assert_eq!(rec.data.len(), 0);
    assert_eq!(dom.record_count, 0);
    assert_eq!(ev, RecordDeleted { name_hash: [5u8; 32], key_hash: [6u8; 32] });
}

#[test]
fn polygon_priority_rejects_stale_local_writes_only() {
    let (registry, mut dom) = setup(ConflictPolicy::PolygonPriority);
    let mut rec = RecordAccount::default();
    // record at version 5, sourced Local
    upsert_record(
        &registry,
        &mut dom,
        &mut rec,
        id(2),
        [5u8; 32],
        [6u8; 32],
        RecordType::Text,
        vec![1],
        ChainSource::Solana,
        5,
        10,
    )
    .unwrap();
    // a local write at version 4 regresses: rejected
    let r = upsert_record(
        &registry,
        &mut dom,
        &mut rec,
        id(2),
        [5u8; 32],
        [6u8; 32],
        RecordType::Text,
        vec![2],
        ChainSource::Solana,
        4,
        11,
    );
    assert_eq!(r, Err(PnsError::ConflictViolation));
    assert_eq!(rec.version, 5);
    assert_eq!(rec.data, vec![1]);
    // version 5 (equal) succeeds
    upsert_record(
        &registry,
        &mut dom,
        &mut rec,
        id(2),
        [5u8; 32],
        [6u8; 32],
        RecordType::Text,
        vec![3],
        ChainSource::Solana,
        5,
        12,
    )
    .unwrap();
    assert_eq!(rec.data, vec![3]);
    // version 6 succeeds
    upsert_record(
        &registry,
        &mut dom,
        &mut rec,
        id(2),
        [5u8; 32],
        [6u8; 32],
        RecordType::Text,
        vec![4],
        ChainSource::Solana,
        6,
        13,
    )
    .unwrap();
    assert_eq!(rec.version, 6);
    // the same regressing write sourced External always succeeds
    upsert_record(
        &registry,
        &mut dom,
        &mut rec,
        id(2),
        [5u8; 32],
        [6u8; 32],
        RecordType::Text,
        vec![5],
        ChainSource::Polygon,
        4,
        14,
    )
    .unwrap();
    assert_eq!(rec.version, 4);
    assert_eq!(rec.source_chain, ChainSource::Polygon);
    // an overwrite is not a creation: the counter still reads one entry
    assert_eq!(dom.record_count, 1);
}

#[test]
fn latest_write_wins_allows_version_regression() {
    let (registry, mut dom) = setup(ConflictPolicy::LatestWriteWins);
    let mut rec = RecordAccount::default();
    upsert_record(
        &registry,
        &mut dom,
        &mut rec,
        id(2),
        [5u8; 32],
        [6u8; 32],
        RecordType::Text,
        vec![1],
        ChainSource::Solana,
        5,
        10,
    )
    .unwrap();
    let r = upsert_record(
        &registry,
        &mut dom,
        &mut rec,
        id(2),
        [5u8; 32],
        [6u8; 32],
        RecordType::Text,
        vec![2],
        ChainSource::Solana,
        4,
        11,
    );
    assert!(r.is_ok());
    assert_eq!(rec.version, 4);
}

#[test]
fn first_write_of_a_record_is_never_version_checked() {
    let (registry, mut dom) = setup(ConflictPolicy::PolygonPriority);
    let mut rec = RecordAccount::default();
    // the stored version is zero, so even a local version-0 write succeeds
    let r = upsert_record(
        &registry,
        &mut dom,
        &mut rec,
        id(2),
        [5u8; 32],
        [6u8; 32],
        RecordType::Custom,
        vec![],
        ChainSource::Solana,
        0,
        10,
    );
    assert!(r.is_ok());
    assert_eq!(dom.record_count, 1);
}

#[test]
fn oversized_payload_is_rejected_and_the_cap_is_accepted() {
    let (registry, mut dom) = setup(ConflictPolicy::PolygonPriority);
    let mut rec = RecordAccount::default();
    let r = upsert_record(
        &registry,
        &mut dom,
        &mut rec,
        id(2),
        [5u8; 32],
        [6u8; 32],
        RecordType::ContentHash,
        vec![0; MAX_RECORD_LENGTH + 1],
        ChainSource::Solana,
        1,
        10,
    );
    assert_eq!(r, Err(PnsError::RecordTooLarge));
    assert_eq!(dom.record_count, 0);
    let r = upsert_record(
        &registry,
        &mut dom,
        &mut rec,
        id(2),
        [5u8; 32],
        [6u8; 32],
        RecordType::ContentHash,
        vec![0; MAX_RECORD_LENGTH],
        ChainSource::Solana,
        1,
        10,
    );
    assert!(r.is_ok());
    assert_eq!(rec.data.len(), MAX_RECORD_LENGTH);
}

#[test]
fn upsert_is_allowed_for_authority_and_delegate_only() {
    let (registry, mut dom) = setup(ConflictPolicy::PolygonPriority);
    let mut rec = RecordAccount::default();
    let r = upsert_record(
        &registry,
        &mut dom,
        &mut rec,
        id(8),
        [5u8; 32],
        [6u8; 32],
        RecordType::Text,
        vec![1],
        ChainSource::Solana,
        1,
        10,
    );
    assert_eq!(r, Err(PnsError::Unauthorized));
    assert_eq!(dom.record_count, 0);
    // the registry authority may write without being the delegate
    let r = upsert_record(
        &registry,
        &mut dom,
        &mut rec,
        id(1),
        [5u8; 32],
        [6u8; 32],
        RecordType::Text,
        vec![1],
        ChainSource::Polygon,
        1,
        10,
    );
    assert!(r.is_ok());
}

#[test]
fn delete_by_stranger_is_unauthorized() {
    let (registry, mut dom) = setup(ConflictPolicy::PolygonPriority);
    let mut rec = RecordAccount::default();
    upsert_record(
        &registry,
        &mut dom,
        &mut rec,
        id(2),
        [5u8; 32],
        [6u8; 32],
        RecordType::Text,
        vec![1],
        ChainSource::Solana,
        1,
        10,
    )
    .unwrap();
    let r = delete_record(&registry, &mut dom, &mut rec, id(8), [5u8; 32], [6u8; 32]);
    assert_eq!(r, Err(PnsError::Unauthorized));
    assert_eq!(dom.record_count, 1);
    assert_eq!(rec.version, 1);
}

#[test]
fn record_count_tracks_creations_and_deletions() {
    let (registry, mut dom) = setup(ConflictPolicy::PolygonPriority);
    let mut rec_a = RecordAccount::default();
    let mut rec_b = RecordAccount::default();
    upsert_record(
        &registry,
        &mut dom,
        &mut rec_a,
        id(2),
        [5u8; 32],
        [6u8; 32],
        RecordType::Text,
        vec![1],
        ChainSource::Solana,
        1,
        10,
    )
    .unwrap();
    upsert_record(
        &registry,
        &mut dom,
        &mut rec_b,
        id(2),
        [5u8; 32],
        [7u8; 32],
        RecordType::Address,
        vec![2],
        ChainSource::Solana,
        1,
        11,
    )
    .unwrap();
    assert_eq!(dom.record_count, 2);
    // overwriting an existing record does not change the count
    upsert_record(
        &registry,
        &mut dom,
        &mut rec_a,
        id(2),
        [5u8; 32],
        [6u8; 32],
        RecordType::Text,
        vec![9],
        ChainSource::Solana,
        2,
        12,
    )
    .unwrap();
    assert_eq!(dom.record_count, 2);
    delete_record(&registry, &mut dom, &mut rec_a, id(2), [5u8; 32], [6u8; 32]).unwrap();
    assert_eq!(dom.record_count, 1);
    // a deleted record can be created again, counting as a new entry
    upsert_record(
        &registry,
        &mut dom,
        &mut rec_a,
        id(2),
        [5u8; 32],
        [6u8; 32],
        RecordType::Text,
        vec![1],
        ChainSource::Solana,
        1,
        13,
    )
    .unwrap();
    assert_eq!(dom.record_count, 2);
    delete_record(&registry, &mut dom, &mut rec_a, id(2), [5u8; 32], [6u8; 32]).unwrap();
    delete_record(&registry, &mut dom, &mut rec_b, id(2), [5u8; 32], [7u8; 32]).unwrap();
    assert_eq!(dom.record_count, 0);
}

#[test]
fn record_count_decrement_saturates_at_zero() {
    let (registry, mut dom) = setup(ConflictPolicy::PolygonPriority);
    let mut rec = RecordAccount::default();
    assert_eq!(dom.record_count, 0);
    // the host should not admit this, but the decrement still saturates
    let r = delete_record(&registry, &mut dom, &mut rec, id(2), [5u8; 32], [6u8; 32]);
    assert!(r.is_ok());
    assert_eq!(dom.record_count, 0);
}

#[test]
fn record_count_increment_saturates_at_the_ceiling() {
    let (registry, mut dom) = setup(ConflictPolicy::PolygonPriority);
    dom.record_count = u16::MAX;
    let mut rec = RecordAccount::default();
    upsert_record(
        &registry,
        &mut dom,
        &mut rec,
        id(2),
        [5u8; 32],
        [6u8; 32],
        RecordType::Text,
        vec![1],
        ChainSource::Solana,
        1,
        10,
    )
    .unwrap();
    assert_eq!(dom.record_count, u16::MAX);
}

#[test]
fn record_space_adds_the_payload_to_the_base_size() {
    assert_eq!(RecordAccount::space(0), 95);
    assert_eq!(RecordAccount::space(MAX_RECORD_LENGTH), 95 + MAX_RECORD_LENGTH);
}
