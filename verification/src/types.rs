//! Core value types shared by every operation: caller identities, the closed
//! enumerations for record provenance and conflict policy, the wrap-state tag,
//! and the error taxonomy. Identities are 32-byte values; the all-zero
//! identity is the "default" used by the was-empty existence checks.

use vstd::prelude::*;

verus! {

/// Upper bound on a registration or renewal duration, in seconds.
pub const TEN_YEARS_IN_SECONDS: u64 = 10 * 365 * 24 * 60 * 60;

/// Hard cap on a record payload, in bytes.
pub const MAX_RECORD_LENGTH: usize = 512;

/// Schema tag written into the registry entry at initialization.
pub const REGISTRY_VERSION: u8 = 2;

/// A 32-byte identity: a signer, delegate, resolver or custody-token
/// reference. The all-zero value is the default that freshly allocated
/// entries carry, and is never a real signer.
#[derive(Clone, Copy, Debug)]
pub struct AccountId {
    pub bytes: [u8; 32],
}

impl AccountId {
    /// True when every byte is zero: the default identity of an entry that
    /// has never been written.
    pub open spec fn is_zero(self) -> bool {
        forall|i: int| 0 <= i < 32 ==> self.bytes@[i] == 0
    }

    /// The all-zero identity.
    pub fn zeroed() -> (r: AccountId)
        ensures
            r.is_zero(),
    {
        AccountId { bytes: [0u8; 32] }
    }

    /// Whether this identity is the all-zero default.
    pub fn is_default(&self) -> (r: bool)
        ensures
            r == self.is_zero(),
    {
        let mut i: usize = 0;
        while i < 32
            invariant
                i <= 32,
                forall|j: int| 0 <= j < i ==> self.bytes@[j] == 0,
            decreases 32 - i,
        {
            if self.bytes[i] != 0 {
                return false;
            }
            i += 1;
        }
        true
    }
}

/// Byte-for-byte equality of two 32-byte values.
pub fn bytes32_eq(a: &[u8; 32], b: &[u8; 32]) -> (r: bool)
    ensures
        r == (a@ == b@),
        r == (*a == *b),
{
    let mut i: usize = 0;
    while i < 32
        invariant
            i <= 32,
            forall|j: int| 0 <= j < i ==> a@[j] == b@[j],
        decreases 32 - i,
    {
        if a[i] != b[i] {
            assert(a@ != b@);
            assert(*a != *b);
            return false;
        }
        i += 1;
    }
    assert(a@ =~= b@);
    assert(*a =~= *b);
    true
}

impl PartialEq for AccountId {
    fn eq(&self, other: &AccountId) -> (r: bool) {
        bytes32_eq(&self.bytes, &other.bytes)
    }
}

impl Eq for AccountId {}

impl vstd::std_specs::cmp::PartialEqSpecImpl for AccountId {
    open spec fn obeys_eq_spec() -> bool {
        true
    }

    open spec fn eq_spec(&self, other: &AccountId) -> bool {
        *self == *other
    }
}

/// The typed shape of a record payload.
#[derive(Clone, Copy, PartialEq, Eq, Structural, Debug)]
pub enum RecordType {
    Address,
    Text,
    ContentHash,
    Custom,
}

/// Which chain produced the value currently stored in a record: the mirrored
/// external source, or a direct local write.
#[derive(Clone, Copy, PartialEq, Eq, Structural, Debug)]
pub enum ChainSource {
    Polygon,
    Solana,
}

/// Where a domain's custody token currently exists, if anywhere.
#[derive(Clone, Copy, PartialEq, Eq, Structural, Debug)]
pub enum WrapState {
    Unwrapped,
    Polygon,
    Solana,
}

/// Global conflict-resolution rule, fixed at initialization: either the
/// external chain has priority over stale local writes, or the latest write
/// always wins.
#[derive(Clone, Copy, PartialEq, Eq, Structural, Debug)]
pub enum ConflictPolicy {
    PolygonPriority,
    LatestWriteWins,
}

/// Every way an operation can fail. Each failure aborts the operation before
/// any entry is mutated.
#[derive(Clone, Copy, PartialEq, Eq, Structural, Debug)]
pub enum PnsError {
    /// Caller identity does not match the required authority or delegate.
    Unauthorized,
    /// Operation requires an unexpired domain but current time >= expiration.
    DomainExpired,
    /// Registration attempted against a live, unexpired domain.
    DomainNotAvailable,
    /// Duration outside (0, TEN_YEARS_IN_SECONDS].
    InvalidDuration,
    /// Malformed name input; validated by caller-side hashing, never raised
    /// by the operations in this crate.
    InvalidName,
    /// Record payload exceeds MAX_RECORD_LENGTH bytes.
    RecordTooLarge,
    /// Version regression rejected under the active conflict policy.
    ConflictViolation,
}

} // verus!

verus! {

/// The all-zero 32-byte value: what a freshly allocated entry's 32-byte
/// fields hold before the first write.
pub open spec fn zeroed_bytes32() -> [u8; 32] {
    vstd::array::spec_array_fill_for_copy_type::<u8, 32>(0u8)
}

/// The all-zero 20-byte value: the default external-owner reference.
pub open spec fn zeroed_bytes20() -> [u8; 20] {
    vstd::array::spec_array_fill_for_copy_type::<u8, 20>(0u8)
}

/// Every byte of the zeroed values is zero.
pub proof fn lemma_zeroed_bytes()
    ensures
        forall|i: int| 0 <= i < 32 ==> zeroed_bytes32()@[i] == 0u8,
        forall|i: int| 0 <= i < 20 ==> zeroed_bytes20()@[i] == 0u8,
        (AccountId { bytes: zeroed_bytes32() }).is_zero(),
{
    broadcast use vstd::array::axiom_spec_array_fill_for_copy_type;

}

} // verus!
