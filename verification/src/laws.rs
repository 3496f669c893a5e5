//! System-wide laws that relate several operations, proved once and for all
//! over the same spec functions the operations' contracts use. Each law's
//! hypotheses are exactly what the corresponding contracts establish, so the
//! laws compose with any sequence of successful operations.

use vstd::prelude::*;

use crate::domain::duration_valid;
use crate::record::write_allowed;
use crate::types::ChainSource;
use crate::types::ConflictPolicy;

verus! {

/// Law: `register_domain` followed immediately by `renew_domain(d)` yields
/// `expiration_new == expiration_old + d`, saturating at the numeric
/// ceiling, for all valid durations. Registration leaves
/// `expiration_old == now.saturating_add(d_register)`; renewal replaces it
/// with its saturating sum with `d_renew`, so below the ceiling the new
/// expiration is exactly the old one plus `d_renew`.
pub proof fn lemma_register_then_renew(now: u64, d_register: u64, d_renew: u64)
    requires
        duration_valid(d_register),
        duration_valid(d_renew),
    ensures
        ({
            let expiration_old = now.saturating_add(d_register);
            let expiration_new = expiration_old.saturating_add(d_renew);
            &&& expiration_old + d_renew <= u64::MAX ==> expiration_new == expiration_old
                + d_renew
            &&& expiration_old + d_renew > u64::MAX ==> expiration_new == u64::MAX
            &&& expiration_new >= expiration_old
        }),
{
}

/// Law: under PolygonPriority, an accepted local write to a record whose
/// stored version is nonzero never lowers the version. This is the
/// monotonicity the conflict resolver exists to enforce; external-sourced
/// writes and first writes are exempt by design.
pub proof fn lemma_no_version_regression(
    policy: ConflictPolicy,
    stored_version: u64,
    source_chain: ChainSource,
    version: u64,
)
    requires
        policy == ConflictPolicy::PolygonPriority,
        stored_version > 0,
        source_chain == ChainSource::Solana,
        write_allowed(policy, stored_version, source_chain, version),
    ensures
        version >= stored_version,
{
}

/// One successful record operation under a domain, as seen by the domain's
/// record counter: an upsert that created the entry, an upsert that
/// overwrote an existing entry, or a delete.
pub enum RecordStep {
    Created,
    Overwritten,
    Deleted,
}

/// The domain's record counter after a sequence of successful record
/// operations, applying exactly the counter updates that `upsert_record` and
/// `delete_record` perform: a saturating increment on creation, no change on
/// overwrite, a saturating decrement on deletion.
pub open spec fn counter_after(init: u16, steps: Seq<RecordStep>) -> u16
    decreases steps.len(),
{
    if steps.len() == 0 {
        init
    } else {
        let prev = counter_after(init, steps.drop_last());
        match steps.last() {
            RecordStep::Created => prev.saturating_add(1),
            RecordStep::Overwritten => prev,
            RecordStep::Deleted => prev.saturating_sub(1),
        }
    }
}

/// How many steps of a trace created a record entry.
pub open spec fn created_count(steps: Seq<RecordStep>) -> int
    decreases steps.len(),
{
    if steps.len() == 0 {
        0
    } else {
        created_count(steps.drop_last()) + if steps.last() is Created {
            1int
        } else {
            0int
        }
    }
}

/// How many steps of a trace deleted a record entry.
pub open spec fn deleted_count(steps: Seq<RecordStep>) -> int
    decreases steps.len(),
{
    if steps.len() == 0 {
        0
    } else {
        deleted_count(steps.drop_last()) + if steps.last() is Deleted {
            1int
        } else {
            0int
        }
    }
}

/// A trace is admissible when, at every prefix, no more entries have been
/// deleted than created — the host's store only admits a delete of an entry
/// that exists — and the number of live entries fits the 16-bit counter.
pub open spec fn trace_admissible(steps: Seq<RecordStep>) -> bool {
    forall|i: int|
        0 <= i <= steps.len() ==> {
            let prefix = #[trigger] steps.take(i);
            deleted_count(prefix) <= created_count(prefix) && created_count(prefix)
                - deleted_count(prefix) <= u16::MAX
        }
}

/// Law: starting from a fresh domain, after any admissible sequence of
/// successful record operations the domain's record counter equals the
/// number of record entries ever created minus the number ever deleted — and
/// in particular it never goes negative, since no admissible trace deletes
/// an entry that does not exist.
pub proof fn lemma_record_count_coherent(steps: Seq<RecordStep>)
    requires
        trace_admissible(steps),
    ensures
        counter_after(0, steps) == created_count(steps) - deleted_count(steps),
        created_count(steps) - deleted_count(steps) >= 0,
    decreases steps.len(),
{
    if steps.len() == 0 {
    } else {
        let prefix = steps.drop_last();
        assert(prefix =~= steps.take(steps.len() - 1));
        assert forall|i: int| 0 <= i <= prefix.len() implies {
            let p = #[trigger] prefix.take(i);
            deleted_count(p) <= created_count(p) && created_count(p) - deleted_count(p)
                <= u16::MAX
        } by {
            assert(prefix.take(i) =~= steps.take(i));
        }
        lemma_record_count_coherent(prefix);
        assert(steps.take(steps.len() as int) =~= steps);
    }
}

/// Whether one operation's effect on the registry's domain-creation counter
/// is among the effects any operation of this crate can have: unchanged, or
/// the saturating successor (a successful first-time or post-expiry
/// registration, or a first-time mirror — which below the ceiling adds
/// exactly one).
pub open spec fn domain_count_step(prev: u64, next: u64) -> bool {
    next == prev || next == prev.saturating_add(1)
}

/// Law: a domain-creation event — a successful registration, or a mirror of
/// a never-written name — increases the counter by exactly one whenever it
/// starts below the numeric ceiling; at the ceiling it saturates instead of
/// wrapping.
pub proof fn lemma_creation_increments_by_one(prev: u64)
    ensures
        prev < u64::MAX ==> prev.saturating_add(1) == prev + 1,
        prev == u64::MAX ==> prev.saturating_add(1) == u64::MAX,
{
}

/// Law: the domain-creation counter is non-decreasing across any operation
/// sequence. `counts` is the counter observed before and after each
/// operation; every adjacent pair is one operation's effect.
pub proof fn lemma_domain_count_monotonic(counts: Seq<u64>, i: int, j: int)
    requires
        forall|k: int| 0 <= k < counts.len() - 1 ==> domain_count_step(
            #[trigger] counts[k],
            counts[k + 1],
        ),
        0 <= i <= j < counts.len(),
    ensures
        counts[i] <= counts[j],
    decreases j - i,
{
    if i < j {
        lemma_domain_count_monotonic(counts, i, j - 1);
        assert(domain_count_step(counts[j - 1], counts[j]));
    }
}

} // verus!
