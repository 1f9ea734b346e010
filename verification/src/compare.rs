use vstd::prelude::*;
use crate::bundle::{digests_view, Bundle, BundleDiff};
use crate::error::Result;
use crate::kernel::Digest;
use crate::receipt::ReceiptEnvelope;

verus! {

/// The part of a receipt in which two receipts differ.
#[derive(Clone, Copy, Debug, PartialEq, Eq, Structural)]
pub enum DiffKind {
    Unchanged,
    SchemaChanged,
    ClaimChanged,
    EvidenceChanged,
    PolicyChanged,
    TraceChanged,
    ParentChanged,
    LifecycleChanged,
    Multiple,
}

/// How two receipts differ.
#[derive(Clone, Copy, Debug, PartialEq, Eq, Structural)]
pub struct ReceiptDiff {
    pub comparable: bool,
    pub same_hash: bool,
    pub schema_changed: bool,
    pub claim_changed: bool,
    pub evidence_changed: bool,
    pub policy_changed: bool,
    pub trace_changed: bool,
    pub parent_changed: bool,
    pub lifecycle_changed: bool,
    pub kind: DiffKind,
}

/// A comparison of two receipts.
pub type CompareReport = ReceiptDiff;

/// One for a set flag, zero otherwise.
pub open spec fn flag(b: bool) -> int {
    if b { 1 } else { 0 }
}

/// The kind of a difference: unchanged when no part changed, the part when
/// exactly one did, and multiple otherwise.
pub open spec fn diff_kind_spec(schema: bool, claim: bool, evidence: bool, policy: bool, trace: bool, parent: bool, lifecycle: bool) -> DiffKind {
    let n = flag(schema) + flag(claim) + flag(evidence) + flag(policy) + flag(trace) + flag(parent) + flag(lifecycle);
    if n == 0 {
        DiffKind::Unchanged
    } else if n > 1 {
        DiffKind::Multiple
    } else if schema {
        DiffKind::SchemaChanged
    } else if claim {
        DiffKind::ClaimChanged
    } else if evidence {
        DiffKind::EvidenceChanged
    } else if policy {
        DiffKind::PolicyChanged
    } else if trace {
        DiffKind::TraceChanged
    } else if parent {
        DiffKind::ParentChanged
    } else {
        DiffKind::LifecycleChanged
    }
}

fn count_flag(b: bool) -> (r: u8)
    ensures
        r == flag(b),
{
    if b { 1 } else { 0 }
}

/// Compares two receipts part by part.
pub fn compare_receipts(left: &ReceiptEnvelope, right: &ReceiptEnvelope) -> (r: Result<ReceiptDiff>)
    ensures
        r matches Ok(d) && {
            let (l, rv) = (left@, right@);
            &&& d.schema_changed == (l.schema_hash != rv.schema_hash || l.schema_id != rv.schema_id
                || l.schema_authority != rv.schema_authority)
            &&& d.claim_changed == (l.claim_hash != rv.claim_hash)
            &&& d.evidence_changed == (l.evidence_hash != rv.evidence_hash)
            &&& d.policy_changed == (l.policy_hash != rv.policy_hash)
            &&& d.trace_changed == (l.trace_hash != rv.trace_hash)
            &&& d.parent_changed == (l.parent_hashes != rv.parent_hashes)
            &&& d.lifecycle_changed == (l.lifecycle_state != rv.lifecycle_state)
            &&& d.comparable == (l.subject_hash == rv.subject_hash)
            &&& d.same_hash == (l.body_hash == rv.body_hash)
            &&& d.kind == diff_kind_spec(d.schema_changed, d.claim_changed, d.evidence_changed,
                d.policy_changed, d.trace_changed, d.parent_changed, d.lifecycle_changed)
        },
{
    let schema_changed = left.schema_hash != right.schema_hash || !left.schema_id.same_as(&right.schema_id)
        || !left.schema_authority.same_as(&right.schema_authority);
    let claim_changed = left.claim_hash != right.claim_hash;
    let evidence_changed = left.evidence_hash != right.evidence_hash;
    let policy_changed = left.policy_hash != right.policy_hash;
    let trace_changed = left.trace_hash != right.trace_hash;
    let parent_changed = !left.parent_hashes.same_as(&right.parent_hashes);
    let lifecycle_changed = left.lifecycle_state != right.lifecycle_state;
    let changed_count: u8 = count_flag(schema_changed) + count_flag(claim_changed) + count_flag(evidence_changed)
        + count_flag(policy_changed) + count_flag(trace_changed) + count_flag(parent_changed)
        + count_flag(lifecycle_changed);
    let kind = if changed_count == 0 {
        DiffKind::Unchanged
    } else if changed_count > 1 {
        DiffKind::Multiple
    } else if schema_changed {
        DiffKind::SchemaChanged
    } else if claim_changed {
        DiffKind::ClaimChanged
    } else if evidence_changed {
        DiffKind::EvidenceChanged
    } else if policy_changed {
        DiffKind::PolicyChanged
    } else if trace_changed {
        DiffKind::TraceChanged
    } else if parent_changed {
        DiffKind::ParentChanged
    } else {
        DiffKind::LifecycleChanged
    };
    Ok(ReceiptDiff {
        comparable: left.subject_hash == right.subject_hash,
        same_hash: left.body_hash == right.body_hash,
        schema_changed,
        claim_changed,
        evidence_changed,
        policy_changed,
        trace_changed,
        parent_changed,
        lifecycle_changed,
        kind,
    })
}

/// How many entries of `a` do not occur in `b`.
pub open spec fn count_missing(a: Seq<Seq<u8>>, b: Seq<Seq<u8>>) -> nat
    decreases a.len(),
{
    if a.len() == 0 {
        0
    } else {
        count_missing(a.drop_last(), b) + if b.contains(a.last()) { 0nat } else { 1nat }
    }
}

fn contains_digest(list: &[Digest], d: &Digest) -> (r: bool)
    ensures
        r == digests_view(list@).contains(d@),
{
    let mut i: usize = 0;
    while i < list.len()
        invariant
            i <= list@.len(),
            forall|j: int| 0 <= j < i ==> list@[j]@ != d@,
        decreases list@.len() - i,
    {
        if list[i] == *d {
            assert(digests_view(list@)[i as int] == d@);
            return true;
        }
        i = i + 1;
    }
    assert forall|j: int| 0 <= j < digests_view(list@).len() implies digests_view(list@)[j] != d@ by {
        assert(digests_view(list@)[j] == list@[j]@);
    }
    false
}

fn count_missing_exec(a: &[Digest], b: &[Digest]) -> (r: u8)
    requires
        a@.len() <= 100,
    ensures
        r == count_missing(digests_view(a@), digests_view(b@)),
{
    let mut n: u8 = 0;
    let mut i: usize = 0;
    while i < a.len()
        invariant
            i <= a@.len(),
            a@.len() <= 100,
            n <= i,
            n == count_missing(digests_view(a@.subrange(0, i as int)), digests_view(b@)),
        decreases a@.len() - i,
    {
        let missing = !contains_digest(b, &a[i]);
        proof {
            let prev = a@.subrange(0, i as int);
            let next = a@.subrange(0, i + 1);
            assert(digests_view(next).drop_last() =~= digests_view(prev));
            assert(digests_view(next).last() == a@[i as int]@);
        }
        if missing {
            n = n + 1;
        }
        i = i + 1;
    }
    assert(a@.subrange(0, a@.len() as int) =~= a@);
    n
}

/// Compares the receipt hashes of two bundles: how many the right one adds, how
/// many it drops, and whether it holds the same hashes in another order.
pub fn compare_bundles(left: &Bundle, right: &Bundle) -> (r: Result<BundleDiff>)
    ensures
        r matches Ok(d) && {
            let (l, rv) = (left.receipt_hashes@, right.receipt_hashes@);
            &&& d.added_count == count_missing(rv, l)
            &&& d.removed_count == count_missing(l, rv)
            &&& d.reordered == (l != rv && l.len() == rv.len() && d.added_count == 0 && d.removed_count == 0)
        },
{
    let l = left.receipts();
    let rv = right.receipts();
    let added = count_missing_exec(rv, l);
    let removed = count_missing_exec(l, rv);
    let same = crate::compare::same_digests(l, rv);
    Ok(BundleDiff { added_count: added, removed_count: removed, reordered: !same && l.len() == rv.len() && added == 0 && removed == 0 })
}

fn same_digests(a: &[Digest], b: &[Digest]) -> (r: bool)
    ensures
        r == (digests_view(a@) == digests_view(b@)),
{
    if a.len() != b.len() {
        assert(digests_view(a@).len() != digests_view(b@).len());
        return false;
    }
    let mut i: usize = 0;
    while i < a.len()
        invariant
            i <= a@.len(),
            a@.len() == b@.len(),
            forall|j: int| 0 <= j < i ==> a@[j]@ == b@[j]@,
        decreases a@.len() - i,
    {
        if a[i] != b[i] {
            assert(digests_view(a@)[i as int] != digests_view(b@)[i as int]);
            return false;
        }
        i = i + 1;
    }
    assert(digests_view(a@) =~= digests_view(b@));
    true
}

/// The kind of a receipt comparison names the changed part exactly when one
/// part changed, is `Unchanged` exactly when none did, and is `Multiple`
/// exactly when two or more did.
pub proof fn law_diff_kind(schema: bool, claim: bool, evidence: bool, policy: bool, trace: bool, parent: bool, lifecycle: bool)
    ensures
        ({
            let k = diff_kind_spec(schema, claim, evidence, policy, trace, parent, lifecycle);
            &&& (k == DiffKind::Unchanged) <==> (!schema && !claim && !evidence && !policy && !trace && !parent && !lifecycle)
            &&& (k == DiffKind::SchemaChanged) <==> (schema && !claim && !evidence && !policy && !trace && !parent && !lifecycle)
            &&& (k == DiffKind::ClaimChanged) <==> (!schema && claim && !evidence && !policy && !trace && !parent && !lifecycle)
            &&& (k == DiffKind::EvidenceChanged) <==> (!schema && !claim && evidence && !policy && !trace && !parent && !lifecycle)
            &&& (k == DiffKind::PolicyChanged) <==> (!schema && !claim && !evidence && policy && !trace && !parent && !lifecycle)
            &&& (k == DiffKind::TraceChanged) <==> (!schema && !claim && !evidence && !policy && trace && !parent && !lifecycle)
            &&& (k == DiffKind::ParentChanged) <==> (!schema && !claim && !evidence && !policy && !trace && parent && !lifecycle)
            &&& (k == DiffKind::LifecycleChanged) <==> (!schema && !claim && !evidence && !policy && !trace && !parent && lifecycle)
            &&& (k == DiffKind::Multiple) <==> (flag(schema) + flag(claim) + flag(evidence) + flag(policy) + flag(trace)
                + flag(parent) + flag(lifecycle) >= 2)
        }),
{
}

} // verus!
