use vstd::prelude::*;
use crate::bytes::{be32, be64, lemma_be32_roundtrip, lemma_be64_roundtrip};
use crate::canon::{
    attestation_enc, body_enc, bounded_enc, opt_digest_enc, parents_enc, receipt_enc, window_enc,
    RECEIPT_MAGIC,
};
use crate::decode::{
    HeadView, MidView, TailView, rd_attestation_fields, rd_head, rd_mid, rd_tail, parse_receipt, rd_attestation, rd_bounded, rd_bytes, rd_digests, rd_opt_digest, rd_parents, rd_u32,
    rd_u64, rd_u8, rd_window,
};
use crate::kernel::{profile_canonical, profile_code, profile_from_code};
use crate::lifecycle::{lifecycle_code, lemma_lifecycle_code_roundtrip};
use crate::receipt::{AttestationView, ReceiptView, ValidityWindow};

verus! {

/// A bounded string the decoder accepts: one to `max` bytes.
pub open spec fn bounded_ok(b: Seq<u8>, max: nat) -> bool {
    0 < b.len() <= max
}

/// An attestation whose encoding the decoder reads back unchanged.
pub open spec fn attestation_ok(a: AttestationView) -> bool {
    &&& profile_canonical(a.profile_id)
    &&& bounded_ok(a.issuer_id, 64)
    &&& bounded_ok(a.public_key_id, 64)
    &&& a.signed_message_hash.len() == 32
    &&& a.signature.len() == 64
}

/// A receipt whose encoding the decoder reads back unchanged: every string
/// non-empty and within its bound, every digest 32 bytes, at most five parents,
/// and a canonical attestation profile.
pub open spec fn receipt_view_ok(v: ReceiptView) -> bool {
    &&& bounded_ok(v.schema_id, 64)
    &&& bounded_ok(v.schema_authority, 64)
    &&& bounded_ok(v.domain_tag, 32)
    &&& bounded_ok(v.issuer_id, 64)
    &&& v.schema_hash.len() == 32
    &&& v.subject_hash.len() == 32
    &&& v.claim_hash.len() == 32
    &&& v.evidence_hash.len() == 32
    &&& v.policy_hash.len() == 32
    &&& v.trace_hash.len() == 32
    &&& v.body_hash.len() == 32
    &&& v.parent_hashes.len() <= 5
    &&& (forall|i: int| 0 <= i < v.parent_hashes.len() ==> #[trigger] v.parent_hashes[i].len() == 32)
    &&& (v.attestation matches Some(a) ==> attestation_ok(a))
    &&& (v.sealed_hash matches Some(d) ==> d.len() == 32)
}

proof fn lemma_assoc(a: Seq<u8>, b: Seq<u8>, c: Seq<u8>)
    ensures
        (a + b) + c == a + (b + c),
{
    assert((a + b) + c =~= a + (b + c));
}

proof fn lemma_rd_u8(b: u8, u: Seq<u8>)
    ensures
        rd_u8(seq![b] + u) == Ok::<(u8, Seq<u8>), crate::error::Error>((b, u)),
{
    assert((seq![b] + u).subrange(1, (seq![b] + u).len() as int) =~= u);
}

proof fn lemma_rd_bytes(t: Seq<u8>, u: Seq<u8>)
    ensures
        rd_bytes(t + u, t.len()) == Ok::<(Seq<u8>, Seq<u8>), crate::error::Error>((t, u)),
{
    assert((t + u).subrange(0, t.len() as int) =~= t);
    assert((t + u).subrange(t.len() as int, (t + u).len() as int) =~= u);
}

proof fn lemma_rd_u32(v: u32, u: Seq<u8>)
    ensures
        rd_u32(be32(v) + u) == Ok::<(u32, Seq<u8>), crate::error::Error>((v, u)),
{
    lemma_rd_bytes(be32(v), u);
    lemma_be32_roundtrip(v);
}

proof fn lemma_rd_u64(v: u64, u: Seq<u8>)
    ensures
        rd_u64(be64(v) + u) == Ok::<(u64, Seq<u8>), crate::error::Error>((v, u)),
{
    lemma_rd_bytes(be64(v), u);
    lemma_be64_roundtrip(v);
}

proof fn lemma_rd_bounded(b: Seq<u8>, max: nat, u: Seq<u8>)
    requires
        bounded_ok(b, max),
        max <= 255,
    ensures
        rd_bounded(bounded_enc(b) + u, max) == Ok::<(Seq<u8>, Seq<u8>), crate::error::Error>((b, u)),
{
    assert(bounded_enc(b) + u =~= seq![b.len() as u8] + (b + u));
    lemma_rd_u8(b.len() as u8, b + u);
    lemma_rd_bytes(b, u);
}

proof fn lemma_rd_digests(ps: Seq<Seq<u8>>, u: Seq<u8>)
    requires
        forall|i: int| 0 <= i < ps.len() ==> #[trigger] ps[i].len() == 32,
    ensures
        rd_digests(ps.flatten() + u, ps.len()) == Ok::<(Seq<Seq<u8>>, Seq<u8>), crate::error::Error>((ps, u)),
    decreases ps.len(),
{
    if ps.len() > 0 {
        let prev = ps.drop_last();
        let d = ps.last();
        assert(prev.push(d) =~= ps);
        prev.lemma_flatten_push(d);
        assert(ps.flatten() + u =~= prev.flatten() + (d + u));
        assert forall|i: int| 0 <= i < prev.len() implies #[trigger] prev[i].len() == 32 by {
            assert(prev[i] == ps[i]);
        }
        lemma_rd_digests(prev, d + u);
        lemma_rd_bytes(d, u);
    } else {
        assert(ps.flatten() =~= Seq::<u8>::empty());
        assert(ps.flatten() + u =~= u);
        assert(ps =~= Seq::<Seq<u8>>::empty());
    }
}

proof fn lemma_rd_parents(ps: Seq<Seq<u8>>, u: Seq<u8>)
    requires
        ps.len() <= 5,
        forall|i: int| 0 <= i < ps.len() ==> #[trigger] ps[i].len() == 32,
    ensures
        rd_parents(parents_enc(ps) + u) == Ok::<(Seq<Seq<u8>>, Seq<u8>), crate::error::Error>((ps, u)),
{
    assert(parents_enc(ps) + u =~= seq![ps.len() as u8] + (ps.flatten() + u));
    lemma_rd_u8(ps.len() as u8, ps.flatten() + u);
    lemma_rd_digests(ps, u);
}

proof fn lemma_rd_window(w: Option<ValidityWindow>, u: Seq<u8>)
    ensures
        rd_window(window_enc(w) + u) == Ok::<(Option<ValidityWindow>, Seq<u8>), crate::error::Error>((w, u)),
{
    match w {
        Some(win) => {
            let a = be64(win.not_before_sequence);
            let b = be64(win.not_after_sequence);
            assert(window_enc(w) + u =~= seq![1u8] + (a + (b + u)));
            lemma_rd_u8(1u8, a + (b + u));
            lemma_rd_u64(win.not_before_sequence, b + u);
            lemma_rd_u64(win.not_after_sequence, u);
        },
        None => {
            lemma_rd_u8(0u8, u);
        },
    }
}

proof fn lemma_rd_attestation_fields(att: AttestationView, u: Seq<u8>)
    requires
        attestation_ok(att),
    ensures
        rd_attestation_fields(
            seq![profile_code(att.profile_id)] + (bounded_enc(att.issuer_id) + (bounded_enc(att.public_key_id)
                + (att.signed_message_hash + (be64(att.sequence) + (window_enc(att.validity_window)
                + (att.signature + u)))))),
        ) == Ok::<(AttestationView, Seq<u8>), crate::error::Error>((att, u)),
{
    let r6 = att.signature + u;
    let r5 = window_enc(att.validity_window) + r6;
    let r4 = be64(att.sequence) + r5;
    let r3 = att.signed_message_hash + r4;
    let r2 = bounded_enc(att.public_key_id) + r3;
    let r1 = bounded_enc(att.issuer_id) + r2;
    lemma_rd_u8(profile_code(att.profile_id), r1);
    lemma_rd_bounded(att.issuer_id, 64, r2);
    lemma_rd_bounded(att.public_key_id, 64, r3);
    lemma_rd_bytes(att.signed_message_hash, r4);
    lemma_rd_u64(att.sequence, r5);
    lemma_rd_window(att.validity_window, r6);
    lemma_rd_bytes(att.signature, u);
}

proof fn lemma_attestation_shape(att: AttestationView, u: Seq<u8>)
    ensures
        attestation_enc(Some(att)) + u == seq![1u8] + (seq![profile_code(att.profile_id)] + (
        bounded_enc(att.issuer_id) + (bounded_enc(att.public_key_id) + (att.signed_message_hash + (
        be64(att.sequence) + (window_enc(att.validity_window) + (att.signature + u))))))),
{
    let r6 = att.signature + u;
    let r5 = window_enc(att.validity_window) + r6;
    let r4 = be64(att.sequence) + r5;
    let r3 = att.signed_message_hash + r4;
    let r2 = bounded_enc(att.public_key_id) + r3;
    let r1 = bounded_enc(att.issuer_id) + r2;
    let x0 = seq![1u8, profile_code(att.profile_id)];
    let x1 = x0 + bounded_enc(att.issuer_id);
    let x2 = x1 + bounded_enc(att.public_key_id);
    let x3 = x2 + att.signed_message_hash;
    let x4 = x3 + be64(att.sequence);
    let x5 = x4 + window_enc(att.validity_window);
    assert(attestation_enc(Some(att)) == x5 + att.signature);
    lemma_assoc(x5, att.signature, u);
    lemma_assoc(x4, window_enc(att.validity_window), r6);
    lemma_assoc(x3, be64(att.sequence), r5);
    lemma_assoc(x2, att.signed_message_hash, r4);
    lemma_assoc(x1, bounded_enc(att.public_key_id), r3);
    lemma_assoc(x0, bounded_enc(att.issuer_id), r2);
    assert(x0 =~= seq![1u8] + seq![profile_code(att.profile_id)]);
    lemma_assoc(seq![1u8], seq![profile_code(att.profile_id)], r1);
}

proof fn lemma_rd_attestation(a: Option<AttestationView>, u: Seq<u8>)
    requires
        a matches Some(att) ==> attestation_ok(att),
    ensures
        rd_attestation(attestation_enc(a) + u) == Ok::<(Option<AttestationView>, Seq<u8>), crate::error::Error>((a, u)),
{
    match a {
        Some(att) => {
            let r1 = bounded_enc(att.issuer_id) + (bounded_enc(att.public_key_id) + (att.signed_message_hash + (
                be64(att.sequence) + (window_enc(att.validity_window) + (att.signature + u)))));
            let r0 = seq![profile_code(att.profile_id)] + r1;
            lemma_attestation_shape(att, u);
            lemma_rd_u8(1u8, r0);
            lemma_rd_attestation_fields(att, u);
        },
        None => {
            lemma_rd_u8(0u8, u);
        },
    }
}

proof fn lemma_rd_opt_digest(d: Option<Seq<u8>>, u: Seq<u8>)
    requires
        d matches Some(x) ==> x.len() == 32,
    ensures
        rd_opt_digest(opt_digest_enc(d) + u) == Ok::<(Option<Seq<u8>>, Seq<u8>), crate::error::Error>((d, u)),
{
    match d {
        Some(x) => {
            assert(opt_digest_enc(d) + u =~= seq![1u8] + (x + u));
            lemma_rd_u8(1u8, x + u);
            lemma_rd_bytes(x, u);
        },
        None => {
            lemma_rd_u8(0u8, u);
        },
    }
}

/// The receipt's encoding from the parents on, followed by `rest`.
pub open spec fn tail_form(v: ReceiptView, rest: Seq<u8>) -> Seq<u8> {
    parents_enc(v.parent_hashes) + (seq![lifecycle_code(v.lifecycle_state)] + (v.body_hash + (
    attestation_enc(v.attestation) + (opt_digest_enc(v.sealed_hash) + rest))))
}

/// The receipt's encoding from the issuer on, followed by `rest`.
pub open spec fn mid_form(v: ReceiptView, rest: Seq<u8>) -> Seq<u8> {
    bounded_enc(v.issuer_id) + (be64(v.sequence) + (v.claim_hash + (v.evidence_hash + (v.policy_hash
        + (v.trace_hash + tail_form(v, rest))))))
}

/// The receipt's encoding after the magic, followed by `rest`.
pub open spec fn head_form(v: ReceiptView, rest: Seq<u8>) -> Seq<u8> {
    be32(v.version) + (bounded_enc(v.schema_id) + (v.schema_hash + (bounded_enc(v.schema_authority) + (
    bounded_enc(v.domain_tag) + (v.subject_hash + mid_form(v, rest))))))
}

proof fn lemma_receipt_shape(v: ReceiptView, rest: Seq<u8>)
    ensures
        receipt_enc(v) + rest == RECEIPT_MAGIC@ + head_form(v, rest),
{
    let t5 = rest;
    let t4 = opt_digest_enc(v.sealed_hash) + t5;
    let t3 = attestation_enc(v.attestation) + t4;
    let t2 = v.body_hash + t3;
    let t1 = seq![lifecycle_code(v.lifecycle_state)] + t2;
    let t0 = parents_enc(v.parent_hashes) + t1;
    let m5 = v.trace_hash + t0;
    let m4 = v.policy_hash + m5;
    let m3 = v.evidence_hash + m4;
    let m2 = v.claim_hash + m3;
    let m1 = be64(v.sequence) + m2;
    let m0 = bounded_enc(v.issuer_id) + m1;
    let h5 = v.subject_hash + m0;
    let h4 = bounded_enc(v.domain_tag) + h5;
    let h3 = bounded_enc(v.schema_authority) + h4;
    let h2 = v.schema_hash + h3;
    let h1 = bounded_enc(v.schema_id) + h2;
    let b0 = RECEIPT_MAGIC@;
    let b1 = b0 + be32(v.version);
    let b2 = b1 + bounded_enc(v.schema_id);
    let b3 = b2 + v.schema_hash;
    let b4 = b3 + bounded_enc(v.schema_authority);
    let b5 = b4 + bounded_enc(v.domain_tag);
    let b6 = b5 + v.subject_hash;
    let b7 = b6 + bounded_enc(v.issuer_id);
    let b8 = b7 + be64(v.sequence);
    let b9 = b8 + v.claim_hash;
    let b10 = b9 + v.evidence_hash;
    let b11 = b10 + v.policy_hash;
    let b12 = b11 + v.trace_hash;
    let b13 = b12 + parents_enc(v.parent_hashes);
    let b14 = b13 + seq![lifecycle_code(v.lifecycle_state)];
    assert(body_enc(v) == b14);
    let e1 = b14 + v.body_hash;
    let e2 = e1 + attestation_enc(v.attestation);
    assert(receipt_enc(v) == e2 + opt_digest_enc(v.sealed_hash));
    lemma_assoc(e2, opt_digest_enc(v.sealed_hash), t5);
    lemma_assoc(e1, attestation_enc(v.attestation), t4);
    lemma_assoc(b14, v.body_hash, t3);
    lemma_assoc(b13, seq![lifecycle_code(v.lifecycle_state)], t2);
    lemma_assoc(b12, parents_enc(v.parent_hashes), t1);
    lemma_assoc(b11, v.trace_hash, t0);
    lemma_assoc(b10, v.policy_hash, m5);
    lemma_assoc(b9, v.evidence_hash, m4);
    lemma_assoc(b8, v.claim_hash, m3);
    lemma_assoc(b7, be64(v.sequence), m2);
    lemma_assoc(b6, bounded_enc(v.issuer_id), m1);
    lemma_assoc(b5, v.subject_hash, m0);
    lemma_assoc(b4, bounded_enc(v.domain_tag), h5);
    lemma_assoc(b3, bounded_enc(v.schema_authority), h4);
    lemma_assoc(b2, v.schema_hash, h3);
    lemma_assoc(b1, bounded_enc(v.schema_id), h2);
    lemma_assoc(b0, be32(v.version), h1);
}

proof fn lemma_rd_head(v: ReceiptView, rest: Seq<u8>)
    requires
        receipt_view_ok(v),
    ensures
        rd_head(head_form(v, rest)) == Ok::<(HeadView, Seq<u8>), crate::error::Error>((
            HeadView {
                version: v.version,
                schema_id: v.schema_id,
                schema_hash: v.schema_hash,
                schema_authority: v.schema_authority,
                domain_tag: v.domain_tag,
                subject_hash: v.subject_hash,
            },
            mid_form(v, rest),
        )),
{
    let m0 = mid_form(v, rest);
    let h5 = v.subject_hash + m0;
    let h4 = bounded_enc(v.domain_tag) + h5;
    let h3 = bounded_enc(v.schema_authority) + h4;
    let h2 = v.schema_hash + h3;
    let h1 = bounded_enc(v.schema_id) + h2;
    lemma_rd_u32(v.version, h1);
    lemma_rd_bounded(v.schema_id, 64, h2);
    lemma_rd_bytes(v.schema_hash, h3);
    lemma_rd_bounded(v.schema_authority, 64, h4);
    lemma_rd_bounded(v.domain_tag, 32, h5);
    lemma_rd_bytes(v.subject_hash, m0);
}

proof fn lemma_rd_mid(v: ReceiptView, rest: Seq<u8>)
    requires
        receipt_view_ok(v),
    ensures
        rd_mid(mid_form(v, rest)) == Ok::<(MidView, Seq<u8>), crate::error::Error>((
            MidView {
                issuer_id: v.issuer_id,
                sequence: v.sequence,
                claim_hash: v.claim_hash,
                evidence_hash: v.evidence_hash,
                policy_hash: v.policy_hash,
                trace_hash: v.trace_hash,
            },
            tail_form(v, rest),
        )),
{
    let t0 = tail_form(v, rest);
    let m5 = v.trace_hash + t0;
    let m4 = v.policy_hash + m5;
    let m3 = v.evidence_hash + m4;
    let m2 = v.claim_hash + m3;
    let m1 = be64(v.sequence) + m2;
    lemma_rd_bounded(v.issuer_id, 64, m1);
    lemma_rd_u64(v.sequence, m2);
    lemma_rd_bytes(v.claim_hash, m3);
    lemma_rd_bytes(v.evidence_hash, m4);
    lemma_rd_bytes(v.policy_hash, m5);
    lemma_rd_bytes(v.trace_hash, t0);
}

proof fn lemma_rd_tail_parts(
    ps: Seq<Seq<u8>>,
    state: crate::lifecycle::LifecycleState,
    body: Seq<u8>,
    att: Option<AttestationView>,
    sealed: Option<Seq<u8>>,
    rest: Seq<u8>,
)
    requires
        ps.len() <= 5,
        forall|i: int| 0 <= i < ps.len() ==> #[trigger] ps[i].len() == 32,
        body.len() == 32,
        att matches Some(a) ==> attestation_ok(a),
        sealed matches Some(d) ==> d.len() == 32,
    ensures
        rd_tail(parents_enc(ps) + (seq![lifecycle_code(state)] + (body + (attestation_enc(att) + (
        opt_digest_enc(sealed) + rest))))) == Ok::<(TailView, Seq<u8>), crate::error::Error>((
            TailView { parent_hashes: ps, lifecycle_state: state, body_hash: body, attestation: att, sealed_hash: sealed },
            rest,
        )),
{
    let t4 = opt_digest_enc(sealed) + rest;
    let t3 = attestation_enc(att) + t4;
    let t2 = body + t3;
    let t1 = seq![lifecycle_code(state)] + t2;
    lemma_rd_parents(ps, t1);
    lemma_rd_u8(lifecycle_code(state), t2);
    lemma_lifecycle_code_roundtrip(state);
    lemma_rd_bytes(body, t3);
    lemma_rd_attestation(att, t4);
    lemma_rd_opt_digest(sealed, rest);
}

proof fn lemma_rd_tail(v: ReceiptView, rest: Seq<u8>)
    requires
        receipt_view_ok(v),
    ensures
        rd_tail(tail_form(v, rest)) == Ok::<(TailView, Seq<u8>), crate::error::Error>((
            TailView {
                parent_hashes: v.parent_hashes,
                lifecycle_state: v.lifecycle_state,
                body_hash: v.body_hash,
                attestation: v.attestation,
                sealed_hash: v.sealed_hash,
            },
            rest,
        )),
{
    lemma_rd_tail_parts(v.parent_hashes, v.lifecycle_state, v.body_hash, v.attestation, v.sealed_hash, rest);
}

/// Decoding the canonical encoding of a well-formed receipt, followed by any
/// bytes at all, gives back that receipt.
pub proof fn lemma_decode_encoded_receipt(v: ReceiptView, rest: Seq<u8>)
    requires
        receipt_view_ok(v),
    ensures
        parse_receipt(receipt_enc(v) + rest) == Ok::<ReceiptView, crate::error::Error>(v),
{
    let s = receipt_enc(v) + rest;
    lemma_receipt_shape(v, rest);
    assert(s.subrange(0, 4) =~= RECEIPT_MAGIC@);
    assert(s.subrange(4, s.len() as int) =~= head_form(v, rest));
    lemma_rd_head(v, rest);
    lemma_rd_mid(v, rest);
    lemma_rd_tail(v, rest);
}

proof fn lemma_rd_u8_inv(s: Seq<u8>)
    requires
        rd_u8(s) is Ok,
    ensures
        s == seq![rd_u8(s)->Ok_0.0] + rd_u8(s)->Ok_0.1,
{
    assert(s =~= seq![s[0]] + s.subrange(1, s.len() as int));
}

proof fn lemma_rd_bytes_inv(s: Seq<u8>, n: nat)
    requires
        rd_bytes(s, n) is Ok,
    ensures
        s == rd_bytes(s, n)->Ok_0.0 + rd_bytes(s, n)->Ok_0.1,
        rd_bytes(s, n)->Ok_0.0.len() == n,
{
    assert(s =~= s.subrange(0, n as int) + s.subrange(n as int, s.len() as int));
}

proof fn lemma_rd_bounded_inv(s: Seq<u8>, max: nat)
    requires
        rd_bounded(s, max) is Ok,
    ensures
        s == bounded_enc(rd_bounded(s, max)->Ok_0.0) + rd_bounded(s, max)->Ok_0.1,
        bounded_ok(rd_bounded(s, max)->Ok_0.0, max),
{
    lemma_rd_u8_inv(s);
    let (len, rest) = rd_u8(s)->Ok_0;
    lemma_rd_bytes_inv(rest, len as nat);
    let (b, rest2) = rd_bytes(rest, len as nat)->Ok_0;
    assert(s =~= bounded_enc(b) + rest2);
}

proof fn lemma_rd_digests_inv(s: Seq<u8>, k: nat)
    requires
        rd_digests(s, k) is Ok,
    ensures
        s == rd_digests(s, k)->Ok_0.0.flatten() + rd_digests(s, k)->Ok_0.1,
        rd_digests(s, k)->Ok_0.0.len() == k,
        forall|i: int| 0 <= i < k ==> #[trigger] rd_digests(s, k)->Ok_0.0[i].len() == 32,
    decreases k,
{
    if k == 0 {
        assert(Seq::<Seq<u8>>::empty().flatten() =~= Seq::<u8>::empty());
        assert(s =~= Seq::<u8>::empty() + s);
    } else {
        lemma_rd_digests_inv(s, (k - 1) as nat);
        let (ds, rest) = rd_digests(s, (k - 1) as nat)->Ok_0;
        lemma_rd_bytes_inv(rest, 32);
        let (d, rest2) = rd_bytes(rest, 32)->Ok_0;
        ds.lemma_flatten_push(d);
        assert(s =~= ds.push(d).flatten() + rest2);
        assert forall|i: int| 0 <= i < k implies #[trigger] ds.push(d)[i].len() == 32 by {
            if i < k - 1 {
                assert(ds.push(d)[i] == ds[i]);
            }
        }
    }
}

proof fn lemma_rd_parents_inv(s: Seq<u8>)
    requires
        rd_parents(s) is Ok,
    ensures
        s == parents_enc(rd_parents(s)->Ok_0.0) + rd_parents(s)->Ok_0.1,
        rd_parents(s)->Ok_0.0.len() <= 5,
        forall|i: int| 0 <= i < rd_parents(s)->Ok_0.0.len() ==> #[trigger] rd_parents(s)->Ok_0.0[i].len() == 32,
{
    lemma_rd_u8_inv(s);
    let (count, rest) = rd_u8(s)->Ok_0;
    lemma_rd_digests_inv(rest, count as nat);
    let (ps, rest2) = rd_digests(rest, count as nat)->Ok_0;
    assert(s =~= parents_enc(ps) + rest2);
}

proof fn lemma_rd_attestation_fields_ok(s: Seq<u8>)
    requires
        rd_attestation_fields(s) is Ok,
    ensures
        attestation_ok(rd_attestation_fields(s)->Ok_0.0),
{
    let (code, r1) = rd_u8(s)->Ok_0;
    lemma_rd_bounded_inv(r1, 64);
    let (issuer, r2) = rd_bounded(r1, 64)->Ok_0;
    lemma_rd_bounded_inv(r2, 64);
    let (key, r3) = rd_bounded(r2, 64)->Ok_0;
    lemma_rd_bytes_inv(r3, 32);
    let (smh, r4) = rd_bytes(r3, 32)->Ok_0;
    let (sequence, r5) = rd_u64(r4)->Ok_0;
    let (window, r6) = rd_window(r5)->Ok_0;
    lemma_rd_bytes_inv(r6, 64);
    assert(profile_code(profile_from_code(code)) == code);
}

proof fn lemma_rd_attestation_ok(s: Seq<u8>)
    requires
        rd_attestation(s) is Ok,
    ensures
        rd_attestation(s)->Ok_0.0 matches Some(a) ==> attestation_ok(a),
{
    let (present, rest) = rd_u8(s)->Ok_0;
    if present != 0 {
        lemma_rd_attestation_fields_ok(rest);
    }
}

proof fn lemma_rd_opt_digest_inv(s: Seq<u8>)
    requires
        rd_opt_digest(s) is Ok,
    ensures
        s == opt_digest_enc(rd_opt_digest(s)->Ok_0.0) + rd_opt_digest(s)->Ok_0.1,
        rd_opt_digest(s)->Ok_0.0 matches Some(d) ==> d.len() == 32,
{
    lemma_rd_u8_inv(s);
    let (tag, rest) = rd_u8(s)->Ok_0;
    if tag == 1 {
        lemma_rd_bytes_inv(rest, 32);
        let (d, rest2) = rd_bytes(rest, 32)->Ok_0;
        assert(s =~= seq![1u8] + d + rest2);
    }
}

proof fn lemma_rd_head_ok(s: Seq<u8>)
    requires
        rd_head(s) is Ok,
    ensures
        bounded_ok(rd_head(s)->Ok_0.0.schema_id, 64),
        bounded_ok(rd_head(s)->Ok_0.0.schema_authority, 64),
        bounded_ok(rd_head(s)->Ok_0.0.domain_tag, 32),
        rd_head(s)->Ok_0.0.schema_hash.len() == 32,
        rd_head(s)->Ok_0.0.subject_hash.len() == 32,
{
    let (version, r1) = rd_u32(s)->Ok_0;
    lemma_rd_bounded_inv(r1, 64);
    let (schema_id, r2) = rd_bounded(r1, 64)->Ok_0;
    lemma_rd_bytes_inv(r2, 32);
    let (schema_hash, r3) = rd_bytes(r2, 32)->Ok_0;
    lemma_rd_bounded_inv(r3, 64);
    let (authority, r4) = rd_bounded(r3, 64)->Ok_0;
    lemma_rd_bounded_inv(r4, 32);
    let (domain, r5) = rd_bounded(r4, 32)->Ok_0;
    lemma_rd_bytes_inv(r5, 32);
}

proof fn lemma_rd_mid_ok(s: Seq<u8>)
    requires
        rd_mid(s) is Ok,
    ensures
        bounded_ok(rd_mid(s)->Ok_0.0.issuer_id, 64),
        rd_mid(s)->Ok_0.0.claim_hash.len() == 32,
        rd_mid(s)->Ok_0.0.evidence_hash.len() == 32,
        rd_mid(s)->Ok_0.0.policy_hash.len() == 32,
        rd_mid(s)->Ok_0.0.trace_hash.len() == 32,
{
    lemma_rd_bounded_inv(s, 64);
    let (issuer, r1) = rd_bounded(s, 64)->Ok_0;
    let (sequence, r2) = rd_u64(r1)->Ok_0;
    lemma_rd_bytes_inv(r2, 32);
    let (claim, r3) = rd_bytes(r2, 32)->Ok_0;
    lemma_rd_bytes_inv(r3, 32);
    let (evidence, r4) = rd_bytes(r3, 32)->Ok_0;
    lemma_rd_bytes_inv(r4, 32);
    let (policy, r5) = rd_bytes(r4, 32)->Ok_0;
    lemma_rd_bytes_inv(r5, 32);
}

proof fn lemma_rd_tail_ok(s: Seq<u8>)
    requires
        rd_tail(s) is Ok,
    ensures
        ({
            let t = rd_tail(s)->Ok_0.0;
            &&& t.parent_hashes.len() <= 5
            &&& (forall|i: int| 0 <= i < t.parent_hashes.len() ==> #[trigger] t.parent_hashes[i].len() == 32)
            &&& t.body_hash.len() == 32
            &&& (t.attestation matches Some(a) ==> attestation_ok(a))
            &&& (t.sealed_hash matches Some(d) ==> d.len() == 32)
        }),
{
    lemma_rd_parents_inv(s);
    let (parents, r1) = rd_parents(s)->Ok_0;
    let (code, r2) = rd_u8(r1)->Ok_0;
    lemma_rd_bytes_inv(r2, 32);
    let (body, r3) = rd_bytes(r2, 32)->Ok_0;
    lemma_rd_attestation_ok(r3);
    let (att, r4) = rd_attestation(r3)->Ok_0;
    lemma_rd_opt_digest_inv(r4);
}

/// Every receipt the decoder accepts is well formed, so encoding it again and
/// decoding the result gives the same receipt back.
pub proof fn lemma_decoded_receipt_reencodes(s: Seq<u8>)
    requires
        parse_receipt(s) is Ok,
    ensures
        receipt_view_ok(parse_receipt(s)->Ok_0),
        parse_receipt(receipt_enc(parse_receipt(s)->Ok_0)) == parse_receipt(s),
{
    let body = s.subrange(4, s.len() as int);
    lemma_rd_head_ok(body);
    let (h, r1) = rd_head(body)->Ok_0;
    lemma_rd_mid_ok(r1);
    let (m, r2) = rd_mid(r1)->Ok_0;
    lemma_rd_tail_ok(r2);
    let v = parse_receipt(s)->Ok_0;
    assert(receipt_view_ok(v));
    lemma_decode_encoded_receipt(v, Seq::empty());
    assert(receipt_enc(v) + Seq::<u8>::empty() =~= receipt_enc(v));
}

} // verus!
