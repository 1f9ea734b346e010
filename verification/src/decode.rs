use vstd::prelude::*;
use crate::bounded::BoundedString;
use crate::bytes::{be32, be64, from_be32, from_be64};
use crate::canon::{
    attestation_enc, body_enc, bounded_enc, opt_digest_enc, parents_enc, receipt_enc, window_enc,
    RECEIPT_MAGIC,
};
use crate::error::{Error, Result};
use crate::kernel::{profile_canonical, profile_code, profile_from_code, Digest, Ed25519Signature, ParentHashes, SignatureProfileId};
use crate::lifecycle::{lifecycle_code, lifecycle_from_code, LifecycleState};
use crate::receipt::{AttestationEnvelope, AttestationView, ReceiptEnvelope, ReceiptView, ValidityWindow};

verus! {

/// Takes one byte off the front of `s`.
pub open spec fn rd_u8(s: Seq<u8>) -> Result<(u8, Seq<u8>)> {
    if s.len() >= 1 {
        Ok((s[0], s.subrange(1, s.len() as int)))
    } else {
        Err(Error::TruncatedInput)
    }
}

/// Takes `n` bytes off the front of `s`.
pub open spec fn rd_bytes(s: Seq<u8>, n: nat) -> Result<(Seq<u8>, Seq<u8>)> {
    if s.len() >= n {
        Ok((s.subrange(0, n as int), s.subrange(n as int, s.len() as int)))
    } else {
        Err(Error::TruncatedInput)
    }
}

/// Takes a big-endian 32-bit value off the front of `s`.
pub open spec fn rd_u32(s: Seq<u8>) -> Result<(u32, Seq<u8>)> {
    match rd_bytes(s, 4) {
        Ok((b, rest)) => Ok((from_be32(b[0], b[1], b[2], b[3]), rest)),
        Err(e) => Err(e),
    }
}

/// Takes a big-endian 64-bit value off the front of `s`.
pub open spec fn rd_u64(s: Seq<u8>) -> Result<(u64, Seq<u8>)> {
    match rd_bytes(s, 8) {
        Ok((b, rest)) => Ok((from_be64(b[0], b[1], b[2], b[3], b[4], b[5], b[6], b[7]), rest)),
        Err(e) => Err(e),
    }
}

/// Takes a length-prefixed string of 1 to `max` bytes off the front of `s`.
pub open spec fn rd_bounded(s: Seq<u8>, max: nat) -> Result<(Seq<u8>, Seq<u8>)> {
    match rd_u8(s) {
        Ok((len, rest)) => match rd_bytes(rest, len as nat) {
            Ok((b, rest2)) => if b.len() == 0 {
                Err(Error::EmptyValue)
            } else if b.len() > max {
                Err(Error::ValueTooLong)
            } else {
                Ok((b, rest2))
            },
            Err(e) => Err(e),
        },
        Err(e) => Err(e),
    }
}

/// Takes `k` digests off the front of `s`.
pub open spec fn rd_digests(s: Seq<u8>, k: nat) -> Result<(Seq<Seq<u8>>, Seq<u8>)>
    decreases k,
{
    if k == 0 {
        Ok((Seq::empty(), s))
    } else {
        match rd_digests(s, (k - 1) as nat) {
            Ok((ds, rest)) => match rd_bytes(rest, 32) {
                Ok((d, rest2)) => Ok((ds.push(d), rest2)),
                Err(e) => Err(e),
            },
            Err(e) => Err(e),
        }
    }
}

/// Takes the parent list off the front of `s`.
pub open spec fn rd_parents(s: Seq<u8>) -> Result<(Seq<Seq<u8>>, Seq<u8>)> {
    match rd_u8(s) {
        Ok((count, rest)) => if count > 5 {
            Err(Error::TooManyParents)
        } else {
            rd_digests(rest, count as nat)
        },
        Err(e) => Err(e),
    }
}

/// Takes an optional validity window off the front of `s`.
pub open spec fn rd_window(s: Seq<u8>) -> Result<(Option<ValidityWindow>, Seq<u8>)> {
    match rd_u8(s) {
        Ok((tag, rest)) => if tag == 0 {
            Ok((None, rest))
        } else if tag == 1 {
            match rd_u64(rest) {
                Ok((nb, rest2)) => match rd_u64(rest2) {
                    Ok((na, rest3)) => Ok((Some(ValidityWindow { not_before_sequence: nb, not_after_sequence: na }), rest3)),
                    Err(e) => Err(e),
                },
                Err(e) => Err(e),
            }
        } else {
            Err(Error::InvalidEncoding)
        },
        Err(e) => Err(e),
    }
}

/// Takes the signature fields of an attestation off the front of `s`.
pub open spec fn rd_attestation_fields(s: Seq<u8>) -> Result<(AttestationView, Seq<u8>)> {
    match rd_u8(s) {
        Err(e) => Err(e),
        Ok((code, r1)) => match rd_bounded(r1, 64) {
            Err(e) => Err(e),
            Ok((issuer, r2)) => match rd_bounded(r2, 64) {
                Err(e) => Err(e),
                Ok((key, r3)) => match rd_bytes(r3, 32) {
                    Err(e) => Err(e),
                    Ok((smh, r4)) => match rd_u64(r4) {
                        Err(e) => Err(e),
                        Ok((sequence, r5)) => match rd_window(r5) {
                            Err(e) => Err(e),
                            Ok((window, r6)) => match rd_bytes(r6, 64) {
                                Err(e) => Err(e),
                                Ok((sig, r7)) => Ok((
                                    AttestationView {
                                        profile_id: profile_from_code(code),
                                        issuer_id: issuer,
                                        public_key_id: key,
                                        signature: sig,
                                        signed_message_hash: smh,
                                        sequence,
                                        validity_window: window,
                                    },
                                    r7,
                                )),
                            },
                        },
                    },
                },
            },
        },
    }
}

/// Takes an optional attestation off the front of `s`; any non-zero marker means
/// one follows.
pub open spec fn rd_attestation(s: Seq<u8>) -> Result<(Option<AttestationView>, Seq<u8>)> {
    match rd_u8(s) {
        Ok((present, rest)) => if present == 0 {
            Ok((None, rest))
        } else {
            match rd_attestation_fields(rest) {
                Ok((a, rest2)) => Ok((Some(a), rest2)),
                Err(e) => Err(e),
            }
        },
        Err(e) => Err(e),
    }
}

/// Takes an optional digest off the front of `s`.
pub open spec fn rd_opt_digest(s: Seq<u8>) -> Result<(Option<Seq<u8>>, Seq<u8>)> {
    match rd_u8(s) {
        Ok((tag, rest)) => if tag == 0 {
            Ok((None, rest))
        } else if tag == 1 {
            match rd_bytes(rest, 32) {
                Ok((d, rest2)) => Ok((Some(d), rest2)),
                Err(e) => Err(e),
            }
        } else {
            Err(Error::InvalidEncoding)
        },
        Err(e) => Err(e),
    }
}

/// The receipt fields that precede the issuer.
pub struct HeadView {
    pub version: u32,
    pub schema_id: Seq<u8>,
    pub schema_hash: Seq<u8>,
    pub schema_authority: Seq<u8>,
    pub domain_tag: Seq<u8>,
    pub subject_hash: Seq<u8>,
}

/// Reads the version, schema, authority, domain tag and subject.
pub open spec fn rd_head(s: Seq<u8>) -> Result<(HeadView, Seq<u8>)> {
    match rd_u32(s) {
        Err(e) => Err(e),
        Ok((version, r1)) => match rd_bounded(r1, 64) {
            Err(e) => Err(e),
            Ok((schema_id, r2)) => match rd_bytes(r2, 32) {
                Err(e) => Err(e),
                Ok((schema_hash, r3)) => match rd_bounded(r3, 64) {
                    Err(e) => Err(e),
                    Ok((authority, r4)) => match rd_bounded(r4, 32) {
                        Err(e) => Err(e),
                        Ok((domain, r5)) => match rd_bytes(r5, 32) {
                            Err(e) => Err(e),
                            Ok((subject, r6)) => Ok((
                                HeadView {
                                    version,
                                    schema_id,
                                    schema_hash,
                                    schema_authority: authority,
                                    domain_tag: domain,
                                    subject_hash: subject,
                                },
                                r6,
                            )),
                        },
                    },
                },
            },
        },
    }
}

/// The receipt fields from the issuer to the trace hash.
pub struct MidView {
    pub issuer_id: Seq<u8>,
    pub sequence: u64,
    pub claim_hash: Seq<u8>,
    pub evidence_hash: Seq<u8>,
    pub policy_hash: Seq<u8>,
    pub trace_hash: Seq<u8>,
}

/// Reads the issuer, sequence and the four commitment hashes.
pub open spec fn rd_mid(s: Seq<u8>) -> Result<(MidView, Seq<u8>)> {
    match rd_bounded(s, 64) {
        Err(e) => Err(e),
        Ok((issuer, r1)) => match rd_u64(r1) {
            Err(e) => Err(e),
            Ok((sequence, r2)) => match rd_bytes(r2, 32) {
                Err(e) => Err(e),
                Ok((claim, r3)) => match rd_bytes(r3, 32) {
                    Err(e) => Err(e),
                    Ok((evidence, r4)) => match rd_bytes(r4, 32) {
                        Err(e) => Err(e),
                        Ok((policy, r5)) => match rd_bytes(r5, 32) {
                            Err(e) => Err(e),
                            Ok((trace, r6)) => Ok((
                                MidView {
                                    issuer_id: issuer,
                                    sequence,
                                    claim_hash: claim,
                                    evidence_hash: evidence,
                                    policy_hash: policy,
                                    trace_hash: trace,
                                },
                                r6,
                            )),
                        },
                    },
                },
            },
        },
    }
}

/// The receipt fields from the parents to the end.
pub struct TailView {
    pub parent_hashes: Seq<Seq<u8>>,
    pub lifecycle_state: LifecycleState,
    pub body_hash: Seq<u8>,
    pub attestation: Option<AttestationView>,
    pub sealed_hash: Option<Seq<u8>>,
}

/// Reads the parents, lifecycle state, body hash, attestation and sealed hash.
pub open spec fn rd_tail(s: Seq<u8>) -> Result<(TailView, Seq<u8>)> {
    match rd_parents(s) {
        Err(e) => Err(e),
        Ok((parents, r1)) => match rd_u8(r1) {
            Err(e) => Err(e),
            Ok((code, r2)) => match lifecycle_from_code(code) {
                None => Err(Error::InvalidLifecycleState),
                Some(state) => match rd_bytes(r2, 32) {
                    Err(e) => Err(e),
                    Ok((body_hash, r3)) => match rd_attestation(r3) {
                        Err(e) => Err(e),
                        Ok((attestation, r4)) => match rd_opt_digest(r4) {
                            Err(e) => Err(e),
                            Ok((sealed, r5)) => Ok((
                                TailView {
                                    parent_hashes: parents,
                                    lifecycle_state: state,
                                    body_hash,
                                    attestation,
                                    sealed_hash: sealed,
                                },
                                r5,
                            )),
                        },
                    },
                },
            },
        },
    }
}

/// The receipt made of three decoded parts.
pub open spec fn assemble(h: HeadView, m: MidView, t: TailView) -> ReceiptView {
    ReceiptView {
        version: h.version,
        schema_id: h.schema_id,
        schema_hash: h.schema_hash,
        schema_authority: h.schema_authority,
        domain_tag: h.domain_tag,
        subject_hash: h.subject_hash,
        issuer_id: m.issuer_id,
        sequence: m.sequence,
        claim_hash: m.claim_hash,
        evidence_hash: m.evidence_hash,
        policy_hash: m.policy_hash,
        trace_hash: m.trace_hash,
        parent_hashes: t.parent_hashes,
        lifecycle_state: t.lifecycle_state,
        body_hash: t.body_hash,
        sealed_hash: t.sealed_hash,
        attestation: t.attestation,
    }
}

/// Whether `s` opens with the receipt magic.
pub open spec fn has_magic(s: Seq<u8>) -> bool {
    s.len() >= 4 && s.subrange(0, 4) == RECEIPT_MAGIC@
}

/// The receipt that the canonical encoding at the front of `s` describes, or the
/// first fault found in it; bytes after the receipt are ignored.
pub open spec fn parse_receipt(s: Seq<u8>) -> Result<ReceiptView> {
    if !has_magic(s) {
        Err(Error::InvalidEncoding)
    } else {
        match rd_head(s.subrange(4, s.len() as int)) {
            Err(e) => Err(e),
            Ok((h, r1)) => match rd_mid(r1) {
                Err(e) => Err(e),
                Ok((m, r2)) => match rd_tail(r2) {
                    Err(e) => Err(e),
                    Ok((t, _rest)) => Ok(assemble(h, m, t)),
                },
            },
        }
    }
}

/// The bytes of `s` from `p` on.
pub open spec fn suffix(s: Seq<u8>, p: int) -> Seq<u8> {
    s.subrange(p, s.len() as int)
}

fn read_u8(bytes: &[u8], cursor: &mut usize) -> (r: Result<u8>)
    requires
        *old(cursor) <= bytes@.len(),
    ensures
        *final(cursor) <= bytes@.len(),
        match rd_u8(suffix(bytes@, *old(cursor) as int)) {
            Ok((v, rest)) => r == Ok::<u8, Error>(v) && rest == suffix(bytes@, *final(cursor) as int),
            Err(e) => r == Err::<u8, Error>(e),
        },
{
    if *cursor >= bytes.len() {
        return Err(Error::TruncatedInput);
    }
    let value = bytes[*cursor];
    *cursor = *cursor + 1;
    assert(suffix(bytes@, *old(cursor) as int).subrange(1, suffix(bytes@, *old(cursor) as int).len() as int)
        =~= suffix(bytes@, *final(cursor) as int));
    Ok(value)
}

fn read_slice<'a>(bytes: &'a [u8], cursor: &mut usize, n: usize) -> (r: Result<&'a [u8]>)
    requires
        *old(cursor) <= bytes@.len(),
    ensures
        *final(cursor) <= bytes@.len(),
        match rd_bytes(suffix(bytes@, *old(cursor) as int), n as nat) {
            Ok((v, rest)) => (r matches Ok(b) && b@ == v) && rest == suffix(bytes@, *final(cursor) as int),
            Err(e) => r == Err::<&[u8], Error>(e),
        },
{
    if bytes.len() - *cursor < n {
        return Err(Error::TruncatedInput);
    }
    let start = *cursor;
    let slice = &bytes[start..start + n];
    *cursor = start + n;
    assert(suffix(bytes@, start as int).subrange(0, n as int) =~= slice@);
    assert(suffix(bytes@, start as int).subrange(n as int, suffix(bytes@, start as int).len() as int)
        =~= suffix(bytes@, *final(cursor) as int));
    Ok(slice)
}

fn read_u32(bytes: &[u8], cursor: &mut usize) -> (r: Result<u32>)
    requires
        *old(cursor) <= bytes@.len(),
    ensures
        *final(cursor) <= bytes@.len(),
        match rd_u32(suffix(bytes@, *old(cursor) as int)) {
            Ok((v, rest)) => r == Ok::<u32, Error>(v) && rest == suffix(bytes@, *final(cursor) as int),
            Err(e) => r == Err::<u32, Error>(e),
        },
{
    let b = read_slice(bytes, cursor, 4)?;
    Ok(((b[0] as u32) << 24u32) | ((b[1] as u32) << 16u32) | ((b[2] as u32) << 8u32) | (b[3] as u32))
}

fn read_u64(bytes: &[u8], cursor: &mut usize) -> (r: Result<u64>)
    requires
        *old(cursor) <= bytes@.len(),
    ensures
        *final(cursor) <= bytes@.len(),
        match rd_u64(suffix(bytes@, *old(cursor) as int)) {
            Ok((v, rest)) => r == Ok::<u64, Error>(v) && rest == suffix(bytes@, *final(cursor) as int),
            Err(e) => r == Err::<u64, Error>(e),
        },
{
    let b = read_slice(bytes, cursor, 8)?;
    Ok(((b[0] as u64) << 56u64) | ((b[1] as u64) << 48u64) | ((b[2] as u64) << 40u64) | ((b[3] as u64)
        << 32u64) | ((b[4] as u64) << 24u64) | ((b[5] as u64) << 16u64) | ((b[6] as u64) << 8u64) | (
    b[7] as u64))
}

fn read_digest(bytes: &[u8], cursor: &mut usize) -> (r: Result<Digest>)
    requires
        *old(cursor) <= bytes@.len(),
    ensures
        *final(cursor) <= bytes@.len(),
        match rd_bytes(suffix(bytes@, *old(cursor) as int), 32) {
            Ok((v, rest)) => (r matches Ok(d) && d@ == v) && rest == suffix(bytes@, *final(cursor) as int),
            Err(e) => r == Err::<Digest, Error>(e),
        },
{
    let b = read_slice(bytes, cursor, 32)?;
    let mut raw = [0u8; 32];
    let mut i: usize = 0;
    while i < 32
        invariant
            i <= 32,
            b@.len() == 32,
            raw@.len() == 32,
            forall|j: int| 0 <= j < i ==> raw@[j] == b@[j],
        decreases 32 - i,
    {
        raw[i] = b[i];
        i = i + 1;
    }
    assert(raw@ =~= b@);
    Ok(Digest(raw))
}

fn read_bounded<const N: usize>(bytes: &[u8], cursor: &mut usize) -> (r: Result<BoundedString<N>>)
    requires
        *old(cursor) <= bytes@.len(),
        N <= 255,
    ensures
        *final(cursor) <= bytes@.len(),
        match rd_bounded(suffix(bytes@, *old(cursor) as int), N as nat) {
            Ok((v, rest)) => (r matches Ok(b) && b@ == v) && rest == suffix(bytes@, *final(cursor) as int),
            Err(e) => r == Err::<BoundedString<N>, Error>(e),
        },
{
    let len = read_u8(bytes, cursor)?;
    let slice = read_slice(bytes, cursor, len as usize)?;
    BoundedString::<N>::from_bytes(slice)
}

fn read_parents(bytes: &[u8], cursor: &mut usize) -> (r: Result<ParentHashes>)
    requires
        *old(cursor) <= bytes@.len(),
    ensures
        *final(cursor) <= bytes@.len(),
        match rd_parents(suffix(bytes@, *old(cursor) as int)) {
            Ok((v, rest)) => (r matches Ok(p) && p@ == v) && rest == suffix(bytes@, *final(cursor) as int),
            Err(e) => r == Err::<ParentHashes, Error>(e),
        },
{
    let ghost orig = *cursor;
    let count = read_u8(bytes, cursor)?;
    if count > 5 {
        return Err(Error::TooManyParents);
    }
    let ghost start = *cursor;
    let mut parents = ParentHashes::new();
    let mut index: u8 = 0;
    while index < count
        invariant
            index <= count <= 5,
            start <= bytes@.len(),
            *cursor <= bytes@.len(),
            orig == *old(cursor),
            rd_u8(suffix(bytes@, orig as int)) == Ok::<(u8, Seq<u8>), Error>((count, suffix(bytes@, start as int))),
            parents@.len() == index,
            rd_digests(suffix(bytes@, start as int), index as nat) == Ok::<(Seq<Seq<u8>>, Seq<u8>), Error>(
                (parents@, suffix(bytes@, *cursor as int)),
            ),
        decreases count - index,
    {
        let ghost before = *cursor;
        let d = match read_digest(bytes, cursor) {
            Ok(d) => d,
            Err(e) => {
                assert(rd_digests(suffix(bytes@, start as int), (index + 1) as nat) == Err::<(Seq<Seq<u8>>, Seq<u8>), Error>(e));
                proof { lemma_digests_err_propagates(suffix(bytes@, start as int), (index + 1) as nat, count as nat); }
                return Err(e);
            },
        };
        let _ = parents.push(d);
        index = index + 1;
    }
    Ok(parents)
}

proof fn lemma_digests_err_propagates(s: Seq<u8>, k: nat, n: nat)
    requires
        k <= n,
        rd_digests(s, k) is Err,
    ensures
        rd_digests(s, n) == rd_digests(s, k),
    decreases n - k,
{
    if k < n {
        lemma_digests_err_propagates(s, k, (n - 1) as nat);
    }
}

fn read_window(bytes: &[u8], cursor: &mut usize) -> (r: Result<Option<ValidityWindow>>)
    requires
        *old(cursor) <= bytes@.len(),
    ensures
        *final(cursor) <= bytes@.len(),
        match rd_window(suffix(bytes@, *old(cursor) as int)) {
            Ok((v, rest)) => r == Ok::<Option<ValidityWindow>, Error>(v) && rest == suffix(bytes@, *final(cursor) as int),
            Err(e) => r == Err::<Option<ValidityWindow>, Error>(e),
        },
{
    let tag = read_u8(bytes, cursor)?;
    if tag == 0 {
        Ok(None)
    } else if tag == 1 {
        let not_before = read_u64(bytes, cursor)?;
        let not_after = read_u64(bytes, cursor)?;
        Ok(Some(ValidityWindow::new(not_before, not_after)))
    } else {
        Err(Error::InvalidEncoding)
    }
}

fn read_attestation_fields(bytes: &[u8], cursor: &mut usize) -> (r: Result<AttestationEnvelope>)
    requires
        *old(cursor) <= bytes@.len(),
    ensures
        *final(cursor) <= bytes@.len(),
        match rd_attestation_fields(suffix(bytes@, *old(cursor) as int)) {
            Ok((v, rest)) => (r matches Ok(a) && a@ == v) && rest == suffix(bytes@, *final(cursor) as int),
            Err(e) => r == Err::<AttestationEnvelope, Error>(e),
        },
{
    let code = read_u8(bytes, cursor)?;
    let profile_id = SignatureProfileId::from_u8(code);
    let issuer_id = read_bounded::<64>(bytes, cursor)?;
    let public_key_id = read_bounded::<64>(bytes, cursor)?;
    let signed_message_hash = read_digest(bytes, cursor)?;
    let sequence = read_u64(bytes, cursor)?;
    let validity_window = read_window(bytes, cursor)?;
    let sig = read_slice(bytes, cursor, 64)?;
    let mut raw = [0u8; 64];
    let mut i: usize = 0;
    while i < 64
        invariant
            i <= 64,
            sig@.len() == 64,
            raw@.len() == 64,
            forall|j: int| 0 <= j < i ==> raw@[j] == sig@[j],
        decreases 64 - i,
    {
        raw[i] = sig[i];
        i = i + 1;
    }
    assert(raw@ =~= sig@);
    Ok(AttestationEnvelope {
        profile_id,
        issuer_id,
        public_key_id,
        signature: Ed25519Signature(raw),
        signed_message_hash,
        sequence,
        validity_window,
    })
}

fn read_attestation(bytes: &[u8], cursor: &mut usize) -> (r: Result<Option<AttestationEnvelope>>)
    requires
        *old(cursor) <= bytes@.len(),
    ensures
        *final(cursor) <= bytes@.len(),
        match rd_attestation(suffix(bytes@, *old(cursor) as int)) {
            Ok((v, rest)) => (r matches Ok(a) && crate::receipt::attestation_view(a) == v) && rest == suffix(bytes@, *final(cursor) as int),
            Err(e) => r == Err::<Option<AttestationEnvelope>, Error>(e),
        },
{
    let present = read_u8(bytes, cursor)?;
    if present == 0 {
        return Ok(None);
    }
    let a = read_attestation_fields(bytes, cursor)?;
    Ok(Some(a))
}

fn read_optional_digest(bytes: &[u8], cursor: &mut usize) -> (r: Result<Option<Digest>>)
    requires
        *old(cursor) <= bytes@.len(),
    ensures
        *final(cursor) <= bytes@.len(),
        match rd_opt_digest(suffix(bytes@, *old(cursor) as int)) {
            Ok((v, rest)) => (r matches Ok(d) && crate::receipt::digest_view(d) == v) && rest == suffix(bytes@, *final(cursor) as int),
            Err(e) => r == Err::<Option<Digest>, Error>(e),
        },
{
    let tag = read_u8(bytes, cursor)?;
    if tag == 0 {
        Ok(None)
    } else if tag == 1 {
        let d = read_digest(bytes, cursor)?;
        Ok(Some(d))
    } else {
        Err(Error::InvalidEncoding)
    }
}

/// The receipt fields before the issuer, as decoded values.
pub struct Head {
    pub version: u32,
    pub schema_id: crate::bounded::SchemaId,
    pub schema_hash: Digest,
    pub schema_authority: crate::bounded::SchemaAuthority,
    pub domain_tag: crate::bounded::DomainTag,
    pub subject_hash: Digest,
}

/// The receipt fields from the issuer to the trace hash, as decoded values.
pub struct Mid {
    pub issuer_id: crate::bounded::IssuerId,
    pub sequence: u64,
    pub claim_hash: Digest,
    pub evidence_hash: Digest,
    pub policy_hash: Digest,
    pub trace_hash: Digest,
}

/// The receipt fields from the parents on, as decoded values.
pub struct Tail {
    pub parent_hashes: ParentHashes,
    pub lifecycle_state: LifecycleState,
    pub body_hash: Digest,
    pub attestation: Option<AttestationEnvelope>,
    pub sealed_hash: Option<Digest>,
}

impl View for Head {
    type V = HeadView;

    open spec fn view(&self) -> HeadView {
        HeadView {
            version: self.version,
            schema_id: self.schema_id@,
            schema_hash: self.schema_hash@,
            schema_authority: self.schema_authority@,
            domain_tag: self.domain_tag@,
            subject_hash: self.subject_hash@,
        }
    }
}

impl View for Mid {
    type V = MidView;

    open spec fn view(&self) -> MidView {
        MidView {
            issuer_id: self.issuer_id@,
            sequence: self.sequence,
            claim_hash: self.claim_hash@,
            evidence_hash: self.evidence_hash@,
            policy_hash: self.policy_hash@,
            trace_hash: self.trace_hash@,
        }
    }
}

impl View for Tail {
    type V = TailView;

    open spec fn view(&self) -> TailView {
        TailView {
            parent_hashes: self.parent_hashes@,
            lifecycle_state: self.lifecycle_state,
            body_hash: self.body_hash@,
            attestation: crate::receipt::attestation_view(self.attestation),
            sealed_hash: crate::receipt::digest_view(self.sealed_hash),
        }
    }
}

fn read_head(bytes: &[u8], cursor: &mut usize) -> (r: Result<Head>)
    requires
        *old(cursor) <= bytes@.len(),
    ensures
        *final(cursor) <= bytes@.len(),
        match rd_head(suffix(bytes@, *old(cursor) as int)) {
            Ok((v, rest)) => (r matches Ok(h) && h@ == v) && rest == suffix(bytes@, *final(cursor) as int),
            Err(e) => r is Err && r->Err_0 == e,
        },
{
    let version = read_u32(bytes, cursor)?;
    let schema_id = read_bounded::<64>(bytes, cursor)?;
    let schema_hash = read_digest(bytes, cursor)?;
    let schema_authority = read_bounded::<64>(bytes, cursor)?;
    let domain_tag = read_bounded::<32>(bytes, cursor)?;
    let subject_hash = read_digest(bytes, cursor)?;
    Ok(Head { version, schema_id, schema_hash, schema_authority, domain_tag, subject_hash })
}

fn read_mid(bytes: &[u8], cursor: &mut usize) -> (r: Result<Mid>)
    requires
        *old(cursor) <= bytes@.len(),
    ensures
        *final(cursor) <= bytes@.len(),
        match rd_mid(suffix(bytes@, *old(cursor) as int)) {
            Ok((v, rest)) => (r matches Ok(m) && m@ == v) && rest == suffix(bytes@, *final(cursor) as int),
            Err(e) => r is Err && r->Err_0 == e,
        },
{
    let issuer_id = read_bounded::<64>(bytes, cursor)?;
    let sequence = read_u64(bytes, cursor)?;
    let claim_hash = read_digest(bytes, cursor)?;
    let evidence_hash = read_digest(bytes, cursor)?;
    let policy_hash = read_digest(bytes, cursor)?;
    let trace_hash = read_digest(bytes, cursor)?;
    Ok(Mid { issuer_id, sequence, claim_hash, evidence_hash, policy_hash, trace_hash })
}

fn read_tail(bytes: &[u8], cursor: &mut usize) -> (r: Result<Tail>)
    requires
        *old(cursor) <= bytes@.len(),
    ensures
        *final(cursor) <= bytes@.len(),
        match rd_tail(suffix(bytes@, *old(cursor) as int)) {
            Ok((v, rest)) => (r matches Ok(t) && t@ == v) && rest == suffix(bytes@, *final(cursor) as int),
            Err(e) => r is Err && r->Err_0 == e,
        },
{
    let parent_hashes = read_parents(bytes, cursor)?;
    let code = read_u8(bytes, cursor)?;
    let lifecycle_state = match LifecycleState::from_u8(code) {
        Some(s) => s,
        None => return Err(Error::InvalidLifecycleState),
    };
    let body_hash = read_digest(bytes, cursor)?;
    let attestation = read_attestation(bytes, cursor)?;
    let sealed_hash = read_optional_digest(bytes, cursor)?;
    Ok(Tail { parent_hashes, lifecycle_state, body_hash, attestation, sealed_hash })
}

fn assemble_receipt(head: Head, mid: Mid, tail: Tail) -> (r: ReceiptEnvelope)
    ensures
        r@ == assemble(head@, mid@, tail@),
{
    ReceiptEnvelope {
        version: head.version,
        schema_id: head.schema_id,
        schema_hash: head.schema_hash,
        schema_authority: head.schema_authority,
        domain_tag: head.domain_tag,
        subject_hash: head.subject_hash,
        issuer_id: mid.issuer_id,
        sequence: mid.sequence,
        claim_hash: mid.claim_hash,
        evidence_hash: mid.evidence_hash,
        policy_hash: mid.policy_hash,
        trace_hash: mid.trace_hash,
        parent_hashes: tail.parent_hashes,
        lifecycle_state: tail.lifecycle_state,
        body_hash: tail.body_hash,
        sealed_hash: tail.sealed_hash,
        attestation: tail.attestation,
    }
}

fn check_magic(bytes: &[u8]) -> (r: bool)
    ensures
        r == has_magic(bytes@),
{
    if bytes.len() < 4 {
        return false;
    }
    let head: &[u8] = &bytes[0..4];
    crate::bytes::bytes_eq(head, RECEIPT_MAGIC.as_slice())
}

/// Decodes the canonical encoding at the front of `bytes`. Bytes after the
/// receipt are ignored; the first fault met is returned.
pub fn decode_receipt(bytes: &[u8]) -> (r: Result<ReceiptEnvelope>)
    ensures
        match parse_receipt(bytes@) {
            Ok(v) => r matches Ok(rec) && rec@ == v,
            Err(e) => r is Err && r->Err_0 == e,
        },
{
    if !check_magic(bytes) {
        return Err(Error::InvalidEncoding);
    }
    assert(bytes@.subrange(4, bytes@.len() as int) == suffix(bytes@, 4));
    let mut cursor: usize = 4;
    let head = read_head(bytes, &mut cursor)?;
    let mid = read_mid(bytes, &mut cursor)?;
    let tail = read_tail(bytes, &mut cursor)?;
    Ok(assemble_receipt(head, mid, tail))
}

} // verus!
