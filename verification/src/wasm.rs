//! The verifier's entry points for an embedding host such as a WebAssembly
//! build: encoded receipts and bundles in, short JSON texts out.
use vstd::prelude::*;
use vstd::string::StringSliceAdditionalSpecFns;
use crate::bounded::{IssuerId, PublicKeyId};
use crate::codec::hex_decode_spec;
use crate::compare::{diff_kind_spec, DiffKind};
use crate::crypto::sha256_spec;
use crate::decode::parse_receipt;
use crate::kernel::{Digest, Ed25519PublicKey, MAX_BUNDLE_SIZE};
use crate::proofmail::{decimal, decimal_text};
use crate::receipt::ReceiptView;
use crate::text::concat;
use crate::trust::{
    code_name, status_name, trust_outcome, ReceiptVerificationReport, TrustedIssuerKey, VerificationPolicy,
};
use crate::verify::{sealed_hash_ok, schema_ok, verify_receipt_error};
use crate::canon::body_enc;
use crate::lifecycle::LifecycleState;

verus! {

/// `true` or `false`.
pub open spec fn bool_text(b: bool) -> Seq<char> {
    if b { "true"@ } else { "false"@ }
}

/// The answer for an input that could not be checked, with its code.
pub open spec fn error_text(code: Seq<char>) -> Seq<char> {
    "{\"structural_valid\":false,\"status\":\"error\",\"code\":\""@ + code + "\"}"@
}

/// The answer for a checked receipt: whether the kernel found it valid, its
/// status and its code.
pub open spec fn report_text(valid: bool, status: Seq<char>, code: Seq<char>) -> Seq<char> {
    "{\"structural_valid\":"@ + bool_text(valid) + ",\"status\":\""@ + status + "\",\"code\":\""@ + code + "\"}"@
}

fn bool_str(b: bool) -> (r: &'static str)
    ensures
        r@ == bool_text(b),
{
    if b { "true" } else { "false" }
}

/// The answer for an input that could not be checked.
pub fn error_json(code: &str) -> (r: String)
    ensures
        r@ == error_text(code@),
{
    let head = concat("{\"structural_valid\":false,\"status\":\"error\",\"code\":\"", code);
    concat(head.as_str(), "\"}")
}

/// The answer for a report on a receipt.
pub fn receipt_report_json(report: &ReceiptVerificationReport) -> (r: String)
    ensures
        r@ == report_text(report.core.valid, status_name(report.status), code_name(report.code)),
{
    let a = concat("{\"structural_valid\":", bool_str(report.core.valid));
    let b = concat(a.as_str(), ",\"status\":\"");
    let c = concat(b.as_str(), report.status.as_str());
    let d = concat(c.as_str(), "\",\"code\":\"");
    let e = concat(d.as_str(), report.code.as_str());
    concat(e.as_str(), "\"}")
}

/// Whether the kernel finds a receipt valid: its hashes, its schema fields and
/// its lifecycle.
pub open spec fn core_valid(v: ReceiptView) -> bool {
    &&& v.body_hash == sha256_spec(body_enc(v))
    &&& sealed_hash_ok(v)
    &&& schema_ok(v)
    &&& v.lifecycle_state != LifecycleState::Draft
}

/// The answer for encoded receipt bytes checked under the given keys and
/// policy: a decoding failure, a check that could not run, or the report.
pub open spec fn receipt_answer(bytes: Seq<u8>, keys: Seq<TrustedIssuerKey>, policy: VerificationPolicy) -> Seq<char> {
    match parse_receipt(bytes) {
        Err(_) => error_text("DECODE_ERROR"@),
        Ok(v) => if verify_receipt_error(v) {
            error_text("VERIFY_ERROR"@)
        } else {
            match trust_outcome(v, keys, policy) {
                Ok((s, c)) => report_text(core_valid(v), status_name(s), code_name(c)),
                Err(_) => error_text("VERIFY_ERROR"@),
            }
        },
    }
}

fn verify_receipt_inner(
    bytes: &[u8],
    allow_unsigned: bool,
    current_sequence: Option<u64>,
    trusted_keys: &[TrustedIssuerKey],
) -> (r: String)
    ensures
        r@ == receipt_answer(bytes@, trusted_keys@, VerificationPolicy { allow_unsigned, current_sequence }),
{
    let receipt = match crate::decode::decode_receipt(bytes) {
        Ok(receipt) => receipt,
        Err(_) => return error_json("DECODE_ERROR"),
    };
    let policy = VerificationPolicy { allow_unsigned, current_sequence };
    match crate::trust::verify_receipt(&receipt, trusted_keys, policy) {
        Ok(report) => receipt_report_json(&report),
        Err(_) => error_json("VERIFY_ERROR"),
    }
}

/// Decodes and checks a receipt, accepting it unsigned.
pub fn verify_receipt(bytes: &[u8]) -> (r: String)
    ensures
        r@ == receipt_answer(bytes@, Seq::empty(), VerificationPolicy { allow_unsigned: true, current_sequence: None }),
{
    verify_receipt_with_policy(bytes, true)
}

/// Decodes and checks a receipt, accepting it unsigned as the flag says.
pub fn verify_receipt_with_policy(bytes: &[u8], allow_unsigned: bool) -> (r: String)
    ensures
        r@ == receipt_answer(bytes@, Seq::empty(), VerificationPolicy { allow_unsigned, current_sequence: None }),
{
    verify_receipt_with_context(bytes, allow_unsigned, None)
}

/// Decodes and checks a receipt at the given sequence number, with no
/// trusted key.
pub fn verify_receipt_with_context(bytes: &[u8], allow_unsigned: bool, current_sequence: Option<u64>) -> (r: String)
    ensures
        r@ == receipt_answer(bytes@, Seq::empty(), VerificationPolicy { allow_unsigned, current_sequence }),
{
    let no_keys: Vec<TrustedIssuerKey> = Vec::new();
    assert(no_keys@ =~= Seq::<TrustedIssuerKey>::empty());
    verify_receipt_inner(bytes, allow_unsigned, current_sequence, no_keys.as_slice())
}

/// Whether a trusted key's parts are usable: a public key of 32 bytes in hex,
/// and issuer and key identifiers of one to 64 bytes.
pub open spec fn trusted_key_ok(issuer_id: Seq<u8>, public_key_id: Seq<u8>, public_key_hex: Seq<u8>) -> bool {
    &&& hex_decode_spec(public_key_hex) matches Some(k) && k.len() == 32
    &&& 0 < issuer_id.len() <= 64
    &&& 0 < public_key_id.len() <= 64
}

/// Whether `k` is the trusted key made of the given parts.
pub open spec fn key_made_of(k: TrustedIssuerKey, issuer_id: Seq<u8>, public_key_id: Seq<u8>, public_key_hex: Seq<u8>) -> bool {
    &&& k.issuer_id@ == issuer_id
    &&& k.public_key_id@ == public_key_id
    &&& Some(k.public_key.0@) == hex_decode_spec(public_key_hex)
}

/// Decodes and checks a receipt under one trusted key, given by its issuer,
/// key identifier and hex public key; an unusable key is answered
/// `INVALID_TRUSTED_KEY`.
pub fn verify_receipt_with_trusted_key(
    bytes: &[u8],
    allow_unsigned: bool,
    issuer_id: &str,
    public_key_id: &str,
    public_key_hex: &str,
) -> (r: String)
    ensures
        !trusted_key_ok(issuer_id.spec_bytes(), public_key_id.spec_bytes(), public_key_hex.spec_bytes())
            ==> r@ == error_text("INVALID_TRUSTED_KEY"@),
        trusted_key_ok(issuer_id.spec_bytes(), public_key_id.spec_bytes(), public_key_hex.spec_bytes())
            ==> exists|k: TrustedIssuerKey| #[trigger] key_made_of(k, issuer_id.spec_bytes(), public_key_id.spec_bytes(), public_key_hex.spec_bytes())
                && r@ == receipt_answer(bytes@, seq![k], VerificationPolicy { allow_unsigned, current_sequence: None }),
{
    verify_receipt_with_trusted_key_and_context(bytes, allow_unsigned, None, issuer_id, public_key_id, public_key_hex)
}

fn decode_key(public_key_hex: &str) -> (r: Option<[u8; 32]>)
    ensures
        r is Some <==> (hex_decode_spec(public_key_hex.spec_bytes()) matches Some(k) && k.len() == 32),
        r matches Some(k) ==> hex_decode_spec(public_key_hex.spec_bytes()) == Some(k@),
{
    let decoded = match crate::codec::hex_decode(public_key_hex) {
        Some(v) => v,
        None => return None,
    };
    if decoded.len() != 32 {
        return None;
    }
    let mut key = [0u8; 32];
    let mut i: usize = 0;
    while i < 32
        invariant
            i <= 32,
            decoded@.len() == 32,
            forall|j: int| 0 <= j < i ==> key@[j] == decoded@[j],
        decreases 32 - i,
    {
        key[i] = decoded[i];
        i = i + 1;
    }
    assert(key@ =~= decoded@);
    Some(key)
}

/// Decodes and checks a receipt at a sequence number under one trusted key;
/// an unusable key is answered `INVALID_TRUSTED_KEY`.
pub fn verify_receipt_with_trusted_key_and_context(
    bytes: &[u8],
    allow_unsigned: bool,
    current_sequence: Option<u64>,
    issuer_id: &str,
    public_key_id: &str,
    public_key_hex: &str,
) -> (r: String)
    ensures
        !trusted_key_ok(issuer_id.spec_bytes(), public_key_id.spec_bytes(), public_key_hex.spec_bytes())
            ==> r@ == error_text("INVALID_TRUSTED_KEY"@),
        trusted_key_ok(issuer_id.spec_bytes(), public_key_id.spec_bytes(), public_key_hex.spec_bytes())
            ==> exists|k: TrustedIssuerKey| #[trigger] key_made_of(k, issuer_id.spec_bytes(), public_key_id.spec_bytes(), public_key_hex.spec_bytes())
                && r@ == receipt_answer(bytes@, seq![k], VerificationPolicy { allow_unsigned, current_sequence }),
{
    let public_key = match decode_key(public_key_hex) {
        Some(k) => k,
        None => return error_json("INVALID_TRUSTED_KEY"),
    };
    let issuer = match IssuerId::from_str(issuer_id) {
        Ok(v) => v,
        Err(_) => return error_json("INVALID_TRUSTED_KEY"),
    };
    let key_id = match PublicKeyId::from_str(public_key_id) {
        Ok(v) => v,
        Err(_) => return error_json("INVALID_TRUSTED_KEY"),
    };
    let trusted = TrustedIssuerKey { issuer_id: issuer, public_key_id: key_id, public_key: Ed25519PublicKey(public_key) };
    let keys: Vec<TrustedIssuerKey> = vec![trusted];
    assert(keys@ =~= seq![trusted]);
    let r = verify_receipt_inner(bytes, allow_unsigned, current_sequence, keys.as_slice());
    assert(key_made_of(trusted, issuer_id.spec_bytes(), public_key_id.spec_bytes(), public_key_hex.spec_bytes()));
    r
}

/// The answer for bundle bytes: a whole number of 32-byte receipt hashes, at
/// most `MAX_BUNDLE_SIZE` of them; the sealed bundle is valid and counts them.
pub open spec fn bundle_answer(bytes: Seq<u8>) -> Seq<char> {
    if bytes.len() % 32 != 0 {
        error_text("INVALID_BUNDLE_BYTES"@)
    } else if bytes.len() / 32 > MAX_BUNDLE_SIZE {
        error_text("BUNDLE_TOO_LARGE"@)
    } else {
        "{\"valid\":"@ + bool_text(true) + ",\"receipt_count\":"@ + decimal((bytes.len() / 32) as nat) + "}"@
    }
}

/// Builds a bundle of the receipt hashes in `bytes`, seals it and checks it.
pub fn verify_bundle(bytes: &[u8]) -> (r: String)
    ensures
        r@ == bundle_answer(bytes@),
{
    if bytes.len() % 32 != 0 {
        return error_json("INVALID_BUNDLE_BYTES");
    }
    let count = bytes.len() / 32;
    let mut bundle = crate::bundle::Bundle::new();
    let mut i: usize = 0;
    while i < count
        invariant
            count == bytes@.len() / 32,
            bytes@.len() % 32 == 0,
            i <= count,
            i <= MAX_BUNDLE_SIZE,
            bundle.receipt_hashes@.len() == i,
        decreases count - i,
    {
        assert(32 * i + 32 <= bytes@.len()) by (nonlinear_arith)
            requires i < count, count == bytes@.len() / 32, bytes@.len() % 32 == 0;
        let base = 32 * i;
        let mut digest = [0u8; 32];
        let mut j: usize = 0;
        while j < 32
            invariant
                j <= 32,
                base + 32 <= bytes.len(),
            decreases 32 - j,
        {
            digest[j] = bytes[base + j];
            j = j + 1;
        }
        if bundle.add_receipt(Digest(digest)).is_err() {
            assert(i == MAX_BUNDLE_SIZE);
            return error_json("BUNDLE_TOO_LARGE");
        }
        i = i + 1;
    }
    assert(bundle.receipt_hashes@.len() == bytes@.len() / 32);
    let sealed = match bundle.seal() {
        Ok(b) => b,
        Err(_) => return error_json("BUNDLE_SEAL_ERROR"),
    };
    match crate::trust::verify_bundle(&sealed) {
        Ok(report) => {
            assert(report.valid);
            assert(report.receipt_count == bytes@.len() / 32);
            let head = concat("{\"valid\":", bool_str(report.valid));
            let mid = concat(head.as_str(), ",\"receipt_count\":");
            let count_text = decimal_text(report.receipt_count as u64);
            let body = concat(mid.as_str(), count_text.as_str());
            concat(body.as_str(), "}")
        },
        Err(_) => error_json("BUNDLE_VERIFY_ERROR"),
    }
}

/// The name of a kind of difference, as it is printed.
pub open spec fn kind_name(k: DiffKind) -> Seq<char> {
    match k {
        DiffKind::Unchanged => "Unchanged"@,
        DiffKind::SchemaChanged => "SchemaChanged"@,
        DiffKind::ClaimChanged => "ClaimChanged"@,
        DiffKind::EvidenceChanged => "EvidenceChanged"@,
        DiffKind::PolicyChanged => "PolicyChanged"@,
        DiffKind::TraceChanged => "TraceChanged"@,
        DiffKind::ParentChanged => "ParentChanged"@,
        DiffKind::LifecycleChanged => "LifecycleChanged"@,
        DiffKind::Multiple => "Multiple"@,
    }
}

fn kind_str(k: DiffKind) -> (r: &'static str)
    ensures
        r@ == kind_name(k),
{
    match k {
        DiffKind::Unchanged => "Unchanged",
        DiffKind::SchemaChanged => "SchemaChanged",
        DiffKind::ClaimChanged => "ClaimChanged",
        DiffKind::EvidenceChanged => "EvidenceChanged",
        DiffKind::PolicyChanged => "PolicyChanged",
        DiffKind::TraceChanged => "TraceChanged",
        DiffKind::ParentChanged => "ParentChanged",
        DiffKind::LifecycleChanged => "LifecycleChanged",
        DiffKind::Multiple => "Multiple",
    }
}

/// The kind of difference between two receipts.
pub open spec fn diff_kind_of(l: ReceiptView, r: ReceiptView) -> DiffKind {
    diff_kind_spec(
        l.schema_hash != r.schema_hash || l.schema_id != r.schema_id || l.schema_authority != r.schema_authority,
        l.claim_hash != r.claim_hash,
        l.evidence_hash != r.evidence_hash,
        l.policy_hash != r.policy_hash,
        l.trace_hash != r.trace_hash,
        l.parent_hashes != r.parent_hashes,
        l.lifecycle_state != r.lifecycle_state,
    )
}

/// The answer for two encoded receipts: whether they are comparable (same
/// subject), whether their body hashes are the same, and the kind of their
/// difference; `DECODE_ERROR` where either does not decode.
pub open spec fn compare_answer(old_bytes: Seq<u8>, new_bytes: Seq<u8>) -> Seq<char> {
    match (parse_receipt(old_bytes), parse_receipt(new_bytes)) {
        (Ok(l), Ok(r)) => "{\"comparable\":"@ + bool_text(l.subject_hash == r.subject_hash) + ",\"same_hash\":"@
            + bool_text(l.body_hash == r.body_hash) + ",\"kind\":\""@ + kind_name(diff_kind_of(l, r)) + "\"}"@,
        _ => error_text("DECODE_ERROR"@),
    }
}

/// Decodes two receipts and compares them.
pub fn compare_receipts(old_bytes: &[u8], new_bytes: &[u8]) -> (r: String)
    ensures
        r@ == compare_answer(old_bytes@, new_bytes@),
{
    let left = crate::decode::decode_receipt(old_bytes);
    let right = crate::decode::decode_receipt(new_bytes);
    match (left, right) {
        (Ok(l), Ok(rt)) => match crate::compare::compare_receipts(&l, &rt) {
            Ok(diff) => {
                let a = concat("{\"comparable\":", bool_str(diff.comparable));
                let b = concat(a.as_str(), ",\"same_hash\":");
                let c = concat(b.as_str(), bool_str(diff.same_hash));
                let d = concat(c.as_str(), ",\"kind\":\"");
                let e = concat(d.as_str(), kind_str(diff.kind));
                concat(e.as_str(), "\"}")
            },
            Err(_) => error_json("COMPARE_ERROR"),
        },
        _ => error_json("DECODE_ERROR"),
    }
}

/// The answer for an encoded receipt asked whether it can be replayed: it can
/// where its body hash is not all zeros.
pub open spec fn replay_answer(bytes: Seq<u8>) -> Seq<char> {
    match parse_receipt(bytes) {
        Ok(v) => "{\"replayable\":"@ + bool_text(v.body_hash != Seq::new(32, |i: int| 0u8)) + "}"@,
        Err(_) => error_text("DECODE_ERROR"@),
    }
}

/// Decodes a receipt and says whether it can be replayed; the evidence is not
/// read.
pub fn replay_receipt(receipt_bytes: &[u8], evidence_bytes: &[u8]) -> (r: String)
    ensures
        r@ == replay_answer(receipt_bytes@),
{
    match crate::decode::decode_receipt(receipt_bytes) {
        Ok(receipt) => {
            let zero = Digest::zero();
            let replayable = !(receipt.body_hash == zero);
            let head = concat("{\"replayable\":", bool_str(replayable));
            concat(head.as_str(), "}")
        },
        Err(_) => error_json("DECODE_ERROR"),
    }
}

} // verus!
