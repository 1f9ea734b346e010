//! Fixed receipts with the outcomes a conforming verifier must report for
//! them, as hex text, for cross-implementation checks.
use vstd::prelude::*;
use vstd::string::StringSliceAdditionalSpecFns;
use crate::attest::{attest_receipt, attestation_for, lemma_attested_receipt_verifies};
use crate::bounded::{DomainTag, IssuerId, PublicKeyId, SchemaAuthority, SchemaId, SubjectId};
use crate::canon::{body_enc, receipt_enc};
use crate::canon_laws::{bounded_ok, lemma_decode_encoded_receipt, receipt_view_ok};
use crate::claim::Claim;
use crate::codec::hex_lower;
use crate::crypto::{ed25519_key_valid, ed25519_public_spec};
use crate::decode::parse_receipt;
use crate::error::{Error, Result};
use crate::evidence::Evidence;
use crate::kernel::{Digest, Ed25519PublicKey, Ed25519Signature, HashAlgorithm, ParentHashes, SignatureProfileId};
use crate::laws::{attested_view, lemma_attested_receipt_hashes_verify, lemma_sealed_receipt_verifies, sealed_view};
use crate::lifecycle::LifecycleState;
use crate::policy::{Policy, PolicyDecision};
use crate::receipt::{AttestationEnvelope, ReceiptEnvelope, ReceiptView, ValidityWindow};
use crate::schema::Schema;
use crate::signing::Ed25519SigningKey;
use crate::trust::{trust_outcome, ReceiptStatus, TrustedIssuerKey, VerificationCode, VerificationError, VerificationPolicy};
use crate::verify::{core_report_ok, verify_receipt_error, VerificationReport};

verus! {

/// A receipt vector: the canonical bytes of a receipt and the hashes a
/// verifier must find in it, as lowercase hex text.
pub struct ReceiptVector {
    pub name: &'static str,
    pub human_fixture: &'static str,
    pub canonical_bytes_hex: String,
    pub body_hash_hex: String,
    pub schema_hash_hex: String,
    pub evidence_hash_hex: String,
    pub expected_verify: bool,
}

/// A verification vector: a receipt's bytes, the keys and policy to verify it
/// under, and the status, code and structural validity to expect.
pub struct KernelVerificationVector {
    pub name: &'static str,
    pub receipt_bytes_hex: String,
    pub trusted_keys: Vec<TrustedIssuerKey>,
    pub allow_unsigned: bool,
    pub current_sequence: Option<u64>,
    pub expected_status: ReceiptStatus,
    pub expected_code: VerificationCode,
    pub expected_structural_valid: bool,
}

/// A decode vector: bytes the decoder must refuse, and the error to expect.
pub struct KernelDecodeVector {
    pub name: &'static str,
    pub receipt_bytes_hex: String,
    pub expected_error: &'static str,
}

/// Whether `hex` is the lowercase hex text of the canonical encoding of `v`,
/// and the decoder reads those bytes back as `v`.
#[verifier::opaque]
pub open spec fn encodes_receipt(hex: Seq<char>, v: ReceiptView) -> bool {
    &&& hex == hex_lower(receipt_enc(v))
    &&& parse_receipt(receipt_enc(v)) == Ok::<ReceiptView, Error>(v)
}

/// Whether `v` is a sealed receipt without attestation that passes every
/// check of the kernel.
pub open spec fn sealed_unsigned_ok(v: ReceiptView) -> bool {
    &&& v.attestation is None
    &&& v.lifecycle_state == LifecycleState::Sealed
    &&& receipt_view_ok(v)
    &&& !verify_receipt_error(v)
    &&& forall|rep: VerificationReport| #[trigger] core_report_ok(rep, v) ==> rep.valid
}

/// Whether the texts of a receipt vector are those of a sealed unsigned
/// receipt that the kernel accepts: its encoding, body hash, schema hash and
/// evidence hash.
pub open spec fn receipt_texts_ok(canonical: Seq<char>, body_hash: Seq<char>, schema_hash: Seq<char>, evidence_hash: Seq<char>) -> bool {
    exists|rv: ReceiptView| {
        &&& #[trigger] encodes_receipt(canonical, rv)
        &&& body_hash == hex_lower(rv.body_hash)
        &&& schema_hash == hex_lower(rv.schema_hash)
        &&& evidence_hash == hex_lower(rv.evidence_hash)
        &&& sealed_unsigned_ok(rv)
    }
}

/// Whether a receipt vector's texts are those of a sealed unsigned receipt
/// that the kernel accepts.
pub open spec fn receipt_vector_ok(v: ReceiptVector) -> bool {
    receipt_texts_ok(v.canonical_bytes_hex@, v.body_hash_hex@, v.schema_hash_hex@, v.evidence_hash_hex@)
}

/// The policy a verification vector is checked under.
pub open spec fn vector_policy(v: KernelVerificationVector) -> VerificationPolicy {
    VerificationPolicy { allow_unsigned: v.allow_unsigned, current_sequence: v.current_sequence }
}

/// Whether a verification vector's bytes encode a receipt.
#[verifier::opaque]
pub open spec fn kernel_vector_encodes(v: KernelVerificationVector) -> bool {
    exists|rv: ReceiptView| #[trigger] encodes_receipt(v.receipt_bytes_hex@, rv)
}

/// Whether a verification vector's bytes encode a receipt that the kernel
/// checks, and whose verification under the vector's keys and policy gives
/// the vector's status, code and structural validity.
#[verifier::opaque]
pub open spec fn kernel_vector_holds(v: KernelVerificationVector) -> bool {
    exists|rv: ReceiptView| {
        &&& #[trigger] encodes_receipt(v.receipt_bytes_hex@, rv)
        &&& !verify_receipt_error(rv)
        &&& trust_outcome(rv, v.trusted_keys@, vector_policy(v))
            == Ok::<(ReceiptStatus, VerificationCode), VerificationError>((v.expected_status, v.expected_code))
        &&& forall|rep: VerificationReport| #[trigger] core_report_ok(rep, rv) ==> rep.valid == v.expected_structural_valid
    }
}

/// A vector whose expectations hold encodes a receipt.
pub proof fn lemma_holding_vector_encodes(v: KernelVerificationVector)
    requires
        kernel_vector_holds(v),
    ensures
        kernel_vector_encodes(v),
{
    reveal(kernel_vector_holds);
    reveal(kernel_vector_encodes);
}

/// The lowercase hex text of the canonical encoding of `receipt`, which must
/// fit in `capacity` bytes.
fn receipt_hex(receipt: &ReceiptEnvelope, capacity: usize) -> (r: Result<String>)
    ensures
        receipt_enc(receipt@).len() > capacity ==> r == Err::<String, Error>(Error::BufferTooSmall),
        receipt_enc(receipt@).len() <= capacity ==> (r matches Ok(h) && h@ == hex_lower(receipt_enc(receipt@))),
{
    let mut buffer: Vec<u8> = vec![0u8; capacity];
    let len = crate::canon::encode_receipt(receipt, buffer.as_mut_slice())?;
    let all: &[u8] = buffer.as_slice();
    let encoded: &[u8] = &all[0..len];
    assert(encoded@ =~= receipt_enc(receipt@));
    Ok(crate::codec::hex_encode(encoded))
}

/// The body of a receipt without parents whose strings and digests are
/// within their bounds encodes in at most 438 bytes.
proof fn lemma_body_len(v: ReceiptView)
    requires
        receipt_view_ok(v),
        v.parent_hashes.len() == 0,
    ensures
        body_enc(v).len() == 214 + v.schema_id.len() + v.schema_authority.len() + v.domain_tag.len() + v.issuer_id.len(),
        body_enc(v).len() <= 438,
{
    assert(v.parent_hashes.flatten() =~= Seq::<u8>::empty());
}

/// Such a receipt encodes whole in at most 756 bytes, and in at most 472
/// without attestation or sealed hash.
proof fn lemma_receipt_len(v: ReceiptView)
    requires
        receipt_view_ok(v),
        v.parent_hashes.len() == 0,
    ensures
        receipt_enc(v).len() <= 756,
        v.attestation is None && v.sealed_hash is None ==> receipt_enc(v).len() <= 472,
{
    lemma_body_len(v);
    if let Some(a) = v.attestation {
        crate::attest::lemma_attestation_enc_len(a);
    }
}

/// A sealed unsigned receipt built from `schema_id`, `domain`, `schema_content`
/// and `sequence`, with trace hash `trace`; also its schema and evidence hashes.
fn sealed_fixture(schema_id: &str, domain: &str, schema_content: &str, sequence: u64, trace: u8) -> (r: Result<(ReceiptEnvelope, Digest, Digest)>)
    requires
        0 < schema_id.spec_bytes().len() <= 64,
        0 < domain.spec_bytes().len() <= 32,
        0 < schema_content.spec_bytes().len() <= 2048,
    ensures
        r matches Ok((rec, schema_hash, evidence_hash)) && {
            &&& sealed_unsigned_ok(rec@)
            &&& rec@.schema_hash == schema_hash@
            &&& rec@.evidence_hash == evidence_hash@
            &&& rec@.sequence == sequence
            &&& rec@.parent_hashes.len() == 0
        },
{
    proof {
        reveal_strlit("ink");
        reveal_strlit("subject-1");
        reveal_strlit("claim");
        reveal_strlit("evidence");
        reveal_strlit("policy");
        reveal_strlit("issuer-1");
        vstd::string::is_ascii_spec_bytes("ink");
        vstd::string::is_ascii_spec_bytes("subject-1");
        vstd::string::is_ascii_spec_bytes("claim");
        vstd::string::is_ascii_spec_bytes("evidence");
        vstd::string::is_ascii_spec_bytes("policy");
        vstd::string::is_ascii_spec_bytes("issuer-1");
    }
    let schema = Schema::from_slice(
        SchemaId::from_str(schema_id)?,
        SchemaAuthority::from_str("ink")?,
        DomainTag::from_str(domain)?,
        1,
        schema_content.as_bytes(),
    )?;
    let claim = Claim::from_slice(schema.id, SubjectId::from_str("subject-1")?, "claim".as_bytes())?;
    let evidence = Evidence::from_slice(schema.id, "evidence".as_bytes())?;
    let policy = Policy::from_slice(schema.id, PolicyDecision::Pass, "policy".as_bytes())?;
    let schema_hash = schema.compute_hash()?;
    let claim_hash = claim.compute_hash()?;
    let evidence_hash = evidence.compute_hash()?;
    let policy_hash = policy.compute_hash()?;
    let created = ReceiptEnvelope::create(
        schema.id,
        schema_hash,
        schema.authority,
        schema.domain_tag,
        claim_hash,
        IssuerId::from_str("issuer-1")?,
        sequence,
        claim_hash,
        evidence_hash,
        policy_hash,
        Digest::new([trace; 32]),
        ParentHashes::new(),
    );
    proof {
        lemma_envelope_view_ok(created);
        lemma_body_len(ReceiptView { lifecycle_state: LifecycleState::Sealed, ..created@ });
    }
    let receipt = created.seal()?;
    proof {
        let v = created@;
        assert(receipt@ == sealed_view(v));
        assert forall|rep: VerificationReport| #[trigger] core_report_ok(rep, receipt@) implies rep.valid by {
            lemma_sealed_receipt_verifies(v, rep);
        }
        assert(body_enc(receipt@) =~= body_enc(ReceiptView { lifecycle_state: LifecycleState::Sealed, ..v }));
    }
    Ok((receipt, schema_hash, evidence_hash))
}

/// The minimal receipt, with its schema and evidence hashes.
fn minimal_fixture() -> (r: Result<(ReceiptEnvelope, Digest, Digest)>)
    ensures
        r matches Ok((rec, schema_hash, evidence_hash)) && {
            &&& sealed_unsigned_ok(rec@)
            &&& rec@.schema_hash == schema_hash@
            &&& rec@.evidence_hash == evidence_hash@
            &&& rec@.parent_hashes.len() == 0
        },
{
    proof {
        reveal_strlit("ink.receipt.test.v1");
        reveal_strlit("test");
        reveal_strlit("{\"kind\":\"minimal\"}");
        vstd::string::is_ascii_spec_bytes("ink.receipt.test.v1");
        vstd::string::is_ascii_spec_bytes("test");
        vstd::string::is_ascii_spec_bytes("{\"kind\":\"minimal\"}");
    }
    sealed_fixture("ink.receipt.test.v1", "test", "{\"kind\":\"minimal\"}", 1, 9)
}

/// The minimal valid receipt: sealed, unsigned, with every commitment set.
pub fn minimal_receipt_vector() -> (v: ReceiptVector)
    ensures
        v.name@ == "minimal_valid_receipt"@,
        v.human_fixture@ == "minimal valid receipt"@,
        v.expected_verify,
        receipt_vector_ok(v),
{
    let (receipt, schema_hash, evidence_hash) = match minimal_fixture() {
        Ok(f) => f,
        Err(_) => vstd::pervasive::unreached(),
    };
    proof {
        lemma_receipt_len(receipt@);
    }
    let canonical_bytes_hex = match receipt_hex(&receipt, 512) {
        Ok(h) => h,
        Err(_) => vstd::pervasive::unreached(),
    };
    let v = ReceiptVector {
        name: "minimal_valid_receipt",
        human_fixture: "minimal valid receipt",
        canonical_bytes_hex,
        body_hash_hex: crate::codec::hex_encode(receipt.body_hash.0.as_slice()),
        schema_hash_hex: crate::codec::hex_encode(schema_hash.0.as_slice()),
        evidence_hash_hex: crate::codec::hex_encode(evidence_hash.0.as_slice()),
        expected_verify: true,
    };
    proof {
        lemma_decode_encoded_receipt(receipt@, Seq::empty());
        assert(receipt_enc(receipt@) + Seq::<u8>::empty() =~= receipt_enc(receipt@));
        reveal(encodes_receipt);
        assert(encodes_receipt(v.canonical_bytes_hex@, receipt@));
    }
    v
}

/// The minimal receipt under the name of the superseded-lifecycle fixture.
pub fn superseded_receipt_vector() -> (v: ReceiptVector)
    ensures
        v.name@ == "superseded_lifecycle"@,
        v.human_fixture@ == "receipt with superseded lifecycle"@,
        v.expected_verify,
        receipt_vector_ok(v),
{
    let vector = minimal_receipt_vector();
    ReceiptVector { name: "superseded_lifecycle", human_fixture: "receipt with superseded lifecycle", ..vector }
}

/// Whether a verification vector carries `name`, `key_count` trusted keys,
/// the policy flags and the expectations given.
pub open spec fn vector_is(
    v: KernelVerificationVector,
    name: Seq<char>,
    key_count: nat,
    allow_unsigned: bool,
    current_sequence: Option<u64>,
    status: ReceiptStatus,
    code: VerificationCode,
    structural_valid: bool,
) -> bool {
    &&& v.name@ == name
    &&& v.trusted_keys@.len() == key_count
    &&& v.allow_unsigned == allow_unsigned
    &&& v.current_sequence == current_sequence
    &&& v.expected_status == status
    &&& v.expected_code == code
    &&& v.expected_structural_valid == structural_valid
}

/// A receipt is one the decoder reads back unchanged once its strings are
/// set: identifiers and attestation names not empty and within bounds, at
/// most five parents of 32 bytes, and a canonical signature profile.
proof fn lemma_envelope_view_ok(r: ReceiptEnvelope)
    requires
        bounded_ok(r@.schema_id, 64),
        bounded_ok(r@.schema_authority, 64),
        bounded_ok(r@.domain_tag, 32),
        bounded_ok(r@.issuer_id, 64),
        r@.parent_hashes.len() <= 5,
        forall|i: int| 0 <= i < r@.parent_hashes.len() ==> #[trigger] r@.parent_hashes[i].len() == 32,
        r.attestation matches Some(a) ==> crate::kernel::profile_canonical(a.profile_id)
            && bounded_ok(a.issuer_id@, 64) && bounded_ok(a.public_key_id@, 64),
    ensures
        receipt_view_ok(r@),
{
    assert(r.schema_hash@.len() == 32);
    assert(r.subject_hash@.len() == 32);
    assert(r.claim_hash@.len() == 32);
    assert(r.evidence_hash@.len() == 32);
    assert(r.policy_hash@.len() == 32);
    assert(r.trace_hash@.len() == 32);
    assert(r.body_hash@.len() == 32);
    if let Some(d) = r.sealed_hash {
        assert(d@.len() == 32);
    }
    if let Some(a) = r.attestation {
        assert(a.signed_message_hash@.len() == 32);
        assert(a.signature.0@.len() == 64);
    }
}

/// A verification vector for `receipt`, which must encode within 768 bytes.
fn kernel_vector(
    name: &'static str,
    receipt: &ReceiptEnvelope,
    trusted_keys: Vec<TrustedIssuerKey>,
    allow_unsigned: bool,
    current_sequence: Option<u64>,
    expected_status: ReceiptStatus,
    expected_code: VerificationCode,
    expected_structural_valid: bool,
) -> (r: Result<KernelVerificationVector>)
    requires
        receipt_view_ok(receipt@),
        receipt@.parent_hashes.len() == 0,
    ensures
        r matches Ok(v) && {
            &&& encodes_receipt(v.receipt_bytes_hex@, receipt@)
            &&& v.name == name
            &&& v.trusted_keys@ == trusted_keys@
            &&& v.allow_unsigned == allow_unsigned
            &&& v.current_sequence == current_sequence
            &&& v.expected_status == expected_status
            &&& v.expected_code == expected_code
            &&& v.expected_structural_valid == expected_structural_valid
        },
{
    proof {
        lemma_receipt_len(receipt@);
    }
    let receipt_bytes_hex = receipt_hex(receipt, 768)?;
    proof {
        lemma_decode_encoded_receipt(receipt@, Seq::empty());
        assert(receipt_enc(receipt@) + Seq::<u8>::empty() =~= receipt_enc(receipt@));
        reveal(encodes_receipt);
    }
    Ok(KernelVerificationVector {
        name,
        receipt_bytes_hex,
        trusted_keys,
        allow_unsigned,
        current_sequence,
        expected_status,
        expected_code,
        expected_structural_valid,
    })
}

/// The fixture the verification vectors share: a sealed receipt, the
/// trusted key of its issuer, the signing key and the key identifier.
fn seeded_signed_fixture() -> (r: Result<(ReceiptEnvelope, TrustedIssuerKey, Ed25519SigningKey, PublicKeyId)>)
    ensures
        r matches Ok((rec, key, signing_key, key_id)) && {
            &&& sealed_unsigned_ok(rec@)
            &&& key.issuer_id@ == rec@.issuer_id
            &&& key.public_key_id@ == key_id@
            &&& key.public_key.0@ == ed25519_public_spec(signing_key.0@)
            &&& ed25519_key_valid(key.public_key.0@)
            &&& bounded_ok(key_id@, 64)
            &&& rec@.parent_hashes.len() == 0
        },
{
    proof {
        reveal_strlit("ink.verify.v1");
        reveal_strlit("verify");
        reveal_strlit("{\"type\":\"object\"}");
        reveal_strlit("issuer-key-1");
        vstd::string::is_ascii_spec_bytes("ink.verify.v1");
        vstd::string::is_ascii_spec_bytes("verify");
        vstd::string::is_ascii_spec_bytes("{\"type\":\"object\"}");
        vstd::string::is_ascii_spec_bytes("issuer-key-1");
    }
    let (receipt, _, _) = sealed_fixture("ink.verify.v1", "verify", "{\"type\":\"object\"}", 7, 5)?;
    let signing_key = Ed25519SigningKey([42u8; 32]);
    let public_key_id = PublicKeyId::from_str("issuer-key-1")?;
    let trusted_key = TrustedIssuerKey {
        issuer_id: receipt.issuer_id,
        public_key_id,
        public_key: Ed25519PublicKey::new(crate::crypto::ed25519_public_key(&signing_key.0)),
    };
    Ok((receipt, trusted_key, signing_key, public_key_id))
}

/// The policy that allows unsigned receipts and checks no window.
pub open spec fn open_policy() -> VerificationPolicy {
    VerificationPolicy { allow_unsigned: true, current_sequence: None }
}

proof fn lemma_attested_checks_run(v: ReceiptView, a: crate::receipt::AttestationView)
    requires
        body_enc(v).len() <= crate::receipt::body_hash_limit(),
        body_enc(v).len() + 32 + crate::canon::attestation_enc(Some(a)).len() <= crate::receipt::sealed_hash_limit(),
    ensures
        !verify_receipt_error(attested_view(v, a)),
{
    assert(body_enc(attested_view(v, a)) =~= body_enc(v));
}

/// The fixture receipt signed with the fixture key, and its vector: a valid
/// signature from a trusted key.
fn valid_signed_vector(
    base: &ReceiptEnvelope,
    key: TrustedIssuerKey,
    signing_key: &Ed25519SigningKey,
    key_id: PublicKeyId,
) -> (r: Result<(ReceiptEnvelope, KernelVerificationVector)>)
    requires
        sealed_unsigned_ok(base@),
        key.issuer_id@ == base@.issuer_id,
        key.public_key_id@ == key_id@,
        key.public_key.0@ == ed25519_public_spec(signing_key.0@),
        ed25519_key_valid(key.public_key.0@),
        bounded_ok(key_id@, 64),
        base@.parent_hashes.len() == 0,
    ensures
        r matches Ok((signed, v)) && {
            &&& receipt_view_ok(signed@)
            &&& signed@.parent_hashes.len() == 0
            &&& signed.attestation is Some
            &&& vector_is(v, "valid_signed_receipt"@, 1, true, None, ReceiptStatus::SignatureValid, VerificationCode::SignatureValid, true)
            &&& kernel_vector_holds(v)
        },
{
    proof {
        lemma_body_len(base@);
    }
    let signed = attest_receipt(*base, SignatureProfileId::InkSigEd25519V1, key_id, signing_key, None)?;
    let ghost a = attestation_for(base@, SignatureProfileId::InkSigEd25519V1, key_id@, signing_key.0@, None);
    proof {
        assert(signed@ == attested_view(base@, a));
        lemma_envelope_view_ok(signed);
        lemma_attested_receipt_verifies(base@, key_id@, signing_key.0@, None, seq![key], open_policy());
        assert forall|rep: VerificationReport| #[trigger] core_report_ok(rep, signed@) implies rep.valid by {
            lemma_attested_receipt_hashes_verify(base@, a, rep);
        }
        lemma_attested_checks_run(base@, a);
    }
    let keys = vec![key];
    assert(keys@ == seq![key]);
    let v = kernel_vector(
        "valid_signed_receipt", &signed, keys, true, None,
        ReceiptStatus::SignatureValid, VerificationCode::SignatureValid, true,
    )?;
    assert(kernel_vector_holds(v)) by {
        reveal(kernel_vector_holds);
    }
    Ok((signed, v))
}

/// The vectors of the signed receipt altered: a changed signature, a wrong
/// trusted key, a changed claim hash and a changed schema hash.
fn tampered_vectors(signed: &ReceiptEnvelope, key: TrustedIssuerKey) -> (r: Result<Vec<KernelVerificationVector>>)
    requires
        receipt_view_ok(signed@),
        signed.attestation is Some,
        signed@.parent_hashes.len() == 0,
    ensures
        r matches Ok(vs) && {
            &&& vs@.len() == 4
            &&& vector_is(vs@[0], "invalid_signature"@, 1, true, None, ReceiptStatus::SignatureInvalid, VerificationCode::InvalidSignature, false)
            &&& vector_is(vs@[1], "wrong_issuer_key"@, 1, true, None, ReceiptStatus::SignatureInvalid, VerificationCode::InvalidSignature, true)
            &&& vector_is(vs@[2], "modified_receipt_body"@, 1, true, None, ReceiptStatus::SignatureInvalid, VerificationCode::SignedMessageHashMismatch, false)
            &&& vector_is(vs@[3], "modified_schema_hash"@, 1, true, None, ReceiptStatus::SignatureInvalid, VerificationCode::SignedMessageHashMismatch, false)
            &&& forall|i: int| 0 <= i < 4 ==> #[trigger] kernel_vector_encodes(vs@[i])
        },
{
    let attestation = match signed.attestation {
        Some(x) => x,
        None => return Err(Error::InvalidAttestationBinding),
    };
    let mut signature = attestation.signature.0;
    signature.set(0, signature[0] ^ 0x55);
    let changed = AttestationEnvelope { signature: Ed25519Signature::new(signature), ..attestation };
    let invalid_signature = ReceiptEnvelope { attestation: Some(changed), ..*signed };
    proof {
        lemma_envelope_view_ok(invalid_signature);
    }
    let invalid = kernel_vector(
        "invalid_signature", &invalid_signature, vec![key], true, None,
        ReceiptStatus::SignatureInvalid, VerificationCode::InvalidSignature, false,
    )?;

    let wrong_key = TrustedIssuerKey { public_key: Ed25519PublicKey::new([9u8; 32]), ..key };
    let wrong = kernel_vector(
        "wrong_issuer_key", signed, vec![wrong_key], true, None,
        ReceiptStatus::SignatureInvalid, VerificationCode::InvalidSignature, true,
    )?;

    let modified_body = ReceiptEnvelope { claim_hash: Digest::new([0xABu8; 32]), ..*signed };
    proof {
        lemma_envelope_view_ok(modified_body);
    }
    let body = kernel_vector(
        "modified_receipt_body", &modified_body, vec![key], true, None,
        ReceiptStatus::SignatureInvalid, VerificationCode::SignedMessageHashMismatch, false,
    )?;

    let modified_schema = ReceiptEnvelope { schema_hash: Digest::new([0xCDu8; 32]), ..*signed };
    proof {
        lemma_envelope_view_ok(modified_schema);
    }
    let schema = kernel_vector(
        "modified_schema_hash", &modified_schema, vec![key], true, None,
        ReceiptStatus::SignatureInvalid, VerificationCode::SignedMessageHashMismatch, false,
    )?;
    let vs = vec![invalid, wrong, body, schema];
    assert(kernel_vector_encodes(vs@[0])) by {
        reveal(kernel_vector_encodes);
    }
    assert(kernel_vector_encodes(vs@[1])) by {
        reveal(kernel_vector_encodes);
    }
    assert(kernel_vector_encodes(vs@[2])) by {
        reveal(kernel_vector_encodes);
    }
    assert(kernel_vector_encodes(vs@[3])) by {
        reveal(kernel_vector_encodes);
    }
    Ok(vs)
}

/// The vectors of the fixture receipt without attestation: valid where
/// unsigned receipts are allowed, missing its signature where not.
fn unsigned_vectors(base: &ReceiptEnvelope) -> (r: Result<Vec<KernelVerificationVector>>)
    requires
        sealed_unsigned_ok(base@),
        base@.parent_hashes.len() == 0,
    ensures
        r matches Ok(vs) && {
            &&& vs@.len() == 2
            &&& vector_is(vs@[0], "valid_unsigned_receipt"@, 0, true, None, ReceiptStatus::StructuralValidUnsigned, VerificationCode::StructuralValidUnsigned, true)
            &&& vector_is(vs@[1], "missing_signature"@, 0, false, None, ReceiptStatus::SignatureMissing, VerificationCode::SignatureMissing, true)
            &&& kernel_vector_holds(vs@[0])
            &&& kernel_vector_holds(vs@[1])
        },
{
    proof {
        crate::laws::lemma_unsigned_receipt_outcome(base@, Seq::empty(), open_policy());
        crate::laws::lemma_unsigned_receipt_outcome(base@, Seq::empty(), VerificationPolicy { allow_unsigned: false, current_sequence: None });
    }
    let none: Vec<TrustedIssuerKey> = Vec::new();
    let unsigned = kernel_vector(
        "valid_unsigned_receipt", base, none, true, None,
        ReceiptStatus::StructuralValidUnsigned, VerificationCode::StructuralValidUnsigned, true,
    )?;
    assert(kernel_vector_holds(unsigned)) by {
        reveal(kernel_vector_holds);
    }
    let none: Vec<TrustedIssuerKey> = Vec::new();
    let missing = kernel_vector(
        "missing_signature", base, none, false, None,
        ReceiptStatus::SignatureMissing, VerificationCode::SignatureMissing, true,
    )?;
    assert(kernel_vector_holds(missing)) by {
        reveal(kernel_vector_holds);
    }
    Ok(vec![unsigned, missing])
}

/// The fixture receipt with an attestation of an unknown profile, and its
/// vector: the profile is reported as unsupported.
fn unsupported_vector(base: &ReceiptEnvelope, key: TrustedIssuerKey, key_id: PublicKeyId) -> (r: Result<KernelVerificationVector>)
    requires
        sealed_unsigned_ok(base@),
        bounded_ok(key_id@, 64),
        base@.parent_hashes.len() == 0,
    ensures
        r matches Ok(v) && vector_is(v, "unsupported_algorithm"@, 1, true, None, ReceiptStatus::SignatureUnsupported, VerificationCode::SignatureUnsupported, true)
            && kernel_vector_holds(v),
{
    let attestation = AttestationEnvelope {
        profile_id: SignatureProfileId::Unknown(0x44),
        issuer_id: base.issuer_id,
        public_key_id: key_id,
        signature: Ed25519Signature::new([7u8; 64]),
        signed_message_hash: Digest::new([8u8; 32]),
        sequence: base.sequence,
        validity_window: None,
    };
    let receipt = base.with_attestation(attestation)?;
    proof {
        assert(receipt@ == attested_view(base@, attestation@));
        lemma_envelope_view_ok(receipt);
        assert forall|rep: VerificationReport| #[trigger] core_report_ok(rep, receipt@) implies rep.valid by {
            lemma_attested_receipt_hashes_verify(base@, attestation@, rep);
        }
        lemma_attested_checks_run(base@, attestation@);
    }
    let v = kernel_vector(
        "unsupported_algorithm", &receipt, vec![key], true, None,
        ReceiptStatus::SignatureUnsupported, VerificationCode::SignatureUnsupported, true,
    )?;
    assert(kernel_vector_holds(v)) by {
        reveal(kernel_vector_holds);
    }
    Ok(v)
}

/// The fixture receipt with an attestation that signs the hash of `message`
/// in place of the receipt's signed message.
fn misdirected_vector(
    name: &'static str,
    message: &str,
    base: &ReceiptEnvelope,
    key: TrustedIssuerKey,
    signing_key: &Ed25519SigningKey,
    key_id: PublicKeyId,
) -> (r: Result<KernelVerificationVector>)
    requires
        sealed_unsigned_ok(base@),
        bounded_ok(key_id@, 64),
        base@.parent_hashes.len() == 0,
    ensures
        r matches Ok(v) && vector_is(v, name@, 1, true, None, ReceiptStatus::SignatureInvalid, VerificationCode::SignedMessageHashMismatch, true)
            && kernel_vector_encodes(v),
{
    let hash = crate::hash::hash_bytes(HashAlgorithm::Sha256, message.as_bytes())?;
    let attestation = AttestationEnvelope {
        profile_id: SignatureProfileId::InkSigEd25519V1,
        issuer_id: base.issuer_id,
        public_key_id: key_id,
        signature: Ed25519Signature::new(crate::crypto::ed25519_sign(&signing_key.0, hash.0.as_slice())),
        signed_message_hash: hash,
        sequence: base.sequence,
        validity_window: None,
    };
    let receipt = base.with_attestation(attestation)?;
    proof {
        assert(receipt@ == attested_view(base@, attestation@));
        lemma_envelope_view_ok(receipt);
    }
    let v = kernel_vector(
        name, &receipt, vec![key], true, None,
        ReceiptStatus::SignatureInvalid, VerificationCode::SignedMessageHashMismatch, true,
    )?;
    assert(kernel_vector_encodes(v)) by {
        reveal(kernel_vector_encodes);
    }
    Ok(v)
}

/// The fixture receipt signed with a window that ends before the sequence the
/// policy checks against, and its vector: the attestation has expired.
fn expired_vector(
    base: &ReceiptEnvelope,
    key: TrustedIssuerKey,
    signing_key: &Ed25519SigningKey,
    key_id: PublicKeyId,
) -> (r: Result<KernelVerificationVector>)
    requires
        sealed_unsigned_ok(base@),
        key.issuer_id@ == base@.issuer_id,
        key.public_key_id@ == key_id@,
        bounded_ok(key_id@, 64),
        base@.parent_hashes.len() == 0,
    ensures
        r matches Ok(v) && vector_is(v, "expired_attestation"@, 1, true, Some(9), ReceiptStatus::SignatureExpired, VerificationCode::SignatureExpired, true)
            && kernel_vector_holds(v),
{
    let window = ValidityWindow::new(1, 5);
    proof {
        lemma_body_len(base@);
    }
    let receipt = attest_receipt(*base, SignatureProfileId::InkSigEd25519V1, key_id, signing_key, Some(window))?;
    let ghost a = attestation_for(base@, SignatureProfileId::InkSigEd25519V1, key_id@, signing_key.0@, Some(window));
    proof {
        assert(receipt@ == attested_view(base@, a));
        lemma_envelope_view_ok(receipt);
        assert forall|rep: VerificationReport| #[trigger] core_report_ok(rep, receipt@) implies rep.valid by {
            lemma_attested_receipt_hashes_verify(base@, a, rep);
        }
        lemma_attested_checks_run(base@, a);
    }
    let v = kernel_vector(
        "expired_attestation", &receipt, vec![key], true, Some(9),
        ReceiptStatus::SignatureExpired, VerificationCode::SignatureExpired, true,
    )?;
    assert(kernel_vector_holds(v)) by {
        reveal(kernel_vector_holds);
    }
    Ok(v)
}

/// Whether verification vectors are the kernel's: the valid signed receipt,
/// the unsigned receipt allowed and refused, the signed receipt with a changed
/// signature, under a wrong key, with a changed claim hash and schema hash, an
/// unknown profile, signatures over a foreign hash and a wrong domain
/// separator, and an expired attestation; each with its expectations. Every
/// vector's bytes encode a receipt, and for the valid, unsigned, refused,
/// unknown-profile and expired ones, verifying that receipt gives what the
/// vector expects.
pub open spec fn kernel_vectors_ok(vs: Seq<KernelVerificationVector>) -> bool {
    &&& vs.len() == 11
    &&& vector_is(vs[0], "valid_signed_receipt"@, 1, true, None, ReceiptStatus::SignatureValid, VerificationCode::SignatureValid, true)
    &&& vector_is(vs[1], "valid_unsigned_receipt"@, 0, true, None, ReceiptStatus::StructuralValidUnsigned, VerificationCode::StructuralValidUnsigned, true)
    &&& vector_is(vs[2], "missing_signature"@, 0, false, None, ReceiptStatus::SignatureMissing, VerificationCode::SignatureMissing, true)
    &&& vector_is(vs[3], "invalid_signature"@, 1, true, None, ReceiptStatus::SignatureInvalid, VerificationCode::InvalidSignature, false)
    &&& vector_is(vs[4], "wrong_issuer_key"@, 1, true, None, ReceiptStatus::SignatureInvalid, VerificationCode::InvalidSignature, true)
    &&& vector_is(vs[5], "modified_receipt_body"@, 1, true, None, ReceiptStatus::SignatureInvalid, VerificationCode::SignedMessageHashMismatch, false)
    &&& vector_is(vs[6], "modified_schema_hash"@, 1, true, None, ReceiptStatus::SignatureInvalid, VerificationCode::SignedMessageHashMismatch, false)
    &&& vector_is(vs[7], "unsupported_algorithm"@, 1, true, None, ReceiptStatus::SignatureUnsupported, VerificationCode::SignatureUnsupported, true)
    &&& vector_is(vs[8], "noncanonical_signed_payload"@, 1, true, None, ReceiptStatus::SignatureInvalid, VerificationCode::SignedMessageHashMismatch, true)
    &&& vector_is(vs[9], "signature_from_wrong_domain_separator"@, 1, true, None, ReceiptStatus::SignatureInvalid, VerificationCode::SignedMessageHashMismatch, true)
    &&& vector_is(vs[10], "expired_attestation"@, 1, true, Some(9), ReceiptStatus::SignatureExpired, VerificationCode::SignatureExpired, true)
    &&& forall|i: int| 0 <= i < vs.len() ==> #[trigger] kernel_vector_encodes(vs[i])
    &&& kernel_vector_holds(vs[0])
    &&& kernel_vector_holds(vs[1])
    &&& kernel_vector_holds(vs[2])
    &&& kernel_vector_holds(vs[7])
    &&& kernel_vector_holds(vs[10])
}

/// The kernel's verification vectors, built from one fixture receipt and key.
pub fn kernel_verification_vectors() -> (vs: Vec<KernelVerificationVector>)
    ensures
        kernel_vectors_ok(vs@),
{
    let (base, key, signing_key, key_id) = match seeded_signed_fixture() {
        Ok(f) => f,
        Err(_) => vstd::pervasive::unreached(),
    };
    let (signed, valid) = match valid_signed_vector(&base, key, &signing_key, key_id) {
        Ok(x) => x,
        Err(_) => vstd::pervasive::unreached(),
    };
    let mut unsigned = match unsigned_vectors(&base) {
        Ok(x) => x,
        Err(_) => vstd::pervasive::unreached(),
    };
    let mut tampered = match tampered_vectors(&signed, key) {
        Ok(x) => x,
        Err(_) => vstd::pervasive::unreached(),
    };
    let unsupported = match unsupported_vector(&base, key, key_id) {
        Ok(x) => x,
        Err(_) => vstd::pervasive::unreached(),
    };
    let noncanonical = match misdirected_vector("noncanonical_signed_payload", "NONCANONICAL", &base, key, &signing_key, key_id) {
        Ok(x) => x,
        Err(_) => vstd::pervasive::unreached(),
    };
    let wrong_domain = match misdirected_vector(
        "signature_from_wrong_domain_separator", "WRONG-DOMAIN-SEPARATOR", &base, key, &signing_key, key_id,
    ) {
        Ok(x) => x,
        Err(_) => vstd::pervasive::unreached(),
    };
    let expired = match expired_vector(&base, key, &signing_key, key_id) {
        Ok(x) => x,
        Err(_) => vstd::pervasive::unreached(),
    };
    proof {
        lemma_holding_vector_encodes(valid);
        lemma_holding_vector_encodes(unsigned@[0]);
        lemma_holding_vector_encodes(unsigned@[1]);
        lemma_holding_vector_encodes(unsupported);
        lemma_holding_vector_encodes(expired);
    }
    let ghost u = unsigned@;
    let ghost t = tampered@;
    let mut vectors: Vec<KernelVerificationVector> = Vec::new();
    vectors.push(valid);
    vectors.append(&mut unsigned);
    vectors.append(&mut tampered);
    vectors.push(unsupported);
    vectors.push(noncanonical);
    vectors.push(wrong_domain);
    vectors.push(expired);
    proof {
        let vs = vectors@;
        assert(vs[1] == u[0] && vs[2] == u[1]);
        assert(vs[3] == t[0] && vs[4] == t[1] && vs[5] == t[2] && vs[6] == t[3]);
        assert forall|i: int| 0 <= i < vs.len() implies #[trigger] kernel_vector_encodes(vs[i]) by {
            if 3 <= i < 7 {
                assert(kernel_vector_encodes(t[i - 3]));
            }
        }
    }
    vectors
}

/// The text of a signed artifact in JSON form, which the decoder refuses.
pub open spec fn json_artifact_text() -> Seq<char> {
    "{\"schema\":\"ink.receipt.v2\"}"@
}

/// The decoder refuses the JSON artifact text: it does not start with the
/// receipt magic.
proof fn lemma_json_artifact_refused()
    ensures
        !crate::decode::has_magic(vstd::utf8::encode_utf8(json_artifact_text())),
{
    reveal_strlit("{\"schema\":\"ink.receipt.v2\"}");
    vstd::string::is_ascii_spec_bytes("{\"schema\":\"ink.receipt.v2\"}");
    let b = vstd::utf8::encode_utf8(json_artifact_text());
    assert(b[0] == 123u8);
    assert(b.subrange(0, 4)[0] != crate::canon::RECEIPT_MAGIC@[0]);
}

/// Decoding the JSON artifact text is refused as an invalid encoding.
proof fn lemma_json_artifact_decode_refused()
    ensures
        parse_receipt(vstd::utf8::encode_utf8(json_artifact_text())) == Err::<ReceiptView, Error>(Error::InvalidEncoding),
{
    lemma_json_artifact_refused();
}

/// The decode vectors: the minimal receipt's encoding without its last byte,
/// and a JSON document in place of a receipt; both refused as undecodable.
#[verifier::rlimit(40)]
pub fn kernel_decode_vectors() -> (vs: Vec<KernelDecodeVector>)
    ensures
        vs@.len() == 2,
        vs@[0].name@ == "truncated_signature"@,
        vs@[0].expected_error@ == "DECODE_ERROR"@,
        exists|rv: ReceiptView| sealed_unsigned_ok(rv)
            && #[trigger] receipt_enc(rv).len() > 0
            && vs@[0].receipt_bytes_hex@ == hex_lower(receipt_enc(rv).drop_last()),
        vs@[1].name@ == "json_signed_artifact_rejected"@,
        vs@[1].expected_error@ == "DECODE_ERROR"@,
        vs@[1].receipt_bytes_hex@ == hex_lower(vstd::utf8::encode_utf8(json_artifact_text())),
        parse_receipt(vstd::utf8::encode_utf8(json_artifact_text())) == Err::<ReceiptView, Error>(Error::InvalidEncoding),
{
    proof {
        lemma_json_artifact_decode_refused();
    }
    let (receipt, _, _) = match minimal_fixture() {
        Ok(f) => f,
        Err(_) => vstd::pervasive::unreached(),
    };
    proof {
        lemma_receipt_len(receipt@);
        lemma_body_len(receipt@);
    }
    let mut buffer: Vec<u8> = vec![0u8; 512];
    let len = match crate::canon::encode_receipt(&receipt, buffer.as_mut_slice()) {
        Ok(n) => n,
        Err(_) => vstd::pervasive::unreached(),
    };
    let all: &[u8] = buffer.as_slice();
    let truncated: &[u8] = &all[0..len - 1];
    assert(truncated@ =~= receipt_enc(receipt@).drop_last());
    let json: &str = "{\"schema\":\"ink.receipt.v2\"}";
    let first = KernelDecodeVector {
        name: "truncated_signature",
        receipt_bytes_hex: crate::codec::hex_encode(truncated),
        expected_error: "DECODE_ERROR",
    };
    let second = KernelDecodeVector {
        name: "json_signed_artifact_rejected",
        receipt_bytes_hex: crate::codec::hex_encode(json.as_bytes()),
        expected_error: "DECODE_ERROR",
    };
    vec![first, second]
}

} // verus!
