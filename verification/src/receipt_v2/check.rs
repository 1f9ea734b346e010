use vstd::prelude::*;
use vstd::string::StringSliceAdditionalSpecFns;
use crate::bytes::str_eq;
use crate::codec::hex_lower;
use crate::crypto::{ed25519_key_valid, ed25519_verify_spec, sha256_spec};
use crate::receipt_v2::canonical::{canonical_without, canonicalize_without};
use crate::receipt_v2::json::{
    DigestJson, JsonValue, ReceiptJson, RevocationListJson, TrustAuthorityJson, TrustRegistryJson, TrustedIssuerJson,
    VerificationCheck,
};
use crate::receipt_v2::normalize::{decode_fixed, fixed_error, fixed_of};
use crate::receipt_v2::{
    expected_text, fails_as, or_else, owned_text, ErrorView, ReceiptV2Error, Result, MANIFEST_SCHEMA_V2,
    RECEIPT_ENCODING_JSON_CANONICAL_V1, RECEIPT_ENCODING_TLV_V1_LEGACY, RECEIPT_ENCODING_TLV_V2,
    RECEIPT_SCHEMA_V2, VERIFICATION_REPORT_SCHEMA_V1,
};
use crate::receipt_v2::json::{ControlsFile, ManifestJson, VerificationReportJson, VerifyPolicyJson};
use crate::receipt_v2::normalize::{
    after_model_error, digest_of_text, model_json_error, model_matches, payload_matches, reason_slots, receipt_payload_from_json,
};
use crate::model_waist::{model_error, ModelWaist};
use crate::receipt_v2::hashing::{
    controls_transcript, evidence_transcript, hash_controls_summary, hash_evidence_summary,
    hash_manifest, manifest_hash_spec, normalize_controls, observation_matches, manifest_error, controls_error,
};
use crate::receipt_v2::projection::{
    lemma_projection_verifies, project_v2_receipt_to_kernel, receipt_digest_for_encoding, receipt_digest_spec,
};
use crate::trust::VerificationPolicy;
use crate::legacy::policy::ReasonCodeSlot;
use crate::legacy::receipt::{payload_error, ReceiptPayload};
use crate::controls::ControlObservation;
use crate::types::Sha256Digest;

verus! {

/// The JSON form of a digest: `sha-256` and its lowercase hex text.
pub fn digest_json(value: &Sha256Digest) -> (r: DigestJson)
    ensures
        r.algorithm@ == "sha-256"@,
        r.digest@ == hex_lower(value@),
{
    DigestJson { algorithm: owned_text("sha-256"), digest: crate::codec::hex_encode(value.0.as_slice()) }
}

/// The status text of a check: `pass` or `fail`.
pub open spec fn pass_fail(valid: bool) -> Seq<char> {
    if valid { "pass"@ } else { "fail"@ }
}

/// A check that passed or failed, with the code for its outcome.
pub fn binary_check(id: &str, valid: bool, pass_code: &str, fail_code: &str) -> (r: VerificationCheck)
    ensures
        r.id@ == id@,
        r.status@ == pass_fail(valid),
        r.reason_code@ == (if valid { pass_code@ } else { fail_code@ }),
{
    VerificationCheck {
        id: owned_text(id),
        status: if valid { owned_text("pass") } else { owned_text("fail") },
        reason_code: if valid { owned_text(pass_code) } else { owned_text(fail_code) },
    }
}

/// A check that was not performed, with the reason.
pub fn skipped_check(id: &str, reason_code: &str) -> (r: VerificationCheck)
    ensures
        r.id@ == id@,
        r.status@ == "not_performed"@,
        r.reason_code@ == reason_code@,
{
    VerificationCheck { id: owned_text(id), status: owned_text("not_performed"), reason_code: owned_text(reason_code) }
}

/// Whether a registry entry is trusted: in a registry of the second version,
/// a receipt-signing key that is active or retired; otherwise an active key.
pub open spec fn entry_trusted(e: TrustedIssuerJson, v2: bool) -> bool {
    if v2 {
        &&& e.usage matches Some(u) && u@ == "receipt_signing"@
        &&& (e.status@ == "active"@ || e.status@ == "retired"@)
    } else {
        e.status@ == "active"@
    }
}

/// The first trusted registry entry for a key, under a given issuer name
/// where one is given.
pub open spec fn first_issuer(entries: Seq<TrustedIssuerJson>, key_id: Seq<char>, name: Option<Seq<char>>, v2: bool) -> Option<TrustedIssuerJson>
    decreases entries.len(),
{
    if entries.len() == 0 {
        None
    } else if entries[0].key_id@ == key_id && entry_trusted(entries[0], v2)
        && (name matches Some(n) ==> entries[0].issuer_name@ == n) {
        Some(entries[0])
    } else {
        first_issuer(entries.drop_first(), key_id, name, v2)
    }
}

/// The first trusted entry of a registry, if there is a registry; entries are
/// read as the registry's version says.
pub open spec fn registry_issuer(registry: Option<TrustRegistryJson>, key_id: Seq<char>, name: Option<Seq<char>>) -> Option<TrustedIssuerJson> {
    match registry {
        Some(reg) => first_issuer(reg.issuers@, key_id, name, reg.schema@ == crate::receipt_v2::TRUST_REGISTRY_SCHEMA_V2@),
        None => None,
    }
}

/// The first active trust authority of a registry with the key `key_id`.
pub open spec fn first_authority(authorities: Seq<TrustAuthorityJson>, key_id: Seq<char>) -> Option<TrustAuthorityJson>
    decreases authorities.len(),
{
    if authorities.len() == 0 {
        None
    } else if authorities[0].key_id@ == key_id && authorities[0].state@ == "active"@ {
        Some(authorities[0])
    } else {
        first_authority(authorities.drop_first(), key_id)
    }
}

/// The active trust authority of a registry with the key `key_id`, if there is
/// a registry.
pub open spec fn registry_authority(registry: Option<TrustRegistryJson>, key_id: Seq<char>) -> Option<TrustAuthorityJson> {
    match registry {
        Some(reg) => first_authority(reg.trust_authorities@, key_id),
        None => None,
    }
}

/// The first active trust authority with the key `key_id`.
pub fn find_authority<'a>(registry: Option<&'a TrustRegistryJson>, key_id: &str) -> (r: Option<&'a TrustAuthorityJson>)
    ensures
        r matches Some(a) ==> registry_authority(opt_registry(registry), key_id@) == Some(*a),
        r is None ==> registry_authority(opt_registry(registry), key_id@) is None,
{
    let reg = match registry {
        Some(reg) => reg,
        None => return None,
    };
    let entries = &reg.trust_authorities;
    let mut i: usize = 0;
    assert(entries@.subrange(0, entries@.len() as int) =~= entries@);
    while i < entries.len()
        invariant
            i <= entries@.len(),
            registry == Some(reg),
            entries@ == reg.trust_authorities@,
            first_authority(entries@, key_id@) == first_authority(entries@.subrange(i as int, entries@.len() as int), key_id@),
        decreases entries@.len() - i,
    {
        let ghost rest = entries@.subrange(i as int, entries@.len() as int);
        assert(rest[0] == entries@[i as int]);
        assert(rest.drop_first() =~= entries@.subrange(i + 1, entries@.len() as int));
        let e = &entries[i];
        if str_eq(e.key_id.as_str(), key_id) && str_eq(e.state.as_str(), "active") {
            return Some(e);
        }
        i = i + 1;
    }
    assert(entries@.subrange(entries@.len() as int, entries@.len() as int) =~= Seq::<TrustAuthorityJson>::empty());
    None
}

/// The registry behind an optional reference.
pub open spec fn opt_registry(r: Option<&TrustRegistryJson>) -> Option<TrustRegistryJson> {
    match r {
        Some(x) => Some(*x),
        None => None,
    }
}

/// The text behind an optional string.
pub open spec fn opt_text(s: Option<&str>) -> Option<Seq<char>> {
    match s {
        Some(x) => Some(x@),
        None => None,
    }
}

/// The first trusted registry entry for a key, under a given issuer name
/// where one is given.
pub fn find_issuer<'a>(registry: Option<&'a TrustRegistryJson>, key_id: &str, name: Option<&str>) -> (r: Option<&'a TrustedIssuerJson>)
    ensures
        r matches Some(e) ==> registry_issuer(opt_registry(registry), key_id@, opt_text(name)) == Some(*e),
        r is None ==> registry_issuer(opt_registry(registry), key_id@, opt_text(name)) is None,
{
    let reg = match registry {
        Some(reg) => reg,
        None => return None,
    };
    let ghost nm = opt_text(name);
    let v2 = str_eq(reg.schema.as_str(), crate::receipt_v2::TRUST_REGISTRY_SCHEMA_V2);
    let entries = &reg.issuers;
    let mut i: usize = 0;
    assert(entries@.subrange(0, entries@.len() as int) =~= entries@);
    while i < entries.len()
        invariant
            i <= entries@.len(),
            nm == opt_text(name),
            registry == Some(reg),
            entries@ == reg.issuers@,
            v2 == (reg.schema@ == crate::receipt_v2::TRUST_REGISTRY_SCHEMA_V2@),
            first_issuer(entries@, key_id@, nm, v2) == first_issuer(entries@.subrange(i as int, entries@.len() as int), key_id@, nm, v2),
        decreases entries@.len() - i,
    {
        let ghost rest = entries@.subrange(i as int, entries@.len() as int);
        assert(rest[0] == entries@[i as int]);
        assert(rest.drop_first() =~= entries@.subrange(i + 1, entries@.len() as int));
        let e = &entries[i];
        let name_ok = match name {
            Some(n) => str_eq(e.issuer_name.as_str(), n),
            None => true,
        };
        assert(*e == entries@[i as int]);
        assert(name_ok == (nm matches Some(x) ==> e.issuer_name@ == x));
        let trusted = if v2 {
            let usage_ok = match &e.usage {
                Some(u) => str_eq(u.as_str(), "receipt_signing"),
                None => false,
            };
            usage_ok && (str_eq(e.status.as_str(), "active") || str_eq(e.status.as_str(), "retired"))
        } else {
            str_eq(e.status.as_str(), "active")
        };
        assert(trusted == entry_trusted(*e, v2));
        if str_eq(e.key_id.as_str(), key_id) && trusted && name_ok {
            assert(first_issuer(rest, key_id@, nm, v2) == Some(*e));
            return Some(e);
        }
        i = i + 1;
    }
    assert(entries@.subrange(entries@.len() as int, entries@.len() as int) =~= Seq::<TrustedIssuerJson>::empty());
    None
}

/// What checking a revocation list found: whether it was checked, whether the
/// issuer key passed, and the reason code.
#[derive(Clone, Copy, Debug)]
pub struct RevocationOutcome {
    pub checked: bool,
    pub ok: bool,
    pub code: &'static str,
}

/// A revocation outcome as plain values.
pub struct RevocationView {
    pub checked: bool,
    pub ok: bool,
    pub code: Seq<char>,
}

impl View for RevocationOutcome {
    type V = RevocationView;

    open spec fn view(&self) -> RevocationView {
        RevocationView { checked: self.checked, ok: self.ok, code: self.code@ }
    }
}

/// A checked list that refuses the issuer key for the given reason.
pub open spec fn refused(code: Seq<char>) -> RevocationView {
    RevocationView { checked: true, ok: false, code }
}

/// The Base64 text of the key that may sign a revocation list: an active
/// trust authority of the registry for the list's signer, else a trusted
/// registry key for it, else the pinned key or the receipt's own key where the
/// list is signed under the receipt's key; `None` where the signer is not
/// trusted.
pub open spec fn revocation_signer_text(list: RevocationListJson, registry: Option<TrustRegistryJson>, pinned: Option<Seq<char>>, receipt: ReceiptJson) -> Option<Seq<char>> {
    match registry_authority(registry, list.signing.key_id@) {
        Some(authority) => Some(authority.public_key@),
        None => match registry_issuer(registry, list.signing.key_id@, None) {
            Some(entry) => Some(entry.public_key@),
            None => if list.signing.key_id@ != receipt.signing.key_id@ {
                None
            } else {
                match pinned {
                    Some(p) => Some(p),
                    None => Some(receipt.issuer.public_key@),
                }
            },
        },
    }
}

/// Whether any revoked key is the receipt's signing key.
pub open spec fn key_revoked(list: RevocationListJson, key_id: Seq<char>) -> bool {
    exists|i: int| 0 <= i < list.revoked_keys@.len() && #[trigger] list.revoked_keys@[i].key_id@ == key_id
}

/// The outcome of checking a revocation list whose JSON form is `value`, or the
/// failure that stops the check.
pub open spec fn revocation_spec(
    list: RevocationListJson,
    value: JsonValue,
    registry: Option<TrustRegistryJson>,
    pinned: Option<Seq<char>>,
    receipt: ReceiptJson,
) -> core::result::Result<RevocationView, ErrorView> {
    match revocation_signer_text(list, registry, pinned, receipt) {
        None => Ok(refused("UNTRUSTED_REVOCATION_LIST_SIGNER"@)),
        Some(text) => match fixed_error(text, 32) {
            Some(e) => Err(e),
            None => {
                let digest = sha256_spec(canonical_without(value, "signing"@));
                if list.signing.payload_hash.algorithm@ != "sha-256"@ || list.signing.payload_hash.digest@ != hex_lower(digest) {
                    Ok(refused("REVOCATION_LIST_PAYLOAD_HASH_MISMATCH"@))
                } else if list.signing.algorithm@ != "Ed25519"@ {
                    Ok(refused("REVOCATION_LIST_UNSUPPORTED_SIGNATURE_ALGORITHM"@))
                } else {
                    match fixed_error(list.signing.signature@, 64) {
                        Some(e) => Err(e),
                        None => {
                            let key = fixed_of(text, 32)->Some_0;
                            let sig = fixed_of(list.signing.signature@, 64)->Some_0;
                            if !(ed25519_key_valid(key) && ed25519_verify_spec(key, digest, sig)) {
                                Ok(refused("REVOCATION_LIST_INVALID_SIGNATURE"@))
                            } else if key_revoked(list, receipt.signing.key_id@) {
                                Ok(refused("REVOKED_ISSUER_KEY"@))
                            } else {
                                Ok(RevocationView { checked: true, ok: true, code: "ISSUER_KEY_NOT_REVOKED"@ })
                            }
                        },
                    }
                }
            },
        },
    }
}

fn any_revoked(list: &RevocationListJson, key_id: &str) -> (r: bool)
    ensures
        r == key_revoked(*list, key_id@),
{
    let keys = &list.revoked_keys;
    let mut i: usize = 0;
    while i < keys.len()
        invariant
            i <= keys@.len(),
            keys@ == list.revoked_keys@,
            forall|j: int| 0 <= j < i ==> #[trigger] keys@[j].key_id@ != key_id@,
        decreases keys@.len() - i,
    {
        if str_eq(keys[i].key_id.as_str(), key_id) {
            return true;
        }
        i = i + 1;
    }
    false
}

fn refused_outcome(code: &'static str) -> (r: RevocationOutcome)
    ensures
        r@ == refused(code@),
{
    RevocationOutcome { checked: true, ok: false, code }
}

/// Checks a revocation list whose JSON form is `value`: that its signer is
/// trusted, that its payload hash is the hash of its canonical form without
/// its signature, that it is validly signed under Ed25519, and that the
/// receipt's key is not on it.
pub fn verify_revocations(
    list: &RevocationListJson,
    value: &JsonValue,
    trust_registry: Option<&TrustRegistryJson>,
    pinned_public_key: Option<&str>,
    receipt: &ReceiptJson,
) -> (r: Result<RevocationOutcome>)
    ensures
        match revocation_spec(*list, *value, opt_registry(trust_registry), opt_text(pinned_public_key), *receipt) {
            Ok(v) => r matches Ok(o) && o@ == v,
            Err(e) => r matches Err(x) && x@ == e,
        },
{
    let authority = find_authority(trust_registry, list.signing.key_id.as_str());
    let entry = find_issuer(trust_registry, list.signing.key_id.as_str(), None);
    let same_key = str_eq(list.signing.key_id.as_str(), receipt.signing.key_id.as_str());
    let key_text: &str = match authority {
        Some(a) => a.public_key.as_str(),
        None => match entry {
            Some(e) => e.public_key.as_str(),
            None => {
                if !same_key {
                    return Ok(refused_outcome("UNTRUSTED_REVOCATION_LIST_SIGNER"));
                }
                match pinned_public_key {
                    Some(p) => p,
                    None => receipt.issuer.public_key.as_str(),
                }
            },
        },
    };
    let signer_key = decode_fixed::<32>(key_text)?;
    let canonical = canonicalize_without(value, "signing");
    let digest = crate::digest::sha256(canonical.as_slice());
    let expected = digest_json(&digest);
    if !str_eq(list.signing.payload_hash.algorithm.as_str(), expected.algorithm.as_str())
        || !str_eq(list.signing.payload_hash.digest.as_str(), expected.digest.as_str())
    {
        return Ok(refused_outcome("REVOCATION_LIST_PAYLOAD_HASH_MISMATCH"));
    }
    if !str_eq(list.signing.algorithm.as_str(), "Ed25519") {
        return Ok(refused_outcome("REVOCATION_LIST_UNSUPPORTED_SIGNATURE_ALGORITHM"));
    }
    let signature = decode_fixed::<64>(list.signing.signature.as_str())?;
    let signature_valid = match crate::trust::verify_ed25519_message_hash_bytes(&digest.0, &signature, &signer_key) {
        Ok(v) => v,
        Err(_) => false,
    };
    if !signature_valid {
        return Ok(refused_outcome("REVOCATION_LIST_INVALID_SIGNATURE"));
    }
    if any_revoked(list, receipt.signing.key_id.as_str()) {
        return Ok(refused_outcome("REVOKED_ISSUER_KEY"));
    }
    Ok(RevocationOutcome { checked: true, ok: true, code: "ISSUER_KEY_NOT_REVOKED" })
}

/// The outcome of each check of a receipt verification.
#[derive(Clone, Copy, Debug)]
pub struct CheckResults {
    pub payload_hash_valid: bool,
    pub signature_valid: bool,
    pub trusted_issuer: bool,
    pub kernel_projection_valid: bool,
    pub manifest_present: bool,
    pub manifest_hash_valid: bool,
    pub evidence_summary_valid: bool,
    pub controls_present: bool,
    pub controls_summary_valid: bool,
    pub revocation: RevocationOutcome,
}

/// The code of a verification: the first failing check, in order of
/// precedence, or `VALID_RECEIPT`.
pub open spec fn report_code(c: CheckResults, policy: VerifyPolicyJson, encoding: Seq<char>) -> Seq<char> {
    if !c.payload_hash_valid {
        "PAYLOAD_DIGEST_MISMATCH"@
    } else if !c.signature_valid {
        "INVALID_SIGNATURE"@
    } else if !c.kernel_projection_valid {
        "KERNEL_PROJECTION_INVALID"@
    } else if policy.require_canonical_tlv_v2 && encoding != RECEIPT_ENCODING_TLV_V2@ {
        "VERIFY_ONLY_FORMAT_REJECTED"@
    } else if policy.require_trusted_issuer && !c.trusted_issuer {
        "UNTRUSTED_ISSUER"@
    } else if policy.require_revocation_check && !c.revocation.checked {
        "REVOCATION_CHECK_REQUIRED"@
    } else if c.revocation.checked && !c.revocation.ok {
        c.revocation.code@
    } else if c.manifest_present && policy.require_manifest_hash_match_when_manifest_present && !c.manifest_hash_valid {
        "MANIFEST_HASH_MISMATCH"@
    } else if c.manifest_present && policy.require_evidence_summary_match_when_manifest_present && !c.evidence_summary_valid {
        "EVIDENCE_SUMMARY_MISMATCH"@
    } else if c.controls_present && policy.require_controls_summary_match_when_controls_present && !c.controls_summary_valid {
        "CONTROLS_SUMMARY_MISMATCH"@
    } else {
        "VALID_RECEIPT"@
    }
}

/// A verification reported as `VALID_RECEIPT` passed every check that the
/// policy counts: the payload hash and the signature matched, the kernel
/// accepted the projection, the encoding was canonical where the policy asks
/// for it, the issuer was trusted where it asks for that, a revocation check
/// ran where required and found the key not revoked, and every supplied
/// manifest and control set matched where the policy asks. (A revocation
/// outcome that itself carried the code `VALID_RECEIPT` would be reported as
/// valid; no revocation check gives that code.)
pub proof fn lemma_valid_code_means_checks_passed(c: CheckResults, policy: VerifyPolicyJson, encoding: Seq<char>)
    requires
        report_code(c, policy, encoding) == "VALID_RECEIPT"@,
        c.revocation.code@ != "VALID_RECEIPT"@,
    ensures
        c.payload_hash_valid,
        c.signature_valid,
        c.kernel_projection_valid,
        policy.require_canonical_tlv_v2 ==> encoding == RECEIPT_ENCODING_TLV_V2@,
        policy.require_trusted_issuer ==> c.trusted_issuer,
        policy.require_revocation_check ==> c.revocation.checked,
        c.revocation.checked ==> c.revocation.ok,
        c.manifest_present && policy.require_manifest_hash_match_when_manifest_present ==> c.manifest_hash_valid,
        c.manifest_present && policy.require_evidence_summary_match_when_manifest_present ==> c.evidence_summary_valid,
        c.controls_present && policy.require_controls_summary_match_when_controls_present ==> c.controls_summary_valid,
{
    reveal_strlit("VALID_RECEIPT");
    reveal_strlit("PAYLOAD_DIGEST_MISMATCH");
    reveal_strlit("INVALID_SIGNATURE");
    reveal_strlit("KERNEL_PROJECTION_INVALID");
    reveal_strlit("VERIFY_ONLY_FORMAT_REJECTED");
    reveal_strlit("UNTRUSTED_ISSUER");
    reveal_strlit("REVOCATION_CHECK_REQUIRED");
    reveal_strlit("MANIFEST_HASH_MISMATCH");
    reveal_strlit("EVIDENCE_SUMMARY_MISMATCH");
    reveal_strlit("CONTROLS_SUMMARY_MISMATCH");
    assert("VALID_RECEIPT"@ != "PAYLOAD_DIGEST_MISMATCH"@) by {
        assert("VALID_RECEIPT"@[0] != "PAYLOAD_DIGEST_MISMATCH"@[0]);
    }
    assert("VALID_RECEIPT"@ != "INVALID_SIGNATURE"@) by {
        assert("VALID_RECEIPT"@[0] != "INVALID_SIGNATURE"@[0]);
    }
    assert("VALID_RECEIPT"@ != "KERNEL_PROJECTION_INVALID"@) by {
        assert("VALID_RECEIPT"@[0] != "KERNEL_PROJECTION_INVALID"@[0]);
    }
    assert("VALID_RECEIPT"@ != "VERIFY_ONLY_FORMAT_REJECTED"@) by {
        assert("VALID_RECEIPT"@[1] != "VERIFY_ONLY_FORMAT_REJECTED"@[1]);
    }
    assert("VALID_RECEIPT"@ != "UNTRUSTED_ISSUER"@) by {
        assert("VALID_RECEIPT"@[0] != "UNTRUSTED_ISSUER"@[0]);
    }
    assert("VALID_RECEIPT"@ != "REVOCATION_CHECK_REQUIRED"@) by {
        assert("VALID_RECEIPT"@[0] != "REVOCATION_CHECK_REQUIRED"@[0]);
    }
    assert("VALID_RECEIPT"@ != "MANIFEST_HASH_MISMATCH"@) by {
        assert("VALID_RECEIPT"@[0] != "MANIFEST_HASH_MISMATCH"@[0]);
    }
    assert("VALID_RECEIPT"@ != "EVIDENCE_SUMMARY_MISMATCH"@) by {
        assert("VALID_RECEIPT"@[0] != "EVIDENCE_SUMMARY_MISMATCH"@[0]);
    }
    assert("VALID_RECEIPT"@ != "CONTROLS_SUMMARY_MISMATCH"@) by {
        assert("VALID_RECEIPT"@[0] != "CONTROLS_SUMMARY_MISMATCH"@[0]);
    }
}

/// Picks the code of a verification.
pub fn decide_code(c: &CheckResults, policy: &VerifyPolicyJson, encoding: &str) -> (r: &'static str)
    ensures
        r@ == report_code(*c, *policy, encoding@),
{
    if !c.payload_hash_valid {
        "PAYLOAD_DIGEST_MISMATCH"
    } else if !c.signature_valid {
        "INVALID_SIGNATURE"
    } else if !c.kernel_projection_valid {
        "KERNEL_PROJECTION_INVALID"
    } else if policy.require_canonical_tlv_v2 && !str_eq(encoding, RECEIPT_ENCODING_TLV_V2) {
        "VERIFY_ONLY_FORMAT_REJECTED"
    } else if policy.require_trusted_issuer && !c.trusted_issuer {
        "UNTRUSTED_ISSUER"
    } else if policy.require_revocation_check && !c.revocation.checked {
        "REVOCATION_CHECK_REQUIRED"
    } else if c.revocation.checked && !c.revocation.ok {
        c.revocation.code
    } else if c.manifest_present && policy.require_manifest_hash_match_when_manifest_present && !c.manifest_hash_valid {
        "MANIFEST_HASH_MISMATCH"
    } else if c.manifest_present && policy.require_evidence_summary_match_when_manifest_present && !c.evidence_summary_valid {
        "EVIDENCE_SUMMARY_MISMATCH"
    } else if c.controls_present && policy.require_controls_summary_match_when_controls_present && !c.controls_summary_valid {
        "CONTROLS_SUMMARY_MISMATCH"
    } else {
        "VALID_RECEIPT"
    }
}

/// A check as its identifier, status and reason code.
pub open spec fn check_view(c: VerificationCheck) -> (Seq<char>, Seq<char>, Seq<char>) {
    (c.id@, c.status@, c.reason_code@)
}

/// A check that passed or failed, as plain values.
pub open spec fn binary_view(id: Seq<char>, valid: bool, pass_code: Seq<char>, fail_code: Seq<char>) -> (Seq<char>, Seq<char>, Seq<char>) {
    (id, pass_fail(valid), if valid { pass_code } else { fail_code })
}

/// Whether an encoding is one that may be verified but not issued.
pub open spec fn verify_only_encoding(encoding: Seq<char>) -> bool {
    encoding != RECEIPT_ENCODING_TLV_V2@ && (encoding == RECEIPT_ENCODING_TLV_V1_LEGACY@ || encoding == RECEIPT_ENCODING_JSON_CANONICAL_V1@)
}

/// The first five checks: payload hash, signature, issuer trust, revocation
/// and kernel projection.
pub open spec fn head_checks(c: CheckResults) -> Seq<(Seq<char>, Seq<char>, Seq<char>)> {
    seq![
        binary_view("payload.hash"@, c.payload_hash_valid, "RECEIPT_PAYLOAD_HASH_MATCH"@, "PAYLOAD_DIGEST_MISMATCH"@),
        binary_view("receipt.signature"@, c.signature_valid, "RECEIPT_SIGNATURE_VALID"@, "INVALID_SIGNATURE"@),
        binary_view("issuer.trust"@, c.trusted_issuer, "ISSUER_KEY_TRUSTED"@, "UNTRUSTED_ISSUER"@),
        if c.revocation.checked {
            binary_view("issuer.revocation"@, c.revocation.ok, "ISSUER_KEY_NOT_REVOKED"@, c.revocation.code@)
        } else {
            ("issuer.revocation"@, "not_performed"@, c.revocation.code@)
        },
        binary_view("kernel.projection"@, c.kernel_projection_valid, "KERNEL_PROJECTION_VALID"@, "KERNEL_PROJECTION_INVALID"@),
    ]
}

/// The manifest and evidence checks, or why they were not performed.
pub open spec fn manifest_checks(c: CheckResults) -> Seq<(Seq<char>, Seq<char>, Seq<char>)> {
    if c.manifest_present {
        seq![
            binary_view("manifest.hash"@, c.manifest_hash_valid, "MANIFEST_HASH_MATCH"@, "MANIFEST_HASH_MISMATCH"@),
            binary_view("evidence.summary"@, c.evidence_summary_valid, "EVIDENCE_SUMMARY_MATCH"@, "EVIDENCE_SUMMARY_MISMATCH"@),
        ]
    } else {
        seq![
            ("manifest.hash"@, "not_performed"@, "MANIFEST_NOT_SUPPLIED"@),
            ("evidence.summary"@, "not_performed"@, "MANIFEST_NOT_SUPPLIED"@),
        ]
    }
}

/// The controls check, or why it was not performed.
pub open spec fn controls_checks(c: CheckResults) -> Seq<(Seq<char>, Seq<char>, Seq<char>)> {
    if c.controls_present {
        seq![binary_view("controls.summary"@, c.controls_summary_valid, "CONTROLS_SUMMARY_MATCH"@, "CONTROLS_SUMMARY_MISMATCH"@)]
    } else {
        seq![("controls.summary"@, "not_performed"@, "CONTROLS_NOT_SUPPLIED"@)]
    }
}

/// For a verify-only encoding, the policy's verdict on it; nothing otherwise.
pub open spec fn encoding_checks(policy: VerifyPolicyJson, encoding: Seq<char>) -> Seq<(Seq<char>, Seq<char>, Seq<char>)> {
    if verify_only_encoding(encoding) {
        seq![(
            "policy.encoding"@,
            pass_fail(!policy.require_canonical_tlv_v2),
            if policy.require_canonical_tlv_v2 { "VERIFY_ONLY_FORMAT_REJECTED"@ } else { "VERIFY_ONLY_FORMAT_ACCEPTED"@ },
        )]
    } else {
        Seq::empty()
    }
}

/// The checks a verification reports, in order: payload hash, signature,
/// issuer trust, revocation, kernel projection, manifest and evidence (or why
/// they were not performed), controls (likewise), and for a verify-only
/// encoding the policy's verdict on it.
pub open spec fn report_checks(c: CheckResults, policy: VerifyPolicyJson, encoding: Seq<char>) -> Seq<(Seq<char>, Seq<char>, Seq<char>)> {
    head_checks(c) + manifest_checks(c) + controls_checks(c) + encoding_checks(policy, encoding)
}

/// The views of a list of checks.
pub open spec fn checks_view(v: Seq<VerificationCheck>) -> Seq<(Seq<char>, Seq<char>, Seq<char>)> {
    v.map_values(|x: VerificationCheck| check_view(x))
}

fn push_check(checks: &mut Vec<VerificationCheck>, check: VerificationCheck)
    ensures
        checks_view(final(checks)@) == checks_view(old(checks)@).push(check_view(check)),
{
    let ghost before = checks@;
    checks.push(check);
    assert(checks_view(checks@) =~= checks_view(before).push(check_view(check)));
}

fn push_head_checks(checks: &mut Vec<VerificationCheck>, c: &CheckResults)
    ensures
        checks_view(final(checks)@) == checks_view(old(checks)@) + head_checks(*c),
{
    let ghost start = checks_view(checks@);
    push_check(checks, binary_check("payload.hash", c.payload_hash_valid, "RECEIPT_PAYLOAD_HASH_MATCH", "PAYLOAD_DIGEST_MISMATCH"));
    push_check(checks, binary_check("receipt.signature", c.signature_valid, "RECEIPT_SIGNATURE_VALID", "INVALID_SIGNATURE"));
    push_check(checks, binary_check("issuer.trust", c.trusted_issuer, "ISSUER_KEY_TRUSTED", "UNTRUSTED_ISSUER"));
    if c.revocation.checked {
        push_check(checks, binary_check("issuer.revocation", c.revocation.ok, "ISSUER_KEY_NOT_REVOKED", c.revocation.code));
    } else {
        push_check(checks, skipped_check("issuer.revocation", c.revocation.code));
    }
    push_check(checks, binary_check("kernel.projection", c.kernel_projection_valid, "KERNEL_PROJECTION_VALID", "KERNEL_PROJECTION_INVALID"));
    assert(checks_view(checks@) =~= start + head_checks(*c));
}

fn push_manifest_checks(checks: &mut Vec<VerificationCheck>, c: &CheckResults)
    ensures
        checks_view(final(checks)@) == checks_view(old(checks)@) + manifest_checks(*c),
{
    let ghost start = checks_view(checks@);
    if c.manifest_present {
        push_check(checks, binary_check("manifest.hash", c.manifest_hash_valid, "MANIFEST_HASH_MATCH", "MANIFEST_HASH_MISMATCH"));
        push_check(checks, binary_check("evidence.summary", c.evidence_summary_valid, "EVIDENCE_SUMMARY_MATCH", "EVIDENCE_SUMMARY_MISMATCH"));
    } else {
        push_check(checks, skipped_check("manifest.hash", "MANIFEST_NOT_SUPPLIED"));
        push_check(checks, skipped_check("evidence.summary", "MANIFEST_NOT_SUPPLIED"));
    }
    assert(checks_view(checks@) =~= start + manifest_checks(*c));
}

fn push_controls_checks(checks: &mut Vec<VerificationCheck>, c: &CheckResults)
    ensures
        checks_view(final(checks)@) == checks_view(old(checks)@) + controls_checks(*c),
{
    let ghost start = checks_view(checks@);
    if c.controls_present {
        push_check(checks, binary_check("controls.summary", c.controls_summary_valid, "CONTROLS_SUMMARY_MATCH", "CONTROLS_SUMMARY_MISMATCH"));
    } else {
        push_check(checks, skipped_check("controls.summary", "CONTROLS_NOT_SUPPLIED"));
    }
    assert(checks_view(checks@) =~= start + controls_checks(*c));
}

fn push_encoding_checks(checks: &mut Vec<VerificationCheck>, policy: &VerifyPolicyJson, encoding: &str)
    ensures
        checks_view(final(checks)@) == checks_view(old(checks)@) + encoding_checks(*policy, encoding@),
{
    let ghost start = checks_view(checks@);
    let verify_only = !str_eq(encoding, RECEIPT_ENCODING_TLV_V2)
        && (str_eq(encoding, RECEIPT_ENCODING_TLV_V1_LEGACY) || str_eq(encoding, RECEIPT_ENCODING_JSON_CANONICAL_V1));
    if verify_only {
        let check = VerificationCheck {
            id: owned_text("policy.encoding"),
            status: if policy.require_canonical_tlv_v2 { owned_text("fail") } else { owned_text("pass") },
            reason_code: if policy.require_canonical_tlv_v2 {
                owned_text("VERIFY_ONLY_FORMAT_REJECTED")
            } else {
                owned_text("VERIFY_ONLY_FORMAT_ACCEPTED")
            },
        };
        push_check(checks, check);
    }
    assert(checks_view(checks@) =~= start + encoding_checks(*policy, encoding@));
}

/// Lists the checks of a verification.
pub fn build_checks(c: &CheckResults, policy: &VerifyPolicyJson, encoding: &str) -> (r: Vec<VerificationCheck>)
    ensures
        checks_view(r@) == report_checks(*c, *policy, encoding@),
{
    let mut checks: Vec<VerificationCheck> = Vec::new();
    assert(checks_view(checks@) =~= Seq::<(Seq<char>, Seq<char>, Seq<char>)>::empty());
    push_head_checks(&mut checks, c);
    push_manifest_checks(&mut checks, c);
    push_controls_checks(&mut checks, c);
    push_encoding_checks(&mut checks, policy, encoding);
    assert(checks_view(checks@) =~= report_checks(*c, *policy, encoding@));
    checks
}

/// Whether a report states the given check results under `policy` for the
/// receipt: its code and checks as above, the receipt's encoding, profile,
/// issuer, key and payload digest, and the flags of the checks.
#[verifier::opaque]
pub open spec fn report_ok(rep: VerificationReportJson, c: CheckResults, policy: VerifyPolicyJson, receipt: ReceiptJson) -> bool {
    let code = report_code(c, policy, receipt.signing.transcript_encoding@);
    let accepted = code == "VALID_RECEIPT"@;
    &&& rep.schema@ == VERIFICATION_REPORT_SCHEMA_V1@
    &&& rep.status@ == (if accepted { "valid"@ } else { "invalid"@ })
    &&& rep.code@ == code
    &&& rep.transcript_encoding@ == receipt.signing.transcript_encoding@
    &&& rep.receipt_profile@ == receipt.receipt_profile@
    &&& rep.issuer@ == receipt.issuer.name@
    &&& rep.key_id@ == receipt.signing.key_id@
    &&& rep.payload_digest_alg@ == receipt.signing.payload_hash.algorithm@
    &&& rep.payload_digest_hex@ == receipt.signing.payload_hash.digest@
    &&& rep.signature_valid == c.signature_valid
    &&& rep.trusted_issuer == c.trusted_issuer
    &&& rep.revocation_checked == c.revocation.checked
    &&& rep.revocation_ok == c.revocation.ok
    &&& rep.policy_accepted == accepted
    &&& rep.verification_engine@ == "Rust ink-core"@
    &&& !rep.network_required
    &&& rep.scope@ == (if c.manifest_present { "full-evidence"@ } else { "receipt-only"@ })
    &&& checks_view(rep.checks@) == report_checks(c, policy, receipt.signing.transcript_encoding@)
}

/// Assembles the report of a verification from its check results.
pub fn assemble_report(c: &CheckResults, policy: &VerifyPolicyJson, receipt: &ReceiptJson) -> (r: VerificationReportJson)
    ensures
        report_ok(r, *c, *policy, *receipt),
{
    let encoding: &str = receipt.signing.transcript_encoding.as_str();
    let code = decide_code(c, policy, encoding);
    let checks = build_checks(c, policy, encoding);
    let accepted = str_eq(code, "VALID_RECEIPT");
    proof {
        reveal(report_ok);
    }
    VerificationReportJson {
        schema: owned_text(VERIFICATION_REPORT_SCHEMA_V1),
        status: if accepted { owned_text("valid") } else { owned_text("invalid") },
        code: owned_text(code),
        transcript_encoding: receipt.signing.transcript_encoding.clone(),
        receipt_profile: receipt.receipt_profile.clone(),
        issuer: receipt.issuer.name.clone(),
        key_id: receipt.signing.key_id.clone(),
        payload_digest_alg: receipt.signing.payload_hash.algorithm.clone(),
        payload_digest_hex: receipt.signing.payload_hash.digest.clone(),
        signature_valid: c.signature_valid,
        trusted_issuer: c.trusted_issuer,
        revocation_checked: c.revocation.checked,
        revocation_ok: c.revocation.ok,
        policy_accepted: accepted,
        verification_engine: owned_text("Rust ink-core"),
        network_required: false,
        scope: if c.manifest_present { owned_text("full-evidence") } else { owned_text("receipt-only") },
        checks,
    }
}

/// The Base64 text of the key a receipt's signature is checked under: the
/// trusted registry key for its signing key and issuer, else the pinned key,
/// else the key the receipt carries.
pub open spec fn verification_key_text(receipt: ReceiptJson, registry: Option<TrustRegistryJson>, pinned: Option<Seq<char>>) -> Seq<char> {
    match registry_issuer(registry, receipt.signing.key_id@, Some(receipt.issuer.name@)) {
        Some(entry) => entry.public_key@,
        None => match pinned {
            Some(p) => p,
            None => receipt.issuer.public_key@,
        },
    }
}

/// Whether the payload hash and signature flags are what the receipt's digest
/// gives: the payload hash matches when it is named `sha-256` and is the hex
/// text of the digest, and the signature is valid when moreover the algorithm
/// is `Ed25519` and the signature verifies over the digest under the
/// verification key.
pub open spec fn signature_flags_ok(c: CheckResults, receipt: ReceiptJson, digest: Seq<u8>, registry: Option<TrustRegistryJson>, pinned: Option<Seq<char>>) -> bool {
    &&& c.payload_hash_valid == (receipt.signing.payload_hash.algorithm@ == "sha-256"@
        && receipt.signing.payload_hash.digest@ == hex_lower(digest))
    &&& c.signature_valid == (c.payload_hash_valid && receipt.signing.algorithm@ == "Ed25519"@ && {
        let key = fixed_of(verification_key_text(receipt, registry, pinned), 32)->Some_0;
        let sig = fixed_of(receipt.signing.signature@, 64)->Some_0;
        ed25519_key_valid(key) && ed25519_verify_spec(key, digest, sig)
    })
    &&& c.trusted_issuer == (registry_issuer(registry, receipt.signing.key_id@, Some(receipt.issuer.name@)) is Some || pinned is Some)
}

/// The revocation outcome when no list is supplied.
pub open spec fn revocation_not_performed() -> RevocationView {
    RevocationView { checked: false, ok: true, code: "ISSUER_KEY_REVOCATION_NOT_PERFORMED"@ }
}

/// Whether the manifest, evidence, controls and revocation flags are what the
/// supplied documents give.
pub open spec fn evidence_flags_ok(
    c: CheckResults,
    receipt: ReceiptJson,
    manifest: Option<&ManifestJson>,
    controls: Option<&ControlsFile>,
    revocation: Option<(&RevocationListJson, &JsonValue)>,
    registry: Option<TrustRegistryJson>,
    pinned: Option<Seq<char>>,
) -> bool {
    &&& c.manifest_present == (manifest is Some)
    &&& (manifest matches Some(m) ==> {
        &&& c.manifest_hash_valid == (digest_of_text(receipt.manifest_hash.digest@) == Some(manifest_hash_spec(*m)))
        &&& c.evidence_summary_valid == (digest_of_text(receipt.evidence_summary_hash.digest@)
            == Some(sha256_spec(evidence_transcript(Seq::empty(), m.artifacts@))))
    })
    &&& c.controls_present == (controls is Some)
    &&& (controls matches Some(f) ==> exists|v: Seq<ControlObservation>| {
        &&& #[trigger] v.len() == f.observations@.len()
        &&& forall|i: int| 0 <= i < v.len() ==> observation_matches(#[trigger] v[i], f.observations@[i])
        &&& c.controls_summary_valid == (digest_of_text(receipt.controls_summary_hash.digest@)
            == Some(sha256_spec(controls_transcript(Seq::empty(), v))))
    })
    &&& match revocation {
        Some((l, value)) => revocation_spec(*l, *value, registry, pinned, receipt) == Ok::<RevocationView, ErrorView>(c.revocation@),
        None => c.revocation@ == revocation_not_performed(),
    }
}

/// Whether reason slots hold the bytes of a receipt's reason codes.
pub open spec fn slots_match(slots: Seq<ReasonCodeSlot>, codes: Seq<String>) -> bool {
    &&& slots.len() == codes.len()
    &&& forall|i: int| 0 <= i < slots.len() ==> #[trigger] slots[i].bytes@ == vstd::utf8::encode_utf8(codes[i]@)
}

fn optional_digest_eq(a: Sha256Digest, b: Sha256Digest) -> (r: bool)
    ensures
        r == (a@ == b@),
{
    a == b
}

/// Whether the payload hash, signature and trust flags are what the receipt's
/// digest gives.
pub open spec fn signature_flag_values(payload_hash_valid: bool, signature_valid: bool, trusted_issuer: bool, receipt: ReceiptJson, digest: Seq<u8>, registry: Option<TrustRegistryJson>, pinned: Option<Seq<char>>) -> bool {
    signature_flags_ok(
        CheckResults {
            payload_hash_valid,
            signature_valid,
            trusted_issuer,
            kernel_projection_valid: true,
            manifest_present: false,
            manifest_hash_valid: true,
            evidence_summary_valid: true,
            controls_present: false,
            controls_summary_valid: true,
            revocation: RevocationOutcome { checked: false, ok: true, code: "" },
        },
        receipt,
        digest,
        registry,
        pinned,
    )
}

/// The first failure of checking a receipt's signature once its payload is
/// read as `p`: an encoding it has no digest for, then a key that does not
/// decode (the receipt's own, then the registry's or the pinned one it is
/// checked under), then, where the payload hash matches and the algorithm is
/// Ed25519, a signature that does not decode.
pub open spec fn signature_error(
    receipt: ReceiptJson,
    value: JsonValue,
    p: ReceiptPayload,
    registry: Option<TrustRegistryJson>,
    pinned: Option<Seq<char>>,
) -> Option<ErrorView> {
    match receipt_digest_spec(p, receipt.signing.transcript_encoding@, value) {
        Err(e) => Some(e),
        Ok(d) => {
            let key_error = match registry_issuer(registry, receipt.signing.key_id@, Some(receipt.issuer.name@)) {
                Some(entry) => fixed_error(entry.public_key@, 32),
                None => match pinned {
                    Some(k) => fixed_error(k, 32),
                    None => None,
                },
            };
            if fixed_error(receipt.issuer.public_key@, 32) is Some {
                fixed_error(receipt.issuer.public_key@, 32)
            } else if key_error is Some {
                key_error
            } else if receipt.signing.payload_hash.algorithm@ == "sha-256"@ && receipt.signing.payload_hash.digest@ == hex_lower(d)
                && receipt.signing.algorithm@ == "Ed25519"@ {
                fixed_error(receipt.signing.signature@, 64)
            } else {
                None
            }
        },
    }
}

/// The message of a receipt issued before the epoch.
pub open spec fn negative_issue_time_text() -> Seq<char> {
    "receipt issued_at must be non-negative"@
}

/// The failure of projecting a receipt onto the kernel: an issue time before
/// the epoch.
pub open spec fn kernel_error(receipt: ReceiptJson) -> Option<ErrorView> {
    if receipt.issued_at < 0 {
        Some(ErrorView::InvalidInput(negative_issue_time_text()))
    } else {
        None
    }
}

/// The failure of a supplied manifest: a wrong schema, or one that does not
/// hash.
pub open spec fn manifest_stage_error(manifest: Option<&ManifestJson>) -> Option<ErrorView> {
    match manifest {
        Some(m) => if m.schema@ != MANIFEST_SCHEMA_V2@ {
            Some(ErrorView::InvalidInput(expected_text(MANIFEST_SCHEMA_V2@)))
        } else {
            manifest_error(*m)
        },
        None => None,
    }
}

/// The failure of a supplied controls file.
pub open spec fn controls_stage_error(controls: Option<&ControlsFile>) -> Option<ErrorView> {
    match controls {
        Some(f) => controls_error(*f),
        None => None,
    }
}

/// The failure of a supplied revocation list.
pub open spec fn revocation_stage_error(
    revocation_list: Option<(&RevocationListJson, &JsonValue)>,
    registry: Option<TrustRegistryJson>,
    pinned: Option<Seq<char>>,
    receipt: ReceiptJson,
) -> Option<ErrorView> {
    match revocation_list {
        Some((l, v)) => match revocation_spec(*l, *v, registry, pinned, receipt) {
            Err(e) => Some(e),
            Ok(_) => None,
        },
        None => None,
    }
}

/// The first failure of the checks that follow reading a receipt's payload as
/// `p`: its signature, its projection onto the kernel, then the manifest, the
/// controls and the revocation list supplied.
pub open spec fn checks_error(
    receipt: ReceiptJson,
    value: JsonValue,
    p: ReceiptPayload,
    manifest: Option<&ManifestJson>,
    controls: Option<&ControlsFile>,
    trust_registry: Option<&TrustRegistryJson>,
    revocation_list: Option<(&RevocationListJson, &JsonValue)>,
    pinned_public_key: Option<&str>,
) -> Option<ErrorView> {
    or_else(
        signature_error(receipt, value, p, opt_registry(trust_registry), opt_text(pinned_public_key)),
        or_else(kernel_error(receipt), or_else(manifest_stage_error(manifest), or_else(
            controls_stage_error(controls),
            revocation_stage_error(revocation_list, opt_registry(trust_registry), opt_text(pinned_public_key), receipt),
        ))),
    )
}

fn check_signature(
    receipt: &ReceiptJson,
    payload: &ReceiptPayload,
    receipt_value: &JsonValue,
    trust_registry: Option<&TrustRegistryJson>,
    pinned_public_key: Option<&str>,
) -> (r: Result<(bool, bool, bool)>)
    ensures
        fails_as(r, signature_error(*receipt, *receipt_value, *payload, opt_registry(trust_registry), opt_text(pinned_public_key))),
        r matches Ok((ph, sv, ti)) ==> receipt_digest_spec(*payload, receipt.signing.transcript_encoding@, *receipt_value) is Ok
            && signature_flag_values(ph, sv, ti, *receipt, receipt_digest_spec(*payload, receipt.signing.transcript_encoding@, *receipt_value)->Ok_0,
                opt_registry(trust_registry), opt_text(pinned_public_key)),
{
    let encoding: &str = receipt.signing.transcript_encoding.as_str();
    let digest = receipt_digest_for_encoding(payload, encoding, receipt_value)?;
    let expected = digest_json(&digest);
    let payload_hash_valid = str_eq(receipt.signing.payload_hash.algorithm.as_str(), expected.algorithm.as_str())
        && str_eq(receipt.signing.payload_hash.digest.as_str(), expected.digest.as_str());
    let entry = find_issuer(trust_registry, receipt.signing.key_id.as_str(), Some(receipt.issuer.name.as_str()));
    let embedded_key = decode_fixed::<32>(receipt.issuer.public_key.as_str())?;
    let verification_key = match entry {
        Some(e) => decode_fixed::<32>(e.public_key.as_str())?,
        None => match pinned_public_key {
            Some(v) => decode_fixed::<32>(v)?,
            None => embedded_key,
        },
    };
    let trusted_issuer = entry.is_some() || pinned_public_key.is_some();
    let signature_valid = if payload_hash_valid && str_eq(receipt.signing.algorithm.as_str(), "Ed25519") {
        let signature = decode_fixed::<64>(receipt.signing.signature.as_str())?;
        match crate::trust::verify_ed25519_message_hash_bytes(&digest.0, &signature, &verification_key) {
            Ok(v) => v,
            Err(_) => false,
        }
    } else {
        false
    };
    Ok((payload_hash_valid, signature_valid, trusted_issuer))
}

#[verifier::spinoff_prover]
#[verifier::rlimit(30)]
fn check_kernel(receipt: &ReceiptJson, payload: &ReceiptPayload) -> (r: Result<bool>)
    requires
        payload_error(*payload) is None,
    ensures
        r matches Ok(v) ==> v,
        fails_as(r, kernel_error(*receipt)),
{
    let kernel_receipt = project_v2_receipt_to_kernel(receipt, payload)?;
    let no_keys: Vec<crate::trust::TrustedIssuerKey> = Vec::new();
    let kernel_report = match crate::trust::verify_receipt(&kernel_receipt, no_keys.as_slice(), VerificationPolicy { allow_unsigned: true, current_sequence: None }) {
        Ok(rep) => rep,
        Err(_) => return Err(ReceiptV2Error::Trust(owned_text("kernel verification failed"))),
    };
    proof {
        lemma_projection_verifies(kernel_receipt, *receipt, *payload, kernel_report.core);
    }
    Ok(kernel_report.core.valid)
}

fn check_manifest(receipt: &ReceiptJson, manifest: Option<&ManifestJson>) -> (r: Result<(bool, bool)>)
    requires
        crate::receipt_v2::normalize::digest_error(receipt.manifest_hash) is None,
        crate::receipt_v2::normalize::digest_error(receipt.evidence_summary_hash) is None,
    ensures
        fails_as(r, manifest_stage_error(manifest)),
        manifest matches Some(m) && m.schema@ != MANIFEST_SCHEMA_V2@ ==> r is Err,
        manifest is None ==> r == Ok::<(bool, bool), ReceiptV2Error>((true, true)),
        r matches Ok((mh, ev)) ==> (manifest matches Some(m) ==> {
            &&& mh == (digest_of_text(receipt.manifest_hash.digest@) == Some(manifest_hash_spec(*m)))
            &&& ev == (digest_of_text(receipt.evidence_summary_hash.digest@)
                == Some(sha256_spec(evidence_transcript(Seq::empty(), m.artifacts@))))
        }),
{
    match manifest {
        Some(m) => {
            if !str_eq(m.schema.as_str(), MANIFEST_SCHEMA_V2) {
                return Err(crate::receipt_v2::expected_schema(MANIFEST_SCHEMA_V2));
            }
            let manifest_hash = hash_manifest(m)?;
            let stated_manifest = crate::receipt_v2::normalize::parse_digest(&receipt.manifest_hash)?;
            let evidence_hash = hash_evidence_summary(m)?;
            let stated_evidence = crate::receipt_v2::normalize::parse_digest(&receipt.evidence_summary_hash)?;
            Ok((optional_digest_eq(manifest_hash, stated_manifest), optional_digest_eq(evidence_hash, stated_evidence)))
        },
        None => Ok((true, true)),
    }
}

fn check_controls(receipt: &ReceiptJson, controls: Option<&ControlsFile>) -> (r: Result<bool>)
    requires
        crate::receipt_v2::normalize::digest_error(receipt.controls_summary_hash) is None,
    ensures
        fails_as(r, controls_stage_error(controls)),
        controls is None ==> r == Ok::<bool, ReceiptV2Error>(true),
        r matches Ok(valid) ==> (controls matches Some(f) ==> exists|v: Seq<ControlObservation>| {
            &&& #[trigger] v.len() == f.observations@.len()
            &&& forall|i: int| 0 <= i < v.len() ==> observation_matches(#[trigger] v[i], f.observations@[i])
            &&& valid == (digest_of_text(receipt.controls_summary_hash.digest@)
                == Some(sha256_spec(controls_transcript(Seq::empty(), v))))
        }),
{
    match controls {
        Some(f) => {
            let observations = normalize_controls(f)?;
            let summary = hash_controls_summary(observations.as_slice());
            let stated = crate::receipt_v2::normalize::parse_digest(&receipt.controls_summary_hash)?;
            let valid = optional_digest_eq(summary, stated);
            assert(observations@.len() == f.observations@.len());
            Ok(valid)
        },
        None => Ok(true),
    }
}

fn parse_payload<'a>(receipt: &'a ReceiptJson, slots: &'a [ReasonCodeSlot<'a>]) -> (r: Result<ReceiptPayload<'a>>)
    ensures
        read_outcome(r, *receipt, slots@),
{
    receipt_payload_from_json(receipt, slots)
}

/// Whether a report, check results and payload are as a verification states.
pub open spec fn verification_ok(
    rep: VerificationReportJson,
    c: CheckResults,
    p: ReceiptPayload,
    receipt: ReceiptJson,
    receipt_value: JsonValue,
    manifest: Option<&ManifestJson>,
    controls: Option<&ControlsFile>,
    trust_registry: Option<&TrustRegistryJson>,
    revocation_list: Option<(&RevocationListJson, &JsonValue)>,
    verify_policy: VerifyPolicyJson,
    pinned_public_key: Option<&str>,
) -> bool {
    &&& report_ok(rep, c, verify_policy, receipt)
    &&& payload_matches(p, receipt, p.reasons@)
    &&& slots_match(p.reasons@, receipt.reason_codes@)
    &&& payload_error(p) is None
    &&& receipt_digest_spec(p, receipt.signing.transcript_encoding@, receipt_value) is Ok
    &&& signature_flags_ok(c, receipt, receipt_digest_spec(p, receipt.signing.transcript_encoding@, receipt_value)->Ok_0,
        opt_registry(trust_registry), opt_text(pinned_public_key))
    &&& c.kernel_projection_valid
    &&& evidence_flags_ok(c, receipt, manifest, controls, revocation_list, opt_registry(trust_registry), opt_text(pinned_public_key))
}

/// Whether `rep` is what a verification of the given inputs reports: some
/// check results and some payload read from the receipt satisfy
/// `verification_ok` with it.
#[verifier::opaque]
pub open spec fn verifies_as(
    rep: VerificationReportJson,
    receipt: ReceiptJson,
    receipt_value: JsonValue,
    manifest: Option<&ManifestJson>,
    controls: Option<&ControlsFile>,
    trust_registry: Option<&TrustRegistryJson>,
    revocation_list: Option<(&RevocationListJson, &JsonValue)>,
    verify_policy: VerifyPolicyJson,
    pinned_public_key: Option<&str>,
) -> bool {
    exists|c: CheckResults, p: ReceiptPayload| #[trigger] verification_ok(
        rep, c, p, receipt, receipt_value, manifest, controls, trust_registry, revocation_list, verify_policy, pinned_public_key,
    )
}

proof fn lemma_verification_ok(
    rep: VerificationReportJson,
    c: CheckResults,
    p: ReceiptPayload,
    slots: Seq<ReasonCodeSlot>,
    receipt: ReceiptJson,
    receipt_value: JsonValue,
    manifest: Option<&ManifestJson>,
    controls: Option<&ControlsFile>,
    trust_registry: Option<&TrustRegistryJson>,
    revocation_list: Option<(&RevocationListJson, &JsonValue)>,
    verify_policy: VerifyPolicyJson,
    pinned_public_key: Option<&str>,
)
    requires
        report_ok(rep, c, verify_policy, receipt),
        slots.len() == receipt.reason_codes@.len(),
        forall|i: int| 0 <= i < slots.len() ==> #[trigger] slots[i].bytes@ == vstd::utf8::encode_utf8(receipt.reason_codes@[i]@),
        payload_matches(p, receipt, slots),
        payload_error(p) is None,
        receipt_digest_spec(p, receipt.signing.transcript_encoding@, receipt_value) is Ok,
        signature_flag_values(c.payload_hash_valid, c.signature_valid, c.trusted_issuer, receipt,
            receipt_digest_spec(p, receipt.signing.transcript_encoding@, receipt_value)->Ok_0,
            opt_registry(trust_registry), opt_text(pinned_public_key)),
        c.kernel_projection_valid,
        c.manifest_present == (manifest is Some),
        manifest matches Some(m) ==> {
            &&& c.manifest_hash_valid == (digest_of_text(receipt.manifest_hash.digest@) == Some(manifest_hash_spec(*m)))
            &&& c.evidence_summary_valid == (digest_of_text(receipt.evidence_summary_hash.digest@)
                == Some(sha256_spec(evidence_transcript(Seq::empty(), m.artifacts@))))
        },
        c.controls_present == (controls is Some),
        controls matches Some(f) ==> exists|v: Seq<ControlObservation>| {
            &&& #[trigger] v.len() == f.observations@.len()
            &&& forall|i: int| 0 <= i < v.len() ==> observation_matches(#[trigger] v[i], f.observations@[i])
            &&& c.controls_summary_valid == (digest_of_text(receipt.controls_summary_hash.digest@)
                == Some(sha256_spec(controls_transcript(Seq::empty(), v))))
        },
        match revocation_list {
            Some((l, value)) => revocation_spec(*l, *value, opt_registry(trust_registry), opt_text(pinned_public_key), receipt) == Ok::<RevocationView, ErrorView>(c.revocation@),
            None => c.revocation@ == revocation_not_performed(),
        },
    ensures
        verifies_as(rep, receipt, receipt_value, manifest, controls, trust_registry, revocation_list, verify_policy, pinned_public_key),
{
    reveal(verifies_as);
    assert(verification_ok(rep, c, p, receipt, receipt_value, manifest, controls, trust_registry, revocation_list, verify_policy, pinned_public_key));
}

/// Two sets of reason slots that both hold the bytes of the same reason codes
/// are the same slots.
pub proof fn lemma_slots_equal(a: Seq<ReasonCodeSlot>, b: Seq<ReasonCodeSlot>, codes: Seq<String>)
    requires
        slots_match(a, codes),
        slots_match(b, codes),
    ensures
        a == b,
{
    assert forall|i: int| 0 <= i < a.len() implies a[i] == b[i] by {
        assert(a[i].bytes@ == b[i].bytes@);
        assert(a[i].bytes =~= b[i].bytes);
    }
    assert(a =~= b);
}

/// How verifying a receipt of the supported schema ends, stage by stage: a
/// model that does not read, a model that fails its checks, other fields that
/// do not read, a payload (read with the receipt's reason codes as reasons)
/// that fails its checks, then the first failure of `checks_error`; where none
/// of these occurs, it succeeds.
pub open spec fn verification_outcome(
    r: Result<VerificationReportJson>,
    receipt: ReceiptJson,
    value: JsonValue,
    manifest: Option<&ManifestJson>,
    controls: Option<&ControlsFile>,
    trust_registry: Option<&TrustRegistryJson>,
    revocation_list: Option<(&RevocationListJson, &JsonValue)>,
    pinned_public_key: Option<&str>,
) -> bool {
    match model_json_error(receipt.model) {
        Some(e) => r matches Err(x) && x@ == e,
        None => forall|w: ModelWaist| #[trigger] model_matches(w, receipt.model) ==> match model_error(w) {
            Some(e) => r matches Err(x) && x@ == ErrorView::Core(e),
            None => match after_model_error(receipt) {
                Some(e) => r matches Err(x) && x@ == e,
                None => forall|p: ReceiptPayload|
                    #[trigger] payload_matches(p, receipt, p.reasons@) && slots_match(p.reasons@, receipt.reason_codes@)
                    ==> match payload_error(p) {
                        Some(e) => r matches Err(x) && x@ == ErrorView::Core(e),
                        None => fails_as(r, checks_error(receipt, value, p, manifest, controls, trust_registry, revocation_list, pinned_public_key)),
                    },
            },
        },
    }
}

/// What reading a receipt's payload with `slots` as its reasons gives.
pub open spec fn read_outcome(pr: Result<ReceiptPayload>, receipt: ReceiptJson, slots: Seq<ReasonCodeSlot>) -> bool {
    &&& model_json_error(receipt.model) matches Some(e) ==> (pr matches Err(x) && x@ == e)
    &&& model_json_error(receipt.model) is None ==> forall|w: ModelWaist| #[trigger] model_matches(w, receipt.model) ==> {
        &&& model_error(w) matches Some(e) ==> pr == Err::<ReceiptPayload, ReceiptV2Error>(ReceiptV2Error::Core(e))
        &&& (model_error(w) is None && after_model_error(receipt) is Some) ==> fails_as(pr, after_model_error(receipt))
        &&& model_error(w) is None && after_model_error(receipt) is None ==> forall|p: ReceiptPayload|
            #[trigger] payload_matches(p, receipt, slots) ==> {
                &&& payload_error(p) matches Some(e) ==> pr == Err::<ReceiptPayload, ReceiptV2Error>(ReceiptV2Error::Core(e))
                &&& payload_error(p) is None ==> pr is Ok
            }
    }
    &&& pr matches Ok(p) ==> payload_matches(p, receipt, slots) && payload_error(p) is None
}

proof fn lemma_read_failure_explained(
    e: ReceiptV2Error,
    pr: Result<ReceiptPayload>,
    slots: Seq<ReasonCodeSlot>,
    receipt: ReceiptJson,
    value: JsonValue,
    manifest: Option<&ManifestJson>,
    controls: Option<&ControlsFile>,
    trust_registry: Option<&TrustRegistryJson>,
    revocation_list: Option<(&RevocationListJson, &JsonValue)>,
    pinned_public_key: Option<&str>,
)
    requires
        pr == Err::<ReceiptPayload, ReceiptV2Error>(e),
        slots_match(slots, receipt.reason_codes@),
        read_outcome(pr, receipt, slots),
    ensures
        verification_outcome(Err(e), receipt, value, manifest, controls, trust_registry, revocation_list, pinned_public_key),
{
    if model_json_error(receipt.model) is None {
        assert forall|w: ModelWaist| #[trigger] model_matches(w, receipt.model) implies match model_error(w) {
            Some(m) => Err::<VerificationReportJson, ReceiptV2Error>(e) matches Err(x) && x@ == ErrorView::Core(m),
            None => match after_model_error(receipt) {
                Some(m) => Err::<VerificationReportJson, ReceiptV2Error>(e) matches Err(x) && x@ == m,
                None => forall|p: ReceiptPayload|
                    #[trigger] payload_matches(p, receipt, p.reasons@) && slots_match(p.reasons@, receipt.reason_codes@)
                    ==> match payload_error(p) {
                        Some(m) => Err::<VerificationReportJson, ReceiptV2Error>(e) matches Err(x) && x@ == ErrorView::Core(m),
                        None => fails_as(Err::<VerificationReportJson, ReceiptV2Error>(e),
                            checks_error(receipt, value, p, manifest, controls, trust_registry, revocation_list, pinned_public_key)),
                    },
            },
        } by {
            if model_error(w) is None && after_model_error(receipt) is None {
                assert forall|p: ReceiptPayload|
                    #[trigger] payload_matches(p, receipt, p.reasons@) && slots_match(p.reasons@, receipt.reason_codes@)
                    implies payload_error(p) matches Some(m) && e@ == ErrorView::Core(m) by {
                    lemma_slots_equal(p.reasons@, slots, receipt.reason_codes@);
                    assert(payload_matches(p, receipt, slots));
                }
            }
        }
    }
}

proof fn lemma_checks_explained(
    r: Result<VerificationReportJson>,
    p0: ReceiptPayload,
    pr: Result<ReceiptPayload>,
    slots: Seq<ReasonCodeSlot>,
    receipt: ReceiptJson,
    value: JsonValue,
    manifest: Option<&ManifestJson>,
    controls: Option<&ControlsFile>,
    trust_registry: Option<&TrustRegistryJson>,
    revocation_list: Option<(&RevocationListJson, &JsonValue)>,
    pinned_public_key: Option<&str>,
)
    requires
        pr == Ok::<ReceiptPayload, ReceiptV2Error>(p0),
        slots_match(slots, receipt.reason_codes@),
        read_outcome(pr, receipt, slots),
        fails_as(r, checks_error(receipt, value, p0, manifest, controls, trust_registry, revocation_list, pinned_public_key)),
    ensures
        verification_outcome(r, receipt, value, manifest, controls, trust_registry, revocation_list, pinned_public_key),
{
    assert(model_json_error(receipt.model) is None);
    assert forall|w: ModelWaist| #[trigger] model_matches(w, receipt.model) implies match model_error(w) {
        Some(m) => r matches Err(x) && x@ == ErrorView::Core(m),
        None => match after_model_error(receipt) {
            Some(m) => r matches Err(x) && x@ == m,
            None => forall|p: ReceiptPayload|
                #[trigger] payload_matches(p, receipt, p.reasons@) && slots_match(p.reasons@, receipt.reason_codes@)
                ==> match payload_error(p) {
                    Some(m) => r matches Err(x) && x@ == ErrorView::Core(m),
                    None => fails_as(r, checks_error(receipt, value, p, manifest, controls, trust_registry, revocation_list, pinned_public_key)),
                },
        },
    } by {
        assert(model_error(w) is None);
        assert(after_model_error(receipt) is None);
        assert forall|p: ReceiptPayload|
            #[trigger] payload_matches(p, receipt, p.reasons@) && slots_match(p.reasons@, receipt.reason_codes@)
            implies payload_error(p) is None && checks_error(receipt, value, p, manifest, controls, trust_registry, revocation_list, pinned_public_key)
                == checks_error(receipt, value, p0, manifest, controls, trust_registry, revocation_list, pinned_public_key) by {
            lemma_slots_equal(p.reasons@, slots, receipt.reason_codes@);
            assert(payload_matches(p, receipt, slots));
            crate::receipt_v2::normalize::lemma_payload_error_determined(p, p0, receipt, slots);
            crate::receipt_v2::projection::lemma_digest_determined(p, p0, receipt, slots, receipt.signing.transcript_encoding@, value);
        }
    }
}

/// Runs every check on a receipt whose payload has been read, and assembles
/// the report.
fn run_checks(
    receipt: &ReceiptJson,
    receipt_value: &JsonValue,
    payload: &ReceiptPayload,
    manifest: Option<&ManifestJson>,
    controls: Option<&ControlsFile>,
    trust_registry: Option<&TrustRegistryJson>,
    revocation_list: Option<(&RevocationListJson, &JsonValue)>,
    verify_policy: &VerifyPolicyJson,
    pinned_public_key: Option<&str>,
) -> (r: Result<VerificationReportJson>)
    requires
        payload_matches(*payload, *receipt, payload.reasons@),
        slots_match(payload.reasons@, receipt.reason_codes@),
        payload_error(*payload) is None,
    ensures
        fails_as(r, checks_error(*receipt, *receipt_value, *payload, manifest, controls, trust_registry, revocation_list, pinned_public_key)),
        r matches Ok(rep) ==> verifies_as(
            rep, *receipt, *receipt_value, manifest, controls, trust_registry, revocation_list, *verify_policy, pinned_public_key,
        ),
{
    let (payload_hash_valid, signature_valid, trusted_issuer) = check_signature(receipt, payload, receipt_value, trust_registry, pinned_public_key)?;
    let kernel_projection_valid = check_kernel(receipt, payload)?;
    let (manifest_hash_valid, evidence_summary_valid) = check_manifest(receipt, manifest)?;
    let controls_summary_valid = check_controls(receipt, controls)?;
    let revocation = match revocation_list {
        Some((list, value)) => verify_revocations(list, value, trust_registry, pinned_public_key, receipt)?,
        None => RevocationOutcome { checked: false, ok: true, code: "ISSUER_KEY_REVOCATION_NOT_PERFORMED" },
    };
    let results = CheckResults {
        payload_hash_valid,
        signature_valid,
        trusted_issuer,
        kernel_projection_valid,
        manifest_present: manifest.is_some(),
        manifest_hash_valid,
        evidence_summary_valid,
        controls_present: controls.is_some(),
        controls_summary_valid,
        revocation,
    };
    let report = assemble_report(&results, verify_policy, receipt);
    proof {
        lemma_verification_ok(
            report, results, *payload, payload.reasons@, *receipt, *receipt_value, manifest, controls, trust_registry, revocation_list,
            *verify_policy, pinned_public_key,
        );
    }
    Ok(report)
}

/// Verifies a parsed receipt, whose JSON value is `receipt_value`, against an
/// optional manifest, controls file, trust registry and revocation list (with
/// its JSON value), under a verification policy and an optional pinned key.
/// Every check runs and is reported; the code names the first failure that the
/// policy counts, or `VALID_RECEIPT`.
fn verify_receipt_with_inputs(
    receipt: &ReceiptJson,
    receipt_value: &JsonValue,
    manifest: Option<&ManifestJson>,
    controls: Option<&ControlsFile>,
    trust_registry: Option<&TrustRegistryJson>,
    revocation_list: Option<(&RevocationListJson, &JsonValue)>,
    verify_policy: &VerifyPolicyJson,
    pinned_public_key: Option<&str>,
) -> (r: Result<VerificationReportJson>)
    ensures
        receipt.schema@ != RECEIPT_SCHEMA_V2@ ==> (r matches Err(ReceiptV2Error::InvalidInput(m))
            && m@ == expected_text(RECEIPT_SCHEMA_V2@)),
        receipt.schema@ == RECEIPT_SCHEMA_V2@ ==> verification_outcome(
            r, *receipt, *receipt_value, manifest, controls, trust_registry, revocation_list, pinned_public_key,
        ),
        r matches Ok(rep) ==> verifies_as(
            rep, *receipt, *receipt_value, manifest, controls, trust_registry, revocation_list, *verify_policy, pinned_public_key,
        ),
{
    if !str_eq(receipt.schema.as_str(), RECEIPT_SCHEMA_V2) {
        return Err(crate::receipt_v2::expected_schema(RECEIPT_SCHEMA_V2));
    }
    let slots = reason_slots(receipt);
    let parsed = parse_payload(receipt, slots.as_slice());
    let ghost read = parsed;
    match parsed {
        Err(e) => {
            proof {
                lemma_read_failure_explained(
                    e, read, slots@, *receipt, *receipt_value, manifest, controls, trust_registry, revocation_list, pinned_public_key,
                );
            }
            Err(e)
        },
        Ok(payload) => {
            let r = run_checks(
                receipt, receipt_value, &payload, manifest, controls, trust_registry, revocation_list, verify_policy, pinned_public_key,
            );
            proof {
                lemma_checks_explained(
                    r, payload, read, slots@, *receipt, *receipt_value, manifest, controls, trust_registry, revocation_list,
                    pinned_public_key,
                );
            }
            r
        },
    }
}

/// Whether a policy is the strict bank policy in every rule it sets.
pub open spec fn is_bank_strict(p: VerifyPolicyJson) -> bool {
    &&& p.require_canonical_tlv_v2
    &&& !p.allow_verify_only_formats
    &&& p.require_trusted_issuer
    &&& !p.require_revocation_check
    &&& p.require_manifest_hash_match_when_manifest_present
    &&& p.require_evidence_summary_match_when_manifest_present
    &&& p.require_controls_summary_match_when_controls_present
    &&& !p.allow_network
}

/// Whether `q` is the policy a verification applies: the one supplied, else
/// the strict bank policy.
pub open spec fn policy_applied(supplied: Option<&VerifyPolicyJson>, q: VerifyPolicyJson) -> bool {
    match supplied {
        Some(p) => q == *p,
        None => is_bank_strict(q),
    }
}

/// The first failure among the supplied documents: a policy that does not
/// validate, then a trust registry, then a revocation list, of neither the
/// first nor the second version.
pub open spec fn documents_error(
    verify_policy: Option<&VerifyPolicyJson>,
    trust_registry: Option<&TrustRegistryJson>,
    revocation_list: Option<(&RevocationListJson, &JsonValue)>,
) -> Option<Seq<char>> {
    let policy_error = match verify_policy {
        Some(p) => crate::receipt_v2::verify_policy_error(*p),
        None => None,
    };
    if policy_error is Some {
        policy_error
    } else if trust_registry matches Some(g) && !crate::receipt_v2::registry_schema_known(g.schema@) {
        Some(expected_text(crate::receipt_v2::TRUST_REGISTRY_SCHEMAS@))
    } else if revocation_list matches Some((l, v)) && !crate::receipt_v2::revocations_schema_known(l.schema@) {
        Some(expected_text(crate::receipt_v2::REVOCATIONS_SCHEMAS@))
    } else {
        None
    }
}

fn check_documents(
    verify_policy: Option<&VerifyPolicyJson>,
    trust_registry: Option<&TrustRegistryJson>,
    revocation_list: Option<(&RevocationListJson, &JsonValue)>,
) -> (r: Result<()>)
    ensures
        documents_error(verify_policy, trust_registry, revocation_list) is None ==> r is Ok,
        documents_error(verify_policy, trust_registry, revocation_list) matches Some(m)
            ==> (r matches Err(ReceiptV2Error::InvalidInput(t)) && t@ == m),
{
    if let Some(p) = verify_policy {
        p.validate()?;
    }
    if let Some(g) = trust_registry {
        if !str_eq(g.schema.as_str(), crate::receipt_v2::TRUST_REGISTRY_SCHEMA_V1)
            && !str_eq(g.schema.as_str(), crate::receipt_v2::TRUST_REGISTRY_SCHEMA_V2) {
            return Err(crate::receipt_v2::expected_schema(crate::receipt_v2::TRUST_REGISTRY_SCHEMAS));
        }
    }
    if let Some((l, _)) = revocation_list {
        if !str_eq(l.schema.as_str(), crate::receipt_v2::REVOCATIONS_SCHEMA_V1)
            && !str_eq(l.schema.as_str(), crate::receipt_v2::REVOCATIONS_SCHEMA_V2) {
            return Err(crate::receipt_v2::expected_schema(crate::receipt_v2::REVOCATIONS_SCHEMAS));
        }
    }
    Ok(())
}

/// Verifies a parsed receipt, whose JSON value is `receipt_value`, against the
/// optional documents that accompany it. The policy is the one supplied, else
/// the strict bank policy; a supplied policy must validate, and a supplied
/// registry or revocation list must carry its schema. Then every check runs as
/// `verify_receipt_with_registry` runs it.
pub fn verify_receipt(
    receipt: &ReceiptJson,
    receipt_value: &JsonValue,
    manifest: Option<&ManifestJson>,
    controls: Option<&ControlsFile>,
    trust_registry: Option<&TrustRegistryJson>,
    revocation_list: Option<(&RevocationListJson, &JsonValue)>,
    verify_policy: Option<&VerifyPolicyJson>,
    pinned_public_key: Option<&str>,
) -> (r: Result<VerificationReportJson>)
    ensures
        documents_error(verify_policy, trust_registry, revocation_list) matches Some(m)
            ==> (r matches Err(ReceiptV2Error::InvalidInput(t)) && t@ == m),
        documents_error(verify_policy, trust_registry, revocation_list) is None && receipt.schema@ != RECEIPT_SCHEMA_V2@
            ==> (r matches Err(ReceiptV2Error::InvalidInput(m)) && m@ == expected_text(RECEIPT_SCHEMA_V2@)),
        documents_error(verify_policy, trust_registry, revocation_list) is None && receipt.schema@ == RECEIPT_SCHEMA_V2@
            ==> verification_outcome(r, *receipt, *receipt_value, manifest, controls, trust_registry, revocation_list, pinned_public_key),
        r matches Ok(rep) ==> documents_error(verify_policy, trust_registry, revocation_list) is None
            && exists|q: VerifyPolicyJson| policy_applied(verify_policy, q) && #[trigger] verifies_as(
                rep, *receipt, *receipt_value, manifest, controls, trust_registry, revocation_list, q, pinned_public_key,
            ),
{
    check_documents(verify_policy, trust_registry, revocation_list)?;
    let strict = VerifyPolicyJson::bank_strict();
    let policy: &VerifyPolicyJson = match verify_policy {
        Some(p) => p,
        None => &strict,
    };
    let r = verify_receipt_with_inputs(
        receipt, receipt_value, manifest, controls, trust_registry, revocation_list, policy, pinned_public_key,
    );
    assert(policy_applied(verify_policy, *policy));
    r
}

/// Verifies a receipt bundle: the receipt with the documents that accompany it,
/// exactly as `verify_receipt` does.
pub fn verify_bundle(
    receipt: &ReceiptJson,
    receipt_value: &JsonValue,
    manifest: Option<&ManifestJson>,
    controls: Option<&ControlsFile>,
    trust_registry: Option<&TrustRegistryJson>,
    revocation_list: Option<(&RevocationListJson, &JsonValue)>,
    verify_policy: Option<&VerifyPolicyJson>,
    pinned_public_key: Option<&str>,
) -> (r: Result<VerificationReportJson>)
    ensures
        documents_error(verify_policy, trust_registry, revocation_list) matches Some(m)
            ==> (r matches Err(ReceiptV2Error::InvalidInput(t)) && t@ == m),
        documents_error(verify_policy, trust_registry, revocation_list) is None && receipt.schema@ != RECEIPT_SCHEMA_V2@
            ==> (r matches Err(ReceiptV2Error::InvalidInput(m)) && m@ == expected_text(RECEIPT_SCHEMA_V2@)),
        documents_error(verify_policy, trust_registry, revocation_list) is None && receipt.schema@ == RECEIPT_SCHEMA_V2@
            ==> verification_outcome(r, *receipt, *receipt_value, manifest, controls, trust_registry, revocation_list, pinned_public_key),
        r matches Ok(rep) ==> documents_error(verify_policy, trust_registry, revocation_list) is None
            && exists|q: VerifyPolicyJson| policy_applied(verify_policy, q) && #[trigger] verifies_as(
                rep, *receipt, *receipt_value, manifest, controls, trust_registry, revocation_list, q, pinned_public_key,
            ),
{
    verify_receipt(receipt, receipt_value, manifest, controls, trust_registry, revocation_list, verify_policy, pinned_public_key)
}

/// Verifies a parsed receipt against already loaded documents under the given
/// policy, checking no document's schema. Every check runs and is reported;
/// the code names the first failure that the policy counts, or
/// `VALID_RECEIPT`.
pub fn verify_receipt_with_registry(
    receipt: &ReceiptJson,
    receipt_value: &JsonValue,
    manifest: Option<&ManifestJson>,
    controls: Option<&ControlsFile>,
    trust_registry: Option<&TrustRegistryJson>,
    revocation_list: Option<(&RevocationListJson, &JsonValue)>,
    verify_policy: &VerifyPolicyJson,
    pinned_public_key: Option<&str>,
) -> (r: Result<VerificationReportJson>)
    ensures
        receipt.schema@ != RECEIPT_SCHEMA_V2@ ==> (r matches Err(ReceiptV2Error::InvalidInput(m))
            && m@ == expected_text(RECEIPT_SCHEMA_V2@)),
        receipt.schema@ == RECEIPT_SCHEMA_V2@ ==> verification_outcome(
            r, *receipt, *receipt_value, manifest, controls, trust_registry, revocation_list, pinned_public_key,
        ),
        r matches Ok(rep) ==> verifies_as(
            rep, *receipt, *receipt_value, manifest, controls, trust_registry, revocation_list, *verify_policy, pinned_public_key,
        ),
{
    verify_receipt_with_inputs(
        receipt, receipt_value, manifest, controls, trust_registry, revocation_list, verify_policy, pinned_public_key,
    )
}

} // verus!
