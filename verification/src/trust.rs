use vstd::prelude::*;
use crate::bounded::{IssuerId, PublicKeyId};
use crate::bundle::Bundle;
use crate::canon::signed_message;
use crate::crypto::{ed25519_key_valid, ed25519_verify_spec, sha256_spec};
use crate::error::Error;
use crate::kernel::{Ed25519PublicKey, SignatureBytes, SignatureProfileId, SignedMessageHash};
use crate::receipt::{AttestationView, ReceiptEnvelope, ReceiptView, ValidityWindow};
use crate::verify::{bundle_report_ok, core_report_ok, verify_receipt_error, BundleVerificationReport, VerificationReport};

verus! {

/// Why checking a receipt's signature could not finish.
#[derive(Clone, Copy, Debug, PartialEq, Eq, Structural)]
pub enum VerificationError {
    Core(Error),
    InvalidTrustedKey,
}

impl From<Error> for VerificationError {
    fn from(value: Error) -> (r: Self) {
        VerificationError::Core(value)
    }
}

impl vstd::std_specs::convert::FromSpecImpl<Error> for VerificationError {
    open spec fn obeys_from_spec() -> bool {
        true
    }

    open spec fn from_spec(value: Error) -> Self {
        VerificationError::Core(value)
    }
}

/// Result of signature checking.
pub type Result<T> = core::result::Result<T, VerificationError>;

/// The standing of a receipt after its signature is checked.
#[derive(Clone, Copy, Debug, PartialEq, Eq, Structural)]
pub enum ReceiptStatus {
    StructuralValidUnsigned,
    SignatureValid,
    SignatureInvalid,
    SignatureMissing,
    SignatureUnsupported,
    SignatureExpired,
    IssuerUnknown,
}

/// The name of a status in reports.
pub open spec fn status_name(s: ReceiptStatus) -> Seq<char> {
    match s {
        ReceiptStatus::StructuralValidUnsigned => "structural_valid_unsigned"@,
        ReceiptStatus::SignatureValid => "signature_valid"@,
        ReceiptStatus::SignatureInvalid => "signature_invalid"@,
        ReceiptStatus::SignatureMissing => "signature_missing"@,
        ReceiptStatus::SignatureUnsupported => "signature_unsupported"@,
        ReceiptStatus::SignatureExpired => "signature_expired"@,
        ReceiptStatus::IssuerUnknown => "issuer_unknown"@,
    }
}

impl ReceiptStatus {
    /// The status's name in reports.
    pub fn as_str(self) -> (r: &'static str)
        ensures
            r@ == status_name(self),
    {
        match self {
            ReceiptStatus::StructuralValidUnsigned => "structural_valid_unsigned",
            ReceiptStatus::SignatureValid => "signature_valid",
            ReceiptStatus::SignatureInvalid => "signature_invalid",
            ReceiptStatus::SignatureMissing => "signature_missing",
            ReceiptStatus::SignatureUnsupported => "signature_unsupported",
            ReceiptStatus::SignatureExpired => "signature_expired",
            ReceiptStatus::IssuerUnknown => "issuer_unknown",
        }
    }
}

/// The reason code a signature check reports.
#[derive(Clone, Copy, Debug, PartialEq, Eq, Structural)]
pub enum VerificationCode {
    StructuralValidUnsigned,
    SignatureValid,
    SignatureMissing,
    SignatureUnsupported,
    SignatureExpired,
    IssuerUnknown,
    SignedMessageHashMismatch,
    InvalidSignature,
}

/// The name of a code in reports.
pub open spec fn code_name(c: VerificationCode) -> Seq<char> {
    match c {
        VerificationCode::StructuralValidUnsigned => "STRUCTURAL_VALID_UNSIGNED"@,
        VerificationCode::SignatureValid => "SIGNATURE_VALID"@,
        VerificationCode::SignatureMissing => "SIGNATURE_MISSING"@,
        VerificationCode::SignatureUnsupported => "SIGNATURE_UNSUPPORTED"@,
        VerificationCode::SignatureExpired => "SIGNATURE_EXPIRED"@,
        VerificationCode::IssuerUnknown => "ISSUER_UNKNOWN"@,
        VerificationCode::SignedMessageHashMismatch => "SIGNED_MESSAGE_HASH_MISMATCH"@,
        VerificationCode::InvalidSignature => "INVALID_SIGNATURE"@,
    }
}

impl VerificationCode {
    /// The code's name in reports.
    pub fn as_str(self) -> (r: &'static str)
        ensures
            r@ == code_name(self),
    {
        match self {
            VerificationCode::StructuralValidUnsigned => "STRUCTURAL_VALID_UNSIGNED",
            VerificationCode::SignatureValid => "SIGNATURE_VALID",
            VerificationCode::SignatureMissing => "SIGNATURE_MISSING",
            VerificationCode::SignatureUnsupported => "SIGNATURE_UNSUPPORTED",
            VerificationCode::SignatureExpired => "SIGNATURE_EXPIRED",
            VerificationCode::IssuerUnknown => "ISSUER_UNKNOWN",
            VerificationCode::SignedMessageHashMismatch => "SIGNED_MESSAGE_HASH_MISMATCH",
            VerificationCode::InvalidSignature => "INVALID_SIGNATURE",
        }
    }
}

/// A key that a verifier trusts for an issuer.
#[derive(Clone, Copy, Debug)]
pub struct TrustedIssuerKey {
    pub issuer_id: IssuerId,
    pub public_key_id: PublicKeyId,
    pub public_key: Ed25519PublicKey,
}

/// What a verifier accepts: unsigned receipts or not, and the sequence number
/// against which validity windows are checked, if any.
#[derive(Clone, Copy, Debug, PartialEq, Eq, Structural)]
pub struct VerificationPolicy {
    pub allow_unsigned: bool,
    pub current_sequence: Option<u64>,
}

impl Default for VerificationPolicy {
    fn default() -> (r: Self)
        ensures
            r.allow_unsigned,
            r.current_sequence is None,
    {
        VerificationPolicy { allow_unsigned: true, current_sequence: None }
    }
}

/// The kernel's report on a receipt, with the standing of its signature.
#[derive(Clone, Copy, Debug)]
pub struct ReceiptVerificationReport {
    pub core: VerificationReport,
    pub status: ReceiptStatus,
    pub code: VerificationCode,
}

/// Checks an Ed25519 signature over a 32-byte hash; a key that is not a valid
/// point is an error.
pub fn verify_ed25519_message_hash_bytes(signed_message_hash: &[u8; 32], signature: &[u8; 64], public_key: &[u8; 32]) -> (r: Result<bool>)
    ensures
        !ed25519_key_valid(public_key@) ==> r == Err::<bool, VerificationError>(VerificationError::InvalidTrustedKey),
        ed25519_key_valid(public_key@) ==> r == Ok::<bool, VerificationError>(
            ed25519_verify_spec(public_key@, signed_message_hash@, signature@),
        ),
{
    match crate::crypto::ed25519_verify(public_key, signed_message_hash.as_slice(), signature) {
        Some(ok) => Ok(ok),
        None => Err(VerificationError::InvalidTrustedKey),
    }
}

/// Checks the signature of an attestation under `profile_id`; profiles this
/// kernel cannot check give `false`.
pub fn verify_signed_message_hash(
    profile_id: SignatureProfileId,
    signed_message_hash: &SignedMessageHash,
    signature: &SignatureBytes,
    public_key: &Ed25519PublicKey,
) -> (r: Result<bool>)
    ensures
        profile_id != SignatureProfileId::InkSigEd25519V1 ==> r == Ok::<bool, VerificationError>(false),
        profile_id == SignatureProfileId::InkSigEd25519V1 && !ed25519_key_valid(public_key.0@)
            ==> r == Err::<bool, VerificationError>(VerificationError::InvalidTrustedKey),
        profile_id == SignatureProfileId::InkSigEd25519V1 && ed25519_key_valid(public_key.0@)
            ==> r == Ok::<bool, VerificationError>(
            ed25519_verify_spec(public_key.0@, signed_message_hash@, signature.0@),
        ),
{
    if !profile_id.is_supported() {
        return Ok(false);
    }
    verify_ed25519_message_hash_bytes(signed_message_hash.as_bytes(), &signature.0, &public_key.0)
}

/// The first trusted key for the attestation's issuer and key identifier.
pub open spec fn first_trusted_key(keys: Seq<TrustedIssuerKey>, a: AttestationView) -> Option<TrustedIssuerKey>
    decreases keys.len(),
{
    if keys.len() == 0 {
        None
    } else if keys[0].issuer_id@ == a.issuer_id && keys[0].public_key_id@ == a.public_key_id {
        Some(keys[0])
    } else {
        first_trusted_key(keys.drop_first(), a)
    }
}

/// Whether the policy's current sequence lies outside the attestation's window;
/// false where either is absent.
pub open spec fn expired(policy: VerificationPolicy, w: Option<ValidityWindow>) -> bool {
    match (policy.current_sequence, w) {
        (Some(c), Some(win)) => !(win.not_before_sequence <= c <= win.not_after_sequence),
        _ => false,
    }
}

/// The status and code of a receipt that passed the kernel's checks, or the
/// error that stops the check.
pub open spec fn trust_outcome(v: ReceiptView, keys: Seq<TrustedIssuerKey>, policy: VerificationPolicy) -> Result<(ReceiptStatus, VerificationCode)> {
    match v.attestation {
        None => if policy.allow_unsigned {
            Ok((ReceiptStatus::StructuralValidUnsigned, VerificationCode::StructuralValidUnsigned))
        } else {
            Ok((ReceiptStatus::SignatureMissing, VerificationCode::SignatureMissing))
        },
        Some(a) => if a.profile_id != SignatureProfileId::InkSigEd25519V1 {
            Ok((ReceiptStatus::SignatureUnsupported, VerificationCode::SignatureUnsupported))
        } else if expired(policy, a.validity_window) {
            Ok((ReceiptStatus::SignatureExpired, VerificationCode::SignatureExpired))
        } else {
            match first_trusted_key(keys, a) {
                None => Ok((ReceiptStatus::IssuerUnknown, VerificationCode::IssuerUnknown)),
                Some(k) => if a.signed_message_hash != sha256_spec(signed_message(v, a.profile_id)) {
                    Ok((ReceiptStatus::SignatureInvalid, VerificationCode::SignedMessageHashMismatch))
                } else if !ed25519_key_valid(k.public_key.0@) {
                    Err(VerificationError::InvalidTrustedKey)
                } else if ed25519_verify_spec(k.public_key.0@, a.signed_message_hash, a.signature) {
                    Ok((ReceiptStatus::SignatureValid, VerificationCode::SignatureValid))
                } else {
                    Ok((ReceiptStatus::SignatureInvalid, VerificationCode::InvalidSignature))
                },
            }
        },
    }
}

fn find_trusted_key(keys: &[TrustedIssuerKey], issuer_id: &IssuerId, public_key_id: &PublicKeyId) -> (r: Option<TrustedIssuerKey>)
    ensures
        forall|a: AttestationView| a.issuer_id == issuer_id@ && a.public_key_id == public_key_id@
            ==> #[trigger] first_trusted_key(keys@, a) == r,
{
    let mut i: usize = 0;
    assert(keys@.subrange(0, keys@.len() as int) =~= keys@);
    while i < keys.len()
        invariant
            i <= keys@.len(),
            forall|a: AttestationView| a.issuer_id == issuer_id@ && a.public_key_id == public_key_id@
                ==> #[trigger] first_trusted_key(keys@, a) == first_trusted_key(keys@.subrange(i as int, keys@.len() as int), a),
        decreases keys@.len() - i,
    {
        let ghost rest = keys@.subrange(i as int, keys@.len() as int);
        assert(rest[0] == keys@[i as int]);
        assert(rest.drop_first() =~= keys@.subrange(i + 1, keys@.len() as int));
        if keys[i].issuer_id.same_as(issuer_id) && keys[i].public_key_id.same_as(public_key_id) {
            return Some(keys[i]);
        }
        i = i + 1;
    }
    None
}

/// Checks a receipt with the kernel, then its attestation: that it is present
/// (or unsigned receipts are allowed), of a supported profile, within its
/// window, by a trusted key, over the right message, and validly signed.
pub fn verify_receipt(receipt: &ReceiptEnvelope, trusted_keys: &[TrustedIssuerKey], policy: VerificationPolicy) -> (r: Result<ReceiptVerificationReport>)
    ensures
        verify_receipt_error(receipt@) ==> r == Err::<ReceiptVerificationReport, VerificationError>(VerificationError::Core(Error::BufferTooSmall)),
        !verify_receipt_error(receipt@) ==> match trust_outcome(receipt@, trusted_keys@, policy) {
            Ok((status, code)) => r matches Ok(rep) && rep.status == status && rep.code == code
                && core_report_ok(rep.core, receipt@),
            Err(e) => r == Err::<ReceiptVerificationReport, VerificationError>(e),
        },
{
    let core = match crate::verify::verify_receipt(receipt) {
        Ok(c) => c,
        Err(e) => return Err(VerificationError::Core(e)),
    };
    let attestation = match receipt.attestation {
        None => {
            let (status, code) = if policy.allow_unsigned {
                (ReceiptStatus::StructuralValidUnsigned, VerificationCode::StructuralValidUnsigned)
            } else {
                (ReceiptStatus::SignatureMissing, VerificationCode::SignatureMissing)
            };
            return Ok(ReceiptVerificationReport { core, status, code });
        },
        Some(a) => a,
    };
    if !attestation.profile_id.is_supported() {
        return Ok(ReceiptVerificationReport { core, status: ReceiptStatus::SignatureUnsupported, code: VerificationCode::SignatureUnsupported });
    }
    let is_expired = match (policy.current_sequence, attestation.validity_window) {
        (Some(current), Some(window)) => !window.contains(current),
        _ => false,
    };
    if is_expired {
        return Ok(ReceiptVerificationReport { core, status: ReceiptStatus::SignatureExpired, code: VerificationCode::SignatureExpired });
    }
    let trusted_key = match find_trusted_key(trusted_keys, &attestation.issuer_id, &attestation.public_key_id) {
        None => {
            assert(first_trusted_key(trusted_keys@, attestation@) is None);
            return Ok(ReceiptVerificationReport { core, status: ReceiptStatus::IssuerUnknown, code: VerificationCode::IssuerUnknown });
        },
        Some(k) => k,
    };
    assert(first_trusted_key(trusted_keys@, attestation@) == Some(trusted_key));
    let expected_hash = match crate::canon::compute_signed_message_hash(receipt, attestation.profile_id) {
        Ok(h) => h,
        Err(e) => return Err(VerificationError::Core(e)),
    };
    if attestation.signed_message_hash != expected_hash {
        return Ok(ReceiptVerificationReport { core, status: ReceiptStatus::SignatureInvalid, code: VerificationCode::SignedMessageHashMismatch });
    }
    let signature_valid = verify_signed_message_hash(
        attestation.profile_id,
        &attestation.signed_message_hash,
        &attestation.signature,
        &trusted_key.public_key,
    )?;
    Ok(ReceiptVerificationReport {
        core,
        status: if signature_valid { ReceiptStatus::SignatureValid } else { ReceiptStatus::SignatureInvalid },
        code: if signature_valid { VerificationCode::SignatureValid } else { VerificationCode::InvalidSignature },
    })
}

/// Checks a bundle's root with the kernel.
pub fn verify_bundle(bundle: &Bundle) -> (r: Result<BundleVerificationReport>)
    ensures
        r matches Ok(rep) && bundle_report_ok(rep, bundle.root_hash@, bundle.receipt_hashes@),
{
    match crate::verify::verify_bundle(bundle) {
        Ok(rep) => Ok(rep),
        Err(e) => Err(VerificationError::Core(e)),
    }
}

} // verus!
