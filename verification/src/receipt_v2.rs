//! Verification of signed receipts, version two, against trust registries,
//! revocation lists and verification policies.
pub mod json;
pub mod normalize;
pub mod hashing;
pub mod check;
pub mod canonical;
pub mod projection;

use vstd::prelude::*;
use crate::bytes::str_eq;
use crate::error::Error;
use crate::text::concat;
use self::json::{RevocationListJson, TrustRegistryJson, VerifyPolicyJson};

verus! {

/// `ink.receipt.v2`
pub const RECEIPT_SCHEMA_V2: &'static str = "ink.receipt.v2";
/// `thin_waist_v2`
pub const RECEIPT_PROFILE: &'static str = "thin_waist_v2";
/// `ink.manifest.v2`
pub const MANIFEST_SCHEMA_V2: &'static str = "ink.manifest.v2";
/// `ink.controls.v1`
pub const CONTROLS_SCHEMA_V1: &'static str = "ink.controls.v1";
/// `ink.trust-registry.v1`
pub const TRUST_REGISTRY_SCHEMA_V1: &'static str = "ink.trust-registry.v1";
/// `ink.revocations.v1`
pub const REVOCATIONS_SCHEMA_V1: &'static str = "ink.revocations.v1";
/// `ink.trust-registry.v2`
pub const TRUST_REGISTRY_SCHEMA_V2: &'static str = "ink.trust-registry.v2";
/// `ink.revocations.v2`
pub const REVOCATIONS_SCHEMA_V2: &'static str = "ink.revocations.v2";
/// The registry schemas a verifier reads, as a refusal names them.
pub const TRUST_REGISTRY_SCHEMAS: &'static str = "ink.trust-registry.v1 or ink.trust-registry.v2";
/// The revocation list schemas a verifier reads, as a refusal names them.
pub const REVOCATIONS_SCHEMAS: &'static str = "ink.revocations.v1 or ink.revocations.v2";

/// Whether a trust registry has a schema a verifier reads.
pub open spec fn registry_schema_known(schema: Seq<char>) -> bool {
    schema == TRUST_REGISTRY_SCHEMA_V1@ || schema == TRUST_REGISTRY_SCHEMA_V2@
}

/// Whether a revocation list has a schema a verifier reads.
pub open spec fn revocations_schema_known(schema: Seq<char>) -> bool {
    schema == REVOCATIONS_SCHEMA_V1@ || schema == REVOCATIONS_SCHEMA_V2@
}
/// `ink.verify-policy.v1`
pub const VERIFY_POLICY_SCHEMA_V1: &'static str = "ink.verify-policy.v1";
/// `ink.verification-report.v1`
pub const VERIFICATION_REPORT_SCHEMA_V1: &'static str = "ink.verification-report.v1";
/// `INK-CORE-TLV-V2`
pub const RECEIPT_ENCODING_TLV_V2: &'static str = "INK-CORE-TLV-V2";
/// `INK-CORE-TRANSCRIPT-V1`
pub const RECEIPT_ENCODING_TLV_V1_LEGACY: &'static str = "INK-CORE-TRANSCRIPT-V1";
/// `INK-CORE-JSON-CANONICAL-V1`
pub const RECEIPT_ENCODING_JSON_CANONICAL_V1: &'static str = "INK-CORE-JSON-CANONICAL-V1";
/// `INK-REVOCATION-JSON-V1`
pub const REVOCATION_ENCODING_JSON_V1: &'static str = "INK-REVOCATION-JSON-V1";
/// `BANK_STRICT_POLICY`
pub const BANK_STRICT_POLICY_ID: &'static str = "BANK_STRICT_POLICY";
/// `HOST_COMPATIBILITY_POLICY`
pub const HOST_COMPATIBILITY_POLICY_ID: &'static str = "HOST_COMPATIBILITY_POLICY";

/// Why a receipt could not be verified.
#[derive(Clone, Debug, PartialEq, Eq)]
pub enum ReceiptV2Error {
    /// A JSON document could not be read; the parser's message.
    Json(String),
    /// The receipt kernel refused a value.
    Core(Error),
    /// An input is not what the format requires.
    InvalidInput(String),
    /// A trust check could not run.
    Trust(String),
}

/// A verification error as plain values.
pub enum ErrorView {
    Json(Seq<char>),
    Core(Error),
    InvalidInput(Seq<char>),
    Trust(Seq<char>),
}

impl View for ReceiptV2Error {
    type V = ErrorView;

    open spec fn view(&self) -> ErrorView {
        match self {
            ReceiptV2Error::Json(m) => ErrorView::Json(m@),
            ReceiptV2Error::Core(e) => ErrorView::Core(*e),
            ReceiptV2Error::InvalidInput(m) => ErrorView::InvalidInput(m@),
            ReceiptV2Error::Trust(m) => ErrorView::Trust(m@),
        }
    }
}

/// The first of two possible failures.
pub open spec fn or_else(a: Option<ErrorView>, b: Option<ErrorView>) -> Option<ErrorView> {
    if a is Some { a } else { b }
}

/// Whether a result failed with the given error, where there is one, and
/// succeeded otherwise.
pub open spec fn fails_as<T>(r: Result<T>, e: Option<ErrorView>) -> bool {
    match e {
        Some(ev) => r matches Err(x) && x@ == ev,
        None => r is Ok,
    }
}

/// Result of receipt verification.
pub type Result<T> = core::result::Result<T, ReceiptV2Error>;

/// The message of a schema mismatch: `expected` and the schema.
pub open spec fn expected_text(schema: Seq<char>) -> Seq<char> {
    "expected "@ + schema
}

/// An invalid-input error that names the schema expected.
pub fn expected_schema(schema: &str) -> (r: ReceiptV2Error)
    ensures
        r matches ReceiptV2Error::InvalidInput(m) && m@ == expected_text(schema@),
{
    ReceiptV2Error::InvalidInput(concat("expected ", schema))
}

/// The message of a policy that asks for canonical transcripts and allows
/// verify-only formats too.
pub open spec fn conflicting_policy_text() -> Seq<char> {
    "strict canonical tlv policy cannot allow verify-only formats"@
}

/// The failure, if any, of a verification policy: a wrong schema, or strict
/// canonical transcripts together with verify-only formats.
pub open spec fn verify_policy_error(p: VerifyPolicyJson) -> Option<Seq<char>> {
    if p.schema@ != VERIFY_POLICY_SCHEMA_V1@ {
        Some(expected_text(VERIFY_POLICY_SCHEMA_V1@))
    } else if p.require_canonical_tlv_v2 && p.allow_verify_only_formats {
        Some(conflicting_policy_text())
    } else {
        None
    }
}

/// A new string with the text of `s`.
pub fn owned_text(s: &str) -> (r: String)
    ensures
        r@ == s@,
{
    let r = s.to_string();
    proof {
        vstd::string::to_string_from_display_ensures_for_str(s, r);
    }
    r
}

impl VerifyPolicyJson {
    /// The strict policy a bank applies: canonical transcripts only, a trusted
    /// issuer, and every supplied manifest and control set matching.
    pub fn bank_strict() -> (r: Self)
        ensures
            r.schema@ == VERIFY_POLICY_SCHEMA_V1@,
            r.policy_id@ == BANK_STRICT_POLICY_ID@,
            r.require_canonical_tlv_v2,
            !r.allow_verify_only_formats,
            r.require_trusted_issuer,
            !r.require_revocation_check,
            r.require_manifest_hash_match_when_manifest_present,
            r.require_evidence_summary_match_when_manifest_present,
            r.require_controls_summary_match_when_controls_present,
            !r.allow_network,
    {
        VerifyPolicyJson {
            schema: owned_text(VERIFY_POLICY_SCHEMA_V1),
            policy_id: owned_text(BANK_STRICT_POLICY_ID),
            require_canonical_tlv_v2: true,
            allow_verify_only_formats: false,
            require_trusted_issuer: true,
            require_revocation_check: false,
            require_manifest_hash_match_when_manifest_present: true,
            require_evidence_summary_match_when_manifest_present: true,
            require_controls_summary_match_when_controls_present: true,
            allow_network: false,
        }
    }

    /// The policy a host applies for compatibility: like the strict policy, but
    /// verify-only formats are accepted.
    pub fn host_compatibility() -> (r: Self)
        ensures
            r.schema@ == VERIFY_POLICY_SCHEMA_V1@,
            r.policy_id@ == HOST_COMPATIBILITY_POLICY_ID@,
            !r.require_canonical_tlv_v2,
            r.allow_verify_only_formats,
            r.require_trusted_issuer,
            !r.require_revocation_check,
            r.require_manifest_hash_match_when_manifest_present,
            r.require_evidence_summary_match_when_manifest_present,
            r.require_controls_summary_match_when_controls_present,
            !r.allow_network,
    {
        VerifyPolicyJson {
            schema: owned_text(VERIFY_POLICY_SCHEMA_V1),
            policy_id: owned_text(HOST_COMPATIBILITY_POLICY_ID),
            require_canonical_tlv_v2: false,
            allow_verify_only_formats: true,
            require_trusted_issuer: true,
            require_revocation_check: false,
            require_manifest_hash_match_when_manifest_present: true,
            require_evidence_summary_match_when_manifest_present: true,
            require_controls_summary_match_when_controls_present: true,
            allow_network: false,
        }
    }

    /// Checks the policy's schema and that it does not both require canonical
    /// transcripts and allow verify-only formats.
    pub fn validate(&self) -> (r: Result<()>)
        ensures
            verify_policy_error(*self) is None ==> r is Ok,
            verify_policy_error(*self) matches Some(m) ==> (r matches Err(ReceiptV2Error::InvalidInput(t)) && t@ == m),
    {
        if !str_eq(self.schema.as_str(), VERIFY_POLICY_SCHEMA_V1) {
            return Err(expected_schema(VERIFY_POLICY_SCHEMA_V1));
        }
        if self.require_canonical_tlv_v2 && self.allow_verify_only_formats {
            return Err(ReceiptV2Error::InvalidInput(owned_text("strict canonical tlv policy cannot allow verify-only formats")));
        }
        Ok(())
    }
}

/// Accepts a parsed trust registry of the first or second version.
pub fn load_trust_registry(registry: TrustRegistryJson) -> (r: Result<TrustRegistryJson>)
    ensures
        registry_schema_known(registry.schema@) ==> r == Ok::<TrustRegistryJson, ReceiptV2Error>(registry),
        !registry_schema_known(registry.schema@) ==> (r matches Err(ReceiptV2Error::InvalidInput(m))
            && m@ == expected_text(TRUST_REGISTRY_SCHEMAS@)),
{
    if !str_eq(registry.schema.as_str(), TRUST_REGISTRY_SCHEMA_V1) && !str_eq(registry.schema.as_str(), TRUST_REGISTRY_SCHEMA_V2) {
        return Err(expected_schema(TRUST_REGISTRY_SCHEMAS));
    }
    Ok(registry)
}

/// Accepts a parsed revocation list of the first or second version.
pub fn load_revocation_list(list: RevocationListJson) -> (r: Result<RevocationListJson>)
    ensures
        revocations_schema_known(list.schema@) ==> r == Ok::<RevocationListJson, ReceiptV2Error>(list),
        !revocations_schema_known(list.schema@) ==> (r matches Err(ReceiptV2Error::InvalidInput(m))
            && m@ == expected_text(REVOCATIONS_SCHEMAS@)),
{
    if !str_eq(list.schema.as_str(), REVOCATIONS_SCHEMA_V1) && !str_eq(list.schema.as_str(), REVOCATIONS_SCHEMA_V2) {
        return Err(expected_schema(REVOCATIONS_SCHEMAS));
    }
    Ok(list)
}

/// Accepts a parsed verification policy that passes `validate`.
pub fn load_verify_policy(policy: VerifyPolicyJson) -> (r: Result<VerifyPolicyJson>)
    ensures
        verify_policy_error(policy) is None ==> r == Ok::<VerifyPolicyJson, ReceiptV2Error>(policy),
        verify_policy_error(policy) matches Some(m) ==> (r matches Err(ReceiptV2Error::InvalidInput(t)) && t@ == m),
{
    policy.validate()?;
    Ok(policy)
}

} // verus!
