//! A remote signing service: choosing the issuer it signs for from a trust
//! registry of the second version, the request it is sent and the answer it
//! gives back.
use vstd::prelude::*;
use crate::bytes::str_eq;
use crate::host::trust_files::{registry_signature_outcome, verify_trust_registry_signature_v2, SignerConfigJson};
use crate::host::{host_error, host_error_is, HostError};
use crate::receipt_v2::check::digest_json;
use crate::receipt_v2::json::{DigestJson, JsonValue, SigningJson, TrustAuthorityJson};
use crate::receipt_v2::normalize::{decode_fixed, fixed_error, fixed_of};
use crate::receipt_v2::{owned_text, TRUST_REGISTRY_SCHEMA_V2};
use crate::text::concat;
use crate::types::Sha256Digest;

verus! {

/// How long a remote request may take when the configuration does not say.
pub const DEFAULT_REQUEST_TIMEOUT_MS: u64 = 5000;

/// An issuer key listed in a trust registry of the second version.
#[derive(Clone, Debug)]
pub struct TrustedIssuerV2Json {
    pub key_id: String,
    pub algorithm: String,
    pub public_key: String,
    pub issuer_name: String,
    pub org_name: String,
    pub usage: String,
    pub state: String,
    pub valid_from: String,
    pub valid_until: Option<String>,
}

/// A signed trust registry of the second version.
#[derive(Clone, Debug)]
pub struct TrustRegistryV2Json {
    pub schema: String,
    pub registry_version: String,
    pub published_at: String,
    pub trust_authorities: Vec<TrustAuthorityJson>,
    pub issuers: Vec<TrustedIssuerV2Json>,
    pub signing: SigningJson,
}

/// Where and how to reach a remote signer.
#[derive(Clone, Debug)]
pub struct RemoteSignerBackend {
    pub base_url: String,
    pub auth_mode: Option<String>,
    pub auth_audience: Option<String>,
    pub request_timeout_ms: u64,
}

/// An issuer whose key a remote signer holds.
#[derive(Clone, Debug)]
pub struct RemoteIssuer {
    pub public_key: [u8; 32],
    pub key_id: String,
    pub issuer_name: String,
    pub backend: String,
    pub receipt_encoding: String,
    pub signer: RemoteSignerBackend,
}

/// What a remote signer is asked to sign.
#[derive(Clone, Debug)]
pub struct RemoteSignRequestJson {
    pub key_id: String,
    pub issuer_name: String,
    pub algorithm: String,
    pub transcript_encoding: String,
    pub payload_hash: DigestJson,
}

/// What a remote signer answers.
#[derive(Clone, Debug)]
pub struct RemoteSignResponseJson {
    pub signature: String,
    pub signer_request_id: Option<String>,
    pub trust_registry_version: Option<String>,
    pub revocation_version: Option<String>,
}

/// A signature and what the signer reported with it.
#[derive(Clone, Debug)]
pub struct SignOperationResult {
    pub signature: [u8; 64],
    pub signer_request_id: Option<String>,
    pub trust_registry_version: Option<String>,
    pub revocation_version: Option<String>,
}

/// The address of the registry a remote signer's issuer is listed in; a
/// configuration without one is refused.
pub fn remote_registry_url(config: &SignerConfigJson) -> (r: Result<&str, HostError>)
    ensures
        config.trust_registry_url matches Some(u) ==> (r matches Ok(s) && s@ == u@),
        config.trust_registry_url is None ==> (r matches Err(HostError::InvalidInput(m))
            && m@ == "remote_kms_v1 requires trust_registry_url"@),
{
    match &config.trust_registry_url {
        Some(u) => Ok(u.as_str()),
        None => Err(HostError::InvalidInput(owned_text("remote_kms_v1 requires trust_registry_url"))),
    }
}

/// Whether a registry entry is the receipt-signing key `key_id` of
/// `issuer_name`, active or retired.
pub open spec fn signs_receipts_for(e: TrustedIssuerV2Json, key_id: Seq<char>, issuer_name: Seq<char>) -> bool {
    &&& e.key_id@ == key_id
    &&& e.issuer_name@ == issuer_name
    &&& e.usage@ == "receipt_signing"@
    &&& (e.state@ == "active"@ || e.state@ == "retired"@)
}

/// The first entry of `issuers` that signs receipts for the key and issuer.
pub open spec fn first_receipt_signer(issuers: Seq<TrustedIssuerV2Json>, key_id: Seq<char>, issuer_name: Seq<char>) -> Option<TrustedIssuerV2Json>
    decreases issuers.len(),
{
    if issuers.len() == 0 {
        None
    } else if signs_receipts_for(issuers[0], key_id, issuer_name) {
        Some(issuers[0])
    } else {
        first_receipt_signer(issuers.drop_first(), key_id, issuer_name)
    }
}

/// The index of the first entry that signs receipts for the key and issuer.
fn find_receipt_signer(issuers: &Vec<TrustedIssuerV2Json>, key_id: &str, issuer_name: &str) -> (r: Option<usize>)
    ensures
        match first_receipt_signer(issuers@, key_id@, issuer_name@) {
            Some(e) => r matches Some(i) && i < issuers@.len() && issuers@[i as int] == e,
            None => r is None,
        },
{
    let mut i: usize = 0;
    assert(issuers@.subrange(0, issuers@.len() as int) =~= issuers@);
    while i < issuers.len()
        invariant
            i <= issuers@.len(),
            first_receipt_signer(issuers@, key_id@, issuer_name@)
                == first_receipt_signer(issuers@.subrange(i as int, issuers@.len() as int), key_id@, issuer_name@),
        decreases issuers@.len() - i,
    {
        let ghost rest = issuers@.subrange(i as int, issuers@.len() as int);
        assert(rest[0] == issuers@[i as int]);
        assert(rest.drop_first() =~= issuers@.subrange(i + 1, issuers@.len() as int));
        let e = &issuers[i];
        if str_eq(e.key_id.as_str(), key_id) && str_eq(e.issuer_name.as_str(), issuer_name)
            && str_eq(e.usage.as_str(), "receipt_signing")
            && (str_eq(e.state.as_str(), "active") || str_eq(e.state.as_str(), "retired")) {
            return Some(i);
        }
        i = i + 1;
    }
    assert(issuers@.subrange(i as int, issuers@.len() as int) =~= Seq::<TrustedIssuerV2Json>::empty());
    None
}

/// Whether a registry whose JSON value is `value` passes the signature check
/// a configuration asks for: none where no authority key is pinned, else a
/// signature that verifies under the pinned key.
pub open spec fn registry_signature_passes(config: SignerConfigJson, registry: TrustRegistryV2Json, value: JsonValue) -> bool {
    match config.pinned_trust_authority_public_key {
        Some(p) => registry_signature_outcome(registry.signing, value, p@) == Ok::<bool, crate::receipt_v2::ErrorView>(true),
        None => true,
    }
}

/// The issuer that a remote signer signs for, as a registry of the second
/// version (whose JSON value is `value`) lists it. Refused, in this order: a
/// registry of another schema; a signature that does not check or verify
/// under the pinned authority key, where one is configured; no
/// receipt-signing entry for the configured key and issuer; an entry key that
/// does not decode to 32 bytes; a configuration without a signer address.
pub fn remote_issuer_from_registry(config: &SignerConfigJson, registry: &TrustRegistryV2Json, value: &JsonValue) -> (r: Result<RemoteIssuer, HostError>)
    ensures
        registry.schema@ != TRUST_REGISTRY_SCHEMA_V2@ ==> (r matches Err(HostError::Trust(m))
            && m@ == "remote trust registry must use ink.trust-registry.v2, got "@ + registry.schema@),
        registry.schema@ == TRUST_REGISTRY_SCHEMA_V2@ ==> (config.pinned_trust_authority_public_key matches Some(p) ==> {
            &&& registry_signature_outcome(registry.signing, *value, p@) matches Err(e)
                ==> (r matches Err(x) && host_error_is(x, e))
            &&& registry_signature_outcome(registry.signing, *value, p@) == Ok::<bool, crate::receipt_v2::ErrorView>(false)
                ==> (r matches Err(HostError::Trust(m)) && m@ == "remote trust registry signature verification failed"@)
        }),
        registry.schema@ == TRUST_REGISTRY_SCHEMA_V2@ && registry_signature_passes(*config, *registry, *value)
            ==> match first_receipt_signer(registry.issuers@, config.key_id@, config.issuer_name@) {
                None => r matches Err(HostError::Trust(m))
                    && m@ == "remote trust registry missing receipt_signing issuer "@ + config.key_id@,
                Some(e) => match fixed_error(e.public_key@, 32) {
                    Some(d) => r matches Err(x) && host_error_is(x, d),
                    None => match config.signer_base_url {
                        None => r matches Err(HostError::InvalidInput(m)) && m@ == "remote_kms_v1 requires signer_base_url"@,
                        Some(u) => r matches Ok(i) && {
                            &&& fixed_of(e.public_key@, 32) == Some(i.public_key@)
                            &&& i.key_id@ == config.key_id@
                            &&& i.issuer_name@ == config.issuer_name@
                            &&& i.backend@ == config.backend@
                            &&& i.receipt_encoding@ == config.receipt_encoding@
                            &&& i.signer.base_url@ == u@
                            &&& i.signer.auth_mode == config.auth_mode
                            &&& i.signer.auth_audience == config.auth_audience
                            &&& i.signer.request_timeout_ms == (match config.request_timeout_ms {
                                Some(t) => t,
                                None => DEFAULT_REQUEST_TIMEOUT_MS,
                            })
                        },
                    },
                },
            },
{
    if !str_eq(registry.schema.as_str(), TRUST_REGISTRY_SCHEMA_V2) {
        return Err(HostError::Trust(concat(
            "remote trust registry must use ink.trust-registry.v2, got ",
            registry.schema.as_str(),
        )));
    }
    if let Some(pinned) = &config.pinned_trust_authority_public_key {
        let valid = match verify_trust_registry_signature_v2(&registry.signing, value, pinned.as_str()) {
            Ok(v) => v,
            Err(x) => return Err(x),
        };
        if !valid {
            return Err(HostError::Trust(owned_text("remote trust registry signature verification failed")));
        }
    }
    let index = match find_receipt_signer(&registry.issuers, config.key_id.as_str(), config.issuer_name.as_str()) {
        Some(i) => i,
        None => {
            return Err(HostError::Trust(concat(
                "remote trust registry missing receipt_signing issuer ",
                config.key_id.as_str(),
            )));
        },
    };
    let entry = &registry.issuers[index];
    let public_key = match decode_fixed::<32>(entry.public_key.as_str()) {
        Ok(k) => k,
        Err(e) => return Err(host_error(e)),
    };
    let base_url = match &config.signer_base_url {
        Some(u) => u.clone(),
        None => return Err(HostError::InvalidInput(owned_text("remote_kms_v1 requires signer_base_url"))),
    };
    let request_timeout_ms = match config.request_timeout_ms {
        Some(t) => t,
        None => DEFAULT_REQUEST_TIMEOUT_MS,
    };
    Ok(RemoteIssuer {
        public_key,
        key_id: config.key_id.clone(),
        issuer_name: config.issuer_name.clone(),
        backend: config.backend.clone(),
        receipt_encoding: config.receipt_encoding.clone(),
        signer: RemoteSignerBackend {
            base_url,
            auth_mode: config.auth_mode.clone(),
            auth_audience: config.auth_audience.clone(),
            request_timeout_ms,
        },
    })
}

/// The request that asks a remote signer for an Ed25519 signature of `digest`
/// under the key, issuer and transcript encoding given.
pub fn remote_sign_request(key_id: &str, issuer_name: &str, receipt_encoding: &str, digest: &Sha256Digest) -> (r: RemoteSignRequestJson)
    ensures
        r.key_id@ == key_id@,
        r.issuer_name@ == issuer_name@,
        r.algorithm@ == "Ed25519"@,
        r.transcript_encoding@ == receipt_encoding@,
        r.payload_hash.algorithm@ == "sha-256"@,
        r.payload_hash.digest@ == crate::codec::hex_lower(digest@),
{
    RemoteSignRequestJson {
        key_id: owned_text(key_id),
        issuer_name: owned_text(issuer_name),
        algorithm: owned_text("Ed25519"),
        transcript_encoding: owned_text(receipt_encoding),
        payload_hash: digest_json(digest),
    }
}

/// The address a remote signer takes Ed25519 signing requests at.
pub fn remote_sign_url(base_url: &str) -> (r: String)
    ensures
        r@ == base_url@ + "/v1/signatures/ed25519"@,
{
    concat(base_url, "/v1/signatures/ed25519")
}

/// The bearer token a request carries: the audience, where the backend
/// authenticates by bearer token and names one.
pub fn bearer_token(backend: &RemoteSignerBackend) -> (r: Option<&str>)
    ensures
        (backend.auth_mode matches Some(m) && m@ == "bearer"@ && backend.auth_audience is Some)
            ==> (r matches Some(t) && t@ == backend.auth_audience->Some_0@),
        !(backend.auth_mode matches Some(m) && m@ == "bearer"@ && backend.auth_audience is Some) ==> r is None,
{
    match &backend.auth_mode {
        Some(m) => {
            if str_eq(m.as_str(), "bearer") {
                match &backend.auth_audience {
                    Some(t) => Some(t.as_str()),
                    None => None,
                }
            } else {
                None
            }
        },
        None => None,
    }
}

/// The signature a remote signer's answer carries, which must decode to 64
/// bytes, with what it reported.
pub fn remote_sign_result(response: RemoteSignResponseJson) -> (r: Result<SignOperationResult, HostError>)
    ensures
        fixed_error(response.signature@, 64) matches Some(e) ==> (r matches Err(x) && host_error_is(x, e)),
        fixed_error(response.signature@, 64) is None ==> (r matches Ok(s)
            && fixed_of(response.signature@, 64) == Some(s.signature@)
            && s.signer_request_id == response.signer_request_id
            && s.trust_registry_version == response.trust_registry_version
            && s.revocation_version == response.revocation_version),
{
    let signature = match decode_fixed::<64>(response.signature.as_str()) {
        Ok(s) => s,
        Err(e) => return Err(host_error(e)),
    };
    Ok(SignOperationResult {
        signature,
        signer_request_id: response.signer_request_id,
        trust_registry_version: response.trust_registry_version,
        revocation_version: response.revocation_version,
    })
}

} // verus!
