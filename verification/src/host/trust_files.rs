//! The host's trust files: its signer configuration, the registry entry of its
//! own key, the revocation list it signs, the registries it migrates from the
//! first trust-policy format, and the check of a signed registry.
use vstd::prelude::*;
use crate::bytes::str_eq;
use crate::codec::hex_lower;
use crate::crypto::{base64url_decode_spec, ed25519_key_valid, ed25519_sign_spec, ed25519_verify_spec, sha256_spec};
use crate::host::HostError;
use crate::receipt_v2::canonical::{canonical_without, canonicalize_without};
use crate::receipt_v2::check::digest_json;
use crate::receipt_v2::json::{DigestJson, JsonValue, RevocationListJson, SigningJson, TrustRegistryJson, TrustedIssuerJson};
use crate::receipt_v2::normalize::{fixed_error, fixed_of};
use crate::receipt_v2::{fails_as, owned_text, ErrorView, RECEIPT_ENCODING_TLV_V2, REVOCATIONS_SCHEMA_V1, REVOCATION_ENCODING_JSON_V1, TRUST_REGISTRY_SCHEMA_V1};

verus! {

/// The issuer name of the host's own signer.
pub const LOCAL_ISSUER_NAME: &'static str = "BLKBX Local Dev";
/// The organisation the host's registry entries name.
pub const LOCAL_ORG_NAME: &'static str = "BLKBX Lab";
/// The schema of a signer configuration.
pub const SIGNER_CONFIG_SCHEMA_V1: &'static str = "ink.signer-config.v1";
/// The encoding that signs a registry of the second version.
pub const TRUST_REGISTRY_ENCODING_JSON_V2: &'static str = "INK-TRUST-REGISTRY-JSON-V2";

/// How the host signs: its backend, its identity, where its keys and trust
/// files are, the encoding it signs, and the settings of a remote signer.
#[derive(Clone, Debug)]
pub struct SignerConfigJson {
    pub schema: String,
    pub backend: String,
    pub issuer_name: String,
    pub key_id: String,
    pub secret_key_path: String,
    pub public_key_path: String,
    pub trust_registry_path: String,
    pub revocation_list_path: String,
    pub receipt_encoding: String,
    pub signer_base_url: Option<String>,
    pub auth_mode: Option<String>,
    pub auth_audience: Option<String>,
    pub request_timeout_ms: Option<u64>,
    pub trust_registry_url: Option<String>,
    pub revocations_url: Option<String>,
    pub pinned_trust_authority_public_key: Option<String>,
}

/// The configuration of a new local signer for `key_id`: the demonstration
/// backend, the local issuer, its keys under `keys/`, the trust files beside
/// the configuration, the canonical TLV encoding, and no remote settings.
pub fn default_signer_config(key_id: &str) -> (r: SignerConfigJson)
    ensures
        r.schema@ == SIGNER_CONFIG_SCHEMA_V1@,
        r.backend@ == "demo_file"@,
        r.issuer_name@ == LOCAL_ISSUER_NAME@,
        r.key_id@ == key_id@,
        r.secret_key_path@ == "keys/active.ed25519.key"@,
        r.public_key_path@ == "keys/active.ed25519.pub"@,
        r.trust_registry_path@ == "trust-registry.json"@,
        r.revocation_list_path@ == "revocations.json"@,
        r.receipt_encoding@ == RECEIPT_ENCODING_TLV_V2@,
        r.signer_base_url is None,
        r.auth_mode is None,
        r.auth_audience is None,
        r.request_timeout_ms is None,
        r.trust_registry_url is None,
        r.revocations_url is None,
        r.pinned_trust_authority_public_key is None,
{
    SignerConfigJson {
        schema: owned_text(SIGNER_CONFIG_SCHEMA_V1),
        backend: owned_text("demo_file"),
        issuer_name: owned_text(LOCAL_ISSUER_NAME),
        key_id: owned_text(key_id),
        secret_key_path: owned_text("keys/active.ed25519.key"),
        public_key_path: owned_text("keys/active.ed25519.pub"),
        trust_registry_path: owned_text("trust-registry.json"),
        revocation_list_path: owned_text("revocations.json"),
        receipt_encoding: owned_text(RECEIPT_ENCODING_TLV_V2),
        signer_base_url: None,
        auth_mode: None,
        auth_audience: None,
        request_timeout_ms: None,
        trust_registry_url: None,
        revocations_url: None,
        pinned_trust_authority_public_key: None,
    }
}

/// Whether a registry lists an entry for the key and issuer.
pub open spec fn lists_issuer(issuers: Seq<TrustedIssuerJson>, key_id: Seq<char>, issuer_name: Seq<char>) -> bool {
    exists|i: int| 0 <= i < issuers.len() && (#[trigger] issuers[i]).key_id@ == key_id && issuers[i].issuer_name@ == issuer_name
}

/// Whether `e` is the active Ed25519 entry of the host's own key.
pub open spec fn own_entry(e: TrustedIssuerJson, key_id: Seq<char>, issuer_name: Seq<char>, public_key: Seq<u8>) -> bool {
    &&& e.key_id@ == key_id
    &&& e.algorithm@ == "Ed25519"@
    &&& base64url_decode_spec(e.public_key@) == Some(public_key)
    &&& e.issuer_name@ == issuer_name
    &&& e.org_name@ == LOCAL_ORG_NAME@
    &&& e.status@ == "active"@
    &&& e.usage is None
}

fn lists_issuer_exec(issuers: &Vec<TrustedIssuerJson>, key_id: &str, issuer_name: &str) -> (r: bool)
    ensures
        r == lists_issuer(issuers@, key_id@, issuer_name@),
{
    let mut i: usize = 0;
    while i < issuers.len()
        invariant
            i <= issuers@.len(),
            forall|j: int| 0 <= j < i ==> !((#[trigger] issuers@[j]).key_id@ == key_id@ && issuers@[j].issuer_name@ == issuer_name@),
        decreases issuers@.len() - i,
    {
        if str_eq(issuers[i].key_id.as_str(), key_id) && str_eq(issuers[i].issuer_name.as_str(), issuer_name) {
            return true;
        }
        i = i + 1;
    }
    false
}

/// Adds the host's own key to a registry where no entry names the same key
/// and issuer; says whether it added one.
pub fn ensure_registry_entry(registry: &mut TrustRegistryJson, key_id: &str, issuer_name: &str, public_key: &[u8; 32]) -> (r: bool)
    ensures
        r == !lists_issuer(old(registry).issuers@, key_id@, issuer_name@),
        final(registry).schema == old(registry).schema,
        final(registry).trust_authorities == old(registry).trust_authorities,
        !r ==> final(registry).issuers@ == old(registry).issuers@,
        r ==> final(registry).issuers@.len() == old(registry).issuers@.len() + 1
            && final(registry).issuers@.subrange(0, old(registry).issuers@.len() as int) == old(registry).issuers@
            && own_entry(final(registry).issuers@.last(), key_id@, issuer_name@, public_key@),
{
    if lists_issuer_exec(&registry.issuers, key_id, issuer_name) {
        return false;
    }
    let entry = TrustedIssuerJson {
        key_id: owned_text(key_id),
        algorithm: owned_text("Ed25519"),
        public_key: crate::crypto::base64url_encode(public_key.as_slice()),
        issuer_name: owned_text(issuer_name),
        org_name: owned_text(LOCAL_ORG_NAME),
        status: owned_text("active"),
        usage: None,
    };
    registry.issuers.push(entry);
    assert(registry.issuers@.subrange(0, old(registry).issuers@.len() as int) =~= old(registry).issuers@);
    true
}

/// An empty registry of the first version.
pub fn empty_trust_registry() -> (r: TrustRegistryJson)
    ensures
        r.schema@ == TRUST_REGISTRY_SCHEMA_V1@,
        r.issuers@.len() == 0,
        r.trust_authorities@.len() == 0,
{
    TrustRegistryJson { schema: owned_text(TRUST_REGISTRY_SCHEMA_V1), issuers: Vec::new(), trust_authorities: Vec::new() }
}

/// An empty revocation list to be signed by `key_id`, its payload hash and
/// signature not yet set.
pub fn new_revocation_list(key_id: &str) -> (r: RevocationListJson)
    ensures
        r.schema@ == REVOCATIONS_SCHEMA_V1@,
        r.revoked_keys@.len() == 0,
        r.signing.transcript_encoding@ == REVOCATION_ENCODING_JSON_V1@,
        r.signing.payload_hash.algorithm@ == "sha-256"@,
        r.signing.payload_hash.digest@ == Seq::<char>::empty(),
        r.signing.algorithm@ == "Ed25519"@,
        r.signing.key_id@ == key_id@,
        r.signing.signature@ == Seq::<char>::empty(),
{
    RevocationListJson {
        schema: owned_text(REVOCATIONS_SCHEMA_V1),
        revoked_keys: Vec::new(),
        signing: SigningJson {
            transcript_encoding: owned_text(REVOCATION_ENCODING_JSON_V1),
            payload_hash: DigestJson { algorithm: owned_text("sha-256"), digest: String::new() },
            algorithm: owned_text("Ed25519"),
            key_id: owned_text(key_id),
            signature: String::new(),
        },
    }
}

/// The digest a revocation list's signature covers: SHA-256 of the canonical
/// form of its JSON value without its signing block.
pub open spec fn document_digest(value: JsonValue) -> Seq<u8> {
    sha256_spec(canonical_without(value, "signing"@))
}

/// Signs a revocation list whose JSON value is `value`: its payload hash
/// becomes the digest of the value without its signing block, and its
/// signature the Ed25519 signature of that digest under `secret_key`.
pub fn sign_revocation_list(list: RevocationListJson, value: &JsonValue, secret_key: &[u8; 32]) -> (r: RevocationListJson)
    ensures
        r.schema == list.schema,
        r.revoked_keys == list.revoked_keys,
        r.signing.transcript_encoding == list.signing.transcript_encoding,
        r.signing.algorithm == list.signing.algorithm,
        r.signing.key_id == list.signing.key_id,
        r.signing.payload_hash.algorithm@ == "sha-256"@,
        r.signing.payload_hash.digest@ == hex_lower(document_digest(*value)),
        base64url_decode_spec(r.signing.signature@) == Some(ed25519_sign_spec(secret_key@, document_digest(*value))),
{
    let canonical = canonicalize_without(value, "signing");
    let digest = crate::digest::sha256(canonical.as_slice());
    let signature = crate::crypto::ed25519_sign(secret_key, digest.0.as_slice());
    let mut signed = list;
    signed.signing.payload_hash = digest_json(&digest);
    signed.signing.signature = crate::crypto::base64url_encode(signature.as_slice());
    signed
}

/// A key of the first trust-policy format.
#[derive(Clone, Debug)]
pub struct LegacyTrustedKeyJson {
    pub key_id: String,
    pub algorithm: String,
    pub public_key: String,
    pub issuer_names: Vec<String>,
    pub status: String,
}

/// The registry entry of a key of the first trust-policy format: its first
/// issuer name, else the local issuer.
pub open spec fn migrated_entry_ok(e: TrustedIssuerJson, k: LegacyTrustedKeyJson) -> bool {
    &&& e.key_id@ == k.key_id@
    &&& e.algorithm@ == k.algorithm@
    &&& e.public_key@ == k.public_key@
    &&& e.issuer_name@ == (if k.issuer_names@.len() > 0 { k.issuer_names@[0]@ } else { LOCAL_ISSUER_NAME@ })
    &&& e.org_name@ == LOCAL_ORG_NAME@
    &&& e.status@ == k.status@
    &&& e.usage is None
}

fn copy_text(s: &String) -> (r: String)
    ensures
        r@ == s@,
{
    owned_text(s.as_str())
}

/// The registry entries of the keys of a first-format trust policy, in order.
pub fn migrate_trusted_keys(keys: &Vec<LegacyTrustedKeyJson>) -> (r: Vec<TrustedIssuerJson>)
    ensures
        r@.len() == keys@.len(),
        forall|i: int| 0 <= i < keys@.len() ==> migrated_entry_ok(#[trigger] r@[i], keys@[i]),
{
    let mut out: Vec<TrustedIssuerJson> = Vec::new();
    let mut i: usize = 0;
    while i < keys.len()
        invariant
            i <= keys@.len(),
            out@.len() == i,
            forall|j: int| 0 <= j < i ==> migrated_entry_ok(#[trigger] out@[j], keys@[j]),
        decreases keys@.len() - i,
    {
        let k = &keys[i];
        let issuer_name = if k.issuer_names.len() > 0 {
            owned_text(k.issuer_names[0].as_str())
        } else {
            owned_text(LOCAL_ISSUER_NAME)
        };
        out.push(TrustedIssuerJson {
            key_id: copy_text(&k.key_id),
            algorithm: copy_text(&k.algorithm),
            public_key: copy_text(&k.public_key),
            issuer_name,
            org_name: owned_text(LOCAL_ORG_NAME),
            status: copy_text(&k.status),
            usage: None,
        });
        i = i + 1;
    }
    out
}

/// The issuer name of the active registry entry for `key_id`, where there is one.
pub open spec fn active_issuer_name(issuers: Seq<TrustedIssuerJson>, key_id: Seq<char>) -> Option<Seq<char>>
    decreases issuers.len(),
{
    if issuers.len() == 0 {
        None
    } else if issuers[0].key_id@ == key_id && issuers[0].status@ == "active"@ {
        Some(issuers[0].issuer_name@)
    } else {
        active_issuer_name(issuers.drop_first(), key_id)
    }
}

/// The issuer name of the first active registry entry for `key_id`.
pub fn find_active_issuer_name(issuers: &Vec<TrustedIssuerJson>, key_id: &str) -> (r: Option<String>)
    ensures
        match active_issuer_name(issuers@, key_id@) {
            Some(n) => r matches Some(s) && s@ == n,
            None => r is None,
        },
{
    let mut i: usize = 0;
    assert(issuers@.subrange(0, issuers@.len() as int) =~= issuers@);
    while i < issuers.len()
        invariant
            i <= issuers@.len(),
            active_issuer_name(issuers@, key_id@) == active_issuer_name(issuers@.subrange(i as int, issuers@.len() as int), key_id@),
        decreases issuers@.len() - i,
    {
        let ghost rest = issuers@.subrange(i as int, issuers@.len() as int);
        assert(rest[0] == issuers@[i as int]);
        assert(rest.drop_first() =~= issuers@.subrange(i + 1, issuers@.len() as int));
        if str_eq(issuers[i].key_id.as_str(), key_id) && str_eq(issuers[i].status.as_str(), "active") {
            return Some(owned_text(issuers[i].issuer_name.as_str()));
        }
        i = i + 1;
    }
    None
}

/// Whether a registry of the second version, whose JSON value is `value`, is
/// signed under the pinned key: its payload hash is the digest of the value
/// without its signing block, it is signed with Ed25519 in the registry
/// encoding, and the signature verifies (a pinned key that is not a valid
/// point verifies nothing). Signature and key text that do not decode are
/// refused.
pub open spec fn registry_signature_outcome(signing: SigningJson, value: JsonValue, pinned: Seq<char>) -> core::result::Result<bool, ErrorView> {
    let digest = document_digest(value);
    if signing.payload_hash.algorithm@ != "sha-256"@ || signing.payload_hash.digest@ != hex_lower(digest) {
        Ok(false)
    } else if signing.algorithm@ != "Ed25519"@ || signing.transcript_encoding@ != TRUST_REGISTRY_ENCODING_JSON_V2@ {
        Ok(false)
    } else if fixed_error(signing.signature@, 64) is Some {
        Err(fixed_error(signing.signature@, 64)->Some_0)
    } else if fixed_error(pinned, 32) is Some {
        Err(fixed_error(pinned, 32)->Some_0)
    } else {
        let key = fixed_of(pinned, 32)->Some_0;
        Ok(ed25519_key_valid(key) && ed25519_verify_spec(key, digest, fixed_of(signing.signature@, 64)->Some_0))
    }
}

/// Checks the signature of a registry of the second version under a pinned key.
pub fn verify_trust_registry_signature_v2(signing: &SigningJson, value: &JsonValue, pinned_public_key: &str) -> (r: Result<bool, HostError>)
    ensures
        match registry_signature_outcome(*signing, *value, pinned_public_key@) {
            Ok(b) => r == Ok::<bool, HostError>(b),
            Err(e) => r matches Err(HostError::InvalidInput(m)) && e == ErrorView::InvalidInput(m@),
        },
{
    let canonical = canonicalize_without(value, "signing");
    let digest = crate::digest::sha256(canonical.as_slice());
    let expected = digest_json(&digest);
    if !str_eq(signing.payload_hash.algorithm.as_str(), expected.algorithm.as_str())
        || !str_eq(signing.payload_hash.digest.as_str(), expected.digest.as_str()) {
        return Ok(false);
    }
    if !str_eq(signing.algorithm.as_str(), "Ed25519") || !str_eq(signing.transcript_encoding.as_str(), TRUST_REGISTRY_ENCODING_JSON_V2) {
        return Ok(false);
    }
    let signature = match crate::receipt_v2::normalize::decode_fixed::<64>(signing.signature.as_str()) {
        Ok(s) => s,
        Err(e) => return Err(crate::host::host_error(e)),
    };
    let key = match crate::receipt_v2::normalize::decode_fixed::<32>(pinned_public_key) {
        Ok(k) => k,
        Err(e) => return Err(crate::host::host_error(e)),
    };
    match crate::trust::verify_ed25519_message_hash_bytes(&digest.0, &signature, &key) {
        Ok(valid) => Ok(valid),
        Err(_) => Ok(false),
    }
}

/// Refuses a key that a revocation list revokes.
pub fn ensure_key_not_revoked(list: &RevocationListJson, key_id: &str) -> (r: Result<(), HostError>)
    ensures
        !crate::receipt_v2::check::key_revoked(*list, key_id@) ==> r is Ok,
        crate::receipt_v2::check::key_revoked(*list, key_id@)
            ==> (r matches Err(HostError::Trust(m)) && m@ == "trusted key "@ + key_id@ + " is revoked"@),
{
    let mut i: usize = 0;
    while i < list.revoked_keys.len()
        invariant
            i <= list.revoked_keys@.len(),
            forall|j: int| 0 <= j < i ==> (#[trigger] list.revoked_keys@[j]).key_id@ != key_id@,
        decreases list.revoked_keys@.len() - i,
    {
        if str_eq(list.revoked_keys[i].key_id.as_str(), key_id) {
            let head = crate::text::concat("trusted key ", key_id);
            return Err(HostError::Trust(crate::text::concat(head.as_str(), " is revoked")));
        }
        i = i + 1;
    }
    Ok(())
}

} // verus!
