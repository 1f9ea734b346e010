use base64ct::{Base64UrlUnpadded, Encoding};
use ed25519_dalek::{Signer, SigningKey, Verifier};
use ink_receipts::host::trust_files::{
    default_signer_config, empty_trust_registry, ensure_key_not_revoked, ensure_registry_entry, find_active_issuer_name, migrate_trusted_keys,
    new_revocation_list, sign_revocation_list, verify_trust_registry_signature_v2, LegacyTrustedKeyJson,
};
use ink_receipts::host::HostError;
use ink_receipts::receipt_v2::json::{DigestJson, JsonValue, SigningJson, TrustedIssuerJson};
use sha2::Digest;

fn key() -> SigningKey {
    SigningKey::from_bytes(&[9u8; 32])
}

#[test]
fn default_signer_config_is_the_local_demo_signer() {
    let config = default_signer_config("ed25519:abc");
    assert_eq!(config.schema, "ink.signer-config.v1");
    assert_eq!(config.backend, "demo_file");
    assert_eq!(config.issuer_name, "BLKBX Local Dev");
    assert_eq!(config.key_id, "ed25519:abc");
    assert_eq!(config.secret_key_path, "keys/active.ed25519.key");
    assert_eq!(config.public_key_path, "keys/active.ed25519.pub");
    assert_eq!(config.trust_registry_path, "trust-registry.json");
    assert_eq!(config.revocation_list_path, "revocations.json");
    assert_eq!(config.receipt_encoding, "INK-CORE-TLV-V2");
    assert!(config.signer_base_url.is_none());
}

#[test]
fn own_key_is_added_to_the_registry_once() {
    let mut registry = empty_trust_registry();
    assert_eq!(registry.schema, "ink.trust-registry.v1");
    let public_key = key().verifying_key().to_bytes();
    assert!(ensure_registry_entry(&mut registry, "k1", "Issuer", &public_key));
    assert!(!ensure_registry_entry(&mut registry, "k1", "Issuer", &public_key));
    assert_eq!(registry.issuers.len(), 1);
    let entry = &registry.issuers[0];
    assert_eq!(entry.public_key, Base64UrlUnpadded::encode_string(&public_key));
    assert_eq!(entry.status, "active");
    assert_eq!(entry.org_name, "BLKBX Lab");
    assert!(ensure_registry_entry(&mut registry, "k1", "Other", &public_key));
    assert_eq!(registry.issuers.len(), 2);
}

fn list_value(key_id: &str, signature: &str) -> JsonValue {
    JsonValue::Object(vec![
        ("schema".to_string(), JsonValue::String("ink.revocations.v1".to_string())),
        ("revoked_keys".to_string(), JsonValue::Array(vec![])),
        (
            "signing".to_string(),
            JsonValue::Object(vec![
                ("key_id".to_string(), JsonValue::String(key_id.to_string())),
                ("signature".to_string(), JsonValue::String(signature.to_string())),
            ]),
        ),
    ])
}

#[test]
fn revocation_list_is_signed_over_its_canonical_form() {
    let list = new_revocation_list("k1");
    assert_eq!(list.signing.transcript_encoding, "INK-REVOCATION-JSON-V1");
    let signed = sign_revocation_list(list, &list_value("k1", ""), &[9u8; 32]);
    let digest = sha2::Sha256::digest(b"{\"revoked_keys\":[],\"schema\":\"ink.revocations.v1\"}");
    assert_eq!(signed.signing.payload_hash.digest, hex::encode(digest));
    let signature_bytes = Base64UrlUnpadded::decode_vec(&signed.signing.signature).unwrap();
    let signature = ed25519_dalek::Signature::from_slice(&signature_bytes).unwrap();
    assert!(key().verifying_key().verify(&digest, &signature).is_ok());
    assert_eq!(signed.signing.key_id, "k1");
}

#[test]
fn legacy_trusted_keys_become_registry_entries() {
    let keys = vec![
        LegacyTrustedKeyJson {
            key_id: "a".to_string(),
            algorithm: "Ed25519".to_string(),
            public_key: "pk".to_string(),
            issuer_names: vec!["First".to_string(), "Second".to_string()],
            status: "active".to_string(),
        },
        LegacyTrustedKeyJson {
            key_id: "b".to_string(),
            algorithm: "Ed25519".to_string(),
            public_key: "pk2".to_string(),
            issuer_names: vec![],
            status: "revoked".to_string(),
        },
    ];
    let entries = migrate_trusted_keys(&keys);
    assert_eq!(entries.len(), 2);
    assert_eq!(entries[0].issuer_name, "First");
    assert_eq!(entries[1].issuer_name, "BLKBX Local Dev");
    assert_eq!(entries[1].status, "revoked");
    assert_eq!(entries[0].org_name, "BLKBX Lab");
    assert_eq!(find_active_issuer_name(&entries, "a"), Some("First".to_string()));
    assert_eq!(find_active_issuer_name(&entries, "b"), None);
}

fn issuer(key_id: &str, status: &str, name: &str) -> TrustedIssuerJson {
    TrustedIssuerJson {
        key_id: key_id.to_string(),
        algorithm: "Ed25519".to_string(),
        public_key: String::new(),
        issuer_name: name.to_string(),
        org_name: String::new(),
        status: status.to_string(),
        usage: None,
    }
}

#[test]
fn active_issuer_name_is_the_first_active_entry() {
    let entries = vec![issuer("k", "retired", "Old"), issuer("k", "active", "New"), issuer("k", "active", "Later")];
    assert_eq!(find_active_issuer_name(&entries, "k"), Some("New".to_string()));
}

fn registry_signing(digest_hex: &str, encoding: &str, signature: &str) -> SigningJson {
    SigningJson {
        transcript_encoding: encoding.to_string(),
        payload_hash: DigestJson { algorithm: "sha-256".to_string(), digest: digest_hex.to_string() },
        algorithm: "Ed25519".to_string(),
        key_id: "authority".to_string(),
        signature: signature.to_string(),
    }
}

#[test]
fn signed_registry_verifies_under_the_pinned_key() {
    let value = JsonValue::Object(vec![("registry_version".to_string(), JsonValue::String("7".to_string()))]);
    let digest = sha2::Sha256::digest(b"{\"registry_version\":\"7\"}");
    let signature = Base64UrlUnpadded::encode_string(&key().sign(&digest).to_bytes());
    let pinned = Base64UrlUnpadded::encode_string(&key().verifying_key().to_bytes());
    let signing = registry_signing(&hex::encode(digest), "INK-TRUST-REGISTRY-JSON-V2", &signature);
    assert_eq!(verify_trust_registry_signature_v2(&signing, &value, &pinned), Ok(true));
    let other = Base64UrlUnpadded::encode_string(&SigningKey::from_bytes(&[1u8; 32]).verifying_key().to_bytes());
    assert_eq!(verify_trust_registry_signature_v2(&signing, &value, &other), Ok(false));
    let wrong_encoding = registry_signing(&hex::encode(digest), "INK-REVOCATION-JSON-V1", &signature);
    assert_eq!(verify_trust_registry_signature_v2(&wrong_encoding, &value, &pinned), Ok(false));
    let wrong_hash = registry_signing("00", "INK-TRUST-REGISTRY-JSON-V2", &signature);
    assert_eq!(verify_trust_registry_signature_v2(&wrong_hash, &value, &pinned), Ok(false));
    let bad_signature = registry_signing(&hex::encode(digest), "INK-TRUST-REGISTRY-JSON-V2", "!!");
    assert!(matches!(verify_trust_registry_signature_v2(&bad_signature, &value, &pinned), Err(HostError::InvalidInput(_))));
}

#[test]
fn revoked_keys_are_refused() {
    let mut list = new_revocation_list("authority");
    list.revoked_keys.push(ink_receipts::receipt_v2::json::RevokedKeyJson {
        key_id: "k-old".to_string(),
        reason: "rotated".to_string(),
        revoked_at: "2024-01-01".to_string(),
    });
    assert_eq!(ensure_key_not_revoked(&list, "k-new"), Ok(()));
    assert_eq!(
        ensure_key_not_revoked(&list, "k-old"),
        Err(HostError::Trust("trusted key k-old is revoked".to_string()))
    );
}
