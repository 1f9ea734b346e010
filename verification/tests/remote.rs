use base64ct::{Base64UrlUnpadded, Encoding};
use ink_receipts::host::remote::{
    bearer_token, remote_issuer_from_registry, remote_registry_url, remote_sign_request, remote_sign_result,
    remote_sign_url, RemoteSignResponseJson, RemoteSignerBackend, TrustRegistryV2Json, TrustedIssuerV2Json,
};
use ink_receipts::host::trust_files::{default_signer_config, SignerConfigJson};
use ink_receipts::host::HostError;
use ink_receipts::receipt_v2::json::{DigestJson, JsonValue, SigningJson};
use ink_receipts::types::Sha256Digest;

fn remote_config() -> SignerConfigJson {
    let mut config = default_signer_config("kms-key-1");
    config.backend = "remote_kms_v1".to_string();
    config.signer_base_url = Some("https://signer.test".to_string());
    config.trust_registry_url = Some("https://registry.test/trust.json".to_string());
    config
}

fn entry(key_id: &str, usage: &str, state: &str, public_key: &str) -> TrustedIssuerV2Json {
    TrustedIssuerV2Json {
        key_id: key_id.to_string(),
        algorithm: "Ed25519".to_string(),
        public_key: public_key.to_string(),
        issuer_name: "BLKBX Local Dev".to_string(),
        org_name: "BLKBX Lab".to_string(),
        usage: usage.to_string(),
        state: state.to_string(),
        valid_from: "2025-01-01T00:00:00Z".to_string(),
        valid_until: None,
    }
}

fn registry(schema: &str, issuers: Vec<TrustedIssuerV2Json>) -> TrustRegistryV2Json {
    TrustRegistryV2Json {
        schema: schema.to_string(),
        registry_version: "1".to_string(),
        published_at: "2025-01-01T00:00:00Z".to_string(),
        trust_authorities: Vec::new(),
        issuers,
        signing: SigningJson {
            transcript_encoding: "INK-TRUST-REGISTRY-JSON-V2".to_string(),
            payload_hash: DigestJson { algorithm: "sha-256".to_string(), digest: String::new() },
            algorithm: "Ed25519".to_string(),
            key_id: "authority".to_string(),
            signature: String::new(),
        },
    }
}

#[test]
fn remote_registry_url_is_required() {
    assert_eq!(remote_registry_url(&remote_config()), Ok("https://registry.test/trust.json"));
    let mut config = remote_config();
    config.trust_registry_url = None;
    assert_eq!(
        remote_registry_url(&config),
        Err(HostError::InvalidInput("remote_kms_v1 requires trust_registry_url".to_string()))
    );
}

#[test]
fn remote_issuer_is_the_first_receipt_signing_entry() {
    let key = Base64UrlUnpadded::encode_string(&[5u8; 32]);
    let other = Base64UrlUnpadded::encode_string(&[6u8; 32]);
    let issuers = vec![
        entry("kms-key-1", "registry_signing", "active", &other),
        entry("kms-key-1", "receipt_signing", "revoked", &other),
        entry("kms-key-1", "receipt_signing", "retired", &key),
        entry("kms-key-1", "receipt_signing", "active", &other),
    ];
    let issuer = remote_issuer_from_registry(&remote_config(), &registry("ink.trust-registry.v2", issuers), &JsonValue::Null).unwrap();
    assert_eq!(issuer.public_key, [5u8; 32]);
    assert_eq!(issuer.key_id, "kms-key-1");
    assert_eq!(issuer.signer.base_url, "https://signer.test");
    assert_eq!(issuer.signer.request_timeout_ms, 5000);
}

#[test]
fn remote_issuer_refusals_come_in_order() {
    let key = Base64UrlUnpadded::encode_string(&[5u8; 32]);
    let wrong_schema = remote_issuer_from_registry(&remote_config(), &registry("ink.trust-registry.v1", Vec::new()), &JsonValue::Null);
    assert_eq!(
        wrong_schema.unwrap_err(),
        HostError::Trust("remote trust registry must use ink.trust-registry.v2, got ink.trust-registry.v1".to_string())
    );
    let missing = remote_issuer_from_registry(&remote_config(), &registry("ink.trust-registry.v2", Vec::new()), &JsonValue::Null);
    assert_eq!(
        missing.unwrap_err(),
        HostError::Trust("remote trust registry missing receipt_signing issuer kms-key-1".to_string())
    );
    let bad_key = registry("ink.trust-registry.v2", vec![entry("kms-key-1", "receipt_signing", "active", "!!")]);
    assert!(matches!(remote_issuer_from_registry(&remote_config(), &bad_key, &JsonValue::Null), Err(HostError::InvalidInput(_))));
    let mut no_signer = remote_config();
    no_signer.signer_base_url = None;
    let good = registry("ink.trust-registry.v2", vec![entry("kms-key-1", "receipt_signing", "active", &key)]);
    assert_eq!(
        remote_issuer_from_registry(&no_signer, &good, &JsonValue::Null).unwrap_err(),
        HostError::InvalidInput("remote_kms_v1 requires signer_base_url".to_string())
    );
    let mut pinned = remote_config();
    pinned.pinned_trust_authority_public_key = Some(Base64UrlUnpadded::encode_string(&[1u8; 32]));
    assert!(remote_issuer_from_registry(&pinned, &good, &JsonValue::Null).is_err());
}

#[test]
fn remote_sign_request_url_and_token() {
    let request = remote_sign_request("kms-key-1", "BLKBX", "INK-CORE-TLV-V2", &Sha256Digest([0xabu8; 32]));
    assert_eq!(request.algorithm, "Ed25519");
    assert_eq!(request.transcript_encoding, "INK-CORE-TLV-V2");
    assert_eq!(request.payload_hash.algorithm, "sha-256");
    assert_eq!(request.payload_hash.digest, "ab".repeat(32));
    assert_eq!(remote_sign_url("https://signer.test"), "https://signer.test/v1/signatures/ed25519");
    let mut backend = RemoteSignerBackend {
        base_url: "https://signer.test".to_string(),
        auth_mode: Some("bearer".to_string()),
        auth_audience: Some("token-1".to_string()),
        request_timeout_ms: 100,
    };
    assert_eq!(bearer_token(&backend), Some("token-1"));
    backend.auth_mode = Some("mtls".to_string());
    assert_eq!(bearer_token(&backend), None);
}

#[test]
fn remote_sign_result_decodes_the_signature() {
    let ok = remote_sign_result(RemoteSignResponseJson {
        signature: Base64UrlUnpadded::encode_string(&[3u8; 64]),
        signer_request_id: Some("req-1".to_string()),
        trust_registry_version: None,
        revocation_version: Some("7".to_string()),
    })
    .unwrap();
    assert_eq!(ok.signature, [3u8; 64]);
    assert_eq!(ok.signer_request_id.as_deref(), Some("req-1"));
    assert_eq!(ok.revocation_version.as_deref(), Some("7"));
    let short = remote_sign_result(RemoteSignResponseJson {
        signature: Base64UrlUnpadded::encode_string(&[3u8; 32]),
        signer_request_id: None,
        trust_registry_version: None,
        revocation_version: None,
    });
    assert_eq!(short.unwrap_err(), HostError::InvalidInput("invalid fixed length".to_string()));
}
