//! What the host decides around a verification: receipts of the first
//! version, checked by their development integrity seal, and the reports it
//! refuses.
use vstd::prelude::*;
use vstd::string::StringSliceAdditionalSpecFns;
use crate::bytes::str_eq;
use crate::codec::hex_lower;
use crate::crypto::{sha256_spec, sha512_spec};
use crate::host::HostError;
use crate::receipt_v2::canonical::{canonical_without, canonicalize_without};
use crate::receipt_v2::json::JsonValue;
use crate::receipt_v2::owned_text;
use crate::text::concat;

verus! {

/// The schema of a receipt of the first version.
pub const RECEIPT_SCHEMA_V1: &'static str = "ink.receipt.v1";

/// The development secret that seals receipts of the first version.
pub const LEGACY_DEV_SECRET: &'static str = "dev-secret-key-do-not-use-in-prod";

/// The value of the first member of an object named `key`.
pub open spec fn member_value(members: Seq<(String, JsonValue)>, key: Seq<char>) -> Option<JsonValue>
    decreases members.len(),
{
    if members.len() == 0 {
        None
    } else if members[0].0@ == key {
        Some(members[0].1)
    } else {
        member_value(members.drop_first(), key)
    }
}

/// The value of the first member of an object named `key`.
pub fn find_member<'a>(members: &'a Vec<(String, JsonValue)>, key: &str) -> (r: Option<&'a JsonValue>)
    ensures
        r matches Some(v) ==> member_value(members@, key@) == Some(*v),
        r is None ==> member_value(members@, key@) is None,
{
    let mut i: usize = 0;
    assert(members@.subrange(0, members@.len() as int) =~= members@);
    while i < members.len()
        invariant
            i <= members@.len(),
            member_value(members@, key@) == member_value(members@.subrange(i as int, members@.len() as int), key@),
        decreases members@.len() - i,
    {
        let ghost rest = members@.subrange(i as int, members@.len() as int);
        assert(rest[0] == members@[i as int]);
        assert(rest.drop_first() =~= members@.subrange(i + 1, members@.len() as int));
        if str_eq(members[i].0.as_str(), key) {
            return Some(&members[i].1);
        }
        i = i + 1;
    }
    None
}

/// The text of a member of an object, where the member is a string.
pub open spec fn member_string(members: Seq<(String, JsonValue)>, key: Seq<char>) -> Option<Seq<char>> {
    match member_value(members, key) {
        Some(JsonValue::String(s)) => Some(s@),
        _ => None,
    }
}

fn member_is_text(members: &Vec<(String, JsonValue)>, key: &str, expected: &str) -> (r: bool)
    ensures
        r == (member_string(members@, key@) == Some(expected@)),
{
    match find_member(members, key) {
        Some(JsonValue::String(s)) => str_eq(s.as_str(), expected),
        _ => false,
    }
}

/// Whether a receipt is one of the first version: an object whose `schema` is
/// the first receipt schema.
pub open spec fn is_legacy_v1_spec(value: JsonValue) -> bool {
    value matches JsonValue::Object(ms) && member_string(ms@, "schema"@) == Some(RECEIPT_SCHEMA_V1@)
}

/// Whether a receipt is one of the first version.
pub fn is_legacy_v1(value: &JsonValue) -> (r: bool)
    ensures
        r == is_legacy_v1_spec(*value),
{
    match value {
        JsonValue::Object(members) => member_is_text(members, "schema", RECEIPT_SCHEMA_V1),
        _ => false,
    }
}

/// The integrity hash a sealed receipt of the first version states:
/// `sha256:` and the hex text of the SHA-256 digest of its canonical form
/// without its integrity member.
pub open spec fn legacy_hash_text(canonical: Seq<u8>) -> Seq<char> {
    "sha256:"@ + hex_lower(sha256_spec(canonical))
}

/// The development signature of a receipt of the first version:
/// `dev-signature:` and the hex text of the first 32 bytes of the SHA-512
/// digest of its canonical form followed by the development secret.
pub open spec fn legacy_signature_text(canonical: Seq<u8>) -> Seq<char> {
    "dev-signature:"@ + hex_lower(sha512_spec(canonical + LEGACY_DEV_SECRET.spec_bytes()).subrange(0, 32))
}

/// The integrity member of a receipt, where it is an object.
pub open spec fn integrity_members(value: JsonValue) -> Option<Seq<(String, JsonValue)>> {
    match value {
        JsonValue::Object(ms) => match member_value(ms@, "integrity"@) {
            Some(JsonValue::Object(im)) => Some(im@),
            _ => None,
        },
        _ => None,
    }
}

/// The message of a receipt of the first version without an integrity seal.
pub open spec fn missing_integrity_text() -> Seq<char> {
    "legacy receipt missing integrity"@
}

/// Checks the integrity seal of a receipt of the first version: its stated
/// hash and development signature must be those of its canonical form without
/// the seal. A receipt without a seal object is refused.
pub fn verify_legacy_v1_integrity(value: &JsonValue) -> (r: Result<bool, HostError>)
    ensures
        integrity_members(*value) is None
            ==> (r matches Err(HostError::InvalidInput(m)) && m@ == missing_integrity_text()),
        integrity_members(*value) matches Some(im) ==> r == Ok::<bool, HostError>(
            member_string(im, "hash"@) == Some(legacy_hash_text(canonical_without(*value, "integrity"@)))
                && member_string(im, "signature"@) == Some(legacy_signature_text(canonical_without(*value, "integrity"@))),
        ),
{
    let integrity = match value {
        JsonValue::Object(members) => match find_member(members, "integrity") {
            Some(JsonValue::Object(im)) => im,
            _ => return Err(HostError::InvalidInput(owned_text("legacy receipt missing integrity"))),
        },
        _ => return Err(HostError::InvalidInput(owned_text("legacy receipt missing integrity"))),
    };
    let canonical = canonicalize_without(value, "integrity");
    let digest = crate::digest::sha256(canonical.as_slice());
    let hash_hex = crate::codec::hex_encode(digest.0.as_slice());
    let expected_hash = concat("sha256:", hash_hex.as_str());
    let mut signer_input = canonical.clone();
    crate::bytes::push_slice(&mut signer_input, LEGACY_DEV_SECRET.as_bytes());
    let long = crate::crypto::sha512_digest(signer_input.as_slice());
    let head: &[u8] = &long.as_slice()[0..32];
    assert(head@ =~= sha512_spec(canonical@ + LEGACY_DEV_SECRET.spec_bytes()).subrange(0, 32));
    let signature_hex = crate::codec::hex_encode(head);
    let expected_signature = concat("dev-signature:", signature_hex.as_str());
    let hash_ok = member_is_text(integrity, "hash", expected_hash.as_str());
    let signature_ok = member_is_text(integrity, "signature", expected_signature.as_str());
    Ok(hash_ok && signature_ok)
}

/// The refusal a host verification makes of a report's code: a revoked or an
/// unknown issuer key, named by `key_id`, or a revocation list that cannot be
/// trusted, named by the code.
pub open spec fn refusal_spec(code: Seq<char>, key_id: Seq<char>) -> Option<Seq<char>> {
    if code == "REVOKED_ISSUER_KEY"@ {
        Some("trusted key "@ + key_id + " is revoked"@)
    } else if code == "UNTRUSTED_ISSUER"@ {
        Some("unknown trusted key "@ + key_id)
    } else if code == "UNTRUSTED_REVOCATION_LIST_SIGNER"@ || code == "REVOCATION_LIST_PAYLOAD_HASH_MISMATCH"@
        || code == "REVOCATION_LIST_UNSUPPORTED_SIGNATURE_ALGORITHM"@ || code == "REVOCATION_LIST_INVALID_SIGNATURE"@ {
        Some(code)
    } else {
        None
    }
}

/// The trust error the host raises for a verification report's code, where
/// it raises one.
pub fn report_refusal(code: &str, key_id: &str) -> (r: Option<HostError>)
    ensures
        refusal_spec(code@, key_id@) is None ==> r is None,
        refusal_spec(code@, key_id@) matches Some(m) ==> (r matches Some(HostError::Trust(t)) && t@ == m),
{
    if str_eq(code, "REVOKED_ISSUER_KEY") {
        let head = concat("trusted key ", key_id);
        Some(HostError::Trust(concat(head.as_str(), " is revoked")))
    } else if str_eq(code, "UNTRUSTED_ISSUER") {
        Some(HostError::Trust(concat("unknown trusted key ", key_id)))
    } else if str_eq(code, "UNTRUSTED_REVOCATION_LIST_SIGNER") || str_eq(code, "REVOCATION_LIST_PAYLOAD_HASH_MISMATCH")
        || str_eq(code, "REVOCATION_LIST_UNSUPPORTED_SIGNATURE_ALGORITHM") || str_eq(code, "REVOCATION_LIST_INVALID_SIGNATURE") {
        Some(HostError::Trust(owned_text(code)))
    } else {
        None
    }
}

} // verus!
