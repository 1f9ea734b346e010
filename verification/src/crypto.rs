use vstd::prelude::*;
use vstd::string::StringSliceAdditionalSpecFns;
use base64ct::Encoding;
use ed25519_dalek::{Signer, Verifier};

verus! {

/// The SHA-256 digest of `data`, as FIPS 180-4 defines it.
pub uninterp spec fn sha256_spec(data: Seq<u8>) -> Seq<u8>;

/// Whether 32 bytes are the compressed Edwards form of a point that
/// `ed25519_dalek` accepts as a verifying key.
pub uninterp spec fn ed25519_key_valid(public_key: Seq<u8>) -> bool;

/// Whether `signature` is a valid Ed25519 signature over `message` under
/// `public_key`, as `ed25519_dalek` checks it.
pub uninterp spec fn ed25519_verify_spec(public_key: Seq<u8>, message: Seq<u8>, signature: Seq<u8>) -> bool;

/// The Ed25519 signature of `message` under the secret key `secret` (RFC 8032,
/// deterministic).
pub uninterp spec fn ed25519_sign_spec(secret: Seq<u8>, message: Seq<u8>) -> Seq<u8>;

/// The Ed25519 public key that belongs to the secret key `secret`.
pub uninterp spec fn ed25519_public_spec(secret: Seq<u8>) -> Seq<u8>;

/// The bytes that unpadded URL-safe Base64 text decodes to, or `None` where
/// the text is not canonical unpadded URL-safe Base64.
pub uninterp spec fn base64url_decode_spec(text: Seq<char>) -> Option<Seq<u8>>;

/// Calls `sha2::Sha256::digest`. The contract claims only that the 32 bytes
/// returned are the SHA-256 digest of the input, a function of the input alone.
#[verifier::external_body]
pub fn sha256_digest(data: &[u8]) -> (r: [u8; 32])
    ensures
        r@ == sha256_spec(data@),
{
    let out = <sha2::Sha256 as sha2::Digest>::digest(data);
    let mut digest = [0u8; 32];
    digest.copy_from_slice(&out);
    digest
}

/// The SHA-512 digest of `data`, as FIPS 180-4 defines it.
pub uninterp spec fn sha512_spec(data: Seq<u8>) -> Seq<u8>;

/// Calls `sha2::Sha512::digest`. The contract claims only that the 64 bytes
/// returned are the SHA-512 digest of the input, a function of the input alone.
#[verifier::external_body]
pub fn sha512_digest(data: &[u8]) -> (r: [u8; 64])
    ensures
        r@ == sha512_spec(data@),
{
    let out = <sha2::Sha512 as sha2::Digest>::digest(data);
    let mut digest = [0u8; 64];
    digest.copy_from_slice(&out);
    digest
}

/// Calls `ed25519_dalek::VerifyingKey::from_bytes` on `public_key` and, where
/// that succeeds, `Verifier::verify` on `message` and `signature`. The contract
/// claims that the key is refused exactly where it is not a valid point, and that
/// otherwise the answer is the Ed25519 verification relation of the three inputs.
#[verifier::external_body]
pub fn ed25519_verify(public_key: &[u8; 32], message: &[u8], signature: &[u8; 64]) -> (r: Option<bool>)
    ensures
        r is Some <==> ed25519_key_valid(public_key@),
        r matches Some(ok) ==> ok == ed25519_verify_spec(public_key@, message@, signature@),
{
    match ed25519_dalek::VerifyingKey::from_bytes(public_key) {
        Ok(key) => Some(key.verify(message, &ed25519_dalek::Signature::from_bytes(signature)).is_ok()),
        Err(_) => None,
    }
}

/// Calls `ed25519_dalek::SigningKey::sign`. The contract claims that the
/// signature is the deterministic RFC 8032 signature of the message under the
/// secret key, and that it verifies under the matching public key.
#[verifier::external_body]
pub fn ed25519_sign(secret: &[u8; 32], message: &[u8]) -> (r: [u8; 64])
    ensures
        r@ == ed25519_sign_spec(secret@, message@),
        ed25519_verify_spec(ed25519_public_spec(secret@), message@, r@),
{
    ed25519_dalek::SigningKey::from_bytes(secret).sign(message).to_bytes()
}

/// Calls `ed25519_dalek::SigningKey::verifying_key`. The contract claims that the
/// result is the public key of the secret key, and that it is a valid point.
#[verifier::external_body]
pub fn ed25519_public_key(secret: &[u8; 32]) -> (r: [u8; 32])
    ensures
        r@ == ed25519_public_spec(secret@),
        ed25519_key_valid(r@),
{
    ed25519_dalek::SigningKey::from_bytes(secret).verifying_key().to_bytes()
}

/// Calls `base64ct::Base64UrlUnpadded::decode_vec`. The contract claims only that
/// the result is the decoding of the text, a function of the text alone.
#[verifier::external_body]
pub fn base64url_decode(text: &str) -> (r: Option<Vec<u8>>)
    ensures
        r is Some <==> base64url_decode_spec(text@) is Some,
        r matches Some(v) ==> base64url_decode_spec(text@) == Some(v@),
{
    base64ct::Base64UrlUnpadded::decode_vec(text).ok()
}

/// The unpadded URL-safe Base64 text of `bytes`.
pub uninterp spec fn base64url_encode_spec(bytes: Seq<u8>) -> Seq<char>;

/// Calls `base64ct::Base64UrlUnpadded::encode_string`. The contract claims that
/// the text is a function of the bytes and, as the crate's encoder writes the
/// canonical unpadded URL-safe form, that decoding it gives the bytes back.
#[verifier::external_body]
pub fn base64url_encode(bytes: &[u8]) -> (r: String)
    ensures
        r@ == base64url_encode_spec(bytes@),
        base64url_decode_spec(r@) == Some(bytes@),
{
    <base64ct::Base64UrlUnpadded as base64ct::Encoding>::encode_string(bytes)
}

/// Calls `core::str::from_utf8`. As its documentation states, it succeeds exactly
/// on valid UTF-8, and the string it returns has the input as its bytes.
#[verifier::external_body]
pub fn utf8_str(bytes: &[u8]) -> (r: Option<&str>)
    ensures
        r is Some <==> vstd::utf8::valid_utf8(bytes@),
        r matches Some(s) ==> s.spec_bytes() == bytes@,
{
    core::str::from_utf8(bytes).ok()
}

} // verus!
