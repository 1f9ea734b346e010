use vstd::prelude::*;
use std::time::Duration;
use crate::text::concat;

verus! {

/// Why a signer operation failed.
#[derive(Clone, Debug, PartialEq, Eq)]
pub enum SignerError {
    /// The backend is unreachable or failed a health check.
    Unhealthy(String),
    /// The key is revoked and must not be used.
    KeyRevoked(String),
    /// A key rotation is in progress; signing is blocked meanwhile.
    RotationInProgress(String),
    /// A cryptographic operation failed.
    CryptoFailure(String),
    /// The backend answered unexpectedly.
    Backend(String),
}

/// The text that describes a signer error.
pub open spec fn signer_error_text(e: SignerError) -> Seq<char> {
    match e {
        SignerError::Unhealthy(m) => "signer unhealthy: "@ + m@,
        SignerError::KeyRevoked(m) => "key revoked: "@ + m@,
        SignerError::RotationInProgress(m) => "rotation in progress: "@ + m@,
        SignerError::CryptoFailure(m) => "crypto failure: "@ + m@,
        SignerError::Backend(m) => "backend error: "@ + m@,
    }
}

impl SignerError {
    /// The text that describes the error.
    pub fn message(&self) -> (r: String)
        ensures
            r@ == signer_error_text(*self),
    {
        match self {
            SignerError::Unhealthy(m) => concat("signer unhealthy: ", m.as_str()),
            SignerError::KeyRevoked(m) => concat("key revoked: ", m.as_str()),
            SignerError::RotationInProgress(m) => concat("rotation in progress: ", m.as_str()),
            SignerError::CryptoFailure(m) => concat("crypto failure: ", m.as_str()),
            SignerError::Backend(m) => concat("backend error: ", m.as_str()),
        }
    }
}

/// The health of a signer backend.
#[derive(Clone, Copy, Debug, PartialEq, Eq, Structural)]
pub enum HealthStatus {
    Healthy,
    Degraded,
    Unhealthy,
}

impl HealthStatus {
    /// Whether the backend may be used: healthy or degraded.
    pub fn is_usable(&self) -> (r: bool)
        ensures
            r == (*self != HealthStatus::Unhealthy),
    {
        match self {
            HealthStatus::Healthy => true,
            HealthStatus::Degraded => true,
            HealthStatus::Unhealthy => false,
        }
    }
}

/// The rotation state of a key.
#[derive(Clone, Copy, Debug, PartialEq, Eq, Structural)]
pub enum RotationState {
    Stable,
    InProgress,
    Failed,
}

/// Public metadata of a signing key.
#[derive(Clone, Debug, PartialEq, Eq)]
pub struct KeyMetadata {
    pub key_id: String,
    pub algorithm: String,
    pub public_key_pem: String,
    pub rotation: RotationState,
    pub revoked: bool,
    pub created_at: u64,
    pub last_rotated_at: Option<u64>,
}

/// The result of a health probe.
#[derive(Clone, Debug, PartialEq, Eq)]
pub struct HealthReport {
    pub status: HealthStatus,
    pub latency_ms: u64,
    pub detail: String,
}

/// A signing backend.
pub trait SignerProvider {
    /// A health report for the backend.
    fn health(&self) -> Result<HealthReport, SignerError>;

    /// Metadata of the named key.
    fn key_metadata(&self, key_id: &str) -> Result<KeyMetadata, SignerError>;

    /// A signature over a precomputed digest.
    fn sign_digest(&self, key_id: &str, digest: &[u8]) -> Result<Vec<u8>, SignerError>;

    /// The rotation state of the named key.
    fn rotation_status(&self, key_id: &str) -> Result<RotationState, SignerError>;

    /// Revokes the named key.
    fn revoke_key(&self, key_id: &str, reason: &str) -> Result<(), SignerError>;
}

/// The text of an unknown-key error.
pub open spec fn unknown_key_text(key_id: Seq<char>) -> Seq<char> {
    "unknown key "@ + key_id
}

/// The stand-in signature a demo signer gives: the digest's length as one byte
/// (modulo 256), then the digest.
pub open spec fn demo_signature(digest: Seq<u8>) -> Seq<u8> {
    seq![(digest.len() % 256) as u8] + digest
}

/// An in-process demo signer whose signatures are stand-ins, so that demo
/// issuance never reaches a production backend.
#[derive(Debug)]
pub struct LocalSigner {
    key_id: String,
    algorithm: String,
    public_key_pem: String,
    created_at: u64,
    rotation: RotationState,
    revoked: bool,
}

impl LocalSigner {
    /// The key the signer holds.
    pub closed spec fn key(&self) -> Seq<char> {
        self.key_id@
    }

    /// Whether the key is revoked.
    pub closed spec fn is_revoked(&self) -> bool {
        self.revoked
    }

    /// The rotation state of the key.
    pub closed spec fn rotation_state(&self) -> RotationState {
        self.rotation
    }

    /// The algorithm the key is for.
    pub closed spec fn algorithm_name(&self) -> Seq<char> {
        self.algorithm@
    }

    /// The public key, PEM-encoded.
    pub closed spec fn public_key_text(&self) -> Seq<char> {
        self.public_key_pem@
    }

    /// When the key was made, in seconds since the Unix epoch.
    pub closed spec fn created(&self) -> u64 {
        self.created_at
    }

    /// A demo signer for `key_id`, made now, stable and not revoked.
    pub fn new(key_id: &str) -> (r: Self)
        ensures
            r.key() == key_id@,
            r.algorithm_name() == "ed25519"@,
            r.public_key_text() == "-----BEGIN PUBLIC KEY-----\nDEMO\n-----END PUBLIC KEY-----"@,
            r.rotation_state() == RotationState::Stable,
            !r.is_revoked(),
    {
        let created_at = crate::clock::unix_now_secs();
        let key = key_id.to_string();
        let algorithm = "ed25519".to_string();
        let public_key_pem = "-----BEGIN PUBLIC KEY-----\nDEMO\n-----END PUBLIC KEY-----".to_string();
        proof {
            vstd::string::to_string_from_display_ensures_for_str(key_id, key);
            vstd::string::to_string_from_display_ensures_for_str("ed25519", algorithm);
            vstd::string::to_string_from_display_ensures_for_str(
                "-----BEGIN PUBLIC KEY-----\nDEMO\n-----END PUBLIC KEY-----",
                public_key_pem,
            );
        }
        LocalSigner {
            key_id: key,
            algorithm,
            public_key_pem,
            created_at,
            rotation: RotationState::Stable,
            revoked: false,
        }
    }

    fn unknown_key(key_id: &str) -> (r: SignerError)
        ensures
            r == SignerError::Backend(r->Backend_0) && r->Backend_0@ == unknown_key_text(key_id@),
    {
        SignerError::Backend(concat("unknown key ", key_id))
    }
}

impl SignerProvider for LocalSigner {
    fn health(&self) -> (r: Result<HealthReport, SignerError>)
        ensures
            r matches Ok(h) && h.status == HealthStatus::Healthy && h.latency_ms == 0
                && h.detail@ == "local demo signer"@,
    {
        let detail = "local demo signer".to_string();
        proof {
            vstd::string::to_string_from_display_ensures_for_str("local demo signer", detail);
        }
        Ok(HealthReport { status: HealthStatus::Healthy, latency_ms: 0, detail })
    }

    fn key_metadata(&self, key_id: &str) -> (r: Result<KeyMetadata, SignerError>)
        ensures
            key_id@ != self.key() ==> (r matches Err(SignerError::Backend(m)) && m@ == unknown_key_text(key_id@)),
            key_id@ == self.key() ==> (r matches Ok(k) && k.key_id@ == self.key()
                && k.algorithm@ == self.algorithm_name() && k.public_key_pem@ == self.public_key_text()
                && k.rotation == self.rotation_state() && k.revoked == self.is_revoked()
                && k.created_at == self.created() && k.last_rotated_at is None),
    {
        if !crate::bytes::str_eq(key_id, self.key_id.as_str()) {
            return Err(Self::unknown_key(key_id));
        }
        Ok(KeyMetadata {
            key_id: self.key_id.clone(),
            algorithm: self.algorithm.clone(),
            public_key_pem: self.public_key_pem.clone(),
            rotation: self.rotation,
            revoked: self.revoked,
            created_at: self.created_at,
            last_rotated_at: None,
        })
    }

    fn sign_digest(&self, key_id: &str, digest: &[u8]) -> (r: Result<Vec<u8>, SignerError>)
        ensures
            self.is_revoked() ==> (r matches Err(SignerError::KeyRevoked(m)) && m@ == self.key()),
            !self.is_revoked() && self.rotation_state() == RotationState::InProgress
                ==> (r matches Err(SignerError::RotationInProgress(m)) && m@ == self.key()),
            !self.is_revoked() && self.rotation_state() != RotationState::InProgress && key_id@ != self.key()
                ==> (r matches Err(SignerError::Backend(m)) && m@ == unknown_key_text(key_id@)),
            !self.is_revoked() && self.rotation_state() != RotationState::InProgress && key_id@ == self.key()
                ==> (r matches Ok(sig) && sig@ == demo_signature(digest@)),
    {
        if self.revoked {
            return Err(SignerError::KeyRevoked(self.key_id.clone()));
        }
        if self.rotation == RotationState::InProgress {
            return Err(SignerError::RotationInProgress(self.key_id.clone()));
        }
        if !crate::bytes::str_eq(key_id, self.key_id.as_str()) {
            return Err(Self::unknown_key(key_id));
        }
        let mut sig: Vec<u8> = Vec::new();
        let n = digest.len();
        let len_byte: u8 = #[verifier::truncate] (n as u8);
        assert(len_byte == (n % 256) as u8) by (bit_vector)
            requires
                len_byte == n as u8,
        ;
        sig.push(len_byte);
        sig.extend_from_slice(digest);
        assert(sig@ =~= demo_signature(digest@));
        Ok(sig)
    }

    fn rotation_status(&self, key_id: &str) -> (r: Result<RotationState, SignerError>)
        ensures
            key_id@ != self.key() ==> (r matches Err(SignerError::Backend(m)) && m@ == unknown_key_text(key_id@)),
            key_id@ == self.key() ==> r == Ok::<RotationState, SignerError>(self.rotation_state()),
    {
        if !crate::bytes::str_eq(key_id, self.key_id.as_str()) {
            return Err(Self::unknown_key(key_id));
        }
        Ok(self.rotation)
    }

    fn revoke_key(&self, key_id: &str, reason: &str) -> (r: Result<(), SignerError>)
        ensures
            key_id@ != self.key() ==> (r matches Err(SignerError::Backend(m)) && m@ == unknown_key_text(key_id@)),
            key_id@ == self.key() ==> r is Ok,
    {
        if !crate::bytes::str_eq(key_id, self.key_id.as_str()) {
            return Err(Self::unknown_key(key_id));
        }
        Ok(())
    }
}

/// A remote signer adapter whose calls are not yet wired to a backend.
#[derive(Debug)]
pub struct RemoteSigner {
    pub endpoint: String,
    pub api_key: String,
    pub timeout: Duration,
}

impl SignerProvider for RemoteSigner {
    fn health(&self) -> (r: Result<HealthReport, SignerError>)
        ensures
            r matches Ok(h) && h.status == HealthStatus::Healthy && h.latency_ms == 0
                && h.detail@ == "remote signer at "@ + self.endpoint@,
    {
        Ok(HealthReport {
            status: HealthStatus::Healthy,
            latency_ms: 0,
            detail: concat("remote signer at ", self.endpoint.as_str()),
        })
    }

    fn key_metadata(&self, key_id: &str) -> (r: Result<KeyMetadata, SignerError>)
        ensures
            r matches Err(SignerError::Backend(m)) && m@ == "remote key_metadata not wired for "@ + key_id@,
    {
        Err(SignerError::Backend(concat("remote key_metadata not wired for ", key_id)))
    }

    fn sign_digest(&self, key_id: &str, digest: &[u8]) -> (r: Result<Vec<u8>, SignerError>)
        ensures
            r matches Err(SignerError::Backend(m)) && m@ == "remote sign_digest not wired for "@ + key_id@,
    {
        Err(SignerError::Backend(concat("remote sign_digest not wired for ", key_id)))
    }

    fn rotation_status(&self, key_id: &str) -> (r: Result<RotationState, SignerError>)
        ensures
            r matches Err(SignerError::Backend(m)) && m@ == "remote rotation_status not wired for "@ + key_id@,
    {
        Err(SignerError::Backend(concat("remote rotation_status not wired for ", key_id)))
    }

    fn revoke_key(&self, key_id: &str, reason: &str) -> (r: Result<(), SignerError>)
        ensures
            r matches Err(SignerError::Backend(m)) && m@ == "remote revoke_key not wired for "@ + key_id@,
    {
        Err(SignerError::Backend(concat("remote revoke_key not wired for ", key_id)))
    }
}

/// Which signer issuance uses.
#[derive(Clone, Copy, Debug, PartialEq, Eq, Structural)]
pub enum IssuanceMode {
    Demo,
    Production,
}

/// The signer that `signer_for_mode` picks.
#[derive(Debug)]
pub enum SelectedSigner {
    Local(LocalSigner),
    Remote(RemoteSigner),
}

impl SignerProvider for SelectedSigner {
    fn health(&self) -> (r: Result<HealthReport, SignerError>)
        ensures
            *self matches SelectedSigner::Local(s) ==> (r matches Ok(h) && h.status == HealthStatus::Healthy
                && h.latency_ms == 0 && h.detail@ == "local demo signer"@),
            *self matches SelectedSigner::Remote(s) ==> (r matches Ok(h) && h.status == HealthStatus::Healthy
                && h.latency_ms == 0 && h.detail@ == "remote signer at "@ + s.endpoint@),
    {
        match self {
            SelectedSigner::Local(s) => s.health(),
            SelectedSigner::Remote(s) => s.health(),
        }
    }

    fn key_metadata(&self, key_id: &str) -> (r: Result<KeyMetadata, SignerError>)
        ensures
            *self matches SelectedSigner::Local(s) ==> {
                &&& key_id@ != s.key() ==> (r matches Err(SignerError::Backend(m)) && m@ == unknown_key_text(key_id@))
                &&& key_id@ == s.key() ==> (r matches Ok(k) && k.key_id@ == s.key()
                    && k.algorithm@ == s.algorithm_name() && k.public_key_pem@ == s.public_key_text()
                    && k.rotation == s.rotation_state() && k.revoked == s.is_revoked()
                    && k.created_at == s.created() && k.last_rotated_at is None)
            },
            *self matches SelectedSigner::Remote(s) ==> (r matches Err(SignerError::Backend(m))
                && m@ == "remote key_metadata not wired for "@ + key_id@),
    {
        match self {
            SelectedSigner::Local(s) => s.key_metadata(key_id),
            SelectedSigner::Remote(s) => s.key_metadata(key_id),
        }
    }

    fn sign_digest(&self, key_id: &str, digest: &[u8]) -> (r: Result<Vec<u8>, SignerError>)
        ensures
            *self matches SelectedSigner::Local(s) ==> {
                &&& s.is_revoked() ==> (r matches Err(SignerError::KeyRevoked(m)) && m@ == s.key())
                &&& !s.is_revoked() && s.rotation_state() == RotationState::InProgress
                    ==> (r matches Err(SignerError::RotationInProgress(m)) && m@ == s.key())
                &&& !s.is_revoked() && s.rotation_state() != RotationState::InProgress && key_id@ != s.key()
                    ==> (r matches Err(SignerError::Backend(m)) && m@ == unknown_key_text(key_id@))
                &&& !s.is_revoked() && s.rotation_state() != RotationState::InProgress && key_id@ == s.key()
                    ==> (r matches Ok(sig) && sig@ == demo_signature(digest@))
            },
            *self matches SelectedSigner::Remote(s) ==> (r matches Err(SignerError::Backend(m))
                && m@ == "remote sign_digest not wired for "@ + key_id@),
    {
        match self {
            SelectedSigner::Local(s) => s.sign_digest(key_id, digest),
            SelectedSigner::Remote(s) => s.sign_digest(key_id, digest),
        }
    }

    fn rotation_status(&self, key_id: &str) -> (r: Result<RotationState, SignerError>)
        ensures
            *self matches SelectedSigner::Local(s) ==> {
                &&& key_id@ != s.key() ==> (r matches Err(SignerError::Backend(m)) && m@ == unknown_key_text(key_id@))
                &&& key_id@ == s.key() ==> r == Ok::<RotationState, SignerError>(s.rotation_state())
            },
            *self matches SelectedSigner::Remote(s) ==> (r matches Err(SignerError::Backend(m))
                && m@ == "remote rotation_status not wired for "@ + key_id@),
    {
        match self {
            SelectedSigner::Local(s) => s.rotation_status(key_id),
            SelectedSigner::Remote(s) => s.rotation_status(key_id),
        }
    }

    fn revoke_key(&self, key_id: &str, reason: &str) -> (r: Result<(), SignerError>)
        ensures
            *self matches SelectedSigner::Local(s) ==> {
                &&& key_id@ != s.key() ==> (r matches Err(SignerError::Backend(m)) && m@ == unknown_key_text(key_id@))
                &&& key_id@ == s.key() ==> r is Ok
            },
            *self matches SelectedSigner::Remote(s) ==> (r matches Err(SignerError::Backend(m))
                && m@ == "remote revoke_key not wired for "@ + key_id@),
    {
        match self {
            SelectedSigner::Local(s) => s.revoke_key(key_id, reason),
            SelectedSigner::Remote(s) => s.revoke_key(key_id, reason),
        }
    }
}

/// The endpoint a production signer uses when none is given.
pub open spec fn default_endpoint() -> Seq<char> {
    "https://signer.example.com"@
}

/// The signer for an issuance mode: a demo signer named `demo-signer`, or the
/// given remote signer, or one at the default endpoint with no API key and a
/// ten-second timeout.
pub fn signer_for_mode(mode: IssuanceMode, remote: Option<RemoteSigner>) -> (r: SelectedSigner)
    ensures
        mode == IssuanceMode::Demo ==> (r matches SelectedSigner::Local(s) && s.key() == "demo-signer"@
            && s.rotation_state() == RotationState::Stable && !s.is_revoked()),
        mode == IssuanceMode::Production && remote is Some ==> r == SelectedSigner::Remote(remote->Some_0),
        mode == IssuanceMode::Production && remote is None ==> (r matches SelectedSigner::Remote(s)
            && s.endpoint@ == default_endpoint() && s.api_key@ == Seq::<char>::empty()),
{
    match mode {
        IssuanceMode::Demo => SelectedSigner::Local(LocalSigner::new("demo-signer")),
        IssuanceMode::Production => {
            match remote {
                Some(r) => SelectedSigner::Remote(r),
                None => {
                    let endpoint = "https://signer.example.com".to_string();
                    proof {
                        vstd::string::to_string_from_display_ensures_for_str("https://signer.example.com", endpoint);
                    }
                    SelectedSigner::Remote(RemoteSigner {
                        endpoint,
                        api_key: String::new(),
                        timeout: crate::clock::duration_from_secs(10),
                    })
                },
            }
        },
    }
}

} // verus!
