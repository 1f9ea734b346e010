pub mod bytes;
pub mod error;
pub mod limits;
pub mod crypto;
pub mod bounded;
pub mod kernel;
pub mod lifecycle;
pub mod hash;
pub mod canon;
pub mod decode;
pub mod canon_laws;
pub mod receipt;
pub mod schema;
pub mod claim;
pub mod evidence;
pub mod policy;
pub mod bundle;
pub mod event;
pub mod verify;
pub mod replay;
pub mod compare;
pub mod types;
pub mod digest;
pub mod field_ids;
pub mod domain;
pub mod model_waist;
pub mod legacy;
pub mod signing;
pub mod controls;
pub mod manifest;
pub mod pool;

pub use crate::bundle::{Bundle, BundleDiff};
pub use crate::claim::{Claim, ClaimCommitment};
pub use crate::compare::{CompareReport, DiffKind, ReceiptDiff};
pub use crate::error::{Error, Result};
pub use crate::event::{TraceEvent, TraceEventType};
pub use crate::evidence::{Evidence, EvidenceCommitment};
pub use crate::kernel::{
    Digest, Ed25519PublicKey, Ed25519Signature, HashAlgorithm, ParentHashes, SignatureAlgorithm,
    SignatureBytes, SignatureProfileId, SignedMessageHash,
};
pub use crate::lifecycle::{is_valid_transition, LifecycleState};
pub use crate::policy::{Policy, PolicyCommitment, PolicyDecision};
pub use crate::receipt::{AttestationEnvelope, AttestationStatus, ReceiptEnvelope, ValidityWindow};
pub use crate::replay::ReplayReport;
pub use crate::schema::{Schema, SchemaCommitment};
pub use crate::verify::{BundleVerificationReport, VerificationReport};
pub mod text;
pub mod clock;
pub mod signer;
pub mod trust;
pub mod laws;
pub mod attest;
pub mod vectors;
pub mod host;
pub mod wasm;
pub mod proofmail;
pub mod codec;
pub mod tui;
pub mod receipt_v2;
