use vstd::prelude::*;

verus! {

// Field identifiers of the legacy receipt transcript.
pub const DOMAIN: u16 = 1;
pub const SCHEMA_VERSION: u16 = 2;
pub const RECEIPT_ID: u16 = 3;
pub const RECEIPT_PROFILE: u16 = 4;
pub const ACTION_ID: u16 = 5;
pub const ISSUED_AT_SECONDS: u16 = 6;
pub const ISSUED_AT_NANOS: u16 = 7;
pub const ISSUER_NAME: u16 = 8;
pub const KEY_ID: u16 = 9;
pub const PUBLIC_KEY: u16 = 10;
pub const MANIFEST_HASH: u16 = 11;
pub const POLICY_ID: u16 = 12;
pub const POLICY_VERSION: u16 = 13;
pub const POLICY_HASH: u16 = 14;
pub const RUNTIME_HASH: u16 = 15;
pub const MODEL_HASH: u16 = 16;
pub const FACTS_HASH: u16 = 17;
pub const DECISION: u16 = 18;
pub const REASON: u16 = 19;
pub const EVIDENCE_SUMMARY_HASH: u16 = 20;
pub const CONTROLS_SUMMARY_HASH: u16 = 21;

} // verus!
