use vstd::prelude::*;

verus! {

// Field identifiers of the model waist transcript.
pub const DOMAIN: u16 = 1;
pub const MODEL_CLASS: u16 = 2;
pub const MODEL_REF_HASH: u16 = 3;
pub const MODEL_SLUG: u16 = 4;
pub const IDENTITY_EVIDENCE_KIND: u16 = 5;
pub const IDENTITY_EVIDENCE_DIGEST_A: u16 = 6;
pub const IDENTITY_EVIDENCE_DIGEST_B: u16 = 7;
pub const IDENTITY_EVIDENCE_DIGEST_C: u16 = 8;
pub const ACTION_HASH: u16 = 9;
pub const MESSAGES_HASH: u16 = 10;
pub const SYSTEM_PROMPT_HASH: u16 = 11;
pub const TOOL_SPEC_HASH: u16 = 12;
pub const RESPONSE_SCHEMA_HASH: u16 = 13;
pub const PARAMETERS_HASH: u16 = 14;
pub const REQUESTED_OUTPUT_KIND: u16 = 15;
pub const REQUESTED_OUTPUT_DIGEST: u16 = 16;
pub const OUTPUT_TEXT_HASH: u16 = 17;
pub const STRUCTURED_OUTPUT_HASH: u16 = 18;
pub const PROVIDER_METADATA_HASH: u16 = 19;
pub const FINISH_REASON: u16 = 20;
pub const INPUT_TOKENS: u16 = 21;
pub const OUTPUT_TOKENS: u16 = 22;
pub const TOTAL_TOKENS: u16 = 23;
pub const RUNTIME_HASH: u16 = 24;
pub const PLUGIN_HASH: u16 = 25;

} // verus!
