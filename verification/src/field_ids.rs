//! Field identifiers of the transcripts that receipts hash.
pub mod runtime_claim;
pub mod plugin_claim;
pub mod policy_facts;
pub mod model_waist;
pub mod receipt_tlv_legacy_v1;
pub mod receipt_tlv_v2;
