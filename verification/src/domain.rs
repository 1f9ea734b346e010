use vstd::prelude::*;

verus! {

/// Domain separator of the runtime claim transcript: `INK-RUNTIME-CLAIM-V1`.
pub const RUNTIME_DOMAIN: [u8; 20] = [73u8, 78u8, 75u8, 45u8, 82u8, 85u8, 78u8, 84u8, 73u8, 77u8, 69u8, 45u8, 67u8, 76u8, 65u8, 73u8, 77u8, 45u8, 86u8, 49u8];

/// Domain separator of the policy facts transcript: `INK-POLICY-FACTS-V1`.
pub const FACTS_DOMAIN: [u8; 19] = [73u8, 78u8, 75u8, 45u8, 80u8, 79u8, 76u8, 73u8, 67u8, 89u8, 45u8, 70u8, 65u8, 67u8, 84u8, 83u8, 45u8, 86u8, 49u8];

/// Domain separator of the model waist transcript: `INK-MODEL-WAIST-V1`.
pub const MODEL_WAIST_DOMAIN: [u8; 18] = [73u8, 78u8, 75u8, 45u8, 77u8, 79u8, 68u8, 69u8, 76u8, 45u8, 87u8, 65u8, 73u8, 83u8, 84u8, 45u8, 86u8, 49u8];

/// Domain separator of the legacy receipt transcript: `INK-CORE-TRANSCRIPT-V1`.
pub const RECEIPT_TRANSCRIPT_LEGACY_V1_DOMAIN: [u8; 22] = [73u8, 78u8, 75u8, 45u8, 67u8, 79u8, 82u8, 69u8, 45u8, 84u8, 82u8, 65u8, 78u8, 83u8, 67u8, 82u8, 73u8, 80u8, 84u8, 45u8, 86u8, 49u8];

/// Domain separator of the receipt transcript, version two: `INK-CORE-TLV-V2`.
pub const RECEIPT_TRANSCRIPT_TLV_V2_DOMAIN: [u8; 15] = [73u8, 78u8, 75u8, 45u8, 67u8, 79u8, 82u8, 69u8, 45u8, 84u8, 76u8, 86u8, 45u8, 86u8, 50u8];

} // verus!
