use vstd::prelude::*;

verus! {

// Field identifiers of the policy facts transcript.
pub const DOMAIN: u16 = 1;
pub const RISK_CLASS: u16 = 2;
pub const REQUIRES_HUMAN_REVIEW: u16 = 3;
pub const BINDING_EFFECT_PRESENT: u16 = 4;
pub const PROVIDER_FALLBACKS_ALLOWED: u16 = 5;
pub const PLUGIN_TRUST_LEVEL: u16 = 6;
pub const RUNTIME_KIND: u16 = 7;
pub const REPLAY_STRENGTH: u16 = 8;
pub const MODEL_CLASS: u16 = 9;

} // verus!
