use vstd::prelude::*;

verus! {

// Field identifiers of the runtime claim transcript.
pub const DOMAIN: u16 = 1;
pub const RUNTIME_KIND: u16 = 2;
pub const EXECUTION_TOPOLOGY: u16 = 3;
pub const REPLAY_STRENGTH: u16 = 4;
pub const DETERMINISTIC: u16 = 5;
pub const SEED_BOUND: u16 = 6;
pub const PROCESS_ISOLATED: u16 = 7;
pub const FALLBACKS_ALLOWED: u16 = 8;
pub const PROVIDER_PINNED: u16 = 9;
pub const DATA_COLLECTION_POLICY: u16 = 10;

} // verus!
