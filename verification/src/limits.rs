use vstd::prelude::*;

verus! {

/// Longest receipt, action or key identifier.
pub const MAX_ID_LEN: usize = 128;
/// Longest policy identifier.
pub const MAX_POLICY_ID_LEN: usize = 128;
/// Longest policy version label.
pub const MAX_POLICY_VERSION_LEN: usize = 64;
/// Longest reason code.
pub const MAX_REASON_CODE_LEN: usize = 64;
/// Most reason codes a receipt payload carries.
pub const MAX_REASONS: usize = 32;
/// Longest issuer display name.
pub const MAX_ISSUER_NAME_LEN: usize = 128;
/// Longest model slug.
pub const MAX_MODEL_SLUG_LEN: usize = 128;
/// Longest plugin identifier hint.
pub const MAX_PLUGIN_ID_HINT_LEN: usize = 128;
/// Longest artifact path hint.
pub const MAX_PATH_HINT_LEN: usize = 256;
/// Most artifacts a manifest binds.
pub const MAX_ARTIFACTS: usize = 64;
/// Most control observations a control set holds.
pub const MAX_CONTROLS: usize = 64;
/// Most nodes the conditions of a compiled policy hold.
pub const MAX_CONDITION_NODES: usize = 256;
/// Largest value a single TLV field may carry.
pub const MAX_TLV_VALUE_LEN: usize = 1048576;

} // verus!
