use vstd::prelude::*;

verus! {

// Field identifiers of the plugin claim transcript.
pub const PLUGIN_ID_HASH: u16 = 1;
pub const PLUGIN_VERSION_HASH: u16 = 2;
pub const PLUGIN_API_VERSION: u16 = 3;
pub const MAINTAINER_CLASS: u16 = 4;
pub const INPUT_NORMALIZED: u16 = 5;
pub const OUTPUT_NORMALIZED: u16 = 6;
pub const RAW_REQUEST_PRESERVED: u16 = 7;
pub const RAW_RESPONSE_PRESERVED: u16 = 8;
pub const SECRETS_REDACTED: u16 = 9;
pub const PLUGIN_MANIFEST_HASH: u16 = 10;
pub const PLUGIN_ID_HINT: u16 = 11;
pub const TRUST_LEVEL: u16 = 12;

} // verus!
