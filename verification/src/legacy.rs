//! The thin-waist receipt transcripts that an issuer signs.
pub mod policy;
pub mod receipt;
pub mod verify;
