use vstd::prelude::*;

verus! {

/// Errors raised by the receipt kernel.
#[derive(Clone, Copy, Debug, PartialEq, Eq, Structural)]
pub enum Error {
    EmptyValue,
    ValueTooLong,
    InvalidUtf8,
    ContainsNul,
    InvalidByteClass,
    TooManyParents,
    BufferTooSmall,
    MissingSignature,
    UnsupportedSignatureProfile,
    InvalidEncoding,
    TruncatedInput,
    InvalidLifecycleState,
    InvalidAttestationBinding,
    InvalidValidityWindow,
    BundleTooLarge,
    InvalidTimestamp,
    TooManyControls,
    TooManyArtifacts,
    InvalidModelShape,
    InvalidRequestedOutputShape,
    InvalidTokenUsageTotals,
    InvalidRuntimeShape,
    InconsistentReceiptPayload,
    TooManyReasons,
    SignatureError,
    TlvValueTooLarge,
}

/// Kernel result type.
pub type Result<T> = core::result::Result<T, Error>;

} // verus!
