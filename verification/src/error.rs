use vstd::prelude::*;

verus! {

/// Why a run of the harness did not produce output bytes.
///
/// Every variant is fatal to the caller: the harness reports it and leaves
/// the decision to terminate to the outermost layer.
#[derive(Debug, Clone, Copy, PartialEq, Eq, Structural)]
pub enum HarnessError {
    /// The identifier names no registered case.
    UnsupportedCase { id: u8 },
    /// The input bytes are not the encoding of any value of the case's type.
    DecodeError,
    /// The input decoded to a value that differs from the canonical value of
    /// case `id`.
    RoundTripMismatch { id: u8 },
    /// The expected value has no encoding: its double is a NaN, or its text
    /// or its list is longer than the codec can write down. No registered
    /// value is such a value, so a run of the harness never ends this way.
    EncodeError,
}

} // verus!
