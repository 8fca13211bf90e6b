use vstd::prelude::*;

verus! {

/// The ways in which encoding or decoding a message field can fail.
#[derive(Debug, Clone, Copy, PartialEq, Eq, Structural)]
pub enum CodecError {
    /// Malformed text: bad hex, bad decimal digits, a value out of range or a wrong length.
    DecodeError,
    /// An account name that is longer than its field or is not valid UTF-8.
    InvalidNameEncoding,
    /// A sub-field wider than the bits reserved for it.
    FieldOutOfRange,
}

} // verus!
