//! Errors of the codec.

use vstd::prelude::*;

verus! {

/// Why a text or a number is no value of the protocol.
#[derive(Debug, Clone, Copy, PartialEq, Eq, Structural)]
pub enum ValidationError {
    /// A number above the limit that the device sets for the value.
    OutOfRange,
    /// Neither a number nor a word that the value can be written as.
    Unrecognized,
}

/// Why a frame received from the amplifier could not be decoded.
#[derive(Debug, Clone, Copy, PartialEq, Eq, Structural)]
pub enum DecodeErrorKind {
    /// The frame is not valid UTF-8.
    NotText,
    /// The frame holds no `=` between a key and a value.
    MalformedFrame,
    /// The key is known, and the value is none that the key accepts.
    InvalidValue,
}

/// A frame that could not be decoded, with the reason.
#[derive(Debug, Clone, PartialEq, Eq)]
pub struct FrameDecodeError {
    /// The reason.
    pub kind: DecodeErrorKind,
    /// The bytes of the offending frame, without the terminator.
    pub frame: Vec<u8>,
}

} // verus!
