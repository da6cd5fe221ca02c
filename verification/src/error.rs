//! Error kinds surfaced by the codec.

use vstd::prelude::*;

verus! {

/// Every failure the codec can report to its caller. A malformed frame is
/// never retried: the stream position is wedged and the conventional
/// response is to drop the connection.
#[derive(Clone, Copy, Debug, PartialEq, Eq, Structural)]
pub enum CodecError {
    /// A VarInt still had its continuation bit set past the fifth byte.
    MalformedVarInt,
    /// A declared frame or decompressed length was negative or over the
    /// maximum packet size.
    LengthOutOfBounds,
    /// A raw body was over the compression threshold, a compressed body's
    /// declared length was at or under it, or the decompressed size did not
    /// match the declared length.
    CompressionInvariantViolation,
    /// A typed field's decode ran out of bytes.
    TruncatedField,
    /// A field held an invalid discriminant or malformed text.
    InvalidData,
    /// A frame body was not fully consumed after a typed decode.
    TrailingBytes,
    /// A frame's ID did not match the packet type being decoded into.
    IdMismatch,
    /// A bounded wrapper's limit was violated on encode or decode.
    BoundsExceeded,
    /// An encoded frame would exceed the maximum packet size.
    OversizedPacket,
    /// Encryption was enabled twice on the same instance.
    EncryptionAlreadyEnabled,
}

impl CodecError {
    /// A short description of this error kind.
    pub fn message(&self) -> (r: &'static str)
        ensures
            r@.len() > 0,
    {
        let s = match self {
            CodecError::MalformedVarInt => "malformed VarInt",
            CodecError::LengthOutOfBounds => "length out of bounds",
            CodecError::CompressionInvariantViolation => "compression invariant violation",
            CodecError::TruncatedField => "truncated field",
            CodecError::InvalidData => "invalid data",
            CodecError::TrailingBytes => "trailing bytes after decode",
            CodecError::IdMismatch => "packet ID mismatch",
            CodecError::BoundsExceeded => "bounds exceeded",
            CodecError::OversizedPacket => "packet exceeds maximum length",
            CodecError::EncryptionAlreadyEnabled => "encryption is already enabled",
        };
        proof {
            reveal_strlit("malformed VarInt");
            reveal_strlit("length out of bounds");
            reveal_strlit("compression invariant violation");
            reveal_strlit("truncated field");
            reveal_strlit("invalid data");
            reveal_strlit("trailing bytes after decode");
            reveal_strlit("packet ID mismatch");
            reveal_strlit("bounds exceeded");
            reveal_strlit("packet exceeds maximum length");
            reveal_strlit("encryption is already enabled");
        }
        s
    }
}

/// The two ways a partial VarInt decode can stop early: the input ran out
/// (wait for more bytes) or the encoding itself is malformed (abort).
#[derive(Clone, Copy, Debug, PartialEq, Eq, Structural)]
pub enum VarDecodeError {
    /// Not enough bytes buffered yet; not a failure.
    Incomplete,
    /// Five bytes were consumed and the continuation bit was still set.
    TooLarge,
}

} // verus!
