//! The pair of symmetric capabilities every wire-representable type
//! implements. Composite types implement them by composing the capability
//! for their fields; fields are laid out strictly in declaration order
//! with no padding.

use crate::error::CodecError;
use vstd::prelude::*;

verus! {

/// A type with a canonical byte representation.
pub trait Encode {
    /// Whether this value can be written at all. A bounded wrapper refuses
    /// an oversized value; everything else always succeeds.
    spec fn wire_ok(&self) -> bool;

    /// The canonical wire bytes of this value.
    spec fn wire_bytes(&self) -> Seq<u8>;

    /// Appends this value's canonical byte representation to `out`.
    /// Nothing is written when the value is refused.
    fn encode(&self, out: &mut Vec<u8>) -> (r: Result<(), CodecError>)
        ensures
            r is Ok <==> self.wire_ok(),
            self.wire_ok() ==> final(out)@ == old(out)@ + self.wire_bytes(),
            !self.wire_ok() ==> final(out)@ == old(out)@ && r == Err::<(), CodecError>(
                CodecError::BoundsExceeded,
            ),
    ;
}

/// A type that can be read back from a byte stream. The whole behaviour
/// on every stream is fixed by `spec_decode`, stated over the type's
/// abstract value.
pub trait Decode: Sized + DeepView {
    /// What reading one value from the front of `s` must yield: the
    /// abstract value and the bytes consumed, or the error.
    spec fn spec_decode(s: Seq<u8>) -> Result<(Self::V, int), CodecError>;

    /// Reads one value from `r` starting at `pos`, returning it with the
    /// position just past the consumed bytes.
    fn decode(r: &[u8], pos: usize) -> (res: Result<(Self, usize), CodecError>)
        requires
            pos <= r@.len(),
        ensures
            match res {
                Ok((v, end)) => pos <= end <= r@.len() && Self::spec_decode(r@.skip(pos as int))
                    == Ok::<(Self::V, int), CodecError>((v.deep_view(), end - pos)),
                Err(e) => Self::spec_decode(r@.skip(pos as int)) == Err::<
                    (Self::V, int),
                    CodecError,
                >(e),
            },
    ;
}

} // verus!
