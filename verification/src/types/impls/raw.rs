//! A raw byte body: the rest of the buffer, written and read without any
//! length prefix.

use crate::error::CodecError;
use crate::types::codec::Decode;
use crate::types::codec::Encode;
use vstd::prelude::*;

verus! {

/// Bytes passed through as-is. Decoding consumes everything that is
/// left, so a value of this type can only stand last in a packet.
#[derive(Clone, Debug, PartialEq, Eq, Hash)]
pub struct RawBytes(pub Vec<u8>);

impl DeepView for RawBytes {
    type V = Seq<u8>;

    open spec fn deep_view(&self) -> Seq<u8> {
        self.0@
    }
}

impl Encode for RawBytes {
    open spec fn wire_ok(&self) -> bool {
        true
    }

    open spec fn wire_bytes(&self) -> Seq<u8> {
        self.0@
    }

    fn encode(&self, out: &mut Vec<u8>) -> (r: Result<(), CodecError>) {
        out.extend_from_slice(self.0.as_slice());
        Ok(())
    }
}

impl Decode for RawBytes {
    open spec fn spec_decode(s: Seq<u8>) -> Result<(Seq<u8>, int), CodecError> {
        Ok((s, s.len() as int))
    }

    fn decode(r: &[u8], pos: usize) -> (res: Result<(RawBytes, usize), CodecError>) {
        let rest = vstd::slice::slice_subrange(r, pos, r.len());
        let v = vstd::slice::slice_to_vec(rest);
        proof {
            assert(v@ =~= r@.skip(pos as int));
        }
        Ok((RawBytes(v), r.len()))
    }
}

} // verus!
