//! A raw frame: the unit the decoder hands out per cycle, before it is
//! interpreted as a specific packet type.

use crate::error::CodecError;
use crate::types::codec::Decode;
use crate::types::packet::Packet;
use vstd::prelude::*;

verus! {

/// One complete frame of the wire stream, decrypted and decompressed but
/// not yet typed.
#[derive(Clone, Debug)]
pub struct PacketFrame {
    /// The ID of the decoded packet.
    pub id: i32,
    /// The contents of the packet after the leading VarInt ID.
    pub body: Vec<u8>,
}

impl PacketFrame {
    /// Attempts to decode this frame as the packet type `P`. The frame's
    /// ID must match the type's declared ID, and the whole body must be
    /// consumed: leftover bytes betray a schema or framing mismatch.
    pub fn decode<P: Packet + Decode>(&self) -> (r: Result<P, CodecError>)
        ensures
            match r {
                Ok(p) => P::spec_id() == self.id && P::spec_decode(self.body@) == Ok::<
                    (P::V, int),
                    CodecError,
                >((p.deep_view(), self.body@.len() as int)),
                Err(e) => if P::spec_id() != self.id {
                    e == CodecError::IdMismatch
                } else {
                    match P::spec_decode(self.body@) {
                        Ok((v, n)) => e == CodecError::TrailingBytes && n < self.body@.len(),
                        Err(e2) => e == e2,
                    }
                },
            },
    {
        if P::id() != self.id {
            return Err(CodecError::IdMismatch);
        }
        proof {
            assert(self.body@.skip(0) =~= self.body@);
        }
        match P::decode(self.body.as_slice(), 0) {
            Err(e) => Err(e),
            Ok((p, end)) => {
                if end != self.body.len() {
                    Err(CodecError::TrailingBytes)
                } else {
                    Ok(p)
                }
            },
        }
    }
}

} // verus!
