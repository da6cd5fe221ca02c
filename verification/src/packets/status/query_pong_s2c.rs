//! The server's echo of a ping during a server-list query.

use crate::error::CodecError;
use crate::types::codec::Decode;
use crate::types::codec::Encode;
use crate::types::impls::primitives::spec_be_bytes;
use crate::types::packet::Packet;
use crate::types::packet::PacketSide;
use crate::types::packet::PacketState;
use vstd::prelude::*;

verus! {

/// The payload of the ping being answered, returned unchanged.
#[derive(Clone, Copy, Debug, PartialEq, Eq, Structural)]
pub struct QueryPongS2c {
    /// The value the client sent.
    pub payload: u64,
}

impl DeepView for QueryPongS2c {
    type V = QueryPongS2c;

    open spec fn deep_view(&self) -> QueryPongS2c {
        *self
    }
}

impl Encode for QueryPongS2c {
    open spec fn wire_ok(&self) -> bool {
        true
    }

    open spec fn wire_bytes(&self) -> Seq<u8> {
        spec_be_bytes(self.payload as int, 8)
    }

    fn encode(&self, out: &mut Vec<u8>) -> (r: Result<(), CodecError>) {
        self.payload.encode(out)
    }
}

impl Decode for QueryPongS2c {
    open spec fn spec_decode(s: Seq<u8>) -> Result<(QueryPongS2c, int), CodecError> {
        match <u64 as Decode>::spec_decode(s) {
            Err(e) => Err(e),
            Ok((payload, n)) => Ok((QueryPongS2c { payload }, n)),
        }
    }

    fn decode(r: &[u8], pos: usize) -> (res: Result<(QueryPongS2c, usize), CodecError>) {
        match <u64 as Decode>::decode(r, pos) {
            Err(e) => Err(e),
            Ok((payload, end)) => Ok((QueryPongS2c { payload }, end)),
        }
    }
}

impl Packet for QueryPongS2c {
    open spec fn spec_id() -> i32 {
        1
    }

    open spec fn spec_name() -> Seq<char> {
        "QueryPongS2c"@
    }

    open spec fn spec_side() -> PacketSide {
        PacketSide::Clientbound
    }

    open spec fn spec_state() -> PacketState {
        PacketState::Status
    }

    fn id() -> (r: i32) {
        1
    }

    fn name() -> (r: &'static str) {
        "QueryPongS2c"
    }

    fn side() -> (r: PacketSide) {
        PacketSide::Clientbound
    }

    fn state() -> (r: PacketState) {
        PacketState::Status
    }
}

} // verus!
