//! The client's ping during a server-list query.

use crate::error::CodecError;
use crate::types::codec::Decode;
use crate::types::codec::Encode;
use crate::types::impls::primitives::spec_be_bytes;
use crate::types::packet::Packet;
use crate::types::packet::PacketSide;
use crate::types::packet::PacketState;
use vstd::prelude::*;

verus! {

/// A ping payload the server is asked to echo back unchanged.
#[derive(Clone, Copy, Debug, PartialEq, Eq, Structural)]
pub struct QueryPingC2s {
    /// An arbitrary value, conventionally the sender's clock.
    pub payload: u64,
}

impl DeepView for QueryPingC2s {
    type V = QueryPingC2s;

    open spec fn deep_view(&self) -> QueryPingC2s {
        *self
    }
}

impl Encode for QueryPingC2s {
    open spec fn wire_ok(&self) -> bool {
        true
    }

    open spec fn wire_bytes(&self) -> Seq<u8> {
        spec_be_bytes(self.payload as int, 8)
    }

    fn encode(&self, out: &mut Vec<u8>) -> (r: Result<(), CodecError>) {
        self.payload.encode(out)
    }
}

impl Decode for QueryPingC2s {
    open spec fn spec_decode(s: Seq<u8>) -> Result<(QueryPingC2s, int), CodecError> {
        match <u64 as Decode>::spec_decode(s) {
            Err(e) => Err(e),
            Ok((payload, n)) => Ok((QueryPingC2s { payload }, n)),
        }
    }

    fn decode(r: &[u8], pos: usize) -> (res: Result<(QueryPingC2s, usize), CodecError>) {
        match <u64 as Decode>::decode(r, pos) {
            Err(e) => Err(e),
            Ok((payload, end)) => Ok((QueryPingC2s { payload }, end)),
        }
    }
}

impl Packet for QueryPingC2s {
    open spec fn spec_id() -> i32 {
        1
    }

    open spec fn spec_name() -> Seq<char> {
        "QueryPingC2s"@
    }

    open spec fn spec_side() -> PacketSide {
        PacketSide::Serverbound
    }

    open spec fn spec_state() -> PacketState {
        PacketState::Status
    }

    fn id() -> (r: i32) {
        1
    }

    fn name() -> (r: &'static str) {
        "QueryPingC2s"
    }

    fn side() -> (r: PacketSide) {
        PacketSide::Serverbound
    }

    fn state() -> (r: PacketState) {
        PacketState::Status
    }
}

} // verus!
