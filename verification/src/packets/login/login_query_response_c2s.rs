//! The client's answer to a custom login query.

use crate::error::CodecError;
use crate::types::codec::Decode;
use crate::types::codec::Encode;
use crate::types::impls::raw::RawBytes;
use crate::types::packet::Packet;
use crate::types::packet::PacketSide;
use crate::types::packet::PacketState;
use crate::types::str::Bounded;
use crate::var_int::VarInt;
use vstd::prelude::*;

verus! {

/// The answer to the query with the same message ID, or nothing when
/// the client does not understand the query.
#[derive(Clone, Debug, PartialEq, Eq, Hash)]
pub struct LoginQueryResponseC2s {
    /// The ID of the query being answered.
    pub message_id: VarInt,
    /// The answer's payload: the rest of the packet, when understood.
    pub data: Option<Bounded<RawBytes, 1048576>>,
}

impl DeepView for LoginQueryResponseC2s {
    type V = (VarInt, Option<Seq<u8>>);

    open spec fn deep_view(&self) -> (VarInt, Option<Seq<u8>>) {
        (self.message_id, self.data.deep_view())
    }
}

impl Encode for LoginQueryResponseC2s {
    open spec fn wire_ok(&self) -> bool {
        self.data.wire_ok()
    }

    open spec fn wire_bytes(&self) -> Seq<u8> {
        self.message_id.wire_bytes() + self.data.wire_bytes()
    }

    fn encode(&self, out: &mut Vec<u8>) -> (r: Result<(), CodecError>) {
        let n0 = out.len();
        let _ = self.message_id.encode(out);
        match self.data.encode(out) {
            Ok(()) => {},
            Err(e) => {
                out.truncate(n0);
                assert(out@ =~= old(out)@);
                return Err(e);
            },
        }
        assert(out@ =~= old(out)@ + self.wire_bytes());
        Ok(())
    }
}

impl Decode for LoginQueryResponseC2s {
    open spec fn spec_decode(s: Seq<u8>) -> Result<((VarInt, Option<Seq<u8>>), int), CodecError> {
        match <VarInt as Decode>::spec_decode(s) {
            Err(e) => Err(e),
            Ok((message_id, n1)) => match <Option<Bounded<RawBytes, 1048576>> as Decode>::spec_decode(
                s.skip(n1),
            ) {
                Err(e) => Err(e),
                Ok((data, n2)) => Ok(((message_id, data), n1 + n2)),
            },
        }
    }

    fn decode(r: &[u8], pos: usize) -> (res: Result<(LoginQueryResponseC2s, usize), CodecError>) {
        let (message_id, p1) = match <VarInt as Decode>::decode(r, pos) {
            Ok(x) => x,
            Err(e) => {
                return Err(e);
            },
        };
        proof {
            assert(r@.skip(pos as int).skip(p1 - pos) =~= r@.skip(p1 as int));
        }
        let (data, p2) = match <Option<Bounded<RawBytes, 1048576>> as Decode>::decode(r, p1) {
            Ok(x) => x,
            Err(e) => {
                return Err(e);
            },
        };
        Ok((LoginQueryResponseC2s { message_id, data }, p2))
    }
}

impl Packet for LoginQueryResponseC2s {
    open spec fn spec_id() -> i32 {
        4
    }

    open spec fn spec_name() -> Seq<char> {
        "LoginQueryResponseC2s"@
    }

    open spec fn spec_side() -> PacketSide {
        PacketSide::Serverbound
    }

    open spec fn spec_state() -> PacketState {
        PacketState::Login
    }

    fn id() -> (r: i32) {
        4
    }

    fn name() -> (r: &'static str) {
        "LoginQueryResponseC2s"
    }

    fn side() -> (r: PacketSide) {
        PacketSide::Serverbound
    }

    fn state() -> (r: PacketState) {
        PacketState::Login
    }
}

} // verus!
