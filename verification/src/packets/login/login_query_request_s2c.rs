//! A custom query the server sends during login.

use crate::error::CodecError;
use crate::types::codec::Decode;
use crate::types::codec::Encode;
use crate::types::impls::ident::Ident;
use crate::types::impls::raw::RawBytes;
use crate::types::packet::Packet;
use crate::types::packet::PacketSide;
use crate::types::packet::PacketState;
use crate::types::str::Bounded;
use crate::var_int::VarInt;
use vstd::prelude::*;

verus! {

/// A query on a named channel, answered by the response carrying the
/// same message ID.
#[derive(Clone, Debug, PartialEq, Eq, Hash)]
pub struct LoginQueryRequestS2c {
    /// The ID the answer must repeat.
    pub message_id: VarInt,
    /// The channel this query belongs to.
    pub channel: Ident,
    /// The query's payload: the rest of the packet.
    pub data: Bounded<RawBytes, 1048576>,
}

impl DeepView for LoginQueryRequestS2c {
    type V = (VarInt, Seq<char>, Seq<u8>);

    open spec fn deep_view(&self) -> (VarInt, Seq<char>, Seq<u8>) {
        (self.message_id, self.channel.deep_view(), self.data.deep_view())
    }
}

impl Encode for LoginQueryRequestS2c {
    open spec fn wire_ok(&self) -> bool {
        self.channel.wire_ok() && self.data.wire_ok()
    }

    open spec fn wire_bytes(&self) -> Seq<u8> {
        self.message_id.wire_bytes() + self.channel.wire_bytes() + self.data.wire_bytes()
    }

    fn encode(&self, out: &mut Vec<u8>) -> (r: Result<(), CodecError>) {
        let n0 = out.len();
        let _ = self.message_id.encode(out);
        match self.channel.encode(out) {
            Ok(()) => {},
            Err(e) => {
                out.truncate(n0);
                assert(out@ =~= old(out)@);
                return Err(e);
            },
        }
        match self.data.encode(out) {
            Ok(()) => {},
            Err(e) => {
                out.truncate(n0);
                assert(out@ =~= old(out)@);
                return Err(e);
            },
        }
        assert(out@ =~= old(out)@ + self.wire_bytes());
        Ok(())
    }
}

impl Decode for LoginQueryRequestS2c {
    open spec fn spec_decode(s: Seq<u8>) -> Result<((VarInt, Seq<char>, Seq<u8>), int), CodecError> {
        match <VarInt as Decode>::spec_decode(s) {
            Err(e) => Err(e),
            Ok((message_id, n1)) => match <Ident as Decode>::spec_decode(s.skip(n1)) {
                Err(e) => Err(e),
                Ok((channel, n2)) => match <Bounded<RawBytes, 1048576> as Decode>::spec_decode(
                    s.skip(n1 + n2),
                ) {
                    Err(e) => Err(e),
                    Ok((data, n3)) => Ok(((message_id, channel, data), n1 + n2 + n3)),
                },
            },
        }
    }

    fn decode(r: &[u8], pos: usize) -> (res: Result<(LoginQueryRequestS2c, usize), CodecError>) {
        let (message_id, p1) = match <VarInt as Decode>::decode(r, pos) {
            Ok(x) => x,
            Err(e) => {
                return Err(e);
            },
        };
        proof {
            assert(r@.skip(pos as int).skip(p1 - pos) =~= r@.skip(p1 as int));
        }
        let (channel, p2) = match <Ident as Decode>::decode(r, p1) {
            Ok(x) => x,
            Err(e) => {
                return Err(e);
            },
        };
        proof {
            assert(r@.skip(pos as int).skip(p2 - pos) =~= r@.skip(p2 as int));
        }
        let (data, p3) = match <Bounded<RawBytes, 1048576> as Decode>::decode(r, p2) {
            Ok(x) => x,
            Err(e) => {
                return Err(e);
            },
        };
        Ok((LoginQueryRequestS2c { message_id, channel, data }, p3))
    }
}

impl Packet for LoginQueryRequestS2c {
    open spec fn spec_id() -> i32 {
        4
    }

    open spec fn spec_name() -> Seq<char> {
        "LoginQueryRequestS2c"@
    }

    open spec fn spec_side() -> PacketSide {
        PacketSide::Clientbound
    }

    open spec fn spec_state() -> PacketState {
        PacketState::Login
    }

    fn id() -> (r: i32) {
        4
    }

    fn name() -> (r: &'static str) {
        "LoginQueryRequestS2c"
    }

    fn side() -> (r: PacketSide) {
        PacketSide::Clientbound
    }

    fn state() -> (r: PacketState) {
        PacketState::Login
    }
}

} // verus!
