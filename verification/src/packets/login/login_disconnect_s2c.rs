//! The server's refusal of a login, with the reason shown to the player.

use crate::error::CodecError;
use crate::types::codec::Decode;
use crate::types::codec::Encode;
use crate::types::packet::Packet;
use crate::types::packet::PacketSide;
use crate::types::packet::PacketState;
use crate::types::str::Bounded;
use vstd::prelude::*;

verus! {

/// The reason a login was refused, carried as the serialized JSON form
/// of a chat text component.
#[derive(Clone, Debug, PartialEq, Eq, Hash)]
pub struct LoginDisconnectS2c {
    /// The refusal shown to the player, as JSON text.
    pub reason: Bounded<String, 262144>,
}

impl DeepView for LoginDisconnectS2c {
    type V = Seq<char>;

    open spec fn deep_view(&self) -> Seq<char> {
        self.reason.deep_view()
    }
}

impl Encode for LoginDisconnectS2c {
    open spec fn wire_ok(&self) -> bool {
        self.reason.wire_ok()
    }

    open spec fn wire_bytes(&self) -> Seq<u8> {
        self.reason.wire_bytes()
    }

    fn encode(&self, out: &mut Vec<u8>) -> (r: Result<(), CodecError>) {
        self.reason.encode(out)
    }
}

impl Decode for LoginDisconnectS2c {
    open spec fn spec_decode(s: Seq<u8>) -> Result<(Seq<char>, int), CodecError> {
        <Bounded<String, 262144> as Decode>::spec_decode(s)
    }

    fn decode(r: &[u8], pos: usize) -> (res: Result<(LoginDisconnectS2c, usize), CodecError>) {
        match <Bounded<String, 262144> as Decode>::decode(r, pos) {
            Err(e) => Err(e),
            Ok((reason, end)) => Ok((LoginDisconnectS2c { reason }, end)),
        }
    }
}

impl Packet for LoginDisconnectS2c {
    open spec fn spec_id() -> i32 {
        0
    }

    open spec fn spec_name() -> Seq<char> {
        "LoginDisconnectS2c"@
    }

    open spec fn spec_side() -> PacketSide {
        PacketSide::Clientbound
    }

    open spec fn spec_state() -> PacketState {
        PacketState::Login
    }

    fn id() -> (r: i32) {
        0
    }

    fn name() -> (r: &'static str) {
        "LoginDisconnectS2c"
    }

    fn side() -> (r: PacketSide) {
        PacketSide::Clientbound
    }

    fn state() -> (r: PacketState) {
        PacketState::Login
    }
}

} // verus!
