//! The server's announcement of the compression threshold both sides
//! switch to.

use crate::error::CodecError;
use crate::types::codec::Decode;
use crate::types::codec::Encode;
use crate::types::packet::Packet;
use crate::types::packet::PacketSide;
use crate::types::packet::PacketState;
use crate::var_int::VarInt;
use vstd::prelude::*;

verus! {

/// The compression threshold to configure on both encoder and decoder.
#[derive(Clone, Copy, Debug, PartialEq, Eq, Structural)]
pub struct LoginCompressionS2c {
    /// The minimum body size eligible for compression; negative disables
    /// compression.
    pub threshold: VarInt,
}

impl DeepView for LoginCompressionS2c {
    type V = LoginCompressionS2c;

    open spec fn deep_view(&self) -> LoginCompressionS2c {
        *self
    }
}

impl Encode for LoginCompressionS2c {
    open spec fn wire_ok(&self) -> bool {
        true
    }

    open spec fn wire_bytes(&self) -> Seq<u8> {
        self.threshold.wire_bytes()
    }

    fn encode(&self, out: &mut Vec<u8>) -> (r: Result<(), CodecError>) {
        self.threshold.encode(out)
    }
}

impl Decode for LoginCompressionS2c {
    open spec fn spec_decode(s: Seq<u8>) -> Result<(LoginCompressionS2c, int), CodecError> {
        match <VarInt as Decode>::spec_decode(s) {
            Err(e) => Err(e),
            Ok((threshold, n)) => Ok((LoginCompressionS2c { threshold }, n)),
        }
    }

    fn decode(r: &[u8], pos: usize) -> (res: Result<(LoginCompressionS2c, usize), CodecError>) {
        match <VarInt as Decode>::decode(r, pos) {
            Err(e) => Err(e),
            Ok((threshold, end)) => Ok((LoginCompressionS2c { threshold }, end)),
        }
    }
}

impl Packet for LoginCompressionS2c {
    open spec fn spec_id() -> i32 {
        3
    }

    open spec fn spec_name() -> Seq<char> {
        "LoginCompressionS2c"@
    }

    open spec fn spec_side() -> PacketSide {
        PacketSide::Clientbound
    }

    open spec fn spec_state() -> PacketState {
        PacketState::Login
    }

    fn id() -> (r: i32) {
        3
    }

    fn name() -> (r: &'static str) {
        "LoginCompressionS2c"
    }

    fn side() -> (r: PacketSide) {
        PacketSide::Clientbound
    }

    fn state() -> (r: PacketState) {
        PacketState::Login
    }
}

} // verus!
