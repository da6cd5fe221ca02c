//! The client's opening of a login: its name and claimed profile.

use crate::error::CodecError;
use crate::types::codec::Decode;
use crate::types::codec::Encode;
use crate::types::impls::other::Uuid;
use crate::types::packet::Packet;
use crate::types::packet::PacketSide;
use crate::types::packet::PacketState;
use crate::types::str::Bounded;
use vstd::prelude::*;

verus! {

/// The username and profile the client logs in as.
#[derive(Clone, Debug, PartialEq, Eq, Hash)]
pub struct LoginHelloC2s {
    /// The player name, at most sixteen code units.
    pub username: Bounded<String, 16>,
    /// The profile the client claims.
    pub profile_id: Uuid,
}

impl DeepView for LoginHelloC2s {
    type V = (Seq<char>, Uuid);

    open spec fn deep_view(&self) -> (Seq<char>, Uuid) {
        (self.username.deep_view(), self.profile_id)
    }
}

impl Encode for LoginHelloC2s {
    open spec fn wire_ok(&self) -> bool {
        self.username.wire_ok()
    }

    open spec fn wire_bytes(&self) -> Seq<u8> {
        self.username.wire_bytes() + self.profile_id.wire_bytes()
    }

    fn encode(&self, out: &mut Vec<u8>) -> (r: Result<(), CodecError>) {
        match self.username.encode(out) {
            Ok(()) => {},
            Err(e) => {
                return Err(e);
            },
        }
        let _ = self.profile_id.encode(out);
        assert(out@ =~= old(out)@ + self.wire_bytes());
        Ok(())
    }
}

impl Decode for LoginHelloC2s {
    open spec fn spec_decode(s: Seq<u8>) -> Result<((Seq<char>, Uuid), int), CodecError> {
        match <Bounded<String, 16> as Decode>::spec_decode(s) {
            Err(e) => Err(e),
            Ok((username, n1)) => match <Uuid as Decode>::spec_decode(s.skip(n1)) {
                Err(e) => Err(e),
                Ok((profile_id, n2)) => Ok(((username, profile_id), n1 + n2)),
            },
        }
    }

    fn decode(r: &[u8], pos: usize) -> (res: Result<(LoginHelloC2s, usize), CodecError>) {
        let (username, p1) = match <Bounded<String, 16> as Decode>::decode(r, pos) {
            Ok(x) => x,
            Err(e) => {
                return Err(e);
            },
        };
        proof {
            assert(r@.skip(pos as int).skip(p1 - pos) =~= r@.skip(p1 as int));
        }
        let (profile_id, p2) = match <Uuid as Decode>::decode(r, p1) {
            Ok(x) => x,
            Err(e) => {
                return Err(e);
            },
        };
        Ok((LoginHelloC2s { username, profile_id }, p2))
    }
}

impl Packet for LoginHelloC2s {
    open spec fn spec_id() -> i32 {
        0
    }

    open spec fn spec_name() -> Seq<char> {
        "LoginHelloC2s"@
    }

    open spec fn spec_side() -> PacketSide {
        PacketSide::Serverbound
    }

    open spec fn spec_state() -> PacketState {
        PacketState::Login
    }

    fn id() -> (r: i32) {
        0
    }

    fn name() -> (r: &'static str) {
        "LoginHelloC2s"
    }

    fn side() -> (r: PacketSide) {
        PacketSide::Serverbound
    }

    fn state() -> (r: PacketState) {
        PacketState::Login
    }
}

} // verus!
