//! The server's acceptance of a login, with the resolved game profile.

use crate::error::CodecError;
use crate::packets::types::profile::Property;
use crate::types::codec::Decode;
use crate::types::codec::Encode;
use crate::types::impls::other::Uuid;
use crate::types::packet::Packet;
use crate::types::packet::PacketSide;
use crate::types::packet::PacketState;
use crate::types::str::Bounded;
use vstd::prelude::*;

verus! {

/// The profile the player ends up with: identity and properties.
#[derive(Clone, Debug, PartialEq, Eq, Hash)]
pub struct LoginSuccessS2c {
    /// The player's unique profile identifier.
    pub uuid: Uuid,
    /// The player's name, at most sixteen code units.
    pub username: Bounded<String, 16>,
    /// The profile's properties, such as its textures.
    pub properties: Vec<Property>,
}

impl DeepView for LoginSuccessS2c {
    type V = (Uuid, Seq<char>, Seq<(Seq<char>, Seq<char>, Option<Seq<char>>)>);

    open spec fn deep_view(&self) -> (
        Uuid,
        Seq<char>,
        Seq<(Seq<char>, Seq<char>, Option<Seq<char>>)>,
    ) {
        (self.uuid, self.username.deep_view(), self.properties.deep_view())
    }
}

impl Encode for LoginSuccessS2c {
    open spec fn wire_ok(&self) -> bool {
        self.username.wire_ok() && self.properties.wire_ok()
    }

    open spec fn wire_bytes(&self) -> Seq<u8> {
        self.uuid.wire_bytes() + self.username.wire_bytes() + self.properties.wire_bytes()
    }

    fn encode(&self, out: &mut Vec<u8>) -> (r: Result<(), CodecError>) {
        let n0 = out.len();
        let _ = self.uuid.encode(out);
        match self.username.encode(out) {
            Ok(()) => {},
            Err(e) => {
                out.truncate(n0);
                assert(out@ =~= old(out)@);
                return Err(e);
            },
        }
        match self.properties.encode(out) {
            Ok(()) => {},
            Err(e) => {
                out.truncate(n0);
                assert(out@ =~= old(out)@);
                return Err(e);
            },
        }
        assert(out@ =~= old(out)@ + self.wire_bytes());
        Ok(())
    }
}

impl Decode for LoginSuccessS2c {
    open spec fn spec_decode(s: Seq<u8>) -> Result<
        ((Uuid, Seq<char>, Seq<(Seq<char>, Seq<char>, Option<Seq<char>>)>), int),
        CodecError,
    > {
        match <Uuid as Decode>::spec_decode(s) {
            Err(e) => Err(e),
            Ok((uuid, n1)) => match <Bounded<String, 16> as Decode>::spec_decode(s.skip(n1)) {
                Err(e) => Err(e),
                Ok((username, n2)) => match <Vec<Property> as Decode>::spec_decode(
                    s.skip(n1 + n2),
                ) {
                    Err(e) => Err(e),
                    Ok((properties, n3)) => Ok(((uuid, username, properties), n1 + n2 + n3)),
                },
            },
        }
    }

    fn decode(r: &[u8], pos: usize) -> (res: Result<(LoginSuccessS2c, usize), CodecError>) {
        let (uuid, p1) = match <Uuid as Decode>::decode(r, pos) {
            Ok(x) => x,
            Err(e) => {
                return Err(e);
            },
        };
        proof {
            assert(r@.skip(pos as int).skip(p1 - pos) =~= r@.skip(p1 as int));
        }
        let (username, p2) = match <Bounded<String, 16> as Decode>::decode(r, p1) {
            Ok(x) => x,
            Err(e) => {
                return Err(e);
            },
        };
        proof {
            assert(r@.skip(pos as int).skip(p2 - pos) =~= r@.skip(p2 as int));
        }
        let (properties, p3) = match <Vec<Property> as Decode>::decode(r, p2) {
            Ok(x) => x,
            Err(e) => {
                return Err(e);
            },
        };
        Ok((LoginSuccessS2c { uuid, username, properties }, p3))
    }
}

impl Packet for LoginSuccessS2c {
    open spec fn spec_id() -> i32 {
        2
    }

    open spec fn spec_name() -> Seq<char> {
        "LoginSuccessS2c"@
    }

    open spec fn spec_side() -> PacketSide {
        PacketSide::Clientbound
    }

    open spec fn spec_state() -> PacketState {
        PacketState::Login
    }

    fn id() -> (r: i32) {
        2
    }

    fn name() -> (r: &'static str) {
        "LoginSuccessS2c"
    }

    fn side() -> (r: PacketSide) {
        PacketSide::Clientbound
    }

    fn state() -> (r: PacketState) {
        PacketState::Login
    }
}

} // verus!
