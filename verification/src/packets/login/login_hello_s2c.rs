//! The server's reply opening the key exchange.

use crate::error::CodecError;
use crate::types::codec::Decode;
use crate::types::codec::Encode;
use crate::types::packet::Packet;
use crate::types::packet::PacketSide;
use crate::types::packet::PacketState;
use crate::types::str::Bounded;
use vstd::prelude::*;

verus! {

/// The server's identity and the material the client encrypts against.
#[derive(Clone, Debug, PartialEq, Eq, Hash)]
pub struct LoginHelloS2c {
    /// The server's identifier in the key exchange.
    pub server_id: Bounded<String, 20>,
    /// The server's public key, DER-encoded.
    pub public_key: Vec<u8>,
    /// The nonce the client must echo encrypted.
    pub verify_token: Vec<u8>,
}

impl DeepView for LoginHelloS2c {
    type V = (Seq<char>, Seq<u8>, Seq<u8>);

    open spec fn deep_view(&self) -> (Seq<char>, Seq<u8>, Seq<u8>) {
        (self.server_id.deep_view(), self.public_key.deep_view(), self.verify_token.deep_view())
    }
}

impl Encode for LoginHelloS2c {
    open spec fn wire_ok(&self) -> bool {
        self.server_id.wire_ok() && self.public_key.wire_ok() && self.verify_token.wire_ok()
    }

    open spec fn wire_bytes(&self) -> Seq<u8> {
        self.server_id.wire_bytes() + self.public_key.wire_bytes() + self.verify_token.wire_bytes()
    }

    fn encode(&self, out: &mut Vec<u8>) -> (r: Result<(), CodecError>) {
        let n0 = out.len();
        match self.server_id.encode(out) {
            Ok(()) => {},
            Err(e) => {
                return Err(e);
            },
        }
        match self.public_key.encode(out) {
            Ok(()) => {},
            Err(e) => {
                out.truncate(n0);
                assert(out@ =~= old(out)@);
                return Err(e);
            },
        }
        match self.verify_token.encode(out) {
            Ok(()) => {},
            Err(e) => {
                out.truncate(n0);
                assert(out@ =~= old(out)@);
                return Err(e);
            },
        }
        assert(out@ =~= old(out)@ + self.wire_bytes());
        Ok(())
    }
}

impl Decode for LoginHelloS2c {
    open spec fn spec_decode(s: Seq<u8>) -> Result<((Seq<char>, Seq<u8>, Seq<u8>), int), CodecError> {
        match <Bounded<String, 20> as Decode>::spec_decode(s) {
            Err(e) => Err(e),
            Ok((server_id, n1)) => match <Vec<u8> as Decode>::spec_decode(s.skip(n1)) {
                Err(e) => Err(e),
                Ok((public_key, n2)) => match <Vec<u8> as Decode>::spec_decode(s.skip(n1 + n2)) {
                    Err(e) => Err(e),
                    Ok((verify_token, n3)) => Ok(
                        ((server_id, public_key, verify_token), n1 + n2 + n3),
                    ),
                },
            },
        }
    }

    fn decode(r: &[u8], pos: usize) -> (res: Result<(LoginHelloS2c, usize), CodecError>) {
        let (server_id, p1) = match <Bounded<String, 20> as Decode>::decode(r, pos) {
            Ok(x) => x,
            Err(e) => {
                return Err(e);
            },
        };
        proof {
            assert(r@.skip(pos as int).skip(p1 - pos) =~= r@.skip(p1 as int));
        }
        let (public_key, p2) = match <Vec<u8> as Decode>::decode(r, p1) {
            Ok(x) => x,
            Err(e) => {
                return Err(e);
            },
        };
        proof {
            assert(r@.skip(pos as int).skip(p2 - pos) =~= r@.skip(p2 as int));
        }
        let (verify_token, p3) = match <Vec<u8> as Decode>::decode(r, p2) {
            Ok(x) => x,
            Err(e) => {
                return Err(e);
            },
        };
        Ok((LoginHelloS2c { server_id, public_key, verify_token }, p3))
    }
}

impl Packet for LoginHelloS2c {
    open spec fn spec_id() -> i32 {
        1
    }

    open spec fn spec_name() -> Seq<char> {
        "LoginHelloS2c"@
    }

    open spec fn spec_side() -> PacketSide {
        PacketSide::Clientbound
    }

    open spec fn spec_state() -> PacketState {
        PacketState::Login
    }

    fn id() -> (r: i32) {
        1
    }

    fn name() -> (r: &'static str) {
        "LoginHelloS2c"
    }

    fn side() -> (r: PacketSide) {
        PacketSide::Clientbound
    }

    fn state() -> (r: PacketState) {
        PacketState::Login
    }
}

} // verus!
