//! The client's half of the key exchange.

use crate::error::CodecError;
use crate::types::codec::Decode;
use crate::types::codec::Encode;
use crate::types::packet::Packet;
use crate::types::packet::PacketSide;
use crate::types::packet::PacketState;
use vstd::prelude::*;

verus! {

/// The shared secret and echoed nonce, both encrypted to the server's
/// public key.
#[derive(Clone, Debug, PartialEq, Eq, Hash)]
pub struct LoginKeyC2s {
    /// The encrypted 128-bit shared secret.
    pub shared_secret: Vec<u8>,
    /// The encrypted echo of the server's nonce.
    pub verify_token: Vec<u8>,
}

impl DeepView for LoginKeyC2s {
    type V = (Seq<u8>, Seq<u8>);

    open spec fn deep_view(&self) -> (Seq<u8>, Seq<u8>) {
        (self.shared_secret.deep_view(), self.verify_token.deep_view())
    }
}

impl Encode for LoginKeyC2s {
    open spec fn wire_ok(&self) -> bool {
        self.shared_secret.wire_ok() && self.verify_token.wire_ok()
    }

    open spec fn wire_bytes(&self) -> Seq<u8> {
        self.shared_secret.wire_bytes() + self.verify_token.wire_bytes()
    }

    fn encode(&self, out: &mut Vec<u8>) -> (r: Result<(), CodecError>) {
        let n0 = out.len();
        match self.shared_secret.encode(out) {
            Ok(()) => {},
            Err(e) => {
                return Err(e);
            },
        }
        match self.verify_token.encode(out) {
            Ok(()) => {},
            Err(e) => {
                out.truncate(n0);
                assert(out@ =~= old(out)@);
                return Err(e);
            },
        }
        assert(out@ =~= old(out)@ + self.wire_bytes());
        Ok(())
    }
}

impl Decode for LoginKeyC2s {
    open spec fn spec_decode(s: Seq<u8>) -> Result<((Seq<u8>, Seq<u8>), int), CodecError> {
        match <Vec<u8> as Decode>::spec_decode(s) {
            Err(e) => Err(e),
            Ok((shared_secret, n1)) => match <Vec<u8> as Decode>::spec_decode(s.skip(n1)) {
                Err(e) => Err(e),
                Ok((verify_token, n2)) => Ok(((shared_secret, verify_token), n1 + n2)),
            },
        }
    }

    fn decode(r: &[u8], pos: usize) -> (res: Result<(LoginKeyC2s, usize), CodecError>) {
        let (shared_secret, p1) = match <Vec<u8> as Decode>::decode(r, pos) {
            Ok(x) => x,
            Err(e) => {
                return Err(e);
            },
        };
        proof {
            assert(r@.skip(pos as int).skip(p1 - pos) =~= r@.skip(p1 as int));
        }
        let (verify_token, p2) = match <Vec<u8> as Decode>::decode(r, p1) {
            Ok(x) => x,
            Err(e) => {
                return Err(e);
            },
        };
        Ok((LoginKeyC2s { shared_secret, verify_token }, p2))
    }
}

impl Packet for LoginKeyC2s {
    open spec fn spec_id() -> i32 {
        1
    }

    open spec fn spec_name() -> Seq<char> {
        "LoginKeyC2s"@
    }

    open spec fn spec_side() -> PacketSide {
        PacketSide::Serverbound
    }

    open spec fn spec_state() -> PacketState {
        PacketState::Login
    }

    fn id() -> (r: i32) {
        1
    }

    fn name() -> (r: &'static str) {
        "LoginKeyC2s"
    }

    fn side() -> (r: PacketSide) {
        PacketSide::Serverbound
    }

    fn state() -> (r: PacketState) {
        PacketState::Login
    }
}

} // verus!
