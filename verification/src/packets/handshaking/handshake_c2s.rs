//! The first packet of every connection: the client names the protocol
//! version it speaks, the address and port it dialled, and the state it
//! will enter next.

use crate::error::CodecError;
use crate::types::codec::Decode;
use crate::types::codec::Encode;
use crate::types::packet::Packet;
use crate::types::packet::PacketSide;
use crate::types::packet::PacketState;
use crate::types::str::Bounded;
use crate::var_int::spec_varint_bytes;
use crate::var_int::VarInt;
use vstd::prelude::*;
use vstd::utf8::encode_utf8;

verus! {

/// The state the client asks to continue in after the handshake.
#[derive(Clone, Copy, Debug, Hash, PartialEq, Eq, Structural)]
pub enum HandshakeNextState {
    /// The server-list query exchange.
    Status,
    /// The login exchange.
    Login,
}

impl HandshakeNextState {
    /// The discriminant this variant is carried as on the wire.
    pub open spec fn spec_tag(self) -> i32 {
        match self {
            HandshakeNextState::Status => 1,
            HandshakeNextState::Login => 2,
        }
    }
}

impl DeepView for HandshakeNextState {
    type V = HandshakeNextState;

    open spec fn deep_view(&self) -> HandshakeNextState {
        *self
    }
}

impl Encode for HandshakeNextState {
    open spec fn wire_ok(&self) -> bool {
        true
    }

    open spec fn wire_bytes(&self) -> Seq<u8> {
        spec_varint_bytes(self.spec_tag() as u32)
    }

    fn encode(&self, out: &mut Vec<u8>) -> (r: Result<(), CodecError>) {
        match self {
            HandshakeNextState::Status => VarInt(1).encode_to(out),
            HandshakeNextState::Login => VarInt(2).encode_to(out),
        }
        Ok(())
    }
}

impl Decode for HandshakeNextState {
    open spec fn spec_decode(s: Seq<u8>) -> Result<(HandshakeNextState, int), CodecError> {
        match <VarInt as Decode>::spec_decode(s) {
            Err(e) => Err(e),
            Ok((v, n)) => if v.0 == 1 {
                Ok((HandshakeNextState::Status, n))
            } else if v.0 == 2 {
                Ok((HandshakeNextState::Login, n))
            } else {
                Err(CodecError::InvalidData)
            },
        }
    }

    fn decode(r: &[u8], pos: usize) -> (res: Result<(HandshakeNextState, usize), CodecError>) {
        match <VarInt as Decode>::decode(r, pos) {
            Err(e) => Err(e),
            Ok((v, end)) => if v.0 == 1 {
                Ok((HandshakeNextState::Status, end))
            } else if v.0 == 2 {
                Ok((HandshakeNextState::Login, end))
            } else {
                Err(CodecError::InvalidData)
            },
        }
    }
}

/// The handshake as the client sends it.
#[derive(Clone, Debug, PartialEq, Eq, Hash)]
pub struct HandshakeC2S {
    /// The protocol version the client speaks.
    pub protocol_version: VarInt,
    /// The address the client dialled.
    pub server_address: Bounded<String, 255>,
    /// The port the client dialled.
    pub server_port: u16,
    /// The state the client will enter next.
    pub next_state: HandshakeNextState,
}

impl DeepView for HandshakeC2S {
    type V = (VarInt, Seq<char>, u16, HandshakeNextState);

    open spec fn deep_view(&self) -> (VarInt, Seq<char>, u16, HandshakeNextState) {
        (
            self.protocol_version,
            self.server_address.deep_view(),
            self.server_port,
            self.next_state,
        )
    }
}

impl Encode for HandshakeC2S {
    open spec fn wire_ok(&self) -> bool {
        self.server_address.wire_ok()
    }

    open spec fn wire_bytes(&self) -> Seq<u8> {
        self.protocol_version.wire_bytes() + self.server_address.wire_bytes()
            + self.server_port.wire_bytes() + self.next_state.wire_bytes()
    }

    fn encode(&self, out: &mut Vec<u8>) -> (r: Result<(), CodecError>) {
        let n0 = out.len();
        let _ = self.protocol_version.encode(out);
        match self.server_address.encode(out) {
            Ok(()) => {},
            Err(e) => {
                out.truncate(n0);
                assert(out@ =~= old(out)@);
                return Err(e);
            },
        }
        let _ = self.server_port.encode(out);
        let _ = self.next_state.encode(out);
        assert(out@ =~= old(out)@ + self.wire_bytes());
        Ok(())
    }
}

impl Decode for HandshakeC2S {
    open spec fn spec_decode(s: Seq<u8>) -> Result<
        ((VarInt, Seq<char>, u16, HandshakeNextState), int),
        CodecError,
    > {
        match <VarInt as Decode>::spec_decode(s) {
            Err(e) => Err(e),
            Ok((pv, n1)) => match <Bounded<String, 255> as Decode>::spec_decode(s.skip(n1)) {
                Err(e) => Err(e),
                Ok((addr, n2)) => match <u16 as Decode>::spec_decode(s.skip(n1 + n2)) {
                    Err(e) => Err(e),
                    Ok((port, n3)) => match <HandshakeNextState as Decode>::spec_decode(
                        s.skip(n1 + n2 + n3),
                    ) {
                        Err(e) => Err(e),
                        Ok((ns, n4)) => Ok(((pv, addr, port, ns), n1 + n2 + n3 + n4)),
                    },
                },
            },
        }
    }

    fn decode(r: &[u8], pos: usize) -> (res: Result<(HandshakeC2S, usize), CodecError>) {
        let (pv, p1) = match <VarInt as Decode>::decode(r, pos) {
            Ok(x) => x,
            Err(e) => {
                return Err(e);
            },
        };
        proof {
            assert(r@.skip(pos as int).skip(p1 - pos) =~= r@.skip(p1 as int));
        }
        let (addr, p2) = match <Bounded<String, 255> as Decode>::decode(r, p1) {
            Ok(x) => x,
            Err(e) => {
                return Err(e);
            },
        };
        proof {
            assert(r@.skip(pos as int).skip(p2 - pos) =~= r@.skip(p2 as int));
        }
        let (port, p3) = match <u16 as Decode>::decode(r, p2) {
            Ok(x) => x,
            Err(e) => {
                return Err(e);
            },
        };
        proof {
            assert(r@.skip(pos as int).skip(p3 - pos) =~= r@.skip(p3 as int));
        }
        let (ns, p4) = match <HandshakeNextState as Decode>::decode(r, p3) {
            Ok(x) => x,
            Err(e) => {
                return Err(e);
            },
        };
        Ok(
            (
                HandshakeC2S {
                    protocol_version: pv,
                    server_address: addr,
                    server_port: port,
                    next_state: ns,
                },
                p4,
            ),
        )
    }
}

impl Packet for HandshakeC2S {
    open spec fn spec_id() -> i32 {
        0
    }

    open spec fn spec_name() -> Seq<char> {
        "HandshakeC2S"@
    }

    open spec fn spec_side() -> PacketSide {
        PacketSide::Serverbound
    }

    open spec fn spec_state() -> PacketState {
        PacketState::Handshaking
    }

    fn id() -> (r: i32) {
        0
    }

    fn name() -> (r: &'static str) {
        "HandshakeC2S"
    }

    fn side() -> (r: PacketSide) {
        PacketSide::Serverbound
    }

    fn state() -> (r: PacketState) {
        PacketState::Handshaking
    }
}

/// Encoding a handshake and decoding the bytes back reproduces every
/// field exactly, whatever bytes follow the packet. Stated for
/// addresses whose UTF-8 form fits the byte bound, which every address
/// the protocol meets does; an address of more than 85 ideographic
/// characters could pass the encoder's code-unit bound yet exceed it.
pub proof fn lemma_handshake_round_trip(p: HandshakeC2S, rest: Seq<u8>)
    requires
        p.wire_ok(),
        encode_utf8(p.server_address.0@).len() <= 255,
    ensures
        <HandshakeC2S as Decode>::spec_decode(p.wire_bytes() + rest) == Ok::<
            ((VarInt, Seq<char>, u16, HandshakeNextState), int),
            CodecError,
        >((p.deep_view(), p.wire_bytes().len() as int)),
{
    let s = p.wire_bytes() + rest;
    let b1 = p.protocol_version.wire_bytes();
    let b2 = p.server_address.wire_bytes();
    let b3 = p.server_port.wire_bytes();
    let b4 = p.next_state.wire_bytes();
    crate::var_int::lemma_varint_bytes_len(encode_utf8(p.server_address.0@).len() as u32);
    crate::types::impls::primitives::lemma_be_bytes_len(p.server_port as int, 2);
    crate::var_int::lemma_varint_value_round_trip(p.protocol_version.0, b2 + b3 + b4 + rest);
    assert(s =~= p.protocol_version.spec_bytes() + (b2 + b3 + b4 + rest));
    let n1 = b1.len() as int;
    assert(s.skip(n1) =~= b2 + (b3 + b4 + rest));
    crate::types::str::lemma_bounded_string_decode(
        p.server_address.0@,
        255,
        b3 + b4 + rest,
    );
    let n2 = b2.len() as int;
    assert(s.skip(n1 + n2) =~= b3 + (b4 + rest));
    crate::types::impls::primitives::lemma_u16_decode_prefix(p.server_port, b4 + rest);
    let n3 = b3.len() as int;
    assert(s.skip(n1 + n2 + n3) =~= b4 + rest);
    crate::var_int::lemma_varint_value_round_trip(p.next_state.spec_tag(), rest);
    assert(b4 =~= VarInt(p.next_state.spec_tag()).spec_bytes());
    assert(b4 + rest =~= VarInt(p.next_state.spec_tag()).spec_bytes() + rest);
}

} // verus!
