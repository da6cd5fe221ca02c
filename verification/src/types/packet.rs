//! The packet capability: a wire type with a numeric ID, a name, a
//! protocol side and a protocol state. In serialized form a packet begins
//! with its VarInt ID followed by the body; the Encode and Decode
//! capabilities on the type itself cover only the body.

use crate::error::CodecError;
use crate::types::codec::Encode;
use crate::var_int::spec_varint_bytes;
use crate::var_int::VarInt;
use vstd::prelude::*;

verus! {

/// The side a packet is sent from.
#[derive(Clone, Copy, Debug, PartialEq, Eq, Structural)]
pub enum PacketSide {
    /// Sent by the client, handled by the server.
    Serverbound,
    /// Sent by the server, handled by the client.
    Clientbound,
}

/// The protocol state a packet belongs to. IDs are only unique within a
/// (side, state) pair, never globally.
#[derive(Clone, Copy, Debug, PartialEq, Eq, Structural)]
pub enum PacketState {
    /// The initial state, before the client has declared its intent.
    Handshaking,
    /// The server-list query exchange.
    Status,
    /// The login and key exchange.
    Login,
    /// Ordinary play traffic.
    Play,
}

/// Types considered to be protocol packets.
pub trait Packet {
    /// The leading VarInt ID of this packet.
    spec fn spec_id() -> i32;

    /// The name of this packet for debugging purposes.
    spec fn spec_name() -> Seq<char>;

    /// The side this packet is intended for.
    spec fn spec_side() -> PacketSide;

    /// The state in which this packet is used.
    spec fn spec_state() -> PacketState;

    /// The leading VarInt ID of this packet.
    fn id() -> (r: i32)
        ensures
            r == Self::spec_id(),
    ;

    /// The name of this packet for debugging purposes.
    fn name() -> (r: &'static str)
        ensures
            r@ == Self::spec_name(),
    ;

    /// The side this packet is intended for.
    fn side() -> (r: PacketSide)
        ensures
            r == Self::spec_side(),
    ;

    /// The state in which this packet is used.
    fn state() -> (r: PacketState)
        ensures
            r == Self::spec_state(),
    ;
}

/// The full serialized form of one packet: its VarInt ID, then its body.
pub open spec fn spec_packet_bytes<P: Packet + Encode>(pkt: &P) -> Seq<u8> {
    spec_varint_bytes(P::spec_id() as u32) + pkt.wire_bytes()
}

/// Encodes the packet's VarInt ID first, followed by the packet's body.
/// Nothing is written when the body is refused.
pub fn encode_with_id<P: Packet + Encode>(pkt: &P, out: &mut Vec<u8>) -> (r: Result<
    (),
    CodecError,
>)
    ensures
        r is Ok <==> pkt.wire_ok(),
        pkt.wire_ok() ==> final(out)@ == old(out)@ + spec_packet_bytes(pkt),
        !pkt.wire_ok() ==> final(out)@ == old(out)@ && r == Err::<(), CodecError>(
            CodecError::BoundsExceeded,
        ),
{
    let mut tmp: Vec<u8> = Vec::new();
    match pkt.encode(&mut tmp) {
        Ok(()) => {
            VarInt(P::id()).encode_to(out);
            out.append(&mut tmp);
            assert(out@ =~= old(out)@ + spec_packet_bytes(pkt));
            Ok(())
        },
        Err(e) => Err(e),
    }
}

} // verus!
