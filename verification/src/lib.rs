//! A streaming binary protocol codec: variable-length integers, framed
//! packets with optional zlib compression and an AES-CFB8 stream cipher,
//! and typed encode/decode capabilities for wire types.

mod cipher;
pub mod client;
mod decode;
mod deflate;
mod encode;
mod error;
mod packet_frame;
mod packets;
pub mod server;
pub mod server_shell;
mod types;
mod var_int;

pub use client::Properties;
pub use decode::PacketDecoder;
pub use encode::PacketEncoder;
pub use encode::WritePacket;
pub use error::CodecError;
pub use packet_frame::PacketFrame;
pub use error::VarDecodeError;
pub use packets::handshaking::HandshakeC2S;
pub use packets::handshaking::HandshakeNextState;
pub use packets::login::LoginCompressionS2c;
pub use packets::login::LoginDisconnectS2c;
pub use packets::login::LoginHelloC2s;
pub use packets::login::LoginHelloS2c;
pub use packets::login::LoginKeyC2s;
pub use packets::login::LoginQueryRequestS2c;
pub use packets::login::LoginQueryResponseC2s;
pub use packets::login::LoginSuccessS2c;
pub use packets::status::QueryPingC2s;
pub use packets::status::QueryPongS2c;
pub use packets::types::Property;
pub use types::codec::Decode;
pub use types::codec::Encode;
pub use types::impls::cautious_capacity;
pub use types::impls::ident::Ident;
pub use types::impls::other::Uuid;
pub use types::impls::raw::RawBytes;
pub use types::packet::encode_with_id;
pub use types::packet::spec_packet_bytes;
pub use types::packet::Packet;
pub use types::packet::PacketSide;
pub use types::packet::PacketState;
pub use types::str::Bounded;
pub use var_int::VarInt;
pub use var_int::CONTINUE_BIT;
pub use var_int::SEGMENT_MASK;
pub use var_int::VARINT_MAX_SIZE;

use vstd::prelude::*;

verus! {

/// The maximum number of bytes in a single packet frame.
pub const MAX_PACKET_SIZE: i32 = 2097152;

/// The protocol version this library currently targets.
pub const PROTOCOL_VERSION: i32 = 765;

/// The stringified name of the game version this library currently
/// targets.
pub const MINECRAFT_VERSION: &'static str = "1.20.4";

/// How large a packet body must be before the packet encoder compresses
/// it. A body whose encoded length is strictly greater than a
/// non-negative threshold is compressed; a negative threshold disables
/// compression entirely.
#[derive(Clone, Copy, Debug, Hash, PartialEq, Eq, Structural)]
pub struct CompressionThreshold(pub i32);

impl Default for CompressionThreshold {
    /// No compression.
    fn default() -> (r: Self)
        ensures
            r.0 == -1,
    {
        CompressionThreshold(-1)
    }
}

} // verus!
