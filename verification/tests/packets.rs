//! Typed packets over the wire: field-exact round trips, the bounded
//! wrapper's limits, and the ID safety net.

use protocol::{
    Bounded, CodecError, Decode, Encode, HandshakeC2S, HandshakeNextState, LoginCompressionS2c,
    LoginDisconnectS2c, LoginHelloC2s, LoginKeyC2s, LoginQueryResponseC2s, LoginSuccessS2c,
    Packet, PacketDecoder, PacketEncoder, PacketSide, PacketState, Property, QueryPingC2s,
    RawBytes, Uuid, VarInt, WritePacket,
};
use protocol::{Ident, LoginQueryRequestS2c};

fn round_trip_frame<P: protocol::Packet + Encode + Decode>(pkt: &P) -> P {
    let mut enc = PacketEncoder::new();
    enc.append_packet(pkt).unwrap();
    let mut dec = PacketDecoder::new();
    dec.queue_bytes(enc.take());
    let frame = dec.try_next_packet().unwrap().unwrap();
    frame.decode().unwrap()
}

#[test]
fn handshake_round_trip() {
    let pkt = HandshakeC2S {
        protocol_version: VarInt(protocol::PROTOCOL_VERSION),
        server_address: Bounded(String::from("play.example.org")),
        server_port: 25565,
        next_state: HandshakeNextState::Login,
    };
    let back = round_trip_frame(&pkt);
    assert_eq!(pkt, back);
}

#[test]
fn handshake_wrong_id_mismatch() {
    let pkt = HandshakeC2S {
        protocol_version: VarInt(protocol::PROTOCOL_VERSION),
        server_address: Bounded(String::from("localhost")),
        server_port: 25565,
        next_state: HandshakeNextState::Status,
    };
    let mut enc = PacketEncoder::new();
    enc.append_packet(&pkt).unwrap();
    let mut dec = PacketDecoder::new();
    dec.queue_bytes(enc.take());
    let frame = dec.try_next_packet().unwrap().unwrap();
    // The handshake carries ID 0; the ping type declares ID 1.
    assert_eq!(
        frame.decode::<QueryPingC2s>().unwrap_err(),
        CodecError::IdMismatch
    );
    // Decoded as what it is, it still works afterwards.
    assert_eq!(frame.decode::<HandshakeC2S>().unwrap(), pkt);
}

#[test]
fn next_state_discriminants() {
    let mut buf: Vec<u8> = vec![];
    HandshakeNextState::Status.encode(&mut buf).unwrap();
    assert_eq!(buf, [1]);
    buf.clear();
    HandshakeNextState::Login.encode(&mut buf).unwrap();
    assert_eq!(buf, [2]);
    assert_eq!(
        HandshakeNextState::decode(&[3], 0),
        Err::<(HandshakeNextState, usize), _>(CodecError::InvalidData)
    );
}

#[test]
fn bounded_string_rejects_declared_length_eagerly() {
    // A declared length of seventeen, with none of the payload present:
    // the bound is checked before the payload would be read.
    let mut buf: Vec<u8> = vec![];
    VarInt(17).encode_to(&mut buf);
    assert_eq!(
        <Bounded<String, 16>>::decode(&buf, 0),
        Err::<(Bounded<String, 16>, usize), _>(CodecError::BoundsExceeded)
    );
    // Sixteen is still in bounds; the missing payload is the next error.
    buf.clear();
    VarInt(16).encode_to(&mut buf);
    assert_eq!(
        <Bounded<String, 16>>::decode(&buf, 0),
        Err::<(Bounded<String, 16>, usize), _>(CodecError::TruncatedField)
    );
}

#[test]
fn bounded_string_encode_counts_utf16_units() {
    // Eight astral characters occupy sixteen UTF-16 code units: allowed.
    let eight = "😀😀😀😀😀😀😀😀";
    let mut buf: Vec<u8> = vec![];
    Bounded::<String, 16>(String::from(eight)).encode(&mut buf).unwrap();
    // One more exceeds the bound and writes nothing.
    let nine = "😀😀😀😀😀😀😀😀😀";
    let mut out: Vec<u8> = vec![];
    assert_eq!(
        Bounded::<String, 16>(String::from(nine)).encode(&mut out),
        Err(CodecError::BoundsExceeded)
    );
    assert!(out.is_empty());
}

#[test]
fn login_hello_round_trip() {
    let pkt = LoginHelloC2s {
        username: Bounded(String::from("Notch")),
        profile_id: Uuid(0x00112233445566778899aabbccddeeff),
    };
    assert_eq!(round_trip_frame(&pkt), pkt);
}

#[test]
fn login_hello_oversized_username_refused() {
    let pkt = LoginHelloC2s {
        username: Bounded(String::from("seventeen_letters")),
        profile_id: Uuid(1),
    };
    let mut enc = PacketEncoder::new();
    assert_eq!(enc.append_packet(&pkt).unwrap_err(), CodecError::BoundsExceeded);
    assert!(enc.take().is_empty());
}

#[test]
fn login_key_round_trip() {
    let pkt = LoginKeyC2s {
        shared_secret: vec![1, 2, 3, 4, 5],
        verify_token: vec![9, 8, 7],
    };
    assert_eq!(round_trip_frame(&pkt), pkt);
}

#[test]
fn login_success_round_trip() {
    let pkt = LoginSuccessS2c {
        uuid: Uuid(42),
        username: Bounded(String::from("Player")),
        properties: vec![
            Property {
                name: String::from("textures"),
                value: String::from("ZGF0YQ=="),
                signature: Some(String::from("c2ln")),
            },
            Property {
                name: String::from("other"),
                value: String::from(""),
                signature: None,
            },
        ],
    };
    assert_eq!(round_trip_frame(&pkt), pkt);
}

#[test]
fn login_query_response_round_trip() {
    let some = LoginQueryResponseC2s {
        message_id: VarInt(5),
        data: Some(Bounded(RawBytes(vec![0xde, 0xad, 0xbe, 0xef]))),
    };
    assert_eq!(round_trip_frame(&some), some);

    let none = LoginQueryResponseC2s { message_id: VarInt(6), data: None };
    assert_eq!(round_trip_frame(&none), none);
}

#[test]
fn login_compression_round_trip() {
    let pkt = LoginCompressionS2c { threshold: VarInt(256) };
    assert_eq!(round_trip_frame(&pkt), pkt);
}

#[test]
fn login_disconnect_round_trip() {
    let pkt = LoginDisconnectS2c {
        reason: Bounded(String::from("{\"text\":\"Server closed\"}")),
    };
    assert_eq!(round_trip_frame(&pkt), pkt);
}

#[test]
fn trailing_bytes_rejected() {
    // A ping body takes eight bytes; hand the typed decode twelve.
    let mut dec = PacketDecoder::new();
    let mut buf: Vec<u8> = vec![13, 1];
    buf.extend_from_slice(&[0; 12]);
    dec.queue_bytes(buf);
    let frame = dec.try_next_packet().unwrap().unwrap();
    assert_eq!(
        frame.decode::<QueryPingC2s>().unwrap_err(),
        CodecError::TrailingBytes
    );
}

#[test]
fn truncated_field_rejected() {
    // A ping body takes eight bytes; hand the typed decode four.
    let mut dec = PacketDecoder::new();
    let mut buf: Vec<u8> = vec![5, 1];
    buf.extend_from_slice(&[0; 4]);
    dec.queue_bytes(buf);
    let frame = dec.try_next_packet().unwrap().unwrap();
    assert_eq!(
        frame.decode::<QueryPingC2s>().unwrap_err(),
        CodecError::TruncatedField
    );
}

#[test]
fn bool_rejects_other_discriminants() {
    assert_eq!(<bool as Decode>::decode(&[0], 0), Ok((false, 1)));
    assert_eq!(<bool as Decode>::decode(&[1], 0), Ok((true, 1)));
    assert_eq!(
        <bool as Decode>::decode(&[2], 0),
        Err::<(bool, usize), _>(CodecError::InvalidData)
    );
}

#[test]
fn string_rejects_invalid_utf8() {
    let mut buf: Vec<u8> = vec![];
    VarInt(2).encode_to(&mut buf);
    buf.extend_from_slice(&[0xc3, 0x28]);
    assert_eq!(
        <String as Decode>::decode(&buf, 0),
        Err::<(String, usize), _>(CodecError::InvalidData)
    );
}

#[test]
fn packet_metadata() {
    assert_eq!(<HandshakeC2S as Packet>::id(), 0);
    assert_eq!(<HandshakeC2S as Packet>::name(), "HandshakeC2S");
    assert_eq!(<HandshakeC2S as Packet>::side(), PacketSide::Serverbound);
    assert_eq!(<HandshakeC2S as Packet>::state(), PacketState::Handshaking);
    assert_eq!(<LoginCompressionS2c as Packet>::id(), 3);
    assert_eq!(<LoginCompressionS2c as Packet>::state(), PacketState::Login);
}

#[test]
fn write_packet_trait() {
    let mut enc = PacketEncoder::new();
    enc.write_packet_fallible(&QueryPingC2s { payload: 3 }).unwrap();
    enc.write_packet(&QueryPingC2s { payload: 4 });
    let bytes = enc.take();
    let mut dec = PacketDecoder::new();
    dec.queue_bytes(bytes);
    assert_eq!(
        dec.try_next_packet().unwrap().unwrap().decode::<QueryPingC2s>().unwrap().payload,
        3
    );
    assert_eq!(
        dec.try_next_packet().unwrap().unwrap().decode::<QueryPingC2s>().unwrap().payload,
        4
    );
}

#[test]
fn ident_accepts_and_normalizes() {
    let whole = Ident::new(String::from("minecraft:dirt")).unwrap();
    assert_eq!(whole.as_str(), "minecraft:dirt");
    let custom = Ident::new(String::from("mymod:block/stone_slab")).unwrap();
    assert_eq!(custom.as_str(), "mymod:block/stone_slab");
    // A bare path is put under the default namespace.
    let bare = Ident::new(String::from("dirt")).unwrap();
    assert_eq!(bare.as_str(), "minecraft:dirt");
}

#[test]
fn ident_rejects_bad_text() {
    for bad in ["", "Stone", ":dirt", "minecraft:", "a:b:c", "name space:x", "ns:pa th"] {
        assert_eq!(
            Ident::new(String::from(bad)).unwrap_err(),
            CodecError::InvalidData
        );
    }
}

#[test]
fn login_query_request_round_trip() {
    let pkt = LoginQueryRequestS2c {
        message_id: VarInt(9),
        channel: Ident::new(String::from("velocity:player_info")).unwrap(),
        data: Bounded(RawBytes(vec![1, 2, 3])),
    };
    assert_eq!(round_trip_frame(&pkt), pkt);
}
