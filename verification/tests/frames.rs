//! The frame encoder and decoder together: partial feeds, the
//! compression boundary, splicing order, and every way a stream can be
//! malformed.

use protocol::{
    CodecError, CompressionThreshold, PacketDecoder, PacketEncoder, QueryPingC2s, QueryPongS2c,
    VarInt, MAX_PACKET_SIZE,
};

fn ping_frame_bytes(payload: u64) -> Vec<u8> {
    let mut enc = PacketEncoder::new();
    enc.append_packet(&QueryPingC2s { payload }).unwrap();
    enc.take()
}

#[test]
fn partial_feed_then_whole_frame() {
    let bytes = ping_frame_bytes(0x1122334455667788);
    let mut dec = PacketDecoder::new();

    // Every proper prefix yields no frame and consumes nothing.
    dec.queue_slice(&bytes[..bytes.len() - 1]);
    assert!(dec.try_next_packet().unwrap().is_none());
    assert!(dec.try_next_packet().unwrap().is_none());

    // The last byte completes exactly one frame.
    dec.queue_slice(&bytes[bytes.len() - 1..]);
    let frame = dec.try_next_packet().unwrap().unwrap();
    assert_eq!(frame.id, 1);
    let pkt: QueryPingC2s = frame.decode().unwrap();
    assert_eq!(pkt.payload, 0x1122334455667788);
    assert!(dec.try_next_packet().unwrap().is_none());
}

#[test]
fn surplus_bytes_stay_queued() {
    let first = ping_frame_bytes(1);
    let second = ping_frame_bytes(2);
    let mut both = first.clone();
    both.extend_from_slice(&second);

    let mut dec = PacketDecoder::new();
    dec.queue_bytes(both);
    let a = dec.try_next_packet().unwrap().unwrap();
    let b = dec.try_next_packet().unwrap().unwrap();
    assert!(dec.try_next_packet().unwrap().is_none());
    assert_eq!(a.decode::<QueryPingC2s>().unwrap().payload, 1);
    assert_eq!(b.decode::<QueryPingC2s>().unwrap().payload, 2);
}

#[test]
fn byte_by_byte_feed() {
    let bytes = ping_frame_bytes(7);
    let mut dec = PacketDecoder::new();
    for (i, b) in bytes.iter().enumerate() {
        if i + 1 < bytes.len() {
            dec.queue_slice(&[*b]);
            assert!(dec.try_next_packet().unwrap().is_none());
        } else {
            dec.queue_slice(&[*b]);
        }
    }
    let frame = dec.try_next_packet().unwrap().unwrap();
    assert_eq!(frame.decode::<QueryPingC2s>().unwrap().payload, 7);
}

#[test]
fn threshold_boundary_raw() {
    // The ping body is nine bytes (one ID byte, eight payload bytes).
    // At a threshold of exactly nine it must stay raw, behind an inner
    // declared length of zero.
    let mut enc = PacketEncoder::new();
    enc.set_compression(CompressionThreshold(9));
    enc.append_packet(&QueryPingC2s { payload: 99 }).unwrap();
    let bytes = enc.take();
    assert_eq!(bytes[0], 10);  // outer length: inner zero + nine body bytes
    assert_eq!(bytes[1], 0);  // inner declared length: raw
    assert_eq!(bytes[2], 1);  // the packet ID, untouched
    assert_eq!(bytes.len(), 11);

    let mut dec = PacketDecoder::new();
    dec.set_compression(CompressionThreshold(9));
    dec.queue_bytes(bytes);
    let frame = dec.try_next_packet().unwrap().unwrap();
    assert_eq!(frame.decode::<QueryPingC2s>().unwrap().payload, 99);
}

#[test]
fn threshold_boundary_compressed() {
    // At a threshold of eight the nine-byte body must be deflated,
    // behind its declared uncompressed length of nine.
    let mut enc = PacketEncoder::new();
    enc.set_compression(CompressionThreshold(8));
    enc.append_packet(&QueryPingC2s { payload: 99 }).unwrap();
    let bytes = enc.take();
    assert_eq!(bytes[1], 9);  // inner declared length: the body's size

    let mut dec = PacketDecoder::new();
    dec.set_compression(CompressionThreshold(8));
    dec.queue_bytes(bytes);
    let frame = dec.try_next_packet().unwrap().unwrap();
    assert_eq!(frame.id, 1);
    assert_eq!(frame.decode::<QueryPingC2s>().unwrap().payload, 99);
}

#[test]
fn compressed_large_body_round_trip() {
    let mut enc = PacketEncoder::new();
    enc.set_compression(CompressionThreshold(64));
    let mut dec = PacketDecoder::new();
    dec.set_compression(CompressionThreshold(64));

    let pkt = protocol::LoginHelloS2c {
        server_id: protocol::Bounded(String::from("abcde")),
        public_key: (0..=255u8).cycle().take(5000).collect(),
        verify_token: vec![7; 500],
    };
    enc.append_packet(&pkt).unwrap();
    let bytes = enc.take();
    // Deflate must have shrunk the repetitive body.
    assert!(bytes.len() < 5000);

    dec.queue_bytes(bytes);
    let frame = dec.try_next_packet().unwrap().unwrap();
    let back: protocol::LoginHelloS2c = frame.decode().unwrap();
    assert_eq!(back, pkt);
}

#[test]
fn prepend_then_append_order() {
    let mut enc = PacketEncoder::new();
    enc.append_packet(&QueryPingC2s { payload: 2 }).unwrap();
    enc.append_packet(&QueryPingC2s { payload: 3 }).unwrap();
    enc.prepend_packet(&QueryPongS2c { payload: 1 }).unwrap();
    let bytes = enc.take();

    let mut dec = PacketDecoder::new();
    dec.queue_bytes(bytes);
    let a = dec.try_next_packet().unwrap().unwrap();
    let b = dec.try_next_packet().unwrap().unwrap();
    let c = dec.try_next_packet().unwrap().unwrap();
    assert_eq!(a.decode::<QueryPongS2c>().unwrap().payload, 1);
    assert_eq!(b.decode::<QueryPingC2s>().unwrap().payload, 2);
    assert_eq!(c.decode::<QueryPingC2s>().unwrap().payload, 3);
    assert!(dec.try_next_packet().unwrap().is_none());
}

#[test]
fn malformed_length_prefix() {
    let mut dec = PacketDecoder::new();
    dec.queue_slice(&[0xff, 0xff, 0xff, 0xff, 0xff]);
    assert_eq!(dec.try_next_packet().unwrap_err(), CodecError::MalformedVarInt);
}

#[test]
fn negative_length_prefix() {
    let mut dec = PacketDecoder::new();
    let mut buf: Vec<u8> = vec![];
    VarInt(-1).encode_to(&mut buf);
    dec.queue_bytes(buf);
    assert_eq!(dec.try_next_packet().unwrap_err(), CodecError::LengthOutOfBounds);
}

#[test]
fn oversized_length_prefix() {
    let mut dec = PacketDecoder::new();
    let mut buf: Vec<u8> = vec![];
    VarInt(MAX_PACKET_SIZE + 1).encode_to(&mut buf);
    dec.queue_bytes(buf);
    assert_eq!(dec.try_next_packet().unwrap_err(), CodecError::LengthOutOfBounds);
}

#[test]
fn raw_body_over_threshold_rejected() {
    // Compression on with threshold 3: an inner declared length of zero
    // followed by five raw body bytes violates the invariant.
    let mut dec = PacketDecoder::new();
    dec.set_compression(CompressionThreshold(3));
    let mut buf: Vec<u8> = vec![6, 0];
    buf.extend_from_slice(&[1, 2, 3, 4, 5]);
    dec.queue_bytes(buf);
    assert_eq!(
        dec.try_next_packet().unwrap_err(),
        CodecError::CompressionInvariantViolation
    );
}

#[test]
fn compressed_body_under_threshold_rejected() {
    // An inner declared length of five at a threshold of ten claims a
    // compressed body that never legitimately is.
    let mut dec = PacketDecoder::new();
    dec.set_compression(CompressionThreshold(10));
    let mut buf: Vec<u8> = vec![4, 5];
    buf.extend_from_slice(&[0xaa, 0xbb, 0xcc]);
    dec.queue_bytes(buf);
    assert_eq!(
        dec.try_next_packet().unwrap_err(),
        CodecError::CompressionInvariantViolation
    );
}

#[test]
fn corrupt_deflate_stream_rejected() {
    // Declared uncompressed length twenty, but the payload is garbage.
    let mut dec = PacketDecoder::new();
    dec.set_compression(CompressionThreshold(10));
    let mut buf: Vec<u8> = vec![4, 20];
    buf.extend_from_slice(&[0x01, 0x02, 0x03]);
    dec.queue_bytes(buf);
    assert_eq!(
        dec.try_next_packet().unwrap_err(),
        CodecError::CompressionInvariantViolation
    );
}

#[test]
fn oversized_packet_refused_by_encoder() {
    let mut enc = PacketEncoder::new();
    let pkt = protocol::LoginHelloS2c {
        server_id: protocol::Bounded(String::from("x")),
        public_key: vec![0xab; (MAX_PACKET_SIZE as usize) + 8],
        verify_token: vec![],
    };
    assert_eq!(enc.append_packet(&pkt).unwrap_err(), CodecError::OversizedPacket);
    // Nothing was buffered by the refused packet.
    assert!(enc.take().is_empty());
}

#[test]
fn clear_discards_buffered_frames() {
    let mut enc = PacketEncoder::new();
    enc.append_packet(&QueryPingC2s { payload: 5 }).unwrap();
    enc.clear();
    assert!(enc.take().is_empty());
}

#[test]
fn append_bytes_passes_through() {
    let mut enc = PacketEncoder::new();
    let frame = ping_frame_bytes(11);
    enc.append_bytes(&frame);
    assert_eq!(enc.take(), frame);
}

#[test]
fn decoder_compression_getter() {
    let mut dec = PacketDecoder::new();
    assert_eq!(dec.compression(), CompressionThreshold(-1));
    dec.set_compression(CompressionThreshold(256));
    assert_eq!(dec.compression(), CompressionThreshold(256));
    assert_eq!(CompressionThreshold::default(), CompressionThreshold(-1));
}
