//! The variable-length integer codec, exercised on exact values, random
//! values and malformed streams.

use protocol::{CodecError, Decode, VarDecodeError, VarInt, VARINT_MAX_SIZE};
use rand::{thread_rng, Rng};

#[test]
fn varint_to_i32() {
    let (v, _) = VarInt::decode(&[0xff, 0xff, 0xff, 0xff, 0x0f], 0).unwrap();
    assert_eq!(v.0, -1);
}

#[test]
#[should_panic(expected = "MalformedVarInt")]
fn invalid_varint() {
    // 6 bytes
    VarInt::decode(&[0xff, 0xff, 0xff, 0xff, 0xff, 0xff], 0).unwrap();
}

#[test]
fn varint_written_size() {
    let mut rng = thread_rng();
    let mut buf: Vec<u8> = vec![];

    for _ in 0..100_000 {
        let n: i32 = rng.gen();
        buf.clear();
        VarInt(n).encode_to(&mut buf);
        assert_eq!(buf.len(), VarInt(n).written_size());
    }
    for n in [0, i32::MIN, i32::MAX] {
        buf.clear();
        VarInt(n).encode_to(&mut buf);
        assert_eq!(buf.len(), VarInt(n).written_size());
    }
}

#[test]
fn varint_round_trip() {
    let mut rng = thread_rng();
    let mut buf: Vec<u8> = vec![];

    for i in 0..1_000_003 {
        let n: i32 = match i {
            1_000_000 => 0,
            1_000_001 => i32::MIN,
            1_000_002 => i32::MAX,
            _ => rng.gen(),
        };
        VarInt(n).encode_to(&mut buf);

        assert!(buf.len() <= VARINT_MAX_SIZE);

        let (v, end) = VarInt::decode(&buf, 0).unwrap();
        assert_eq!(n, v.0);
        assert_eq!(end, buf.len());
        buf.clear();
    }
}

#[test]
fn varint_exact_encodings() {
    let mut buf: Vec<u8> = vec![];
    VarInt(0).encode_to(&mut buf);
    assert_eq!(buf, [0x00]);
    buf.clear();
    VarInt(1).encode_to(&mut buf);
    assert_eq!(buf, [0x01]);
    buf.clear();
    VarInt(127).encode_to(&mut buf);
    assert_eq!(buf, [0x7f]);
    buf.clear();
    VarInt(128).encode_to(&mut buf);
    assert_eq!(buf, [0x80, 0x01]);
    buf.clear();
    VarInt(300).encode_to(&mut buf);
    assert_eq!(buf, [0xac, 0x02]);
    buf.clear();
    VarInt(2097151).encode_to(&mut buf);
    assert_eq!(buf, [0xff, 0xff, 0x7f]);
    buf.clear();
    VarInt(-1).encode_to(&mut buf);
    assert_eq!(buf, [0xff, 0xff, 0xff, 0xff, 0x0f]);
    buf.clear();
    VarInt(i32::MIN).encode_to(&mut buf);
    assert_eq!(buf, [0x80, 0x80, 0x80, 0x80, 0x08]);
}

#[test]
fn varint_written_size_boundaries() {
    assert_eq!(VarInt(0).written_size(), 1);
    assert_eq!(VarInt(127).written_size(), 1);
    assert_eq!(VarInt(128).written_size(), 2);
    assert_eq!(VarInt(16383).written_size(), 2);
    assert_eq!(VarInt(16384).written_size(), 3);
    assert_eq!(VarInt(2097151).written_size(), 3);
    assert_eq!(VarInt(2097152).written_size(), 4);
    assert_eq!(VarInt(-1).written_size(), 5);
    assert_eq!(VarInt(i32::MIN).written_size(), 5);
    assert_eq!(VarInt(i32::MAX).written_size(), 5);
}

#[test]
fn varint_partial_all_continuation() {
    // Five continuation bytes are malformed.
    assert_eq!(
        VarInt::decode_partial(&[0xff, 0xff, 0xff, 0xff, 0xff]),
        Err(VarDecodeError::TooLarge)
    );
    // Fewer, with the continuation bit still set on the last byte seen,
    // are merely incomplete.
    for k in 0..5 {
        let buf = vec![0xffu8; k];
        assert_eq!(VarInt::decode_partial(&buf), Err(VarDecodeError::Incomplete));
    }
}

#[test]
fn varint_partial_value() {
    // A complete value parses and reports its size, ignoring surplus.
    assert_eq!(VarInt::decode_partial(&[0xac, 0x02, 0x55, 0x66]), Ok((300, 2)));
    assert_eq!(VarInt::decode_partial(&[0x00]), Ok((0, 1)));
}

#[test]
fn varint_decode_non_canonical() {
    // A non-minimal encoding still decodes; only canonical bytes are
    // ever produced.
    let (v, end) = VarInt::decode(&[0x80, 0x00], 0).unwrap();
    assert_eq!(v.0, 0);
    assert_eq!(end, 2);
}

#[test]
fn varint_decode_truncated() {
    assert_eq!(
        VarInt::decode(&[0x80], 0),
        Err::<(VarInt, usize), _>(CodecError::TruncatedField)
    );
}
