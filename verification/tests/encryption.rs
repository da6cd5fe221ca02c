//! The stream cipher across the whole pipeline: encrypting on take,
//! decrypting on queue, the retroactive decryption of already-buffered
//! bytes, and the double-enable guard.

use protocol::{CodecError, PacketDecoder, PacketEncoder, QueryPingC2s};

const KEY: [u8; 16] = [
    0x00, 0x01, 0x02, 0x03, 0x04, 0x05, 0x06, 0x07, 0x08, 0x09, 0x0a, 0x0b, 0x0c, 0x0d, 0x0e,
    0x0f,
];

#[test]
fn encrypt_decrypt_round_trip() {
    let mut enc = PacketEncoder::new();
    enc.enable_encryption(&KEY).unwrap();
    enc.append_packet(&QueryPingC2s { payload: 0xdeadbeef }).unwrap();
    let cipher_bytes = enc.take();

    // The stream really is transformed.
    let mut plain_enc = PacketEncoder::new();
    plain_enc.append_packet(&QueryPingC2s { payload: 0xdeadbeef }).unwrap();
    let plain_bytes = plain_enc.take();
    assert_eq!(cipher_bytes.len(), plain_bytes.len());
    assert_ne!(cipher_bytes, plain_bytes);

    let mut dec = PacketDecoder::new();
    dec.enable_encryption(&KEY).unwrap();
    dec.queue_bytes(cipher_bytes);
    let frame = dec.try_next_packet().unwrap().unwrap();
    assert_eq!(frame.decode::<QueryPingC2s>().unwrap().payload, 0xdeadbeef);
}

#[test]
fn encryption_spans_takes_and_chunks() {
    // Two takes on the encoder continue one keystream; the decoder sees
    // the bytes in odd-sized chunks and still recovers both frames.
    let mut enc = PacketEncoder::new();
    enc.enable_encryption(&KEY).unwrap();
    enc.append_packet(&QueryPingC2s { payload: 1 }).unwrap();
    let mut stream = enc.take();
    enc.append_packet(&QueryPingC2s { payload: 2 }).unwrap();
    stream.extend_from_slice(&enc.take());

    let mut dec = PacketDecoder::new();
    dec.enable_encryption(&KEY).unwrap();
    for chunk in stream.chunks(3) {
        dec.queue_slice(chunk);
    }
    assert_eq!(
        dec.try_next_packet().unwrap().unwrap().decode::<QueryPingC2s>().unwrap().payload,
        1
    );
    assert_eq!(
        dec.try_next_packet().unwrap().unwrap().decode::<QueryPingC2s>().unwrap().payload,
        2
    );
    assert!(dec.try_next_packet().unwrap().is_none());
}

#[test]
fn retroactive_decrypt_of_buffered_bytes() {
    // Ciphertext that was queued before the key arrived is decrypted
    // the moment encryption turns on.
    let mut enc = PacketEncoder::new();
    enc.enable_encryption(&KEY).unwrap();
    enc.append_packet(&QueryPingC2s { payload: 77 }).unwrap();
    let cipher_bytes = enc.take();

    let mut dec = PacketDecoder::new();
    dec.queue_slice(&cipher_bytes);
    dec.enable_encryption(&KEY).unwrap();
    let frame = dec.try_next_packet().unwrap().unwrap();
    assert_eq!(frame.decode::<QueryPingC2s>().unwrap().payload, 77);
}

#[test]
fn encryption_covers_bytes_not_yet_taken() {
    // Bytes buffered before the encoder's key arrives are still
    // encrypted when they are finally taken.
    let mut enc = PacketEncoder::new();
    enc.append_packet(&QueryPingC2s { payload: 5 }).unwrap();
    enc.enable_encryption(&KEY).unwrap();
    let cipher_bytes = enc.take();

    let mut dec = PacketDecoder::new();
    dec.enable_encryption(&KEY).unwrap();
    dec.queue_bytes(cipher_bytes);
    let frame = dec.try_next_packet().unwrap().unwrap();
    assert_eq!(frame.decode::<QueryPingC2s>().unwrap().payload, 5);
}

#[test]
fn enable_encryption_twice_fails() {
    let mut enc = PacketEncoder::new();
    enc.enable_encryption(&KEY).unwrap();
    assert_eq!(
        enc.enable_encryption(&KEY).unwrap_err(),
        CodecError::EncryptionAlreadyEnabled
    );

    let mut dec = PacketDecoder::new();
    dec.enable_encryption(&KEY).unwrap();
    assert_eq!(
        dec.enable_encryption(&KEY).unwrap_err(),
        CodecError::EncryptionAlreadyEnabled
    );
}

#[test]
fn encryption_with_compression() {
    let mut enc = PacketEncoder::new();
    enc.set_compression(protocol::CompressionThreshold(4));
    enc.enable_encryption(&KEY).unwrap();
    enc.append_packet(&QueryPingC2s { payload: u64::MAX }).unwrap();
    let bytes = enc.take();

    let mut dec = PacketDecoder::new();
    dec.set_compression(protocol::CompressionThreshold(4));
    dec.enable_encryption(&KEY).unwrap();
    dec.queue_bytes(bytes);
    let frame = dec.try_next_packet().unwrap().unwrap();
    assert_eq!(frame.decode::<QueryPingC2s>().unwrap().payload, u64::MAX);
}
