//! The frame encoder: a stateful accumulator. Each appended packet is
//! serialized as its ID and body, framed with a VarInt length prefix,
//! compressed when compression is on and the body is large enough, and
//! the accumulated bytes are encrypted as one stream when they are taken.

use crate::cipher::cfb8_plain_of;
use crate::cipher::enc_emitted;
use crate::cipher::enc_key;
use crate::cipher::encrypt_slice;
use crate::cipher::EncryptCipher;
use crate::deflate::deflate_of;
use crate::deflate::zlib_compress;
use crate::error::CodecError;
use crate::types::codec::Encode;
use crate::types::packet::encode_with_id;
use crate::types::packet::spec_packet_bytes;
use crate::types::packet::Packet;
use crate::var_int::spec_varint_bytes;
use crate::var_int::spec_varint_len;
use crate::var_int::VarInt;
use crate::CompressionThreshold;
use crate::MAX_PACKET_SIZE;
use vstd::prelude::*;

verus! {

/// The wire frame for one packet whose ID-and-body bytes are `body`,
/// under the given compression threshold: a VarInt length prefix, then
/// with compression on an inner VarInt declared length (zero for a body
/// sent raw, the uncompressed length for a deflated one), then the
/// payload. A frame that would exceed the maximum packet size is refused.
pub open spec fn spec_frame_bytes(body: Seq<u8>, threshold: int) -> Result<Seq<u8>, CodecError> {
    if threshold >= 0 {
        if body.len() > threshold {
            if body.len() > MAX_PACKET_SIZE as int {
                Err(CodecError::OversizedPacket)
            } else {
                let comp = deflate_of(body);
                let packet_len = spec_varint_len(body.len() as u32) + comp.len();
                if packet_len > MAX_PACKET_SIZE as int {
                    Err(CodecError::OversizedPacket)
                } else {
                    Ok(
                        spec_varint_bytes(packet_len as u32) + spec_varint_bytes(
                            body.len() as u32,
                        ) + comp,
                    )
                }
            }
        } else {
            let packet_len = 1 + body.len();
            if packet_len > MAX_PACKET_SIZE as int {
                Err(CodecError::OversizedPacket)
            } else {
                Ok(spec_varint_bytes(packet_len as u32) + seq![0u8] + body)
            }
        }
    } else {
        if body.len() > MAX_PACKET_SIZE as int {
            Err(CodecError::OversizedPacket)
        } else {
            Ok(spec_varint_bytes(body.len() as u32) + body)
        }
    }
}

/// The threshold boundary, exactly as the decoder checks it: a body at
/// a non-negative threshold is framed raw behind an inner declared
/// length of zero, while a body one byte longer is deflated behind its
/// declared uncompressed length.
pub proof fn lemma_compression_boundary(body: Seq<u8>, threshold: int)
    requires
        0 <= threshold,
        1 + threshold <= MAX_PACKET_SIZE as int,
    ensures
        body.len() == threshold ==> spec_frame_bytes(body, threshold) == Ok::<Seq<u8>, CodecError>(
            spec_varint_bytes((1 + body.len()) as u32) + seq![0u8] + body,
        ),
        body.len() == threshold + 1 ==> ({
            let comp = deflate_of(body);
            let plen = spec_varint_len(body.len() as u32) + comp.len();
            plen <= MAX_PACKET_SIZE as int ==> spec_frame_bytes(body, threshold) == Ok::<
                Seq<u8>,
                CodecError,
            >(spec_varint_bytes(plen as u32) + spec_varint_bytes(body.len() as u32) + comp)
        }),
{
}

/// The wire frame for one typed packet under the given threshold, or the
/// error that refuses it: an oversized bounded field, or a frame over the
/// maximum packet size.
pub open spec fn spec_packet_frame<P: Packet + Encode>(pkt: &P, threshold: int) -> Result<
    Seq<u8>,
    CodecError,
> {
    if !pkt.wire_ok() {
        Err(CodecError::BoundsExceeded)
    } else {
        spec_frame_bytes(spec_packet_bytes(pkt), threshold)
    }
}

/// The stateful frame encoder for one connection's outbound stream.
pub struct PacketEncoder {
    buf: Vec<u8>,
    threshold: CompressionThreshold,
    cipher: Option<EncryptCipher>,
}

impl PacketEncoder {
    /// The bytes accumulated and not yet taken, before encryption.
    pub closed spec fn contents(&self) -> Seq<u8> {
        self.buf@
    }

    /// The configured compression threshold.
    pub closed spec fn threshold(&self) -> int {
        self.threshold.0 as int
    }

    /// Whether encryption has been enabled.
    pub closed spec fn cipher_on(&self) -> bool {
        self.cipher is Some
    }

    /// The key encryption was enabled with.
    pub closed spec fn cipher_key(&self) -> Seq<u8> {
        match self.cipher {
            Some(c) => enc_key(c),
            None => Seq::empty(),
        }
    }

    /// The ciphertext emitted by every take since encryption was enabled.
    pub closed spec fn cipher_stream(&self) -> Seq<u8> {
        match self.cipher {
            Some(c) => enc_emitted(c),
            None => Seq::empty(),
        }
    }

    /// A fresh encoder: nothing buffered, compression off, encryption
    /// off.
    pub fn new() -> (r: Self)
        ensures
            r.contents() == Seq::<u8>::empty(),
            r.threshold() == -1,
            !r.cipher_on(),
    {
        PacketEncoder {
            buf: Vec::new(),
            threshold: CompressionThreshold(-1),
            cipher: None,
        }
    }

    /// Copies raw bytes to the end of the buffer, as they are.
    pub fn append_bytes(&mut self, bytes: &[u8])
        ensures
            final(self).contents() == old(self).contents() + bytes@,
            final(self).threshold() == old(self).threshold(),
            final(self).cipher_on() == old(self).cipher_on(),
            final(self).cipher_key() == old(self).cipher_key(),
            final(self).cipher_stream() == old(self).cipher_stream(),
    {
        self.buf.extend_from_slice(bytes);
    }

    /// Builds the complete wire frame for one already-serialized packet
    /// body, compressing it when the threshold asks for it.
    fn frame_packet(threshold: i32, body: Vec<u8>) -> (r: Result<Vec<u8>, CodecError>)
        ensures
            match r {
                Ok(f) => spec_frame_bytes(body@, threshold as int) == Ok::<Seq<u8>, CodecError>(
                    f@,
                ),
                Err(e) => spec_frame_bytes(body@, threshold as int) == Err::<Seq<u8>, CodecError>(
                    e,
                ),
            },
    {
        let mut out: Vec<u8> = Vec::new();
        if threshold >= 0 {
            if body.len() > threshold as usize {
                if body.len() > MAX_PACKET_SIZE as usize {
                    return Err(CodecError::OversizedPacket);
                }
                let comp = zlib_compress(body.as_slice());
                let data_len_size = VarInt(body.len() as i32).written_size();
                if comp.len() > (MAX_PACKET_SIZE as usize) - data_len_size {
                    return Err(CodecError::OversizedPacket);
                }
                let packet_len = data_len_size + comp.len();
                VarInt(packet_len as i32).encode_to(&mut out);
                VarInt(body.len() as i32).encode_to(&mut out);
                out.extend_from_slice(comp.as_slice());
                assert(out@ =~= spec_frame_bytes(body@, threshold as int)->Ok_0);
                Ok(out)
            } else {
                let packet_len = 1 + body.len();
                if packet_len > MAX_PACKET_SIZE as usize {
                    return Err(CodecError::OversizedPacket);
                }
                VarInt(packet_len as i32).encode_to(&mut out);
                out.push(0u8);
                out.extend_from_slice(body.as_slice());
                assert(out@ =~= spec_frame_bytes(body@, threshold as int)->Ok_0);
                Ok(out)
            }
        } else {
            if body.len() > MAX_PACKET_SIZE as usize {
                return Err(CodecError::OversizedPacket);
            }
            VarInt(body.len() as i32).encode_to(&mut out);
            out.extend_from_slice(body.as_slice());
            assert(out@ =~= spec_frame_bytes(body@, threshold as int)->Ok_0);
            Ok(out)
        }
    }

    /// Serializes the packet and appends its frame after everything
    /// already buffered. On any refusal nothing in the buffer changes.
    pub fn append_packet<P: Packet + Encode>(&mut self, pkt: &P) -> (r: Result<(), CodecError>)
        ensures
            final(self).threshold() == old(self).threshold(),
            final(self).cipher_on() == old(self).cipher_on(),
            final(self).cipher_key() == old(self).cipher_key(),
            final(self).cipher_stream() == old(self).cipher_stream(),
            match r {
                Ok(()) => spec_packet_frame(pkt, old(self).threshold()) is Ok && final(self).contents() == old(self).contents() + spec_packet_frame(
                    pkt,
                    old(self).threshold(),
                )->Ok_0,
                Err(e) => final(self).contents() == old(self).contents() && spec_packet_frame(
                    pkt,
                    old(self).threshold(),
                ) == Err::<Seq<u8>, CodecError>(e),
            },
    {
        let mut body: Vec<u8> = Vec::new();
        match encode_with_id(pkt, &mut body) {
            Ok(()) => {},
            Err(e) => {
                return Err(e);
            },
        }
        match Self::frame_packet(self.threshold.0, body) {
            Ok(mut f) => {
                self.buf.append(&mut f);
                Ok(())
            },
            Err(e) => Err(e),
        }
    }

    /// Serializes the packet and splices its frame before everything
    /// already buffered, preserving the byte order of the queued data.
    /// On any refusal nothing in the buffer changes.
    pub fn prepend_packet<P: Packet + Encode>(&mut self, pkt: &P) -> (r: Result<(), CodecError>)
        ensures
            final(self).threshold() == old(self).threshold(),
            final(self).cipher_on() == old(self).cipher_on(),
            final(self).cipher_key() == old(self).cipher_key(),
            final(self).cipher_stream() == old(self).cipher_stream(),
            match r {
                Ok(()) => spec_packet_frame(pkt, old(self).threshold()) is Ok && final(self).contents() == spec_packet_frame(pkt, old(self).threshold())->Ok_0 + old(self).contents(),
                Err(e) => final(self).contents() == old(self).contents() && spec_packet_frame(
                    pkt,
                    old(self).threshold(),
                ) == Err::<Seq<u8>, CodecError>(e),
            },
    {
        let mut body: Vec<u8> = Vec::new();
        match encode_with_id(pkt, &mut body) {
            Ok(()) => {},
            Err(e) => {
                return Err(e);
            },
        }
        match Self::frame_packet(self.threshold.0, body) {
            Ok(mut f) => {
                f.append(&mut self.buf);
                self.buf = f;
                Ok(())
            },
            Err(e) => Err(e),
        }
    }

    /// Takes ownership of everything accumulated so far, encrypting it in
    /// stream order when encryption is on, and leaves the buffer empty.
    pub fn take(&mut self) -> (r: Vec<u8>)
        ensures
            final(self).contents() == Seq::<u8>::empty(),
            final(self).threshold() == old(self).threshold(),
            final(self).cipher_on() == old(self).cipher_on(),
            final(self).cipher_key() == old(self).cipher_key(),
            !old(self).cipher_on() ==> r@ == old(self).contents() && final(self).cipher_stream()
                == old(self).cipher_stream(),
            old(self).cipher_on() ==> r@.len() == old(self).contents().len() && final(self).cipher_stream() == old(self).cipher_stream() + r@ && cfb8_plain_of(
                old(self).cipher_key(),
                old(self).cipher_stream() + r@,
            ) == cfb8_plain_of(old(self).cipher_key(), old(self).cipher_stream()) + old(self).contents(),
    {
        let mut data: Vec<u8> = Vec::new();
        core::mem::swap(&mut data, &mut self.buf);
        match &mut self.cipher {
            Some(c) => encrypt_slice(c, data.as_slice()),
            None => data,
        }
    }

    /// Discards everything buffered and not yet taken. The cipher stream
    /// position is not touched.
    pub fn clear(&mut self)
        ensures
            final(self).contents() == Seq::<u8>::empty(),
            final(self).threshold() == old(self).threshold(),
            final(self).cipher_on() == old(self).cipher_on(),
            final(self).cipher_key() == old(self).cipher_key(),
            final(self).cipher_stream() == old(self).cipher_stream(),
    {
        self.buf.clear();
    }

    /// Reconfigures the compression threshold.
    pub fn set_compression(&mut self, threshold: CompressionThreshold)
        ensures
            final(self).threshold() == threshold.0 as int,
            final(self).contents() == old(self).contents(),
            final(self).cipher_on() == old(self).cipher_on(),
            final(self).cipher_key() == old(self).cipher_key(),
            final(self).cipher_stream() == old(self).cipher_stream(),
    {
        self.threshold = threshold;
    }

    /// Enables encryption with the given key. All future bytes, and any
    /// already buffered but not yet taken, will be encrypted. Fails if
    /// encryption is already enabled.
    pub fn enable_encryption(&mut self, key: &[u8; 16]) -> (r: Result<(), CodecError>)
        ensures
            final(self).contents() == old(self).contents(),
            final(self).threshold() == old(self).threshold(),
            match r {
                Ok(()) => !old(self).cipher_on() && final(self).cipher_on() && final(self).cipher_key() == key@ && final(self).cipher_stream() == Seq::<u8>::empty(),
                Err(e) => old(self).cipher_on() && e == CodecError::EncryptionAlreadyEnabled
                    && final(self).cipher_on() && final(self).cipher_key() == old(self).cipher_key() && final(self).cipher_stream() == old(self).cipher_stream(),
            },
    {
        if self.cipher.is_some() {
            return Err(CodecError::EncryptionAlreadyEnabled);
        }
        self.cipher = Some(EncryptCipher::new(key));
        Ok(())
    }
}

impl Default for PacketEncoder {
    /// The same fresh state as `new`.
    fn default() -> (r: Self)
        ensures
            r.contents() == Seq::<u8>::empty(),
            r.threshold() == -1,
            !r.cipher_on(),
    {
        PacketEncoder::new()
    }
}

/// Types that can have packets written to them.
pub trait WritePacket {
    /// Writes a packet to this object, discarding any encoding error.
    fn write_packet<P: Packet + Encode>(&mut self, packet: &P) {
        let _ = self.write_packet_fallible(packet);
    }

    /// Writes a packet to this object. The result of encoding the packet
    /// is returned.
    fn write_packet_fallible<P: Packet + Encode>(&mut self, packet: &P) -> Result<(), CodecError>;

    /// Copies raw packet data directly into this object.
    fn write_packet_bytes(&mut self, bytes: &[u8]);
}

impl<W: WritePacket> WritePacket for &mut W {
    fn write_packet_fallible<P: Packet + Encode>(&mut self, packet: &P) -> Result<(), CodecError> {
        (*self).write_packet_fallible(packet)
    }

    fn write_packet_bytes(&mut self, bytes: &[u8]) {
        (*self).write_packet_bytes(bytes)
    }
}

impl WritePacket for PacketEncoder {
    fn write_packet_fallible<P: Packet + Encode>(&mut self, packet: &P) -> Result<(), CodecError> {
        self.append_packet(packet)
    }

    fn write_packet_bytes(&mut self, bytes: &[u8]) {
        self.append_bytes(bytes)
    }
}

} // verus!
