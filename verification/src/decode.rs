//! The frame decoder: a stateful incremental reassembler. Bytes arrive
//! in arbitrary chunks, are decrypted on entry once encryption is on,
//! and one complete length-prefixed frame at a time is extracted,
//! decompressed when compression is on, and handed out as a raw frame.

use crate::cipher::cfb8_plain_of;
use crate::cipher::dec_consumed;
use crate::cipher::dec_key;
use crate::cipher::decrypt_slice;
use crate::cipher::DecryptCipher;
use crate::deflate::inflate_of;
use crate::deflate::zlib_decompress;
use crate::error::CodecError;
use crate::error::VarDecodeError;
use crate::packet_frame::PacketFrame;
use crate::types::codec::Decode;
use crate::var_int::spec_varint_bytes;
use crate::var_int::spec_varint_decode;
use crate::var_int::spec_varint_len;
use crate::var_int::spec_varint_partial;
use crate::var_int::VarInt;
use crate::var_int::VarIntOutcome;
use crate::CompressionThreshold;
use crate::MAX_PACKET_SIZE;
use vstd::prelude::*;

verus! {

/// The outcome one frame-extraction attempt must have on the buffered
/// plaintext.
pub enum FrameStep {
    /// No complete frame is buffered yet; nothing is consumed and the
    /// caller should queue more bytes before asking again.
    NeedMore,
    /// The stream is wedged. Nothing is consumed, except that a complete
    /// frame whose leading packet ID is malformed is dropped whole.
    Fail { err: CodecError, used: int },
    /// One complete frame: its ID, its body, and the bytes consumed.
    Got { id: i32, body: Seq<u8>, used: int },
}

/// The body a frame's payload stands for under the given threshold: the
/// payload itself when compression is off; otherwise an inner VarInt
/// declared length is read first, zero declaring a raw body (which must
/// not exceed the threshold) and a positive value declaring a deflated
/// body of exactly that length (which must exceed the threshold).
pub open spec fn spec_frame_body(payload: Seq<u8>, threshold: int) -> Result<Seq<u8>, CodecError> {
    if threshold < 0 {
        Ok(payload)
    } else {
        match spec_varint_decode(payload) {
            Err(e) => Err(e),
            Ok((w, n)) => {
                let data_len = w as i32;
                if data_len < 0 || data_len >= MAX_PACKET_SIZE {
                    Err(CodecError::LengthOutOfBounds)
                } else if data_len > 0 {
                    if data_len <= threshold {
                        Err(CodecError::CompressionInvariantViolation)
                    } else {
                        match inflate_of(payload.skip(n)) {
                            Some(p) => if p.len() == data_len {
                                Ok(p)
                            } else {
                                Err(CodecError::CompressionInvariantViolation)
                            },
                            None => Err(CodecError::CompressionInvariantViolation),
                        }
                    }
                } else {
                    if payload.len() - n > threshold {
                        Err(CodecError::CompressionInvariantViolation)
                    } else {
                        Ok(payload.skip(n))
                    }
                }
            },
        }
    }
}

/// What one extraction attempt on the buffered bytes `input` must yield
/// under the given threshold.
pub open spec fn spec_next_frame(input: Seq<u8>, threshold: int) -> FrameStep {
    match spec_varint_partial(input) {
        VarIntOutcome::Incomplete => FrameStep::NeedMore,
        VarIntOutcome::TooLarge => FrameStep::Fail { err: CodecError::MalformedVarInt, used: 0 },
        VarIntOutcome::Value { w, len } => {
            let packet_len = w as i32;
            if packet_len < 0 || packet_len > MAX_PACKET_SIZE {
                FrameStep::Fail { err: CodecError::LengthOutOfBounds, used: 0 }
            } else if input.len() - len < packet_len {
                FrameStep::NeedMore
            } else {
                let payload = input.subrange(len, len + packet_len);
                match spec_frame_body(payload, threshold) {
                    Err(e) => FrameStep::Fail { err: e, used: 0 },
                    Ok(b) => match spec_varint_decode(b) {
                        Err(e) => FrameStep::Fail { err: e, used: len + packet_len },
                        Ok((wid, m)) => FrameStep::Got {
                            id: wid as i32,
                            body: b.skip(m),
                            used: len + packet_len,
                        },
                    },
                }
            }
        },
    }
}

/// How one extraction attempt relates the result and the buffer after
/// the call to the buffer before it.
pub open spec fn spec_step_taken(
    pre: Seq<u8>,
    threshold: int,
    r: Result<Option<PacketFrame>, CodecError>,
    post: Seq<u8>,
) -> bool {
    match spec_next_frame(pre, threshold) {
        FrameStep::NeedMore => r is Ok && r->Ok_0 is None && post == pre,
        FrameStep::Fail { err, used } => r is Err && r->Err_0 == err && post == pre.skip(used),
        FrameStep::Got { id, body, used } => r is Ok && r->Ok_0 is Some && r->Ok_0->Some_0.id
            == id && r->Ok_0->Some_0.body@ == body && post == pre.skip(used),
    }
}

/// A frame the encoder builds is decoded back whole, whatever bytes
/// follow it in the stream: the extraction yields exactly the packet's
/// ID and body and consumes exactly the frame. For a body large enough
/// to be compressed, the statement is relative to the deflate/inflate
/// round trip, which every compressing call provides of its output.
pub proof fn lemma_frame_round_trip(body: Seq<u8>, threshold: int, extra: Seq<u8>)
    requires
        body.len() < MAX_PACKET_SIZE as int,
        crate::encode::spec_frame_bytes(body, threshold) is Ok,
        spec_varint_decode(body) is Ok,
        threshold >= 0 && body.len() > threshold ==> inflate_of(crate::deflate::deflate_of(body))
            == Some(body),
    ensures
        ({
            let f = crate::encode::spec_frame_bytes(body, threshold)->Ok_0;
            let wid = spec_varint_decode(body)->Ok_0.0;
            let m = spec_varint_decode(body)->Ok_0.1;
            spec_next_frame(f + extra, threshold) == (FrameStep::Got {
                id: wid as i32,
                body: body.skip(m),
                used: f.len() as int,
            })
        }),
{
    let f = crate::encode::spec_frame_bytes(body, threshold)->Ok_0;
    let input = f + extra;
    if threshold >= 0 {
        if body.len() > threshold {
            let comp = crate::deflate::deflate_of(body);
            let blen = spec_varint_len(body.len() as u32);
            crate::var_int::lemma_varint_bytes_len(body.len() as u32);
            let plen = blen + comp.len();
            let tail = spec_varint_bytes(body.len() as u32) + comp;
            let n = spec_varint_len(plen as u32);
            crate::var_int::lemma_varint_bytes_len(plen as u32);
            assert(input =~= spec_varint_bytes(plen as u32) + (tail + extra));
            crate::var_int::lemma_varint_round_trip(plen as u32, tail + extra);
            assert(input.subrange(n, n + plen) =~= tail);
            crate::var_int::lemma_varint_decode_prefix(body.len() as u32, comp);
            assert(tail.skip(blen) =~= comp);
        } else {
            let plen = 1 + body.len();
            let tail = seq![0u8] + body;
            let n = spec_varint_len(plen as u32);
            crate::var_int::lemma_varint_bytes_len(plen as u32);
            assert(input =~= spec_varint_bytes(plen as u32) + (tail + extra));
            crate::var_int::lemma_varint_round_trip(plen as u32, tail + extra);
            assert(input.subrange(n, n + plen) =~= tail);
            assert(seq![0u8] =~= spec_varint_bytes(0u32));
            crate::var_int::lemma_varint_decode_prefix(0u32, body);
            assert(tail =~= spec_varint_bytes(0u32) + body);
            assert(tail.skip(1) =~= body);
        }
    } else {
        let n = spec_varint_len(body.len() as u32);
        crate::var_int::lemma_varint_bytes_len(body.len() as u32);
        assert(input =~= spec_varint_bytes(body.len() as u32) + (body + extra));
        crate::var_int::lemma_varint_round_trip(body.len() as u32, body + extra);
        assert(input.subrange(n, n + body.len() as int) =~= body);
    }
}

/// Fewer buffered bytes than a whole frame never yield a frame: every
/// proper prefix of a built frame leaves the decoder waiting for more,
/// consuming nothing.
pub proof fn lemma_frame_partial(body: Seq<u8>, threshold: int, k: int)
    requires
        body.len() < MAX_PACKET_SIZE as int,
        crate::encode::spec_frame_bytes(body, threshold) is Ok,
        0 <= k < crate::encode::spec_frame_bytes(body, threshold)->Ok_0.len(),
    ensures
        spec_next_frame(
            crate::encode::spec_frame_bytes(body, threshold)->Ok_0.take(k),
            threshold,
        ) == FrameStep::NeedMore,
{
    let f = crate::encode::spec_frame_bytes(body, threshold)->Ok_0;
    if threshold >= 0 {
        if body.len() > threshold {
            let comp = crate::deflate::deflate_of(body);
            let tail = spec_varint_bytes(body.len() as u32) + comp;
            let plen = spec_varint_len(body.len() as u32) + comp.len();
            crate::var_int::lemma_varint_bytes_len(body.len() as u32);
            crate::var_int::lemma_varint_bytes_len(plen as u32);
            assert(f =~= spec_varint_bytes(plen as u32) + tail);
            assert(f.take(k) =~= (spec_varint_bytes(plen as u32) + tail).take(k));
            crate::var_int::lemma_varint_partial_take(plen as u32, tail, k);
        } else {
            let tail = seq![0u8] + body;
            let plen = 1 + body.len();
            crate::var_int::lemma_varint_bytes_len(plen as u32);
            assert(f =~= spec_varint_bytes(plen as u32) + tail);
            assert(f.take(k) =~= (spec_varint_bytes(plen as u32) + tail).take(k));
            crate::var_int::lemma_varint_partial_take(plen as u32, tail, k);
        }
    } else {
        crate::var_int::lemma_varint_bytes_len(body.len() as u32);
        assert(f =~= spec_varint_bytes(body.len() as u32) + body);
        assert(f.take(k) =~= (spec_varint_bytes(body.len() as u32) + body).take(k));
        crate::var_int::lemma_varint_partial_take(body.len() as u32, body, k);
    }
}

/// Reads the frame body out of one complete frame payload; only called
/// with compression on.
fn decompress_body(payload: &[u8], threshold: i32) -> (r: Result<Vec<u8>, CodecError>)
    requires
        threshold >= 0,
    ensures
        match r {
            Ok(b) => spec_frame_body(payload@, threshold as int) == Ok::<Seq<u8>, CodecError>(b@),
            Err(e) => spec_frame_body(payload@, threshold as int) == Err::<Seq<u8>, CodecError>(
                e,
            ),
        },
{
    proof {
        assert(payload@.skip(0) =~= payload@);
    }
    let (v, n) = match <VarInt as Decode>::decode(payload, 0) {
        Ok(p) => p,
        Err(e) => {
            return Err(e);
        },
    };
    let data_len = v.0;
    if data_len < 0 || data_len >= MAX_PACKET_SIZE {
        return Err(CodecError::LengthOutOfBounds);
    }
    let rest = vstd::slice::slice_subrange(payload, n, payload.len());
    proof {
        assert(rest@ =~= payload@.skip(n as int));
    }
    if data_len > 0 {
        if data_len <= threshold {
            return Err(CodecError::CompressionInvariantViolation);
        }
        match zlib_decompress(rest, data_len as usize) {
            Ok((b, left)) => {
                if left == 0 {
                    Ok(b)
                } else {
                    Err(CodecError::CompressionInvariantViolation)
                }
            },
            Err(_) => Err(CodecError::CompressionInvariantViolation),
        }
    } else {
        if rest.len() > threshold as usize {
            return Err(CodecError::CompressionInvariantViolation);
        }
        Ok(vstd::slice::slice_to_vec(rest))
    }
}

/// The stateful frame decoder for one connection's inbound stream.
pub struct PacketDecoder {
    buf: Vec<u8>,
    threshold: CompressionThreshold,
    cipher: Option<DecryptCipher>,
}

impl PacketDecoder {
    /// The decrypted bytes queued and not yet consumed by a frame.
    pub closed spec fn contents(&self) -> Seq<u8> {
        self.buf@
    }

    /// The configured compression threshold.
    pub closed spec fn threshold(&self) -> int {
        self.threshold.0 as int
    }

    /// Whether encryption has been enabled.
    pub closed spec fn cipher_on(&self) -> bool {
        self.cipher is Some
    }

    /// The key encryption was enabled with.
    pub closed spec fn cipher_key(&self) -> Seq<u8> {
        match self.cipher {
            Some(c) => dec_key(c),
            None => Seq::empty(),
        }
    }

    /// Every ciphertext byte decrypted since encryption was enabled.
    pub closed spec fn cipher_stream(&self) -> Seq<u8> {
        match self.cipher {
            Some(c) => dec_consumed(c),
            None => Seq::empty(),
        }
    }

    /// A fresh decoder: nothing queued, compression off, encryption off.
    pub fn new() -> (r: Self)
        ensures
            r.contents() == Seq::<u8>::empty(),
            r.threshold() == -1,
            !r.cipher_on(),
    {
        PacketDecoder {
            buf: Vec::new(),
            threshold: CompressionThreshold(-1),
            cipher: None,
        }
    }

    /// The configured compression threshold.
    pub fn compression(&self) -> (r: CompressionThreshold)
        ensures
            r.0 as int == self.threshold(),
    {
        self.threshold
    }

    /// Reconfigures the compression threshold.
    pub fn set_compression(&mut self, threshold: CompressionThreshold)
        ensures
            final(self).threshold() == threshold.0 as int,
            final(self).contents() == old(self).contents(),
            final(self).cipher_on() == old(self).cipher_on(),
            final(self).cipher_key() == old(self).cipher_key(),
            final(self).cipher_stream() == old(self).cipher_stream(),
    {
        self.threshold = threshold;
    }

    /// Queues transport bytes at the end of the buffer, decrypting them
    /// first when encryption is on.
    pub fn queue_slice(&mut self, bytes: &[u8])
        ensures
            final(self).threshold() == old(self).threshold(),
            final(self).cipher_on() == old(self).cipher_on(),
            final(self).cipher_key() == old(self).cipher_key(),
            !old(self).cipher_on() ==> final(self).contents() == old(self).contents() + bytes@
                && final(self).cipher_stream() == old(self).cipher_stream(),
            old(self).cipher_on() ==> final(self).cipher_stream() == old(self).cipher_stream()
                + bytes@ && final(self).contents().len() == old(self).contents().len()
                + bytes@.len() && final(self).contents() == old(self).contents() + cfb8_plain_of(
                old(self).cipher_key(),
                old(self).cipher_stream() + bytes@,
            ).skip(cfb8_plain_of(old(self).cipher_key(), old(self).cipher_stream()).len() as int),
    {
        match &mut self.cipher {
            Some(c) => {
                let ghost k = dec_key(*c);
                let ghost h = dec_consumed(*c);
                let mut p = decrypt_slice(c, bytes);
                proof {
                    assert((cfb8_plain_of(k, h) + p@).skip(cfb8_plain_of(k, h).len() as int)
                        =~= p@);
                }
                self.buf.append(&mut p);
            },
            None => {
                self.buf.extend_from_slice(bytes);
            },
        }
    }

    /// Queues an owned buffer of transport bytes, decrypting them first
    /// when encryption is on.
    pub fn queue_bytes(&mut self, bytes: Vec<u8>)
        ensures
            final(self).threshold() == old(self).threshold(),
            final(self).cipher_on() == old(self).cipher_on(),
            final(self).cipher_key() == old(self).cipher_key(),
            !old(self).cipher_on() ==> final(self).contents() == old(self).contents() + bytes@
                && final(self).cipher_stream() == old(self).cipher_stream(),
            old(self).cipher_on() ==> final(self).cipher_stream() == old(self).cipher_stream()
                + bytes@ && final(self).contents().len() == old(self).contents().len()
                + bytes@.len() && final(self).contents() == old(self).contents() + cfb8_plain_of(
                old(self).cipher_key(),
                old(self).cipher_stream() + bytes@,
            ).skip(cfb8_plain_of(old(self).cipher_key(), old(self).cipher_stream()).len() as int),
    {
        self.queue_slice(bytes.as_slice());
    }

    /// Grows the buffer's capacity for at least `additional` more bytes.
    pub fn reserve(&mut self, additional: usize)
        ensures
            final(self).contents() == old(self).contents(),
            final(self).threshold() == old(self).threshold(),
            final(self).cipher_on() == old(self).cipher_on(),
            final(self).cipher_key() == old(self).cipher_key(),
            final(self).cipher_stream() == old(self).cipher_stream(),
    {
        self.buf.reserve(additional);
    }

    /// Enables encryption with the given key, retroactively decrypting
    /// whatever already sits unconsumed in the buffer: once on,
    /// encryption covers the whole stream. Fails if already enabled.
    pub fn enable_encryption(&mut self, key: &[u8; 16]) -> (r: Result<(), CodecError>)
        ensures
            final(self).threshold() == old(self).threshold(),
            match r {
                Ok(()) => !old(self).cipher_on() && final(self).cipher_on() && final(self).cipher_key() == key@ && final(self).cipher_stream() == old(self).contents()
                    && final(self).contents() == cfb8_plain_of(key@, old(self).contents())
                    && final(self).contents().len() == old(self).contents().len(),
                Err(e) => old(self).cipher_on() && e == CodecError::EncryptionAlreadyEnabled
                    && final(self).contents() == old(self).contents() && final(self).cipher_on()
                    && final(self).cipher_key() == old(self).cipher_key() && final(self).cipher_stream() == old(self).cipher_stream(),
            },
    {
        if self.cipher.is_some() {
            return Err(CodecError::EncryptionAlreadyEnabled);
        }
        let mut c = DecryptCipher::new(key);
        let mut data: Vec<u8> = Vec::new();
        core::mem::swap(&mut data, &mut self.buf);
        let mut p = decrypt_slice(&mut c, data.as_slice());
        proof {
            assert(Seq::<u8>::empty() + data@ =~= data@);
            assert(Seq::<u8>::empty() + p@ =~= p@);
        }
        core::mem::swap(&mut p, &mut self.buf);
        self.cipher = Some(c);
        Ok(())
    }

    /// Attempts to extract exactly one complete frame from the buffer.
    /// Returns the frame, or nothing when more transport bytes are
    /// needed, or the error that wedges the stream.
    pub fn try_next_packet(&mut self) -> (r: Result<Option<PacketFrame>, CodecError>)
        ensures
            final(self).threshold() == old(self).threshold(),
            final(self).cipher_on() == old(self).cipher_on(),
            final(self).cipher_key() == old(self).cipher_key(),
            final(self).cipher_stream() == old(self).cipher_stream(),
            spec_step_taken(
                old(self).contents(),
                old(self).threshold(),
                r,
                final(self).contents(),
            ),
    {
        proof {
            assert(self.buf@.skip(0) =~= self.buf@);
        }
        let (packet_len_i, prefix_len) = match VarInt::decode_partial(self.buf.as_slice()) {
            Ok(p) => p,
            Err(VarDecodeError::Incomplete) => {
                return Ok(None);
            },
            Err(VarDecodeError::TooLarge) => {
                return Err(CodecError::MalformedVarInt);
            },
        };
        proof {
            assert((packet_len_i as u32) as i32 == packet_len_i) by (bit_vector);
        }
        if packet_len_i < 0 || packet_len_i > MAX_PACKET_SIZE {
            proof {
                assert(self.buf@.skip(0) =~= self.buf@);
            }
            return Err(CodecError::LengthOutOfBounds);
        }
        let packet_len = packet_len_i as usize;
        if self.buf.len() - prefix_len < packet_len {
            return Ok(None);
        }
        let used = prefix_len + packet_len;
        let payload = vstd::slice::slice_subrange(self.buf.as_slice(), prefix_len, used);
        let body: Vec<u8> = if self.threshold.0 >= 0 {
            match decompress_body(payload, self.threshold.0) {
                Ok(b) => b,
                Err(e) => {
                    proof {
                        assert(self.buf@.skip(0) =~= self.buf@);
                    }
                    return Err(e);
                },
            }
        } else {
            vstd::slice::slice_to_vec(payload)
        };
        proof {
            assert(body@.skip(0) =~= body@);
        }
        match <VarInt as Decode>::decode(body.as_slice(), 0) {
            Err(e) => {
                let tail = self.buf.split_off(used);
                self.buf = tail;
                Err(e)
            },
            Ok((vid, m)) => {
                let frame_body = vstd::slice::slice_to_vec(
                    vstd::slice::slice_subrange(body.as_slice(), m, body.len()),
                );
                proof {
                    assert(frame_body@ =~= body@.skip(m as int));
                }
                let tail = self.buf.split_off(used);
                self.buf = tail;
                Ok(Some(PacketFrame { id: vid.0, body: frame_body }))
            },
        }
    }
}

impl Default for PacketDecoder {
    /// The same fresh state as `new`.
    fn default() -> (r: Self)
        ensures
            r.contents() == Seq::<u8>::empty(),
            r.threshold() == -1,
            !r.cipher_on(),
    {
        PacketDecoder::new()
    }
}

} // verus!
