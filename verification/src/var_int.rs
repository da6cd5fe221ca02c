//! Variable-length encoding of signed 32-bit integers: seven payload bits
//! per byte in little-endian group order, with the high bit of each byte
//! set when another byte follows. Every value fits in one to five bytes.

use crate::error::CodecError;
use crate::error::VarDecodeError;
use crate::types::codec::Decode;
use crate::types::codec::Encode;
use vstd::prelude::*;

verus! {

/// The payload bits of one encoded byte.
pub const SEGMENT_MASK: u8 = 0x7f;

/// The high bit of one encoded byte: set when another byte follows.
pub const CONTINUE_BIT: u8 = 0x80;

/// The most bytes a VarInt can occupy on the wire.
pub const VARINT_MAX_SIZE: usize = 5;

/// An `i32` encoded with variable length.
#[derive(Clone, Copy, Debug, Hash, PartialEq, Eq, Structural)]
pub struct VarInt(pub i32);

/// The canonical base-128 encoding of a 32-bit word, least significant
/// group first; every byte but the last carries the continuation bit.
pub open spec fn spec_varint_bytes(w: u32) -> Seq<u8>
    decreases w,
{
    if w < 128 {
        seq![w as u8]
    } else {
        seq![((w % 128) + 128) as u8] + spec_varint_bytes((w / 128) as u32)
    }
}

/// The number of bytes `spec_varint_bytes` produces.
pub open spec fn spec_varint_len(w: u32) -> int
    decreases w,
{
    if w < 128 {
        1
    } else {
        1 + spec_varint_len((w / 128) as u32)
    }
}

/// What a partial VarInt parse of a byte stream can yield.
pub enum VarIntOutcome {
    /// The bytes ran out with the continuation bit still set.
    Incomplete,
    /// The allowed number of bytes was consumed with the continuation bit
    /// still set.
    TooLarge,
    /// A complete value: the decoded 32-bit word and the bytes consumed.
    Value { w: u32, len: int },
}

/// One leading byte joined with the value of the bytes after it: seven
/// low-order payload bits, then the rest scaled up, truncated to 32 bits.
pub open spec fn spec_varint_combine(b: u8, w: u32) -> u32 {
    ((((b as int) % 128) + 128 * (w as int)) % 0x100000000) as u32
}

/// A partial parse that may consume at most `depth` further bytes.
pub open spec fn spec_varint_partial_depth(s: Seq<u8>, depth: int) -> VarIntOutcome
    decreases depth,
{
    if depth <= 0 {
        VarIntOutcome::TooLarge
    } else if s.len() == 0 {
        VarIntOutcome::Incomplete
    } else if s[0] < 128 {
        VarIntOutcome::Value { w: s[0] as u32, len: 1 }
    } else {
        match spec_varint_partial_depth(s.skip(1), depth - 1) {
            VarIntOutcome::Value { w, len } => VarIntOutcome::Value {
                w: spec_varint_combine(s[0], w),
                len: len + 1,
            },
            o => o,
        }
    }
}

/// A partial VarInt parse of the front of a byte stream: at most five
/// bytes are examined.
pub open spec fn spec_varint_partial(s: Seq<u8>) -> VarIntOutcome {
    spec_varint_partial_depth(s, 5)
}

/// A whole-input VarInt parse, with a truncated stream reported as a
/// field error rather than as something to wait for.
pub open spec fn spec_varint_decode(s: Seq<u8>) -> Result<(u32, int), CodecError> {
    match spec_varint_partial(s) {
        VarIntOutcome::Incomplete => Err(CodecError::TruncatedField),
        VarIntOutcome::TooLarge => Err(CodecError::MalformedVarInt),
        VarIntOutcome::Value { w, len } => Ok((w, len)),
    }
}

/// The exact byte count of each encoding, by the value's range.
pub proof fn lemma_varint_len_ranges(w: u32)
    ensures
        w < 0x80 ==> spec_varint_len(w) == 1,
        0x80 <= w < 0x4000 ==> spec_varint_len(w) == 2,
        0x4000 <= w < 0x200000 ==> spec_varint_len(w) == 3,
        0x200000 <= w < 0x10000000 ==> spec_varint_len(w) == 4,
        0x10000000 <= w ==> spec_varint_len(w) == 5,
        1 <= spec_varint_len(w) <= 5,
    decreases w,
{
    if w >= 128 {
        lemma_varint_len_ranges((w / 128) as u32);
    }
}

/// The encoding is as long as `spec_varint_len` says.
pub proof fn lemma_varint_bytes_len(w: u32)
    ensures
        spec_varint_bytes(w).len() == spec_varint_len(w),
    decreases w,
{
    if w >= 128 {
        lemma_varint_bytes_len((w / 128) as u32);
    }
}

proof fn lemma_varint_round_trip_depth(w: u32, rest: Seq<u8>, depth: int)
    requires
        spec_varint_len(w) <= depth,
    ensures
        spec_varint_partial_depth(spec_varint_bytes(w) + rest, depth) == (VarIntOutcome::Value {
            w,
            len: spec_varint_len(w),
        }),
    decreases w,
{
    let s = spec_varint_bytes(w) + rest;
    if w < 128 {
        assert(s[0] == w as u8);
    } else {
        let q = (w / 128) as u32;
        assert(s[0] == ((w % 128) + 128) as u8);
        assert(s.skip(1) =~= spec_varint_bytes(q) + rest);
        lemma_varint_round_trip_depth(q, rest, depth - 1);
        assert(spec_varint_combine(((w % 128) + 128) as u8, q) == w) by {
            assert((((w % 128) + 128) as u8) as int % 128 == w % 128);
            assert(w % 128 + 128 * (w / 128) == w);
        }
    }
}

/// Decoding an encoding gives back the value and consumes exactly its
/// length, whatever bytes follow it.
pub proof fn lemma_varint_round_trip(w: u32, rest: Seq<u8>)
    ensures
        spec_varint_partial(spec_varint_bytes(w) + rest) == (VarIntOutcome::Value {
            w,
            len: spec_varint_len(w),
        }),
{
    lemma_varint_len_ranges(w);
    lemma_varint_round_trip_depth(w, rest, 5);
}

proof fn lemma_varint_all_continuation_depth(s: Seq<u8>, depth: int)
    requires
        forall|j: int| 0 <= j < s.len() && j < depth ==> s[j] >= 128,
        depth <= 5,
    ensures
        s.len() >= depth ==> spec_varint_partial_depth(s, depth) == VarIntOutcome::TooLarge,
        s.len() < depth ==> spec_varint_partial_depth(s, depth) == VarIntOutcome::Incomplete,
    decreases depth,
{
    if depth > 0 && s.len() > 0 {
        lemma_varint_all_continuation_depth(s.skip(1), depth - 1);
    }
}

/// A stream whose first five bytes all carry the continuation bit is
/// malformed; a shorter stream of such bytes is merely incomplete.
pub proof fn lemma_varint_all_continuation(s: Seq<u8>)
    requires
        forall|j: int| 0 <= j < s.len() && j < 5 ==> s[j] >= 128,
    ensures
        s.len() >= 5 ==> spec_varint_partial(s) == VarIntOutcome::TooLarge,
        s.len() < 5 ==> spec_varint_partial(s) == VarIntOutcome::Incomplete,
{
    lemma_varint_all_continuation_depth(s, 5);
}

/// Every byte of an encoding except the last carries the continuation
/// bit.
pub proof fn lemma_varint_bytes_continuation(w: u32)
    ensures
        forall|j: int|
            0 <= j < spec_varint_len(w) - 1 ==> #[trigger] spec_varint_bytes(w)[j] >= 128,
    decreases w,
{
    lemma_varint_bytes_len(w);
    if w >= 128 {
        let q = (w / 128) as u32;
        lemma_varint_bytes_continuation(q);
        lemma_varint_bytes_len(q);
        assert forall|j: int| 0 <= j < spec_varint_len(w) - 1 implies #[trigger] spec_varint_bytes(
            w,
        )[j] >= 128 by {
            if j > 0 {
                assert(spec_varint_bytes(w)[j] == spec_varint_bytes(q)[j - 1]);
            }
        }
    }
}

/// A truncated encoding is merely incomplete; a whole one parses the
/// same however much of what follows it is visible.
pub proof fn lemma_varint_partial_take(w: u32, rest: Seq<u8>, k: int)
    requires
        0 <= k <= spec_varint_bytes(w).len() + rest.len(),
    ensures
        k < spec_varint_len(w) ==> spec_varint_partial((spec_varint_bytes(w) + rest).take(k))
            == VarIntOutcome::Incomplete,
        k >= spec_varint_len(w) ==> spec_varint_partial((spec_varint_bytes(w) + rest).take(k))
            == (VarIntOutcome::Value { w, len: spec_varint_len(w) }),
{
    lemma_varint_bytes_len(w);
    lemma_varint_len_ranges(w);
    let s = (spec_varint_bytes(w) + rest).take(k);
    if k < spec_varint_len(w) {
        lemma_varint_bytes_continuation(w);
        assert(forall|j: int| 0 <= j < s.len() ==> s[j] == spec_varint_bytes(w)[j]);
        lemma_varint_all_continuation(s);
    } else {
        assert(s =~= spec_varint_bytes(w) + rest.take(k - spec_varint_len(w)));
        lemma_varint_round_trip(w, rest.take(k - spec_varint_len(w)));
    }
}

/// A complete parse consumes between one and five bytes, never more than
/// the stream holds.
pub proof fn lemma_varint_partial_consumed(s: Seq<u8>)
    ensures
        spec_varint_partial(s) matches VarIntOutcome::Value { w, len } ==> 1 <= len <= 5
            && len <= s.len(),
{
    lemma_varint_partial_consumed_depth(s, 5);
}

proof fn lemma_varint_partial_consumed_depth(s: Seq<u8>, depth: int)
    ensures
        spec_varint_partial_depth(s, depth) matches VarIntOutcome::Value { w, len } ==> 1 <= len
            <= depth && len <= s.len(),
    decreases depth,
{
    if depth > 0 && s.len() > 0 && s[0] >= 128 {
        lemma_varint_partial_consumed_depth(s.skip(1), depth - 1);
    }
}

/// A word's encoding decodes back to the word, whatever follows it.
pub proof fn lemma_varint_decode_prefix(w: u32, rest: Seq<u8>)
    ensures
        spec_varint_decode(spec_varint_bytes(w) + rest) == Ok::<(u32, int), CodecError>(
            (w, spec_varint_len(w)),
        ),
        <VarInt as Decode>::spec_decode(spec_varint_bytes(w) + rest) == Ok::<
            (VarInt, int),
            CodecError,
        >((VarInt(w as i32), spec_varint_len(w))),
{
    lemma_varint_round_trip(w, rest);
}

/// Encoding any value and decoding the bytes back gives the value, and
/// the encoding is exactly as long as `written_size` reports, whatever
/// bytes follow it.
pub proof fn lemma_varint_value_round_trip(n: i32, rest: Seq<u8>)
    ensures
        VarInt(n).spec_bytes().len() == spec_varint_len(VarInt(n).word()),
        <VarInt as Decode>::spec_decode(VarInt(n).spec_bytes() + rest) == Ok::<
            (VarInt, int),
            CodecError,
        >((VarInt(n), VarInt(n).spec_bytes().len() as int)),
{
    let w = n as u32;
    lemma_varint_bytes_len(w);
    lemma_varint_round_trip(w, rest);
    assert((n as u32) as i32 == n) by (bit_vector);
}

proof fn lemma_continue_bit(b: u8)
    ensures
        (b & 0x80 == 0) <==> b < 128,
        b & 0x7f == b % 128,
{
    assert((b & 0x80 == 0) <==> b < 128) by (bit_vector);
    assert(b & 0x7f == b % 128) by (bit_vector);
}

proof fn lemma_combine_exec(b: u8, w: u32)
    ensures
        ((b & 0x7f) as u32) | (w << 7u32) == spec_varint_combine(b, w),
{
    assert((((b & 0x7f) as u32) | (w << 7u32)) as u64 == (((b as u64) % 128) + 128 * (w as u64))
        % 0x100000000) by (bit_vector);
}

proof fn lemma_split_exec(x: u32)
    ensures
        ((x & 0x7f) | 0x80) as u64 == (x as u64) % 128 + 128,
        (x >> 7u32) as u64 == (x as u64) / 128,
{
    assert(((x & 0x7f) | 0x80) as u64 == (x as u64) % 128 + 128) by (bit_vector);
    assert((x >> 7u32) as u64 == (x as u64) / 128) by (bit_vector);
}

impl VarInt {
    /// The value of this VarInt reinterpreted as an unsigned 32-bit word,
    /// which is what the encoding works on.
    pub open spec fn word(self) -> u32 {
        self.0 as u32
    }

    /// The canonical wire bytes of this value.
    pub open spec fn spec_bytes(self) -> Seq<u8> {
        spec_varint_bytes(self.word())
    }

    /// The exact number of bytes this value writes when encoded.
    pub fn written_size(self) -> (r: usize)
        ensures
            r == spec_varint_len(self.word()),
            r == self.spec_bytes().len(),
            1 <= r <= 5,
    {
        proof {
            lemma_varint_len_ranges(self.word());
            lemma_varint_bytes_len(self.word());
        }
        let w: u32 = self.0 as u32;
        if w < 0x80 {
            1
        } else if w < 0x4000 {
            2
        } else if w < 0x200000 {
            3
        } else if w < 0x10000000 {
            4
        } else {
            5
        }
    }

    /// Appends the canonical encoding of `x` to `w`.
    fn encode_word(x: u32, out: &mut Vec<u8>)
        ensures
            final(out)@ == old(out)@ + spec_varint_bytes(x),
        decreases x,
    {
        proof {
            lemma_split_exec(x);
        }
        if x < 0x80 {
            out.push(x as u8);
            assert(out@ =~= old(out)@ + spec_varint_bytes(x));
        } else {
            out.push(((x & 0x7f) | 0x80) as u8);
            Self::encode_word(x >> 7u32, out);
            assert(out@ =~= old(out)@ + spec_varint_bytes(x));
        }
    }

    /// Appends this value's encoding to `out`. Encoding a VarInt never
    /// fails.
    pub fn encode_to(self, out: &mut Vec<u8>)
        ensures
            final(out)@ == old(out)@ + self.spec_bytes(),
    {
        Self::encode_word(self.0 as u32, out);
    }

    fn decode_word_partial(r: &[u8], pos: usize, depth: usize) -> (res: Result<
        (u32, usize),
        VarDecodeError,
    >)
        requires
            pos <= r@.len(),
            depth <= 5,
        ensures
            match res {
                Ok((w, n)) => spec_varint_partial_depth(r@.skip(pos as int), depth as int)
                    == (VarIntOutcome::Value { w, len: n as int }) && 1 <= n <= depth && pos + n
                    <= r@.len(),
                Err(VarDecodeError::Incomplete) => spec_varint_partial_depth(
                    r@.skip(pos as int),
                    depth as int,
                ) == VarIntOutcome::Incomplete,
                Err(VarDecodeError::TooLarge) => spec_varint_partial_depth(
                    r@.skip(pos as int),
                    depth as int,
                ) == VarIntOutcome::TooLarge,
            },
        decreases depth,
    {
        if depth == 0 {
            return Err(VarDecodeError::TooLarge);
        }
        if pos >= r.len() {
            return Err(VarDecodeError::Incomplete);
        }
        let b = r[pos];
        proof {
            lemma_continue_bit(b);
            assert(r@.skip(pos as int)[0] == b);
        }
        if b & 0x80 == 0 {
            Ok((b as u32, 1))
        } else {
            proof {
                assert(r@.skip(pos as int).skip(1) =~= r@.skip(pos as int + 1));
            }
            match Self::decode_word_partial(r, pos + 1, depth - 1) {
                Ok((w, n)) => {
                    proof {
                        lemma_combine_exec(b, w);
                    }
                    Ok((((b & 0x7f) as u32) | (w << 7u32), n + 1))
                },
                Err(e) => Err(e),
            }
        }
    }

    /// Attempts to parse a VarInt from the front of `r`, telling a stream
    /// that merely ran out of bytes apart from one that is malformed.
    /// Nothing is consumed either way: on success the consumed byte count
    /// is returned beside the value.
    pub fn decode_partial(r: &[u8]) -> (res: Result<(i32, usize), VarDecodeError>)
        ensures
            match res {
                Ok((v, n)) => spec_varint_partial(r@) == (VarIntOutcome::Value {
                    w: v as u32,
                    len: n as int,
                }) && 1 <= n <= 5 && n <= r@.len(),
                Err(VarDecodeError::Incomplete) => spec_varint_partial(r@)
                    == VarIntOutcome::Incomplete,
                Err(VarDecodeError::TooLarge) => spec_varint_partial(r@)
                    == VarIntOutcome::TooLarge,
            },
    {
        proof {
            assert(r@.skip(0) =~= r@);
        }
        match Self::decode_word_partial(r, 0, 5) {
            Ok((w, n)) => {
                proof {
                    assert((w as i32) as u32 == w) by (bit_vector);
                }
                Ok((w as i32, n))
            },
            Err(e) => Err(e),
        }
    }
}

impl DeepView for VarInt {
    type V = VarInt;

    open spec fn deep_view(&self) -> VarInt {
        *self
    }
}

impl Encode for VarInt {
    open spec fn wire_ok(&self) -> bool {
        true
    }

    open spec fn wire_bytes(&self) -> Seq<u8> {
        self.spec_bytes()
    }

    fn encode(&self, out: &mut Vec<u8>) -> (r: Result<(), CodecError>) {
        self.encode_to(out);
        Ok(())
    }
}

impl Decode for VarInt {
    open spec fn spec_decode(s: Seq<u8>) -> Result<(VarInt, int), CodecError> {
        match spec_varint_decode(s) {
            Err(e) => Err(e),
            Ok((w, len)) => Ok((VarInt(w as i32), len)),
        }
    }

    fn decode(r: &[u8], pos: usize) -> (res: Result<(VarInt, usize), CodecError>) {
        proof {
            assert(r@.skip(pos as int) =~= r@.subrange(pos as int, r@.len() as int));
        }
        let tail = vstd::slice::slice_subrange(r, pos, r.len());
        match VarInt::decode_partial(tail) {
            Ok((v, n)) => {
                proof {
                    assert((v as u32) as i32 == v) by (bit_vector);
                }
                Ok((VarInt(v), pos + n))
            },
            Err(VarDecodeError::Incomplete) => Err(CodecError::TruncatedField),
            Err(VarDecodeError::TooLarge) => Err(CodecError::MalformedVarInt),
        }
    }
}

} // verus!
