//! Fixed-width integers and booleans on the wire: big-endian byte order,
//! exactly as many bytes as the type is wide.

use crate::error::CodecError;
use crate::types::codec::Decode;
use crate::types::codec::Encode;
use vstd::prelude::*;

verus! {

/// The big-endian bytes of a non-negative value, `n` bytes wide, most
/// significant first.
pub open spec fn spec_be_bytes(x: int, n: int) -> Seq<u8>
    decreases n,
{
    if n <= 0 {
        Seq::empty()
    } else {
        spec_be_bytes(x / 256, n - 1) + seq![(x % 256) as u8]
    }
}

/// The value a big-endian byte string stands for.
pub open spec fn spec_be_val(s: Seq<u8>) -> int
    decreases s.len(),
{
    if s.len() == 0 {
        0
    } else {
        spec_be_val(s.drop_last()) * 256 + s.last()
    }
}

/// 256 to the power `n`: one more than the largest value `n` bytes hold.
pub open spec fn pow256(n: int) -> int
    decreases n,
{
    if n <= 0 {
        1
    } else {
        256 * pow256(n - 1)
    }
}

/// An encoding is as wide as asked for.
pub proof fn lemma_be_bytes_len(x: int, n: int)
    requires
        n >= 0,
    ensures
        spec_be_bytes(x, n).len() == n,
    decreases n,
{
    if n > 0 {
        lemma_be_bytes_len(x / 256, n - 1);
    }
}

/// A byte string's value fits in as many bytes as it has.
pub proof fn lemma_be_val_bound(s: Seq<u8>)
    ensures
        0 <= spec_be_val(s) < pow256(s.len() as int),
    decreases s.len(),
{
    if s.len() > 0 {
        lemma_be_val_bound(s.drop_last());
    }
}

/// Reading back an `n`-byte encoding of a value that fits gives the
/// value.
pub proof fn lemma_be_round_trip(x: int, n: int)
    requires
        n >= 0,
        0 <= x < pow256(n),
    ensures
        spec_be_val(spec_be_bytes(x, n)) == x,
    decreases n,
{
    if n > 0 {
        lemma_be_bytes_len(x / 256, n - 1);
        assert(spec_be_bytes(x, n).drop_last() =~= spec_be_bytes(x / 256, n - 1));
        assert(x / 256 < pow256(n - 1)) by (nonlinear_arith)
            requires
                x < 256 * pow256(n - 1),
                x >= 0,
        ;
        lemma_be_round_trip(x / 256, n - 1);
    }
}

/// Appends the `n`-byte big-endian encoding of `x` to `out`.
pub fn encode_be(x: u128, n: usize, out: &mut Vec<u8>)
    ensures
        final(out)@ == old(out)@ + spec_be_bytes(x as int, n as int),
    decreases n,
{
    if n == 0 {
        assert(out@ =~= old(out)@ + spec_be_bytes(x as int, 0));
    } else {
        encode_be(x / 256, n - 1, out);
        out.push((x % 256) as u8);
        assert(out@ =~= old(out)@ + spec_be_bytes(x as int, n as int));
    }
}

/// Reads the `n`-byte big-endian value at `pos`.
pub fn decode_be(r: &[u8], pos: usize, n: usize) -> (v: u128)
    requires
        pos + n <= r@.len(),
        pow256(n as int) <= 0x100000000000000000000000000000000,
    ensures
        v as int == spec_be_val(r@.subrange(pos as int, pos as int + n as int)),
        (v as int) < pow256(n as int),
    decreases n,
{
    let total = r.len();
    proof {
        lemma_be_val_bound(r@.subrange(pos as int, pos as int + n as int));
        assert(pos + n <= total);
    }
    if n == 0 {
        assert(r@.subrange(pos as int, pos as int) =~= Seq::<u8>::empty());
        0
    } else {
        let hi = decode_be(r, pos, n - 1);
        let b = r[pos + n - 1];
        proof {
            let s = r@.subrange(pos as int, pos as int + n as int);
            assert(s.drop_last() =~= r@.subrange(pos as int, pos as int + n as int - 1));
            assert(s.last() == b);
        }
        hi * 256 + (b as u128)
    }
}

/// `pow256` at each width the codec uses.
pub proof fn lemma_pow256_values()
    ensures
        pow256(1) == 0x100,
        pow256(2) == 0x10000,
        pow256(4) == 0x100000000,
        pow256(8) == 0x10000000000000000,
        pow256(16) == 0x100000000000000000000000000000000,
{
    reveal_with_fuel(pow256, 17);
}

/// A 16-bit value's bytes decode back to it, whatever follows them.
pub proof fn lemma_u16_decode_prefix(x: u16, rest: Seq<u8>)
    ensures
        <u16 as Decode>::spec_decode(spec_be_bytes(x as int, 2) + rest) == Ok::<
            (u16, int),
            CodecError,
        >((x, 2)),
{
    lemma_pow256_values();
    lemma_be_bytes_len(x as int, 2);
    let s = spec_be_bytes(x as int, 2) + rest;
    assert(s.subrange(0, 2) =~= spec_be_bytes(x as int, 2));
    lemma_be_round_trip(x as int, 2);
}

impl Encode for u8 {
    open spec fn wire_ok(&self) -> bool {
        true
    }

    open spec fn wire_bytes(&self) -> Seq<u8> {
        seq![*self]
    }

    fn encode(&self, out: &mut Vec<u8>) -> (r: Result<(), CodecError>) {
        out.push(*self);
        assert(out@ =~= old(out)@ + self.wire_bytes());
        Ok(())
    }
}

impl Decode for u8 {
    open spec fn spec_decode(s: Seq<u8>) -> Result<(u8, int), CodecError> {
        if s.len() < 1 {
            Err(CodecError::TruncatedField)
        } else {
            Ok((s[0], 1))
        }
    }

    fn decode(r: &[u8], pos: usize) -> (res: Result<(u8, usize), CodecError>) {
        if r.len() - pos < 1 {
            Err(CodecError::TruncatedField)
        } else {
            Ok((r[pos], pos + 1))
        }
    }
}

impl Encode for bool {
    open spec fn wire_ok(&self) -> bool {
        true
    }

    open spec fn wire_bytes(&self) -> Seq<u8> {
        if *self {
            seq![1u8]
        } else {
            seq![0u8]
        }
    }

    fn encode(&self, out: &mut Vec<u8>) -> (r: Result<(), CodecError>) {
        if *self {
            out.push(1u8);
        } else {
            out.push(0u8);
        }
        assert(out@ =~= old(out)@ + self.wire_bytes());
        Ok(())
    }
}

impl Decode for bool {
    open spec fn spec_decode(s: Seq<u8>) -> Result<(bool, int), CodecError> {
        if s.len() < 1 {
            Err(CodecError::TruncatedField)
        } else if s[0] == 0 {
            Ok((false, 1))
        } else if s[0] == 1 {
            Ok((true, 1))
        } else {
            Err(CodecError::InvalidData)
        }
    }

    fn decode(r: &[u8], pos: usize) -> (res: Result<(bool, usize), CodecError>) {
        if r.len() - pos < 1 {
            Err(CodecError::TruncatedField)
        } else {
            let b = r[pos];
            if b == 0 {
                Ok((false, pos + 1))
            } else if b == 1 {
                Ok((true, pos + 1))
            } else {
                Err(CodecError::InvalidData)
            }
        }
    }
}

impl Encode for u16 {
    open spec fn wire_ok(&self) -> bool {
        true
    }

    open spec fn wire_bytes(&self) -> Seq<u8> {
        spec_be_bytes(*self as int, 2)
    }

    fn encode(&self, out: &mut Vec<u8>) -> (r: Result<(), CodecError>) {
        encode_be(*self as u128, 2, out);
        Ok(())
    }
}

impl Decode for u16 {
    open spec fn spec_decode(s: Seq<u8>) -> Result<(u16, int), CodecError> {
        if s.len() < 2 {
            Err(CodecError::TruncatedField)
        } else {
            Ok((spec_be_val(s.subrange(0, 2)) as u16, 2))
        }
    }

    fn decode(r: &[u8], pos: usize) -> (res: Result<(u16, usize), CodecError>) {
        if r.len() - pos < 2 {
            Err(CodecError::TruncatedField)
        } else {
            proof {
                lemma_pow256_values();
                assert(r@.skip(pos as int).subrange(0, 2) =~= r@.subrange(
                    pos as int,
                    pos as int + 2,
                ));
            }
            let v = decode_be(r, pos, 2);
            Ok((v as u16, pos + 2))
        }
    }
}

impl Encode for u32 {
    open spec fn wire_ok(&self) -> bool {
        true
    }

    open spec fn wire_bytes(&self) -> Seq<u8> {
        spec_be_bytes(*self as int, 4)
    }

    fn encode(&self, out: &mut Vec<u8>) -> (r: Result<(), CodecError>) {
        encode_be(*self as u128, 4, out);
        Ok(())
    }
}

impl Decode for u32 {
    open spec fn spec_decode(s: Seq<u8>) -> Result<(u32, int), CodecError> {
        if s.len() < 4 {
            Err(CodecError::TruncatedField)
        } else {
            Ok((spec_be_val(s.subrange(0, 4)) as u32, 4))
        }
    }

    fn decode(r: &[u8], pos: usize) -> (res: Result<(u32, usize), CodecError>) {
        if r.len() - pos < 4 {
            Err(CodecError::TruncatedField)
        } else {
            proof {
                lemma_pow256_values();
                assert(r@.skip(pos as int).subrange(0, 4) =~= r@.subrange(
                    pos as int,
                    pos as int + 4,
                ));
            }
            let v = decode_be(r, pos, 4);
            Ok((v as u32, pos + 4))
        }
    }
}

impl Encode for u64 {
    open spec fn wire_ok(&self) -> bool {
        true
    }

    open spec fn wire_bytes(&self) -> Seq<u8> {
        spec_be_bytes(*self as int, 8)
    }

    fn encode(&self, out: &mut Vec<u8>) -> (r: Result<(), CodecError>) {
        encode_be(*self as u128, 8, out);
        Ok(())
    }
}

impl Decode for u64 {
    open spec fn spec_decode(s: Seq<u8>) -> Result<(u64, int), CodecError> {
        if s.len() < 8 {
            Err(CodecError::TruncatedField)
        } else {
            Ok((spec_be_val(s.subrange(0, 8)) as u64, 8))
        }
    }

    fn decode(r: &[u8], pos: usize) -> (res: Result<(u64, usize), CodecError>) {
        if r.len() - pos < 8 {
            Err(CodecError::TruncatedField)
        } else {
            proof {
                lemma_pow256_values();
                assert(r@.skip(pos as int).subrange(0, 8) =~= r@.subrange(
                    pos as int,
                    pos as int + 8,
                ));
            }
            let v = decode_be(r, pos, 8);
            Ok((v as u64, pos + 8))
        }
    }
}

impl Encode for u128 {
    open spec fn wire_ok(&self) -> bool {
        true
    }

    open spec fn wire_bytes(&self) -> Seq<u8> {
        spec_be_bytes(*self as int, 16)
    }

    fn encode(&self, out: &mut Vec<u8>) -> (r: Result<(), CodecError>) {
        encode_be(*self, 16, out);
        Ok(())
    }
}

impl Decode for u128 {
    open spec fn spec_decode(s: Seq<u8>) -> Result<(u128, int), CodecError> {
        if s.len() < 16 {
            Err(CodecError::TruncatedField)
        } else {
            Ok((spec_be_val(s.subrange(0, 16)) as u128, 16))
        }
    }

    fn decode(r: &[u8], pos: usize) -> (res: Result<(u128, usize), CodecError>) {
        if r.len() - pos < 16 {
            Err(CodecError::TruncatedField)
        } else {
            proof {
                lemma_pow256_values();
                assert(r@.skip(pos as int).subrange(0, 16) =~= r@.subrange(
                    pos as int,
                    pos as int + 16,
                ));
            }
            let v = decode_be(r, pos, 16);
            Ok((v as u128, pos + 16))
        }
    }
}

impl Encode for i64 {
    open spec fn wire_ok(&self) -> bool {
        true
    }

    open spec fn wire_bytes(&self) -> Seq<u8> {
        spec_be_bytes((*self as u64) as int, 8)
    }

    fn encode(&self, out: &mut Vec<u8>) -> (r: Result<(), CodecError>) {
        encode_be((*self as u64) as u128, 8, out);
        Ok(())
    }
}

impl Decode for i64 {
    open spec fn spec_decode(s: Seq<u8>) -> Result<(i64, int), CodecError> {
        if s.len() < 8 {
            Err(CodecError::TruncatedField)
        } else {
            Ok(((spec_be_val(s.subrange(0, 8)) as u64) as i64, 8))
        }
    }

    fn decode(r: &[u8], pos: usize) -> (res: Result<(i64, usize), CodecError>) {
        if r.len() - pos < 8 {
            Err(CodecError::TruncatedField)
        } else {
            proof {
                lemma_pow256_values();
                assert(r@.skip(pos as int).subrange(0, 8) =~= r@.subrange(
                    pos as int,
                    pos as int + 8,
                ));
            }
            let v = decode_be(r, pos, 8);
            Ok(((v as u64) as i64, pos + 8))
        }
    }
}

} // verus!
