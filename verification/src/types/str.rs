//! A newtype wrapper which bounds the Encode and Decode behaviour of the
//! wrapped value by an upper limit `MAX`. What `MAX` measures depends on
//! the wrapped type: UTF-16 code units for strings, bytes for raw byte
//! bodies. Both sides fail eagerly: encode refuses an oversized value
//! before writing anything, and decode refuses an oversized declared
//! length before reading the payload.

use crate::error::CodecError;
use crate::types::codec::Decode;
use crate::types::codec::Encode;
use crate::types::impls::raw::RawBytes;
use crate::types::impls::strings::spec_utf16_units;
use crate::types::impls::strings::utf16_unit_count;
use crate::var_int::spec_varint_decode;
use crate::var_int::VarInt;
use vstd::prelude::*;
use vstd::utf8::decode_utf8;
use vstd::utf8::valid_utf8;

verus! {

/// A value of `T` limited to at most `MAX` of whatever its encoding
/// measures.
#[derive(Clone, Copy, Debug, PartialEq, Eq, Hash)]
pub struct Bounded<T, const MAX: usize>(pub T);

impl<T: DeepView, const MAX: usize> DeepView for Bounded<T, MAX> {
    type V = T::V;

    open spec fn deep_view(&self) -> T::V {
        self.0.deep_view()
    }
}

impl<T, const MAX: usize> Bounded<T, MAX> {
    /// Applies `f` to the wrapped value, keeping the bound.
    pub fn map<U, F: FnOnce(T) -> U>(self, f: F) -> (r: Bounded<U, MAX>)
        requires
            f.requires((self.0,)),
        ensures
            f.ensures((self.0,), r.0),
    {
        Bounded(f(self.0))
    }
}

impl<const MAX: usize> Encode for Bounded<String, MAX> {
    open spec fn wire_ok(&self) -> bool {
        spec_utf16_units(self.0@) <= MAX as int && self.0.wire_ok()
    }

    open spec fn wire_bytes(&self) -> Seq<u8> {
        self.0.wire_bytes()
    }

    fn encode(&self, out: &mut Vec<u8>) -> (r: Result<(), CodecError>) {
        let units = utf16_unit_count(self.0.as_str());
        if units > MAX as u128 {
            return Err(CodecError::BoundsExceeded);
        }
        self.0.encode(out)
    }
}

/// What reading a string bounded by `max` UTF-16 code units from the
/// front of `s` yields. The declared byte length is held against the
/// bound before anything else, so an oversized payload is never read; a
/// body of at most `max` bytes can never exceed `max` code units.
pub open spec fn spec_decode_bounded_string(s: Seq<u8>, max: int) -> Result<
    (Seq<char>, int),
    CodecError,
> {
    match spec_varint_decode(s) {
        Err(e) => Err(e),
        Ok((w, n)) => {
            let len = w as i32;
            if len < 0 {
                Err(CodecError::InvalidData)
            } else if len > max {
                Err(CodecError::BoundsExceeded)
            } else if n + len > s.len() {
                Err(CodecError::TruncatedField)
            } else {
                let bytes = s.subrange(n, n + len);
                if valid_utf8(bytes) {
                    Ok((decode_utf8(bytes), n + len))
                } else {
                    Err(CodecError::InvalidData)
                }
            }
        },
    }
}

impl<const MAX: usize> Decode for Bounded<String, MAX> {
    open spec fn spec_decode(s: Seq<u8>) -> Result<(Seq<char>, int), CodecError> {
        spec_decode_bounded_string(s, MAX as int)
    }

    fn decode(r: &[u8], pos: usize) -> (res: Result<(Bounded<String, MAX>, usize), CodecError>) {
        let (v, mid) = match <VarInt as Decode>::decode(r, pos) {
            Ok(p) => p,
            Err(e) => {
                return Err(e);
            },
        };
        if v.0 < 0 {
            return Err(CodecError::InvalidData);
        }
        let len = v.0 as usize;
        if len > MAX {
            return Err(CodecError::BoundsExceeded);
        }
        if len > r.len() - mid {
            return Err(CodecError::TruncatedField);
        }
        let sub = vstd::slice::slice_subrange(r, mid, mid + len);
        let bytes = vstd::slice::slice_to_vec(sub);
        proof {
            assert(bytes@ =~= r@.skip(pos as int).subrange(mid - pos, mid - pos + v.0 as int));
        }
        match crate::types::impls::strings::bytes_to_string(bytes) {
            Ok(s) => Ok((Bounded(s), mid + len)),
            Err(e) => Err(e),
        }
    }
}

/// A declared length over the bound is refused outright with the
/// bounds error, before the payload would be read: the refusal is the
/// same however little of the oversized payload has even arrived.
pub proof fn lemma_bounded_string_rejects_eagerly(s: Seq<u8>, max: int)
    requires
        crate::var_int::spec_varint_decode(s) matches Ok((w, n)) && 0 <= w as i32 && (w as i32)
            > max,
    ensures
        spec_decode_bounded_string(s, max) == Err::<(Seq<char>, int), CodecError>(
            CodecError::BoundsExceeded,
        ),
{
}

/// The bytes a bounded string writes decode back to its characters and
/// consume exactly the prefix and the text, whatever follows them, as
/// long as the text's UTF-8 form fits the bound.
pub proof fn lemma_bounded_string_decode(cs: Seq<char>, max: int, rest: Seq<u8>)
    requires
        0 <= max < 0x80000000,
        vstd::utf8::encode_utf8(cs).len() <= max,
    ensures
        spec_decode_bounded_string(
            crate::var_int::spec_varint_bytes(vstd::utf8::encode_utf8(cs).len() as u32)
                + vstd::utf8::encode_utf8(cs) + rest,
            max,
        ) == Ok::<(Seq<char>, int), CodecError>(
            (
                cs,
                crate::var_int::spec_varint_len(vstd::utf8::encode_utf8(cs).len() as u32)
                    + vstd::utf8::encode_utf8(cs).len(),
            ),
        ),
{
    broadcast use vstd::utf8::encode_utf8_valid_utf8;
    broadcast use vstd::utf8::encode_utf8_decode_utf8;

    let bytes = vstd::utf8::encode_utf8(cs);
    let blen = bytes.len() as u32;
    let s = crate::var_int::spec_varint_bytes(blen) + bytes + rest;
    assert(s =~= crate::var_int::spec_varint_bytes(blen) + (bytes + rest));
    crate::var_int::lemma_varint_decode_prefix(blen, bytes + rest);
    crate::var_int::lemma_varint_bytes_len(blen);
    let n = crate::var_int::spec_varint_len(blen);
    assert(s.subrange(n, n + bytes.len() as int) =~= bytes);
}

impl<const MAX: usize> Encode for Bounded<RawBytes, MAX> {
    open spec fn wire_ok(&self) -> bool {
        self.0.0@.len() <= MAX as int
    }

    open spec fn wire_bytes(&self) -> Seq<u8> {
        self.0.0@
    }

    fn encode(&self, out: &mut Vec<u8>) -> (r: Result<(), CodecError>) {
        if self.0.0.len() > MAX {
            return Err(CodecError::BoundsExceeded);
        }
        out.extend_from_slice(self.0.0.as_slice());
        Ok(())
    }
}

impl<const MAX: usize> Decode for Bounded<RawBytes, MAX> {
    open spec fn spec_decode(s: Seq<u8>) -> Result<(Seq<u8>, int), CodecError> {
        if s.len() > MAX as int {
            Err(CodecError::BoundsExceeded)
        } else {
            Ok((s, s.len() as int))
        }
    }

    fn decode(r: &[u8], pos: usize) -> (res: Result<(Bounded<RawBytes, MAX>, usize), CodecError>) {
        if r.len() - pos > MAX {
            return Err(CodecError::BoundsExceeded);
        }
        let rest = vstd::slice::slice_subrange(r, pos, r.len());
        let v = vstd::slice::slice_to_vec(rest);
        proof {
            assert(v@ =~= r@.skip(pos as int));
        }
        Ok((Bounded(RawBytes(v)), r.len()))
    }
}

} // verus!
