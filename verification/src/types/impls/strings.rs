//! Text on the wire: a VarInt byte length followed by the UTF-8 bytes.

use crate::error::CodecError;
use crate::types::codec::Decode;
use crate::types::codec::Encode;
use crate::var_int::spec_varint_bytes;
use crate::var_int::spec_varint_decode;
use crate::var_int::VarInt;
use vstd::prelude::*;
use vstd::string::StrSliceExecFns;
use vstd::utf8::decode_utf8;
use vstd::utf8::encode_utf8;
use vstd::utf8::valid_utf8;

verus! {

/// The number of UTF-16 code units the characters would occupy: one for
/// each character in the basic plane, two for each supplementary one.
pub open spec fn spec_utf16_units(s: Seq<char>) -> int
    decreases s.len(),
{
    if s.len() == 0 {
        0
    } else {
        spec_utf16_units(s.drop_last()) + (if (s.last() as u32) < 0x10000 {
            1int
        } else {
            2int
        })
    }
}

/// Counts the UTF-16 code units of a string. The count is exact and
/// cannot overflow its 128-bit result.
pub fn utf16_unit_count(s: &str) -> (r: u128)
    ensures
        r == spec_utf16_units(s@),
{
    let n = s.unicode_len();
    let mut i: usize = 0;
    let mut count: u128 = 0;
    while i < n
        invariant
            i <= n,
            n == s@.len(),
            count == spec_utf16_units(s@.take(i as int)),
            count <= 2 * i,
        decreases n - i,
    {
        let c = s.get_char(i);
        proof {
            assert(s@.take(i as int + 1).drop_last() =~= s@.take(i as int));
            assert(s@.take(i as int + 1).last() == c);
        }
        if (c as u32) < 0x10000 {
            count = count + 1;
        } else {
            count = count + 2;
        }
        i = i + 1;
    }
    proof {
        assert(s@.take(n as int) =~= s@);
    }
    count
}

/// Relies on `String::from_utf8`: it succeeds exactly on valid UTF-8 and
/// then returns the decoded characters of the bytes.
#[verifier::external_body]
pub(crate) fn bytes_to_string(v: Vec<u8>) -> (r: Result<String, CodecError>)
    ensures
        match r {
            Ok(s) => valid_utf8(v@) && s@ == decode_utf8(v@),
            Err(e) => !valid_utf8(v@) && e == CodecError::InvalidData,
        },
{
    match String::from_utf8(v) {
        Ok(s) => Ok(s),
        Err(_) => Err(CodecError::InvalidData),
    }
}

impl Encode for String {
    open spec fn wire_ok(&self) -> bool {
        encode_utf8(self@).len() <= 0x7fffffff
    }

    open spec fn wire_bytes(&self) -> Seq<u8> {
        spec_varint_bytes(encode_utf8(self@).len() as u32) + encode_utf8(self@)
    }

    fn encode(&self, out: &mut Vec<u8>) -> (r: Result<(), CodecError>) {
        let b: &[u8] = self.as_str().as_bytes();
        if b.len() > 0x7fffffff {
            return Err(CodecError::BoundsExceeded);
        }
        VarInt(b.len() as i32).encode_to(out);
        out.extend_from_slice(b);
        assert(out@ =~= old(out)@ + self.wire_bytes());
        Ok(())
    }
}

/// What reading a length-prefixed string from the front of `s` yields.
pub open spec fn spec_decode_string(s: Seq<u8>) -> Result<(Seq<char>, int), CodecError> {
    match spec_varint_decode(s) {
        Err(e) => Err(e),
        Ok((w, n)) => {
            let len = w as i32;
            if len < 0 {
                Err(CodecError::InvalidData)
            } else if n + len > s.len() {
                Err(CodecError::TruncatedField)
            } else {
                let bytes = s.subrange(n, n + len);
                if valid_utf8(bytes) {
                    Ok((decode_utf8(bytes), n + len))
                } else {
                    Err(CodecError::InvalidData)
                }
            }
        },
    }
}

impl Decode for String {
    open spec fn spec_decode(s: Seq<u8>) -> Result<(Seq<char>, int), CodecError> {
        spec_decode_string(s)
    }

    fn decode(r: &[u8], pos: usize) -> (res: Result<(String, usize), CodecError>) {
        let (v, mid) = match <VarInt as Decode>::decode(r, pos) {
            Ok(p) => p,
            Err(e) => {
                return Err(e);
            },
        };
        if v.0 < 0 {
            return Err(CodecError::InvalidData);
        }
        let len = v.0 as usize;
        if len > r.len() - mid {
            return Err(CodecError::TruncatedField);
        }
        let sub = vstd::slice::slice_subrange(r, mid, mid + len);
        let bytes = vstd::slice::slice_to_vec(sub);
        proof {
            assert(bytes@ =~= r@.skip(pos as int).subrange(
                mid - pos,
                mid - pos + v.0 as int,
            ));
        }
        match bytes_to_string(bytes) {
            Ok(s) => Ok((s, mid + len)),
            Err(e) => Err(e),
        }
    }
}

} // verus!
