//! Sequences on the wire: a VarInt element count followed by each
//! element's own encoding, in order.

use crate::error::CodecError;
use crate::types::codec::Decode;
use crate::types::codec::Encode;
use crate::types::impls::cautious_capacity;
use crate::var_int::spec_varint_bytes;
use crate::var_int::spec_varint_decode;
use crate::var_int::VarInt;
use vstd::prelude::*;

verus! {

/// The concatenated wire bytes of a sequence of values.
pub open spec fn spec_elems_bytes<T: Encode>(s: Seq<T>) -> Seq<u8>
    decreases s.len(),
{
    if s.len() == 0 {
        Seq::empty()
    } else {
        spec_elems_bytes(s.drop_last()) + s.last().wire_bytes()
    }
}

/// Whether every element of a sequence can be written.
pub open spec fn spec_elems_ok<T: Encode>(s: Seq<T>) -> bool {
    forall|i: int| 0 <= i < s.len() ==> s[i].wire_ok()
}

/// What reading `count` consecutive values from the front of `s` yields:
/// their abstract values and the total bytes consumed, or the first
/// error.
pub open spec fn spec_decode_elems<T: Decode>(s: Seq<u8>, count: int) -> Result<
    (Seq<T::V>, int),
    CodecError,
>
    decreases count,
{
    if count <= 0 {
        Ok((Seq::empty(), 0))
    } else {
        match T::spec_decode(s) {
            Err(e) => Err(e),
            Ok((v, n)) => match spec_decode_elems::<T>(s.skip(n), count - 1) {
                Err(e) => Err(e),
                Ok((vs, m)) => Ok((seq![v] + vs, n + m)),
            },
        }
    }
}

impl<T: Encode> Encode for Vec<T> {
    open spec fn wire_ok(&self) -> bool {
        self@.len() <= 0x7fffffff && spec_elems_ok(self@)
    }

    open spec fn wire_bytes(&self) -> Seq<u8> {
        spec_varint_bytes(self@.len() as u32) + spec_elems_bytes(self@)
    }

    fn encode(&self, out: &mut Vec<u8>) -> (r: Result<(), CodecError>) {
        if self.len() > 0x7fffffff {
            return Err(CodecError::BoundsExceeded);
        }
        let n0 = out.len();
        VarInt(self.len() as i32).encode_to(out);
        let mut i: usize = 0;
        while i < self.len()
            invariant
                i <= self@.len(),
                self@.len() <= 0x7fffffff,
                n0 == old(out)@.len(),
                out@ == old(out)@ + spec_varint_bytes(self@.len() as u32) + spec_elems_bytes(
                    self@.take(i as int),
                ),
                spec_elems_ok(self@.take(i as int)),
            decreases self@.len() - i,
        {
            proof {
                assert(self@.take(i as int + 1).drop_last() =~= self@.take(i as int));
                assert(self@.take(i as int + 1).last() == self@[i as int]);
            }
            match self[i].encode(out) {
                Ok(()) => {
                    i = i + 1;
                },
                Err(e) => {
                    out.truncate(n0);
                    assert(out@ =~= old(out)@);
                    assert(!self@[i as int].wire_ok());
                    return Err(e);
                },
            }
        }
        proof {
            assert(self@.take(self@.len() as int) =~= self@);
        }
        Ok(())
    }
}

/// Joins an already-decoded prefix with the outcome of decoding the
/// remaining elements.
pub open spec fn spec_glue_elems<V>(
    prefix: Seq<V>,
    used: int,
    rest: Result<(Seq<V>, int), CodecError>,
) -> Result<(Seq<V>, int), CodecError> {
    match rest {
        Err(e) => Err(e),
        Ok((vs, m)) => Ok((prefix + vs, used + m)),
    }
}

impl<T: Decode> Decode for Vec<T> {
    open spec fn spec_decode(s: Seq<u8>) -> Result<(Seq<T::V>, int), CodecError> {
        match spec_varint_decode(s) {
            Err(e) => Err(e),
            Ok((w, n)) => {
                let count = w as i32;
                if count < 0 {
                    Err(CodecError::InvalidData)
                } else {
                    match spec_decode_elems::<T>(s.skip(n), count as int) {
                        Err(e) => Err(e),
                        Ok((vs, m)) => Ok((vs, n + m)),
                    }
                }
            },
        }
    }

    #[verifier::loop_isolation(false)]
    fn decode(r: &[u8], pos: usize) -> (res: Result<(Vec<T>, usize), CodecError>) {
        let (v, mid) = match <VarInt as Decode>::decode(r, pos) {
            Ok(p) => p,
            Err(e) => {
                return Err(e);
            },
        };
        if v.0 < 0 {
            return Err(CodecError::InvalidData);
        }
        let count = v.0 as usize;
        let ghost s0 = r@.skip(pos as int);
        proof {
            assert(s0.skip(mid - pos) =~= r@.skip(mid as int));
        }
        let mut out: Vec<T> = Vec::with_capacity(cautious_capacity::<T>(count));
        let mut k: usize = 0;
        let mut cur: usize = mid;
        proof {
            assert(out.deep_view() =~= Seq::<T::V>::empty());
            match spec_decode_elems::<T>(r@.skip(mid as int), count as int) {
                Err(_) => {},
                Ok((vs, m)) => {
                    assert(Seq::<T::V>::empty() + vs =~= vs);
                },
            }
        }
        while k < count
            invariant
                k <= count,
                pos <= mid <= cur <= r@.len(),
                out.deep_view().len() == k,
                spec_decode_elems::<T>(r@.skip(mid as int), count as int) == spec_glue_elems(
                    out.deep_view(),
                    cur - mid,
                    spec_decode_elems::<T>(r@.skip(cur as int), count - k),
                ),
            decreases count - k,
        {
            let ghost prevview = out.deep_view();
            match T::decode(r, cur) {
                Ok((val, end)) => {
                    proof {
                        assert(r@.skip(cur as int).skip(end - cur) =~= r@.skip(end as int));
                        let valview = val.deep_view();
                        let rest = spec_decode_elems::<T>(
                            r@.skip(end as int),
                            count as int - k as int - 1,
                        );
                        match rest {
                            Err(_) => {},
                            Ok((vs, m)) => {
                                assert(prevview + (seq![valview] + vs) =~= prevview.push(valview)
                                    + vs);
                            },
                        }
                    }
                    out.push(val);
                    proof {
                        assert(out.deep_view() =~= prevview.push(val.deep_view()));
                    }
                    cur = end;
                    k = k + 1;
                },
                Err(e) => {
                    return Err(e);
                },
            }
        }
        proof {
            assert(out.deep_view() + Seq::<T::V>::empty() =~= out.deep_view());
        }
        Ok((out, cur))
    }
}

} // verus!
