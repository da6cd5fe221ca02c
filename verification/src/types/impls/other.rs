//! Optional values and universally unique identifiers on the wire.

use crate::error::CodecError;
use crate::types::codec::Decode;
use crate::types::codec::Encode;
use crate::types::impls::primitives::pow256;
use crate::types::impls::primitives::spec_be_bytes;
use crate::types::impls::primitives::spec_be_val;
use crate::types::impls::primitives::decode_be;
use crate::types::impls::primitives::encode_be;
use crate::types::impls::primitives::lemma_pow256_values;
use vstd::prelude::*;

verus! {

/// A 128-bit universally unique identifier, carried on the wire as its
/// sixteen big-endian bytes.
#[derive(Clone, Copy, Debug, Hash, PartialEq, Eq, Structural)]
pub struct Uuid(pub u128);

impl DeepView for Uuid {
    type V = Uuid;

    open spec fn deep_view(&self) -> Uuid {
        *self
    }
}

impl Encode for Uuid {
    open spec fn wire_ok(&self) -> bool {
        true
    }

    open spec fn wire_bytes(&self) -> Seq<u8> {
        spec_be_bytes(self.0 as int, 16)
    }

    fn encode(&self, out: &mut Vec<u8>) -> (r: Result<(), CodecError>) {
        encode_be(self.0, 16, out);
        Ok(())
    }
}

impl Decode for Uuid {
    open spec fn spec_decode(s: Seq<u8>) -> Result<(Uuid, int), CodecError> {
        if s.len() < 16 {
            Err(CodecError::TruncatedField)
        } else {
            Ok((Uuid(spec_be_val(s.subrange(0, 16)) as u128), 16))
        }
    }

    fn decode(r: &[u8], pos: usize) -> (res: Result<(Uuid, usize), CodecError>) {
        if r.len() - pos < 16 {
            Err(CodecError::TruncatedField)
        } else {
            proof {
                lemma_pow256_values();
                assert(r@.skip(pos as int).subrange(0, 16) =~= r@.subrange(
                    pos as int,
                    pos as int + 16,
                ));
            }
            let v = decode_be(r, pos, 16);
            Ok((Uuid(v), pos + 16))
        }
    }
}

impl<T: Encode> Encode for Option<T> {
    open spec fn wire_ok(&self) -> bool {
        match self {
            Some(v) => v.wire_ok(),
            None => true,
        }
    }

    open spec fn wire_bytes(&self) -> Seq<u8> {
        match self {
            Some(v) => seq![1u8] + v.wire_bytes(),
            None => seq![0u8],
        }
    }

    fn encode(&self, out: &mut Vec<u8>) -> (r: Result<(), CodecError>) {
        match self {
            Some(v) => {
                let mut tmp: Vec<u8> = Vec::new();
                match v.encode(&mut tmp) {
                    Ok(()) => {
                        out.push(1u8);
                        out.append(&mut tmp);
                        assert(out@ =~= old(out)@ + self.wire_bytes());
                        Ok(())
                    },
                    Err(e) => Err(e),
                }
            },
            None => {
                out.push(0u8);
                assert(out@ =~= old(out)@ + self.wire_bytes());
                Ok(())
            },
        }
    }
}

impl<T: Decode> Decode for Option<T> {
    open spec fn spec_decode(s: Seq<u8>) -> Result<(Option<T::V>, int), CodecError> {
        match <bool as Decode>::spec_decode(s) {
            Err(e) => Err(e),
            Ok((present, n)) => if !present {
                Ok((None, n))
            } else {
                match T::spec_decode(s.skip(n)) {
                    Err(e) => Err(e),
                    Ok((v, m)) => Ok((Some(v), n + m)),
                }
            },
        }
    }

    fn decode(r: &[u8], pos: usize) -> (res: Result<(Option<T>, usize), CodecError>) {
        let (present, mid) = match <bool as Decode>::decode(r, pos) {
            Ok(p) => p,
            Err(e) => {
                return Err(e);
            },
        };
        proof {
            assert(r@.skip(pos as int).skip(mid - pos) =~= r@.skip(mid as int));
        }
        if !present {
            Ok((None, mid))
        } else {
            match T::decode(r, mid) {
                Ok((v, end)) => Ok((Some(v), end)),
                Err(e) => Err(e),
            }
        }
    }
}

} // verus!
