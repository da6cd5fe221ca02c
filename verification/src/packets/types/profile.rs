//! A game-profile property: a named value with an optional signature.

use crate::error::CodecError;
use crate::types::codec::Decode;
use crate::types::codec::Encode;
use vstd::prelude::*;

verus! {

/// One property of a game profile, such as its textures.
#[derive(Clone, Debug, PartialEq, Eq, Hash)]
pub struct Property {
    /// The property's name.
    pub name: String,
    /// The property's value.
    pub value: String,
    /// The signature over the value, when the issuer provided one.
    pub signature: Option<String>,
}

impl DeepView for Property {
    type V = (Seq<char>, Seq<char>, Option<Seq<char>>);

    open spec fn deep_view(&self) -> (Seq<char>, Seq<char>, Option<Seq<char>>) {
        (self.name@, self.value@, self.signature.deep_view())
    }
}

impl Encode for Property {
    open spec fn wire_ok(&self) -> bool {
        self.name.wire_ok() && self.value.wire_ok() && self.signature.wire_ok()
    }

    open spec fn wire_bytes(&self) -> Seq<u8> {
        self.name.wire_bytes() + self.value.wire_bytes() + self.signature.wire_bytes()
    }

    fn encode(&self, out: &mut Vec<u8>) -> (r: Result<(), CodecError>) {
        let n0 = out.len();
        match self.name.encode(out) {
            Ok(()) => {},
            Err(e) => {
                return Err(e);
            },
        }
        match self.value.encode(out) {
            Ok(()) => {},
            Err(e) => {
                out.truncate(n0);
                assert(out@ =~= old(out)@);
                return Err(e);
            },
        }
        match self.signature.encode(out) {
            Ok(()) => {},
            Err(e) => {
                out.truncate(n0);
                assert(out@ =~= old(out)@);
                return Err(e);
            },
        }
        assert(out@ =~= old(out)@ + self.wire_bytes());
        Ok(())
    }
}

impl Decode for Property {
    open spec fn spec_decode(s: Seq<u8>) -> Result<
        ((Seq<char>, Seq<char>, Option<Seq<char>>), int),
        CodecError,
    > {
        match <String as Decode>::spec_decode(s) {
            Err(e) => Err(e),
            Ok((name, n1)) => match <String as Decode>::spec_decode(s.skip(n1)) {
                Err(e) => Err(e),
                Ok((value, n2)) => match <Option<String> as Decode>::spec_decode(s.skip(n1 + n2)) {
                    Err(e) => Err(e),
                    Ok((signature, n3)) => Ok(((name, value, signature), n1 + n2 + n3)),
                },
            },
        }
    }

    fn decode(r: &[u8], pos: usize) -> (res: Result<(Property, usize), CodecError>) {
        let (name, p1) = match <String as Decode>::decode(r, pos) {
            Ok(x) => x,
            Err(e) => {
                return Err(e);
            },
        };
        proof {
            assert(r@.skip(pos as int).skip(p1 - pos) =~= r@.skip(p1 as int));
        }
        let (value, p2) = match <String as Decode>::decode(r, p1) {
            Ok(x) => x,
            Err(e) => {
                return Err(e);
            },
        };
        proof {
            assert(r@.skip(pos as int).skip(p2 - pos) =~= r@.skip(p2 as int));
        }
        let (signature, p3) = match <Option<String> as Decode>::decode(r, p2) {
            Ok(x) => x,
            Err(e) => {
                return Err(e);
            },
        };
        Ok((Property { name, value, signature }, p3))
    }
}

} // verus!
