//! Resource identifiers of the form `namespace:path`. The namespace is
//! lowercase alphanumerics with `_ . -`; the path also allows `/`. A
//! bare path on the wire is given the default namespace.

use crate::error::CodecError;
use crate::types::codec::Decode;
use crate::types::codec::Encode;
use vstd::prelude::*;
use vstd::string::StrSliceExecFns;
use vstd::string::StringExecFns;

verus! {

/// Whether `c` may appear in an identifier's namespace: lowercase
/// letters, digits, underscore, dot and hyphen.
pub open spec fn spec_ns_char(c: char) -> bool {
    let u = c as u32;
    (97 <= u <= 122) || (48 <= u <= 57) || u == 95 || u == 46 || u == 45
}

/// Whether `c` may appear in an identifier's path: a namespace
/// character or a slash.
pub open spec fn spec_path_char(c: char) -> bool {
    spec_ns_char(c) || c as u32 == 47
}

/// Whether `s` is a whole identifier: a non-empty namespace, one colon,
/// and a non-empty path, each of its characters.
pub open spec fn spec_valid_ident(s: Seq<char>) -> bool {
    exists|i: int|
        {
            &&& 0 < i
            &&& i + 1 < s.len()
            &&& s[i] == ':'
            &&& (forall|j: int| 0 <= j < i ==> spec_ns_char(#[trigger] s[j]))
            &&& (forall|j: int| i < j < s.len() ==> spec_path_char(#[trigger] s[j]))
        }
}

/// What a piece of received text stands for as an identifier: itself
/// when it is whole, the text under the default namespace when it is a
/// bare non-empty path, and nothing otherwise.
pub open spec fn spec_ident_of(s: Seq<char>) -> Result<Seq<char>, CodecError> {
    if exists|i: int| 0 <= i < s.len() && s[i] == ':' {
        if spec_valid_ident(s) {
            Ok(s)
        } else {
            Err(CodecError::InvalidData)
        }
    } else {
        if s.len() > 0 && (forall|j: int| 0 <= j < s.len() ==> spec_path_char(#[trigger] s[j])) {
            Ok("minecraft:"@ + s)
        } else {
            Err(CodecError::InvalidData)
        }
    }
}

/// A validated resource identifier, always held with its namespace
/// written out.
#[derive(Clone, Debug, PartialEq, Eq, Hash)]
pub struct Ident {
    full: String,
}

fn is_ns_char(c: char) -> (r: bool)
    ensures
        r == spec_ns_char(c),
{
    let u = c as u32;
    (97 <= u && u <= 122) || (48 <= u && u <= 57) || u == 95 || u == 46 || u == 45
}

fn is_path_char(c: char) -> (r: bool)
    ensures
        r == spec_path_char(c),
{
    is_ns_char(c) || c as u32 == 47
}

/// Finds the first colon, if any.
fn first_colon(s: &str) -> (r: Option<usize>)
    ensures
        match r {
            Some(i) => i < s@.len() && s@[i as int] == ':' && forall|j: int|
                0 <= j < i ==> s@[j] != ':',
            None => forall|j: int| 0 <= j < s@.len() ==> s@[j] != ':',
        },
{
    let n = s.unicode_len();
    let mut i: usize = 0;
    while i < n
        invariant
            i <= n,
            n == s@.len(),
            forall|j: int| 0 <= j < i ==> s@[j] != ':',
        decreases n - i,
    {
        if s.get_char(i) == ':' {
            return Some(i);
        }
        i = i + 1;
    }
    None
}

/// Checks that every character of `s` in `[from, to)` satisfies the
/// namespace grammar (`path` false) or the path grammar (`path` true).
fn range_valid(s: &str, from: usize, to: usize, path: bool) -> (r: Option<usize>)
    requires
        from <= to <= s@.len(),
    ensures
        match r {
            None => forall|j: int|
                from <= j < to ==> if path {
                    spec_path_char(#[trigger] s@[j])
                } else {
                    spec_ns_char(#[trigger] s@[j])
                },
            Some(k) => from <= k < to && !(if path {
                spec_path_char(s@[k as int])
            } else {
                spec_ns_char(s@[k as int])
            }),
        },
{
    let mut i: usize = from;
    while i < to
        invariant
            from <= i <= to <= s@.len(),
            forall|j: int|
                from <= j < i ==> if path {
                    spec_path_char(#[trigger] s@[j])
                } else {
                    spec_ns_char(#[trigger] s@[j])
                },
        decreases to - i,
    {
        let c = s.get_char(i);
        let ok = if path {
            is_path_char(c)
        } else {
            is_ns_char(c)
        };
        if !ok {
            return Some(i);
        }
        i = i + 1;
    }
    None
}

impl Ident {
    /// The identifier's text, namespace included.
    pub closed spec fn text(&self) -> Seq<char> {
        self.full@
    }

    /// Interprets received text as an identifier: whole identifiers
    /// stand for themselves, a bare path is put under the default
    /// namespace, anything else is refused.
    pub fn new(text: String) -> (r: Result<Ident, CodecError>)
        ensures
            match r {
                Ok(id) => spec_ident_of(text@) == Ok::<Seq<char>, CodecError>(id.text())
                    && spec_valid_ident(id.text()),
                Err(e) => spec_ident_of(text@) == Err::<Seq<char>, CodecError>(e),
            },
    {
        match first_colon(text.as_str()) {
            Some(i) => {
                let n = text.as_str().unicode_len();
                if i == 0 || i + 1 >= n {
                    proof {
                        lemma_ident_invalid(text@, i as int);
                    }
                    return Err(CodecError::InvalidData);
                }
                if range_valid(text.as_str(), 0, i, false).is_some() {
                    proof {
                        lemma_ident_invalid(text@, i as int);
                    }
                    return Err(CodecError::InvalidData);
                }
                if range_valid(text.as_str(), i + 1, n, true).is_some() {
                    proof {
                        lemma_ident_invalid(text@, i as int);
                    }
                    return Err(CodecError::InvalidData);
                }
                proof {
                    let w = i as int;
                    assert({
                        &&& 0 < w
                        &&& w + 1 < text@.len()
                        &&& text@[w] == ':'
                        &&& (forall|j: int| 0 <= j < w ==> spec_ns_char(#[trigger] text@[j]))
                        &&& (forall|j: int|
                            w < j < text@.len() ==> spec_path_char(#[trigger] text@[j]))
                    });
                    assert(spec_valid_ident(text@));
                }
                Ok(Ident { full: text })
            },
            None => {
                let n = text.as_str().unicode_len();
                if n == 0 {
                    return Err(CodecError::InvalidData);
                }
                if range_valid(text.as_str(), 0, n, true).is_some() {
                    return Err(CodecError::InvalidData);
                }
                let mut full = String::from_str("minecraft:");
                full.append(text.as_str());
                proof {
                    reveal_strlit("minecraft:");
                    lemma_prefixed_ident_valid(text@);
                }
                Ok(Ident { full })
            },
        }
    }

    /// The identifier's text, namespace included.
    pub fn as_str(&self) -> (r: &str)
        ensures
            r@ == self.text(),
    {
        self.full.as_str()
    }
}

/// The ways a text's first colon can stand badly: at the front, at
/// the very end, or with a character beside it that its side refuses.
pub open spec fn spec_first_colon_bad(s: Seq<char>, fc: int) -> bool {
    ||| fc == 0
    ||| fc + 1 >= s.len()
    ||| (exists|k: int| 0 <= k < fc && !spec_ns_char(#[trigger] s[k]))
    ||| (exists|k: int| fc < k < s.len() && !spec_path_char(#[trigger] s[k]))
}

/// A text whose first colon stands badly is no identifier: any witness
/// to validity would have to be that same first colon.
proof fn lemma_ident_invalid(s: Seq<char>, fc: int)
    requires
        0 <= fc < s.len(),
        s[fc] == ':',
        forall|j: int| 0 <= j < fc ==> s[j] != ':',
        spec_first_colon_bad(s, fc),
    ensures
        !spec_valid_ident(s),
{
    if spec_valid_ident(s) {
        let i = choose|i: int|
            {
                &&& 0 < i
                &&& i + 1 < s.len()
                &&& s[i] == ':'
                &&& (forall|j: int| 0 <= j < i ==> spec_ns_char(#[trigger] s[j]))
                &&& (forall|j: int| i < j < s.len() ==> spec_path_char(#[trigger] s[j]))
            };
        if i < fc {
            assert(s[i] != ':');
        } else if fc < i {
            assert(spec_ns_char(s[fc]));
        }
        assert(i == fc);
        assert(false);
    }
}

/// A non-empty bare path put under the default namespace is a whole
/// identifier.
proof fn lemma_prefixed_ident_valid(s: Seq<char>)
    requires
        s.len() > 0,
        forall|j: int| 0 <= j < s.len() ==> spec_path_char(#[trigger] s[j]),
    ensures
        spec_valid_ident("minecraft:"@ + s),
{
    reveal_strlit("minecraft:");
    let t = "minecraft:"@ + s;
    assert(t[9] == ':');
    assert(forall|j: int| 0 <= j < 9 ==> spec_ns_char(#[trigger] t[j]));
    assert(forall|j: int| 9 < j < t.len() ==> spec_path_char(#[trigger] t[j]));
    assert({
        &&& 0 < 9
        &&& 9 + 1 < t.len()
        &&& t[9] == ':'
        &&& (forall|j: int| 0 <= j < 9 ==> spec_ns_char(#[trigger] t[j]))
        &&& (forall|j: int| 9 < j < t.len() ==> spec_path_char(#[trigger] t[j]))
    });
}

impl DeepView for Ident {
    type V = Seq<char>;

    open spec fn deep_view(&self) -> Seq<char> {
        self.text()
    }
}

impl Encode for Ident {
    closed spec fn wire_ok(&self) -> bool {
        self.full.wire_ok()
    }

    closed spec fn wire_bytes(&self) -> Seq<u8> {
        self.full.wire_bytes()
    }

    fn encode(&self, out: &mut Vec<u8>) -> (r: Result<(), CodecError>) {
        self.full.encode(out)
    }
}

impl Decode for Ident {
    open spec fn spec_decode(s: Seq<u8>) -> Result<(Seq<char>, int), CodecError> {
        match <String as Decode>::spec_decode(s) {
            Err(e) => Err(e),
            Ok((text, n)) => match spec_ident_of(text) {
                Err(e) => Err(e),
                Ok(id) => Ok((id, n)),
            },
        }
    }

    fn decode(r: &[u8], pos: usize) -> (res: Result<(Ident, usize), CodecError>) {
        let (text, end) = match <String as Decode>::decode(r, pos) {
            Ok(x) => x,
            Err(e) => {
                return Err(e);
            },
        };
        match Ident::new(text) {
            Ok(id) => Ok((id, end)),
            Err(e) => Err(e),
        }
    }
}

} // verus!
