//! The compression step of the frame pipeline, relied on from the flate2
//! crate: zlib deflate at one fixed level on the way out, zlib inflate
//! into a buffer of the declared size on the way in.

use crate::error::CodecError;
use vstd::prelude::*;

verus! {

/// What flate2's zlib deflate produces for the given bytes at this
/// library's fixed compression level. The output is a function of the
/// input bytes alone.
pub uninterp spec fn deflate_of(s: Seq<u8>) -> Seq<u8>;

/// What inflating `s` as one whole zlib stream yields: the decompressed
/// bytes, or nothing when the stream is corrupt.
pub uninterp spec fn inflate_of(s: Seq<u8>) -> Option<Seq<u8>>;

/// Relies on flate2's bufread::ZlibEncoder at a fixed compression level:
/// compressing in-memory bytes does not fail, the output is a function of
/// the input bytes alone, and inflating the output gives the input back.
#[verifier::external_body]
pub(crate) fn zlib_compress(data: &[u8]) -> (r: Vec<u8>)
    ensures
        r@ == deflate_of(data@),
        inflate_of(r@) == Some(data@),
{
    let mut z = flate2::bufread::ZlibEncoder::new(data, flate2::Compression::new(4));
    let mut out = Vec::new();
    std::io::Read::read_to_end(&mut z, &mut out).expect("compressing in memory cannot fail");
    out
}

/// Relies on flate2's write::ZlibDecoder, inflating into a buffer of
/// exactly `out_len` zero-filled bytes: a stream that inflates to
/// `out_len` bytes fills the buffer with no space left over, and a
/// corrupt, truncated or overlong stream fails instead. The count of
/// bytes left unfilled is returned beside the buffer.
#[verifier::external_body]
pub(crate) fn zlib_decompress(data: &[u8], out_len: usize) -> (r: Result<
    (Vec<u8>, usize),
    CodecError,
>)
    ensures
        r is Ok ==> r->Ok_0.0@.len() == out_len && r->Ok_0.1 <= out_len,
        inflate_of(data@) is Some && inflate_of(data@)->Some_0.len() == out_len ==> r is Ok
            && r->Ok_0.0@ == inflate_of(data@)->Some_0 && r->Ok_0.1 == 0,
        r is Ok && r->Ok_0.1 == 0 ==> inflate_of(data@) == Some(r->Ok_0.0@),
{
    let mut buf = vec![0u8; out_len];
    let mut z = flate2::write::ZlibDecoder::new(&mut buf[..]);
    let finished = std::io::Write::write_all(&mut z, data).and_then(|_| z.finish());
    match finished {
        Ok(rest) => {
            let left = rest.len();
            Ok((buf, left))
        },
        Err(_) => Err(CodecError::CompressionInvariantViolation),
    }
}

} // verus!
