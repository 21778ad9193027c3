use std::io::Read;
use vstd::prelude::*;

verus! {

/// What inflating the zlib stream at the start of `data` gives: the bytes that the
/// stream holds, whatever follows its end, or nothing where `data` does not start
/// with a complete, intact zlib stream.
pub uninterp spec fn inflated(data: Seq<u8>) -> Option<Seq<u8>>;

/// What deflating `data` into one zlib stream at the default level gives, or nothing
/// where the compressor reports a failure.
pub uninterp spec fn deflated(data: Seq<u8>) -> Option<Seq<u8>>;

/// The view of an optional byte vector.
pub open spec fn opt_bytes_view(v: Option<Vec<u8>>) -> Option<Seq<u8>> {
    match v {
        Some(v) => Some(v@),
        None => None,
    }
}

/// Inflates one zlib stream by reading `flate2::read::ZlibDecoder` over `data` to its
/// end; the decoder stops at the end of the first stream and leaves what follows.
/// Trusted: the outcome depends on `data` alone, so it is what [`inflated`] names; an
/// error of the decoder (a truncated or corrupt stream) is reported as `None`.
#[verifier::external_body]
pub(crate) fn inflate(data: &[u8]) -> (r: Option<Vec<u8>>)
    ensures
        opt_bytes_view(r) == inflated(data@),
{
    let mut out = Vec::new();
    match flate2::read::ZlibDecoder::new(data).read_to_end(&mut out) {
        Ok(_) => Some(out),
        Err(_) => None,
    }
}

/// Deflates `data` by reading `flate2::read::ZlibEncoder` over it, at the default
/// compression level, to its end. Trusted: the outcome depends on `data` alone, so it is
/// what [`deflated`] names, and the stream that comes out inflates to `data` again, which
/// is what makes the zlib format a lossless one.
#[verifier::external_body]
pub(crate) fn deflate(data: &[u8]) -> (r: Option<Vec<u8>>)
    ensures
        opt_bytes_view(r) == deflated(data@),
        r matches Some(v) ==> inflated(v@) == Some(data@),
{
    let mut out = Vec::new();
    match flate2::read::ZlibEncoder::new(data, flate2::Compression::default()).read_to_end(&mut out) {
        Ok(_) => Some(out),
        Err(_) => None,
    }
}

} // verus!
