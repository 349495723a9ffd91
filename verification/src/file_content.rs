//! The text of a Gramps file from its bytes: gzip-compressed files (magic
//! bytes `1f 8b`) are decompressed, others are read as they are, and the
//! result must be UTF-8.

use vstd::prelude::*;
use crate::error::Error;
use crate::text::{push_str, utf8_decode};
use crate::types::{content_kind, content_kind_of, ContentKind};

verus! {

/// What reading a `flate2::read::GzDecoder` over `data` to the end gives:
/// the decompressed bytes, or `None` when that read fails (corrupt or
/// truncated data).
pub uninterp spec fn gunzip_result(data: Seq<u8>) -> Option<Seq<u8>>;

/// Decompress gzip data. (Wraps `flate2::read::GzDecoder::new` over the
/// bytes and `Read::read_to_end`; the result, or the failure, is named
/// `gunzip_result`, and the failure is the decoder's I/O error.)
#[verifier::external_body]
fn gunzip(data: &[u8]) -> (r: Result<Vec<u8>, std::io::Error>)
    ensures
        (r is Ok) == (gunzip_result(data@) is Some),
        r matches Ok(v) ==> gunzip_result(data@) == Some(v@),
{
    let mut out = Vec::new();
    match std::io::Read::read_to_end(&mut flate2::read::GzDecoder::new(data), &mut out) {
        Ok(_) => Ok(out),
        Err(e) => Err(e),
    }
}

/// The I/O error that reading text from a stream of bytes that are not
/// UTF-8 gives: kind `InvalidData`, as `Read::read_to_string` reports it.
/// Nothing is stated of the value. (Wraps `std::io::Error::new`.)
#[verifier::external_body]
fn invalid_utf8_error() -> std::io::Error {
    std::io::Error::new(std::io::ErrorKind::InvalidData, "stream did not contain valid UTF-8")
}

/// What reading a Gramps file with bytes `bytes` gives: the empty text
/// below two bytes; for gzip magic bytes, the decompressed bytes decoded as
/// UTF-8 (`Err(true)`, a decompression error, when decompression fails or
/// its result is not UTF-8); otherwise the bytes decoded as UTF-8
/// (`Err(false)`, an I/O error, when they are not UTF-8).
pub open spec fn gramps_text(bytes: Seq<u8>) -> Result<Seq<char>, bool> {
    match content_kind_of(bytes) {
        ContentKind::Empty => Ok(Seq::empty()),
        ContentKind::Gzip => match gunzip_result(bytes) {
            Some(d) => if vstd::utf8::valid_utf8(d) {
                Ok(vstd::utf8::decode_utf8(d))
            } else {
                Err(true)
            },
            None => Err(true),
        },
        ContentKind::Plain => if vstd::utf8::valid_utf8(bytes) {
            Ok(vstd::utf8::decode_utf8(bytes))
        } else {
            Err(false)
        },
    }
}

fn copy_text(s: &str) -> (r: String)
    ensures
        r@ == s@,
{
    let mut r = String::new();
    push_str(&mut r, s);
    assert(r@ =~= s@);
    r
}

/// The text of a Gramps file with bytes `bytes`, read from `path` (see
/// `gramps_text`). A decompression failure, or decompressed bytes that are
/// not UTF-8, is a `GzipError` for `path`; plain bytes that are not UTF-8
/// are an `IoError` for `path`.
pub fn decode_gramps_bytes(path: &str, bytes: &[u8]) -> (r: Result<String, Error>)
    ensures
        match gramps_text(bytes@) {
            Ok(t) => r matches Ok(s) && s@ == t,
            Err(true) => r matches Err(Error::GzipError { path: p, .. }) && p@ == path@,
            Err(false) => r matches Err(Error::IoError { path: p, .. }) && p@ == path@,
        },
{
    match content_kind(bytes) {
        ContentKind::Empty => Ok(String::new()),
        ContentKind::Gzip => match gunzip(bytes) {
            Ok(d) => match utf8_decode(d.as_slice()) {
                Some(t) => Ok(t),
                None => Err(Error::GzipError { path: copy_text(path), source: invalid_utf8_error() }),
            },
            Err(e) => Err(Error::GzipError { path: copy_text(path), source: e }),
        },
        ContentKind::Plain => match utf8_decode(bytes) {
            Some(t) => Ok(t),
            None => Err(Error::IoError { path: copy_text(path), source: invalid_utf8_error() }),
        },
    }
}

} // verus!
