//! Byte codecs and digests used when talking to SIEM endpoints: base64,
//! HMAC-SHA256 and gzip. Each is one call into its crate.

use vstd::prelude::*;
use hmac::Mac;
use std::io::Write;

verus! {

/// Standard (RFC 4648, padded) base64 text of the bytes, as the `base64` crate writes it.
pub uninterp spec fn spec_base64_encode(data: Seq<u8>) -> Seq<char>;

/// Standard base64 decoding by the `base64` crate: the bytes, or the
/// error's display text.
pub uninterp spec fn spec_base64_decode(text: Seq<u8>) -> Result<Seq<u8>, Seq<char>>;

/// HMAC-SHA256 of `msg` under `key`.
pub uninterp spec fn spec_hmac_sha256(key: Seq<u8>, msg: Seq<u8>) -> Seq<u8>;

/// The outcome of gzip-compressing the bytes into memory with `flate2`
/// (default level, no file name, zero mtime): the gzip stream, or the
/// display text of the I/O error.
pub uninterp spec fn spec_gzip_result(data: Seq<u8>) -> Result<Seq<u8>, Seq<char>>;

/// The output size the `base64` crate computes for padded encoding of `n` bytes.
pub open spec fn base64_encoded_len(n: int) -> int {
    (n / 3) * 4 + if n % 3 > 0 {
        4int
    } else {
        0int
    }
}

/// Calls `base64::engine::general_purpose::STANDARD.encode`. The crate
/// panics only when the output size overflows `usize`, which the
/// precondition rules out.
#[verifier::external_body]
pub(crate) fn base64_encode(data: &[u8]) -> (r: String)
    requires
        base64_encoded_len(data@.len() as int) <= usize::MAX,
    ensures
        r@ == spec_base64_encode(data@),
{
    base64::Engine::encode(&base64::engine::general_purpose::STANDARD, data)
}

/// Calls `base64::engine::general_purpose::STANDARD.decode`; an error is
/// returned as its display text.
#[verifier::external_body]
pub(crate) fn base64_decode(text: &[u8]) -> (r: Result<Vec<u8>, String>)
    ensures
        match r {
            Ok(v) => spec_base64_decode(text@) == Ok::<Seq<u8>, Seq<char>>(v@),
            Err(m) => spec_base64_decode(text@) == Err::<Seq<u8>, Seq<char>>(m@),
        },
{
    match base64::Engine::decode(&base64::engine::general_purpose::STANDARD, text) {
        Ok(v) => Ok(v),
        Err(e) => Err(e.to_string()),
    }
}

/// Calls `hmac::Hmac::<sha2::Sha256>` (`new_from_slice`, `update`,
/// `finalize`). HMAC accepts keys of any length, so key setup never fails;
/// the tag is 32 bytes.
#[verifier::external_body]
pub(crate) fn hmac_sha256(key: &[u8], msg: &[u8]) -> (r: Vec<u8>)
    ensures
        r@ == spec_hmac_sha256(key@, msg@),
        r@.len() == 32,
{
    let mut mac = <hmac::Hmac<sha2::Sha256> as Mac>::new_from_slice(key).unwrap();
    mac.update(msg);
    mac.finalize().into_bytes().to_vec()
}

/// Calls `flate2::write::GzEncoder` with `Compression::default()` over an
/// in-memory buffer (`write_all`, then `finish`); an I/O error is returned
/// as its display text.
#[verifier::external_body]
pub(crate) fn gzip_compress(data: &[u8]) -> (r: Result<Vec<u8>, String>)
    ensures
        match r {
            Ok(v) => spec_gzip_result(data@) == Ok::<Seq<u8>, Seq<char>>(v@),
            Err(m) => spec_gzip_result(data@) == Err::<Seq<u8>, Seq<char>>(m@),
        },
{
    let mut encoder = flate2::write::GzEncoder::new(Vec::new(), flate2::Compression::default());
    match encoder.write_all(data) {
        Ok(()) => {},
        Err(e) => return Err(e.to_string()),
    }
    match encoder.finish() {
        Ok(v) => Ok(v),
        Err(e) => Err(e.to_string()),
    }
}

} // verus!
