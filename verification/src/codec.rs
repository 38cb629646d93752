//! Encodings used on the wire: Base64, UTF-8 decoding, compression and
//! hashing, each from its crate.
use base64::Engine;
use sha2::Digest;
use std::io::Write;
use vstd::prelude::*;

verus! {

/// What `base64::engine::general_purpose::STANDARD.encode` produces.
pub uninterp spec fn base64_standard(data: Seq<u8>) -> Seq<char>;

/// What `base64::engine::general_purpose::STANDARD.decode` gives for the
/// UTF-8 bytes of `text`: the bytes, or nothing when it is not valid Base64.
pub uninterp spec fn base64_standard_decoded(text: Seq<char>) -> Option<Seq<u8>>;

/// What `base64::engine::general_purpose::URL_SAFE_NO_PAD.encode` produces.
pub uninterp spec fn base64_url_nopad(data: Seq<u8>) -> Seq<char>;

/// What `base64::engine::general_purpose::URL_SAFE_NO_PAD.decode` gives.
pub uninterp spec fn base64_url_nopad_decoded(text: Seq<char>) -> Option<Seq<u8>>;

/// Inputs short enough for the Base64 engine to size its output: it panics
/// when `4 * (len / 3) + 4` does not fit in a `usize`.
pub open spec fn base64_encodable(len: nat) -> bool {
    (len / 3) * 4 + 4 <= usize::MAX
}

/// `STANDARD.encode(data)`: padded standard Base64, which `STANDARD.decode`
/// turns back into `data`.
#[verifier::external_body]
pub(crate) fn encode_base64_standard(data: &[u8]) -> (s: String)
    requires
        base64_encodable(data@.len()),
    ensures
        s@ == base64_standard(data@),
        base64_standard_decoded(s@) == Some(data@),
{
    base64::engine::general_purpose::STANDARD.encode(data)
}

/// `STANDARD.decode(text)`.
#[verifier::external_body]
pub(crate) fn decode_base64_standard(text: &str) -> (r: Option<Vec<u8>>)
    ensures
        match base64_standard_decoded(text@) {
            Some(b) => r matches Some(v) && v@ == b,
            None => r is None,
        },
{
    base64::engine::general_purpose::STANDARD.decode(text).ok()
}

/// `URL_SAFE_NO_PAD.encode(data)`: unpadded URL-safe Base64, which
/// `URL_SAFE_NO_PAD.decode` turns back into `data`.
#[verifier::external_body]
pub(crate) fn encode_base64_url_nopad(data: &[u8]) -> (s: String)
    requires
        base64_encodable(data@.len()),
    ensures
        s@ == base64_url_nopad(data@),
        base64_url_nopad_decoded(s@) == Some(data@),
{
    base64::engine::general_purpose::URL_SAFE_NO_PAD.encode(data)
}

/// `URL_SAFE_NO_PAD.decode(text)`.
#[verifier::external_body]
pub(crate) fn decode_base64_url_nopad(text: &str) -> (r: Option<Vec<u8>>)
    ensures
        match base64_url_nopad_decoded(text@) {
            Some(b) => r matches Some(v) && v@ == b,
            None => r is None,
        },
{
    base64::engine::general_purpose::URL_SAFE_NO_PAD.decode(text).ok()
}

/// What `String::from_utf8_lossy` gives: the decoded text, with U+FFFD in
/// place of each invalid sequence.
pub uninterp spec fn utf8_lossy(bytes: Seq<u8>) -> Seq<char>;

/// `String::from_utf8_lossy(bytes).to_string()`: valid UTF-8 decodes exactly.
#[verifier::external_body]
pub(crate) fn from_utf8_lossy(bytes: &[u8]) -> (s: String)
    ensures
        s@ == utf8_lossy(bytes@),
        vstd::utf8::valid_utf8(bytes@) ==> s@ == vstd::utf8::decode_utf8(bytes@),
{
    String::from_utf8_lossy(bytes).to_string()
}

/// What `zstd::encode_all` produces at level 3.
pub uninterp spec fn zstd_level3(data: Seq<u8>) -> Seq<u8>;

/// `zstd::encode_all(data, 3)`. On an in-memory slice the encoder fails only
/// when its context cannot be allocated, where zstd panics instead of
/// returning; so it returns the frame.
#[verifier::external_body]
pub(crate) fn zstd_compress(data: &[u8]) -> (r: Option<Vec<u8>>)
    ensures
        r is Some,
        r matches Some(v) ==> v@ == zstd_level3(data@),
{
    zstd::encode_all(data, 3).ok()
}

/// What a gzip stream at the default level, with flate2's default header,
/// holds for `data`.
pub uninterp spec fn gzip_default(data: Seq<u8>) -> Seq<u8>;

/// `GzEncoder::new(Vec::new(), Compression::default())`, fed `data` with
/// `write_all` (whose error is ignored) and closed with `finish`; `None` when
/// `finish` reports an error.
#[verifier::external_body]
pub(crate) fn gzip_compress(data: &[u8]) -> (r: Option<Vec<u8>>)
    ensures
        r matches Some(v) ==> v@ == gzip_default(data@),
{
    let mut encoder = flate2::write::GzEncoder::new(Vec::new(), flate2::Compression::default());
    encoder.write_all(data).ok();
    encoder.finish().ok()
}

/// The SHA-256 digest of `data`.
pub uninterp spec fn sha256_digest(data: Seq<u8>) -> Seq<u8>;

/// `Sha256::digest(data)`: the 32-byte SHA-256 digest.
#[verifier::external_body]
pub(crate) fn sha256(data: &[u8]) -> (d: Vec<u8>)
    ensures
        d@ == sha256_digest(data@),
        d@.len() == 32,
{
    sha2::Sha256::digest(data).to_vec()
}

/// The lowercase hexadecimal digit of a value below 16.
pub open spec fn hex_digit(v: int) -> char {
    if v < 10 {
        (('0' as u32) + v) as char
    } else {
        (('a' as u32) + v - 10) as char
    }
}

/// Each byte as two lowercase hexadecimal digits, high nibble first.
pub open spec fn hex_lower(data: Seq<u8>) -> Seq<char>
    decreases data.len(),
{
    if data.len() == 0 {
        seq![]
    } else {
        hex_lower(data.drop_last()) + seq![
            hex_digit(data.last() as int / 16),
            hex_digit(data.last() as int % 16),
        ]
    }
}

/// `hex::encode(data)`: each byte as two lowercase hexadecimal digits.
#[verifier::external_body]
pub(crate) fn hex_encode(data: &[u8]) -> (s: String)
    ensures
        s@ == hex_lower(data@),
{
    hex::encode(data)
}

} // verus!
