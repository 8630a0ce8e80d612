//! The three black-box codecs the pipeline composes, behind trusted contracts.
//!
//! Each stage of the pipeline is an outside codec: the URL-safe text encoding,
//! the compressor, and the JSON serializer. The wrappers here make those calls
//! and state, over `b64_of` and `xz_of`, what each codec's documentation and
//! source promise; the pipeline is verified against these contracts alone.

use vstd::prelude::*;
use vstd::utf8::decode_utf8;
use vstd::utf8::valid_utf8;
use crate::alphabet::all_url_safe;
use crate::alphabet::is_url_safe_char;
use crate::errors::JsonReason;

verus! {

#[verifier::external_type_specification]
#[verifier::external_body]
pub struct ExDecodeError(base64::DecodeError);

#[verifier::external_type_specification]
#[verifier::external_body]
pub struct ExLzmaError(lzma::error::LzmaError);

#[verifier::external_type_specification]
#[verifier::external_body]
pub struct ExJsonError(serde_json::Error);

#[verifier::external_type_specification]
#[verifier::external_body]
pub struct ExUtf8Error(core::str::Utf8Error);

/// The URL-safe, unpadded base64 text of a byte sequence.
pub uninterp spec fn b64_of(b: Seq<u8>) -> Seq<char>;

/// What the URL-safe decoder makes of a piece of text: the decoded bytes, or
/// `None` where it rejects the text. A function of the text alone.
pub uninterp spec fn b64_decoded(s: Seq<char>) -> Option<Seq<u8>>;

/// The compressed form of a byte sequence at the pipeline's fixed effort level.
pub uninterp spec fn xz_of(b: Seq<u8>) -> Seq<u8>;

/// What the decompressor makes of a byte sequence: the recovered bytes, or
/// `None` where it rejects the sequence as no valid compressed stream. A
/// function of the bytes alone.
pub uninterp spec fn xz_decompressed(b: Seq<u8>) -> Option<Seq<u8>>;

/// The compressor's fixed effort level: a documented constant, not a knob, so
/// that equal values always yield identical tokens.
pub(crate) const COMPRESSION_PRESET: u32 = 6;

/// Relies on base64::encode_config with URL_SAFE_NO_PAD: the text of the bytes
/// in the URL-safe alphabet with no padding, a function of the bytes alone;
/// without padding it writes one character per 6 bits, four characters for
/// every three bytes and one more per leftover byte plus one.
#[verifier::external_body]
pub(crate) fn b64_encode(b: &[u8]) -> (r: String)
    ensures
        r@ == b64_of(b@),
        all_url_safe(r@),
        r@.len() == (b@.len() * 4 + 2) / 3,
{
    base64::encode_config(b, base64::URL_SAFE_NO_PAD)
}

/// Relies on base64::decode_config with URL_SAFE_NO_PAD: its outcome is a
/// function of the text alone, named `b64_decoded`; it inverts encode_config;
/// it rejects any character that is neither in the URL-safe alphabet nor the
/// padding character `=` (which its decoder tolerates in trailing positions);
/// and it decodes empty text to no bytes.
#[verifier::external_body]
pub(crate) fn b64_decode(s: &str) -> (r: Result<Vec<u8>, base64::DecodeError>)
    ensures
        r matches Ok(d) ==> b64_decoded(s@) == Some(d@),
        r is Err ==> b64_decoded(s@) is None,
        forall|b: Seq<u8>| s@ == b64_of(b) ==> r is Ok && r->Ok_0@ == b,
        (exists|i: int|
            0 <= i < s@.len() && !is_url_safe_char(s@[i]) && s@[i] != '=') ==> r is Err,
        s@.len() == 0 ==> r is Ok && r->Ok_0@.len() == 0,
{
    base64::decode_config(s, base64::URL_SAFE_NO_PAD)
}

/// Relies on lzma::compress, liblzma's xz encoder: on success the result is a
/// function of the input bytes and the fixed preset alone, and it is never
/// empty — an xz stream always carries at least its header and footer.
#[verifier::external_body]
pub(crate) fn xz_compress(b: &[u8], preset: u32) -> (r: Result<
    Vec<u8>,
    lzma::error::LzmaError,
>)
    requires
        preset == COMPRESSION_PRESET,
    ensures
        r matches Ok(c) ==> c@ == xz_of(b@) && c@.len() > 0,
{
    lzma::compress(b, preset)
}

/// Relies on lzma::decompress, liblzma's xz decoder: its outcome is a function
/// of the bytes alone, named `xz_decompressed`; compression is lossless, so
/// decompressing the compressor's output returns exactly the original bytes;
/// and empty input, which holds no stream header, is rejected.
#[verifier::external_body]
pub(crate) fn xz_decompress(b: &[u8]) -> (r: Result<Vec<u8>, lzma::error::LzmaError>)
    ensures
        r matches Ok(d) ==> xz_decompressed(b@) == Some(d@),
        r is Err ==> xz_decompressed(b@) is None,
        forall|orig: Seq<u8>| b@ == xz_of(orig) ==> r is Ok && r->Ok_0@ == orig,
        b@.len() == 0 ==> r is Err,
{
    lzma::decompress(b)
}

/// Relies on core::str::from_utf8: it succeeds exactly on valid UTF-8 and reads
/// the given bytes as text.
pub assume_specification[ core::str::from_utf8 ](v: &[u8]) -> (r: Result<
    &str,
    core::str::Utf8Error,
>)
    ensures
        match r {
            Ok(s) => valid_utf8(v@) && s@ == decode_utf8(v@),
            Err(_) => !valid_utf8(v@),
        },
;

/// Relies on serde_json::to_string: renders a serializable value as JSON text,
/// or reports a serializer error.
#[verifier::external_body]
pub(crate) fn json_serialize<T: serde::Serialize>(value: &T) -> (r: Result<
    String,
    serde_json::Error,
>) {
    serde_json::to_string(value)
}

/// Relies on serde_json::from_str: parses JSON text into the target type, or
/// reports a deserializer error.
#[verifier::external_body]
pub(crate) fn json_deserialize<T>(text: &str) -> (r: Result<T, serde_json::Error>) where
    for <'de> T: serde::Deserialize<'de>,
 {
    serde_json::from_str(text)
}

/// Relies on serde_json::Error::classify: tells the serializer's four error
/// categories apart, one reason for each.
#[verifier::external_body]
pub(crate) fn classify_json_error(e: &serde_json::Error) -> (r: JsonReason) {
    match e.classify() {
        serde_json::error::Category::Io => JsonReason::Io,
        serde_json::error::Category::Syntax => JsonReason::Syntax,
        serde_json::error::Category::Data => JsonReason::Data,
        serde_json::error::Category::Eof => JsonReason::Eof,
    }
}

} // verus!
