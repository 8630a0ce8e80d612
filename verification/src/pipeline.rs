//! The two pipeline operations: `pack` and `unpack`.
//!
//! `pack` composes serialize, compress and encode, in that order; `unpack`
//! composes decode, decompress, UTF-8 validation and deserialize. The first
//! stage to fail short-circuits the rest, and every failure is classified
//! under the kind of exactly that stage.

use vstd::prelude::*;
use vstd::utf8::decode_utf8;
use vstd::utf8::encode_utf8;
use vstd::utf8::valid_utf8;
use crate::alphabet::all_url_safe;
use crate::alphabet::is_url_safe_char;
use crate::codec::b64_decode;
use crate::codec::b64_decoded;
use crate::codec::b64_encode;
use crate::codec::b64_of;
use crate::codec::json_deserialize;
use crate::codec::json_serialize;
use crate::codec::xz_compress;
use crate::codec::xz_decompress;
use crate::codec::xz_decompressed;
use crate::codec::xz_of;
use crate::codec::COMPRESSION_PRESET;
use crate::errors::JURLError;

verus! {

broadcast use vstd::utf8::encode_utf8_valid_utf8, vstd::utf8::encode_utf8_decode_utf8;

/// The token the pipeline produces for a given serialized text: the UTF-8
/// bytes of the text, compressed at the fixed level, written in the URL-safe
/// alphabet.
pub open spec fn token_of(text: Seq<char>) -> Seq<char> {
    b64_of(xz_of(encode_utf8(text)))
}

/// The decoder accepts the token's text.
pub open spec fn decodes(token: Seq<char>) -> bool {
    b64_decoded(token) is Some
}

/// The token decodes and its decoded bytes decompress.
pub open spec fn decompresses(token: Seq<char>) -> bool {
    decodes(token) && xz_decompressed(b64_decoded(token)->Some_0) is Some
}

/// The token decodes, decompresses, and its decompressed bytes are UTF-8 text.
pub open spec fn reads_as_text(token: Seq<char>) -> bool {
    decompresses(token) && valid_utf8(xz_decompressed(b64_decoded(token)->Some_0)->Some_0)
}

/// The serialized text the three unpack stages recover from the token.
pub open spec fn recovered_text(token: Seq<char>) -> Seq<char>
    recommends
        reads_as_text(token),
{
    decode_utf8(xz_decompressed(b64_decoded(token)->Some_0)->Some_0)
}

/// Compresses serialized text and writes it as a URL-safe token.
///
/// On success the token is exactly `token_of` the given text — the pipeline is
/// deterministic — it is never empty, and every character of it lies in the
/// URL-safe alphabet. The only stage here that can fail is the compressor, and
/// its failure is reported as `CompressionError` and nothing else.
pub fn pack_json(json: &str) -> (r: Result<String, JURLError>)
    ensures
        r matches Ok(t) ==> t@ == token_of(json@) && all_url_safe(t@) && t@.len() > 0,
        r matches Err(e) ==> e == JURLError::CompressionError,
{
    let bytes = json.as_bytes();
    match xz_compress(bytes, COMPRESSION_PRESET) {
        Ok(compressed) => {
            let token = b64_encode(compressed.as_slice());
            proof {
                assert((compressed@.len() * 4 + 2) / 3 >= 2) by (nonlinear_arith)
                    requires
                        compressed@.len() >= 1,
                ;
            }
            Ok(token)
        },
        Err(_) => Err(JURLError::CompressionError),
    }
}

/// Recovers the serialized text held in a URL-safe token: decodes the
/// alphabet, decompresses, and validates the bytes as UTF-8, failing with the
/// kind of exactly the first stage that rejects its input — the stage results
/// are named by `b64_decoded` and `xz_decompressed`, and each clause below
/// attributes one outcome.
///
/// The round trip holds: for any text, a token equal to `token_of` that text
/// is unpacked to exactly that text. A token holding a character that is
/// neither in the alphabet nor `=` (tolerated by the decoder as trailing
/// padding) is rejected as `DecodingError`. An empty token decodes to no
/// bytes, which the decompressor rejects as `DecompressionError`.
pub fn unpack_json(token: &str) -> (r: Result<String, JURLError>)
    ensures
        forall|text: Seq<char>| token@ == token_of(text) ==> (r matches Ok(s) && s@ == text),
        !decodes(token@) ==> r == Err::<String, JURLError>(JURLError::DecodingError),
        decodes(token@) && !decompresses(token@) ==> r == Err::<String, JURLError>(
            JURLError::DecompressionError,
        ),
        decompresses(token@) && !reads_as_text(token@) ==> r == Err::<String, JURLError>(
            JURLError::UTF8Error,
        ),
        reads_as_text(token@) ==> r is Ok && r->Ok_0@ == recovered_text(token@),
        (exists|i: int|
            0 <= i < token@.len() && !is_url_safe_char(token@[i]) && token@[i] != '=') ==> r
            == Err::<String, JURLError>(JURLError::DecodingError),
        token@.len() == 0 ==> r == Err::<String, JURLError>(JURLError::DecompressionError),
        r matches Err(e) ==> (e == JURLError::DecodingError || e == JURLError::DecompressionError
            || e == JURLError::UTF8Error),
{
    let decoded = match b64_decode(token) {
        Ok(d) => d,
        Err(e) => {
            proof {
                assert forall|text: Seq<char>| token@ != token_of(text) by {
                    if token@ == token_of(text) {
                        assert(token@ == b64_of(xz_of(encode_utf8(text))));
                    }
                }
            }
            return Err(JURLError::from(e));
        },
    };
    let decompressed = match xz_decompress(decoded.as_slice()) {
        Ok(d) => d,
        Err(e) => {
            proof {
                assert forall|text: Seq<char>| token@ != token_of(text) by {
                    if token@ == token_of(text) {
                        assert(decoded@ == xz_of(encode_utf8(text)));
                    }
                }
            }
            return Err(JURLError::from(e));
        },
    };
    let text = match core::str::from_utf8(decompressed.as_slice()) {
        Ok(s) => s,
        Err(e) => {
            proof {
                assert forall|text: Seq<char>| token@ != token_of(text) by {
                    if token@ == token_of(text) {
                        assert(decoded@ == xz_of(encode_utf8(text)));
                        assert(decompressed@ == encode_utf8(text));
                    }
                }
            }
            return Err(JURLError::from(e));
        },
    };
    let out = text.to_owned();
    proof {
        assert forall|t: Seq<char>| token@ == token_of(t) implies out@ == t by {
            assert(decoded@ == xz_of(encode_utf8(t)));
            assert(decompressed@ == encode_utf8(t));
        }
    }
    Ok(out)
}

/// Serializes the value as JSON text, then packs that text into a URL-safe
/// token.
///
/// On success the token is non-empty, every character of it lies in the
/// URL-safe alphabet, and it is `token_of` the serialized text. A serializer
/// failure is reported as `SerializationError` and a compressor failure as
/// `CompressionError`; no other kind can come out of packing.
pub fn pack<T: serde::Serialize>(content: &T) -> (r: Result<String, JURLError>)
    ensures
        r matches Ok(t) ==> all_url_safe(t@) && t@.len() > 0 && (exists|text: Seq<char>|
            t@ == token_of(text)),
        r matches Err(e) ==> (e == JURLError::SerializationError || e
            == JURLError::CompressionError),
{
    let json = match json_serialize(content) {
        Ok(j) => j,
        Err(_) => {
            return Err(JURLError::SerializationError);
        },
    };
    let r = pack_json(json.as_str());
    proof {
        if r is Ok {
            assert(r->Ok_0@ == token_of(json@));
        }
    }
    r
}

/// Unpacks a token and deserializes the recovered JSON text into the target
/// type.
///
/// Each failure names exactly the stage that rejected its input: a token the
/// decoder rejects fails as `DecodingError`, one that decodes but does not
/// decompress as `DecompressionError`, one whose decompressed bytes are not
/// valid UTF-8 as `UTF8Error`, and once all three stages pass — as they do on
/// any token equal to `token_of` some text — the result is the deserialized
/// value or a `JsonError`: a value that does not match the target type's
/// schema is never reported under another stage's kind. A token holding a
/// character that is neither in the alphabet nor `=` fails as
/// `DecodingError`, an empty token fails as `DecompressionError`, and no
/// unpacking ever reports `CompressionError` or `SerializationError`.
pub fn unpack<T>(packed: String) -> (r: Result<T, JURLError>) where for <'de> T: serde::Deserialize<
    'de,
>
    ensures
        (exists|text: Seq<char>| packed@ == token_of(text)) ==> (r is Ok || (r matches Err(e)
            && e matches JURLError::JsonError(_))),
        !decodes(packed@) ==> (r matches Err(e) && e == JURLError::DecodingError),
        decodes(packed@) && !decompresses(packed@) ==> (r matches Err(e) && e
            == JURLError::DecompressionError),
        decompresses(packed@) && !reads_as_text(packed@) ==> (r matches Err(e) && e
            == JURLError::UTF8Error),
        reads_as_text(packed@) ==> (r is Ok || (r matches Err(e) && e matches JURLError::JsonError(
            _,
        ))),
        (exists|i: int|
            0 <= i < packed@.len() && !is_url_safe_char(packed@[i]) && packed@[i] != '=') ==> (
        r matches Err(e) && e == JURLError::DecodingError),
        packed@.len() == 0 ==> (r matches Err(e) && e == JURLError::DecompressionError),
        r matches Err(e) ==> (e != JURLError::CompressionError && e
            != JURLError::SerializationError),
{
    let text = match unpack_json(packed.as_str()) {
        Ok(t) => t,
        Err(e) => {
            return Err(e);
        },
    };
    match json_deserialize::<T>(text.as_str()) {
        Ok(v) => Ok(v),
        Err(e) => Err(JURLError::from_json_error(&e)),
    }
}

/// Determinism: the token is a function of the serialized text alone, so two
/// packings of equal values — which serialize to the same canonical text —
/// yield the identical token.
pub proof fn lemma_pack_deterministic(text: Seq<char>, token1: Seq<char>, token2: Seq<char>)
    requires
        token1 == token_of(text),
        token2 == token_of(text),
    ensures
        token1 == token2,
{
}

/// Corruption detection: replacing any one character of a token by a character
/// outside the decoder's domain — not in the alphabet and not `=` — leaves a
/// sequence that `unpack` rejects as `DecodingError`, by its contract on
/// tokens holding such a character.
pub proof fn lemma_corrupted_token_rejected(token: Seq<char>, i: int, c: char)
    requires
        0 <= i < token.len(),
        !is_url_safe_char(c),
        c != '=',
    ensures
        exists|j: int|
            0 <= j < token.update(i, c).len() && !is_url_safe_char(token.update(i, c)[j])
                && token.update(i, c)[j] != '=',
{
    assert(token.update(i, c)[i] == c);
}

} // verus!
