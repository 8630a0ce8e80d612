use jurl::pack;
use jurl::pack_json;
use jurl::unpack;
use jurl::unpack_json;
use jurl::JURLError;
use jurl::JsonReason;
use serde_json::Number;
use serde_json::Value;

fn sample_value() -> Value {
    // {"a":1,"b":[true,null]}
    let mut map = serde_json::Map::new();
    map.insert("a".to_string(), Value::Number(Number::from(1)));
    map.insert(
        "b".to_string(),
        Value::Array(vec![Value::Bool(true), Value::Null]),
    );
    Value::Object(map)
}

fn is_url_safe(c: char) -> bool {
    c.is_ascii_alphanumeric() || c == '-' || c == '_'
}

#[test]
fn packs_map_to_alphabet_token_and_back() {
    let v = sample_value();
    let token = pack(&v).unwrap();
    assert!(!token.is_empty());
    assert!(token.chars().all(is_url_safe));
    let back: Value = unpack(token).unwrap();
    assert_eq!(back, v);
}

#[test]
fn round_trips_a_string() {
    let v = "hello world, with \"quotes\" and ünïcode".to_string();
    let token = pack(&v).unwrap();
    let back: String = unpack(token).unwrap();
    assert_eq!(back, v);
}

#[test]
fn round_trips_a_vector_of_numbers() {
    let v: Vec<i64> = vec![-1, 0, 1, 9_007_199_254_740_993];
    let token = pack(&v).unwrap();
    let back: Vec<i64> = unpack(token).unwrap();
    assert_eq!(back, v);
}

#[test]
fn round_trips_serialized_text() {
    let text = "{\"k\":[1,2,3]}";
    let token = pack_json(text).unwrap();
    assert_eq!(unpack_json(&token), Ok(text.to_string()));
}

#[test]
fn packing_equal_values_yields_identical_tokens() {
    let first = pack(&sample_value()).unwrap();
    let second = pack(&sample_value()).unwrap();
    assert_eq!(first, second);
}

#[test]
fn token_holds_no_padding_or_specials() {
    let token = pack(&sample_value()).unwrap();
    assert!(!token.contains('+'));
    assert!(!token.contains('/'));
    assert!(!token.contains('='));
}

#[test]
fn invalid_characters_fail_as_decoding_error() {
    let r: Result<Value, JURLError> = unpack("!!!invalid!!!".to_string());
    assert!(matches!(r, Err(JURLError::DecodingError)));
}

#[test]
fn undecompressible_bytes_fail_as_decompression_error() {
    // "AAAA" is alphabet text and decodes to three zero bytes, which are no
    // compressed stream.
    let r: Result<Value, JURLError> = unpack("AAAA".to_string());
    assert!(matches!(r, Err(JURLError::DecompressionError)));
}

#[test]
fn empty_token_fails_as_decompression_error() {
    // An empty token decodes to no bytes; the decompressor rejects them.
    let r: Result<Value, JURLError> = unpack(String::new());
    assert!(matches!(r, Err(JURLError::DecompressionError)));
}

#[test]
fn non_text_payload_fails_as_utf8_error() {
    let compressed = lzma::compress(&[0xff, 0xfe, 0x80], 6).unwrap();
    let token = base64::encode_config(compressed, base64::URL_SAFE_NO_PAD);
    let r: Result<Value, JURLError> = unpack(token);
    assert!(matches!(r, Err(JURLError::UTF8Error)));
}

#[test]
fn schema_mismatch_fails_as_json_error_only() {
    // A well-formed token whose text does not match the target type must be
    // reported under the deserializer's kind, not an earlier stage's.
    let token = pack(&vec![1i64, 2]).unwrap();
    let r: Result<String, JURLError> = unpack(token);
    assert!(matches!(r, Err(JURLError::JsonError(JsonReason::Data))));
}

#[test]
fn truncated_json_fails_as_json_eof() {
    let token = pack_json("").unwrap();
    assert_eq!(unpack_json(&token), Ok(String::new()));
    let r: Result<Value, JURLError> = unpack(token);
    assert!(matches!(r, Err(JURLError::JsonError(JsonReason::Eof))));
}

#[test]
fn corrupting_any_position_fails_as_decoding_error() {
    let token = pack_json("a payload long enough to corrupt").unwrap();
    for i in 0..token.chars().count() {
        let mut chars: Vec<char> = token.chars().collect();
        chars[i] = '!';
        let corrupted: String = chars.iter().collect();
        assert!(matches!(
            unpack_json(&corrupted),
            Err(JURLError::DecodingError)
        ));
    }
}

#[test]
fn corrupting_with_padding_still_fails_cleanly() {
    // The decoder tolerates trailing '=' as padding, so the flip may pass the
    // decode stage; a later stage still rejects it, and no value comes back.
    let token = pack_json("a payload long enough to corrupt").unwrap();
    let mut chars: Vec<char> = token.chars().collect();
    let last = chars.len() - 1;
    chars[last] = '=';
    let corrupted: String = chars.iter().collect();
    assert!(unpack_json(&corrupted).is_err());
}

#[test]
fn corrupting_within_alphabet_never_yields_wrong_text() {
    // A flip to another alphabet character passes the decode stage, but the
    // compressed stream's own integrity checks reject it: the original text
    // never comes back silently wrong.
    let text = "a payload long enough to corrupt";
    let token = pack_json(text).unwrap();
    for i in 0..token.chars().count() {
        let mut chars: Vec<char> = token.chars().collect();
        chars[i] = if chars[i] == 'B' { 'C' } else { 'B' };
        let corrupted: String = chars.iter().collect();
        assert_ne!(unpack_json(&corrupted), Ok(text.to_string()));
    }
}

#[test]
fn unserializable_value_fails_as_serialization_error() {
    // serde_json refuses maps whose keys are not strings.
    let mut m = std::collections::HashMap::new();
    m.insert(vec![1u8], 2i32);
    let r = pack(&m);
    assert!(matches!(r, Err(JURLError::SerializationError)));
}
