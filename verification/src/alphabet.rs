//! The URL-safe token alphabet: letters, digits, `-` and `_`.

use vstd::prelude::*;

verus! {

/// True of the characters a token may contain: ASCII letters, ASCII digits,
/// `-` and `_`. This is the alphabet of the unpadded, URL-safe text encoding.
pub open spec fn is_url_safe_char(c: char) -> bool {
    let u = c as u32;
    (('A' as u32) <= u && u <= ('Z' as u32)) || (('a' as u32) <= u && u <= ('z' as u32)) || ((
    '0' as u32) <= u && u <= ('9' as u32)) || c == '-' || c == '_'
}

/// Every character of the sequence lies in the URL-safe alphabet.
pub open spec fn all_url_safe(s: Seq<char>) -> bool {
    forall|i: int| 0 <= i < s.len() ==> is_url_safe_char(#[trigger] s[i])
}

/// The URL-safe alphabet contains none of the characters that make standard
/// base64 text unfit for a URL: `+`, `/` and the padding character `=`.
pub proof fn lemma_url_safe_excludes_specials(c: char)
    requires
        is_url_safe_char(c),
    ensures
        c != '+',
        c != '/',
        c != '=',
{
}

} // verus!
