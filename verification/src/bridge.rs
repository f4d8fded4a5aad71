//! The bridge proper: from native version bytes to the text handed to the
//! host runtime.

use vstd::prelude::*;
use vstd::slice::slice_to_vec;
use vstd::utf8::{
    decode_utf8, encode_utf8, encode_utf8_decode_utf8, encode_utf8_valid_utf8, is_ascii_chars,
    valid_utf8,
};
use crate::encoding::is_valid_utf8;

verus! {

/// The text the bridge hands the host for the given native bytes: their
/// UTF-8 decoding when they are validly encoded, the literal `"unknown"`
/// otherwise.
pub open spec fn bridge_text(bytes: Seq<u8>) -> Seq<char> {
    if valid_utf8(bytes) {
        decode_utf8(bytes)
    } else {
        "unknown"@
    }
}

/// Relies on `String::from_utf8`: on bytes that are a valid UTF-8 encoding
/// it succeeds with the string holding exactly those bytes, so the string's
/// characters are their UTF-8 decoding.
#[verifier::external_body]
fn string_from_utf8_bytes(bytes: Vec<u8>) -> (s: String)
    requires
        valid_utf8(bytes@),
    ensures
        s@ == decode_utf8(bytes@),
{
    String::from_utf8(bytes).unwrap_or_default()
}

/// Interprets the native version bytes as text, as the bridge presents it to
/// the host: the UTF-8 decoding of `bytes` when they are validly encoded,
/// and the substitute text `"unknown"` when they are not.  The call always
/// yields a string; a malformed native encoding is masked, never surfaced.
pub fn version_text(bytes: &[u8]) -> (s: String)
    ensures
        s@ == bridge_text(bytes@),
{
    if is_valid_utf8(bytes) {
        string_from_utf8_bytes(slice_to_vec(bytes))
    } else {
        "unknown".to_owned()
    }
}

/// Law: on every validly encoded native byte sequence the bridge text is
/// exactly its UTF-8 decoding — the host sees the true version text.
pub proof fn lemma_bridge_text_of_valid(bytes: Seq<u8>)
    requires
        valid_utf8(bytes),
    ensures
        bridge_text(bytes) == decode_utf8(bytes),
{
}

/// Law: on every byte sequence that is not validly encoded the bridge text
/// is exactly the substitute text `"unknown"` — a malformed native encoding
/// is masked, never surfaced.
pub proof fn lemma_bridge_text_of_invalid(bytes: Seq<u8>)
    requires
        !valid_utf8(bytes),
    ensures
        bridge_text(bytes) == "unknown"@,
{
}

/// Law: the bridge is a left inverse of UTF-8 encoding — whatever text the
/// native side encodes, the host gets that text back unchanged.
pub proof fn lemma_bridge_round_trip(text: Seq<char>)
    ensures
        bridge_text(encode_utf8(text)) == text,
{
    broadcast use encode_utf8_valid_utf8, encode_utf8_decode_utf8;

}

/// The substitute text for the second fallback of the bridge: when the host
/// runtime fails to construct its string value from the bridge text, the
/// bridge offers this literal instead.  It is all ASCII, so no host string
/// construction can reject its encoding.
pub fn construction_fallback_text() -> (s: String)
    ensures
        s@ == "error"@,
        is_ascii_chars(s@),
{
    let s = "error".to_owned();
    proof {
        reveal_strlit("error");
    }
    s
}

} // verus!
