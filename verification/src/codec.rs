//! Decoding what servers send in encoded form: what is left to `base64`,
//! `percent-encoding` and `serde_json`.

use crate::text::text_view;
use vstd::prelude::*;

verus! {

/// The bytes that `text` stands for in base64, with the standard alphabet
/// and padding, or nothing where it is no such encoding.
pub uninterp spec fn base64_decoded(text: Seq<char>) -> Option<Seq<u8>>;

/// The text that `text` stands for with its percent escapes resolved, or
/// nothing where the result is no text.
pub uninterp spec fn percent_decoded(text: Seq<char>) -> Option<Seq<char>>;

/// The string that `text` holds as a JSON document, or nothing where it is
/// no JSON string.
pub uninterp spec fn json_string(text: Seq<char>) -> Option<Seq<char>>;

/// Some bytes that may be missing, as a mathematical value.
pub open spec fn bytes_view(bytes: Option<Vec<u8>>) -> Option<Seq<u8>> {
    match bytes {
        Some(bytes) => Some(bytes@),
        None => None,
    }
}

/// Calls `base64::Engine::decode` on
/// `base64::engine::general_purpose::STANDARD`. The bytes are a function of
/// the text alone; they are absent where the call fails.
#[verifier::external_body]
pub(crate) fn decode_base64(text: &str) -> (bytes: Option<Vec<u8>>)
    ensures
        bytes_view(bytes) == base64_decoded(text@),
{
    base64::Engine::decode(&base64::engine::general_purpose::STANDARD, text).ok()
}

/// Calls `percent_encoding::percent_decode_str` and
/// `percent_encoding::PercentDecode::decode_utf8`. The result is a function
/// of the text alone; it is absent where the second call fails.
#[verifier::external_body]
pub(crate) fn decode_percent(text: &str) -> (decoded: Option<String>)
    ensures
        text_view(decoded) == percent_decoded(text@),
{
    percent_encoding::percent_decode_str(text).decode_utf8().ok().map(|text| text.into_owned())
}

/// Calls `serde_json::from_str` for a `String`. The result is a function of
/// the text alone; it is absent where the call fails.
#[verifier::external_body]
pub(crate) fn parse_json_string(text: &str) -> (parsed: Option<String>)
    ensures
        text_view(parsed) == json_string(text@),
{
    serde_json::from_str::<String>(text).ok()
}

/// The text that `bytes` encode in UTF-8, or nothing where they encode
/// none.
pub open spec fn utf8_text(bytes: Seq<u8>) -> Option<Seq<char>> {
    if vstd::utf8::valid_utf8(bytes) {
        Some(vstd::utf8::decode_utf8(bytes))
    } else {
        None
    }
}

/// Calls `String::from_utf8` of std, which gives the text that the bytes
/// encode in UTF-8, and fails where they encode none.
#[verifier::external_body]
pub(crate) fn decode_utf8(bytes: Vec<u8>) -> (text: Option<String>)
    ensures
        text_view(text) == utf8_text(bytes@),
{
    String::from_utf8(bytes).ok()
}

} // verus!
