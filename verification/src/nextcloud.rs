//! Nextcloud: how a page of a share is told, and where the shared file is
//! found.

use crate::codec::{
    base64_decoded, decode_base64, decode_utf8, json_string, parse_json_string, utf8_text,
};
use crate::html::link::{join, joined};
use crate::text::{same, text_view, to_chars};
use vstd::prelude::*;

verus! {

/// Tells whether the page names the app of Nextcloud.
pub fn is_nextcloud(app: &str) -> (found: bool)
    ensures
        found == (app@ == "app-id=1125420102"@),
{
    same(to_chars(app).as_slice(), "app-id=1125420102")
}

/// The token that the value of the token field holds: the value is
/// base64 for the UTF-8 encoding of a JSON string, and the token is that
/// string.
pub open spec fn token_of(value: Seq<char>) -> Option<Seq<char>> {
    match base64_decoded(value) {
        Some(bytes) => match utf8_text(bytes) {
            Some(text) => json_string(text),
            None => None,
        },
        None => None,
    }
}

/// Reads the sharing token out of the value of its field.
pub fn sharing_token(value: &str) -> (token: Option<String>)
    ensures
        text_view(token) == token_of(value@),
{
    let Some(bytes) = decode_base64(value) else {
        return None;
    };
    let Some(text) = decode_utf8(bytes) else {
        return None;
    };
    parse_json_string(text.as_str())
}

/// Where the file of a share is fetched: the token resolved against the
/// folder of shared files on the server of `url`.
pub open spec fn share_address(url: Seq<char>, token: Seq<char>) -> Option<Seq<char>> {
    match joined(url, "/public.php/dav/files/"@) {
        Some(folder) => joined(folder, token),
        None => None,
    }
}

/// Tells where the file of a share is fetched.
pub fn share_url(url: &str, token: &str) -> (address: Option<String>)
    ensures
        text_view(address) == share_address(url@, token@),
{
    match join(url, "/public.php/dav/files/") {
        Some(folder) => join(folder.as_str(), token),
        None => None,
    }
}

} // verus!
