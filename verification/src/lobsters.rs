//! Lobsters: where a story is fetched.

use crate::route::without_last_slash;
use crate::text::{
    ends_with, extend, has_prefix, has_suffix, starts_with, text_view, to_chars, to_string,
};
use vstd::prelude::*;

verus! {

/// The path under which the story at `path` is had as JSON, or nothing
/// where the path names no story.
pub open spec fn story_address(path: Seq<char>) -> Option<Seq<char>> {
    if !starts_with(path, "/s/"@) {
        None
    } else if ends_with(path, ".json"@) {
        Some(path)
    } else {
        Some(without_last_slash(path) + ".json"@)
    }
}

/// Tells under which path a story is had as JSON.
pub fn story_path(path: &str) -> (address: Option<String>)
    ensures
        text_view(address) == story_address(path@),
{
    let chars = to_chars(path);
    if !has_prefix(chars.as_slice(), "/s/") {
        None
    } else if has_suffix(chars.as_slice(), ".json") {
        Some(to_string(chars.as_slice()))
    } else {
        let end = if chars.len() > 1 && chars[chars.len() - 1] == '/' {
            chars.len() - 1
        } else {
            chars.len()
        };
        let kept = vstd::slice::slice_subrange(chars.as_slice(), 0, end);
        assert(kept@ =~= without_last_slash(path@));
        let mut address: Vec<char> = Vec::new();
        extend(&mut address, kept);
        extend(&mut address, to_chars(".json").as_slice());
        assert(address@ =~= without_last_slash(path@) + ".json"@);
        Some(to_string(address.as_slice()))
    }
}

} // verus!
