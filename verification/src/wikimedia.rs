//! Wikipedia: which article an address names, and how its text is brought
//! into shape.

use crate::codec::{decode_percent, percent_decoded};
use crate::content::{wrapped, Article};
use crate::html::wrap::fill;
use crate::route::{nth_segment, segment};
use crate::text::{text_view, to_chars, to_string};
use crate::LINE_LENGTH;
use vstd::prelude::*;

verus! {

/// The title of the article that `path` names: its second segment, with
/// the percent escapes resolved.
pub open spec fn title_of(path: Seq<char>) -> Option<Seq<char>> {
    match segment(path, 1) {
        Some(raw) => percent_decoded(raw),
        None => None,
    }
}

/// Why an address names no article.
#[derive(Debug, Clone, Copy, PartialEq, Eq, Structural)]
pub enum TitleError {
    /// The path has no second segment.
    Missing,
    /// The title is no text.
    Malformed,
}

/// Reads the title of the article that `path` names.
pub fn title(path: &str) -> (out: Result<String, TitleError>)
    ensures
        match out {
            Ok(title) => title_of(path@) == Some(title@),
            Err(TitleError::Missing) => segment(path@, 1) is None,
            Err(TitleError::Malformed) => segment(path@, 1) is Some && title_of(path@) is None,
        },
{
    match nth_segment(path, 1) {
        Some(raw) => match decode_percent(raw.as_str()) {
            Some(title) => Ok(title),
            None => Err(TitleError::Malformed),
        },
        None => Err(TitleError::Missing),
    }
}

/// Brings an article into shape: its source text is wrapped.
pub fn article(title: String, source: &str) -> (out: Article)
    ensures
        out.title == title,
        out.body@ == wrapped(source@),
{
    let nothing: Vec<char> = Vec::new();
    assert(nothing@ =~= Seq::<char>::empty());
    let body = fill(
        to_chars(source).as_slice(),
        LINE_LENGTH,
        nothing.as_slice(),
        nothing.as_slice(),
    );
    Article { title, body: to_string(body.as_slice()) }
}

} // verus!
