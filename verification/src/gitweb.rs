//! gitweb: how a page of a repository browser is told, and where the file
//! that it shows is fetched.

use crate::text::{
    has_prefix, replace, replaced, same, split, split_at, starts_with, text_view, to_chars,
};
use vstd::prelude::*;

verus! {

/// Tells whether the generator of a page is gitweb.
pub fn is_gitweb(generator: &str) -> (found: bool)
    ensures
        found == starts_with(generator@, "gitweb/"@),
{
    has_prefix(to_chars(generator).as_slice(), "gitweb/")
}

/// Whether one of the first `k` parts of a query asks for a blob.
pub open spec fn asks_blob(parts: Seq<Seq<char>>, k: nat) -> bool
    decreases k,
{
    if k == 0 || k > parts.len() {
        false
    } else {
        asks_blob(parts, (k - 1) as nat) || parts[k - 1] == "a=blob"@
    }
}

/// The query with which the file that a page shows is had as it is: the
/// page shows a blob, and the file is had as a plain blob. Nothing where
/// the page shows no blob.
pub open spec fn plain_query_of(query: Seq<char>) -> Option<Seq<char>> {
    let parts = split(query, ';');
    if asks_blob(parts, parts.len()) {
        Some(replaced(query, ";a=blob;"@, ";a=blob_plain;"@))
    } else {
        None
    }
}

/// Tells with which query the file that a page shows is had as it is.
pub fn plain_query(query: &str) -> (plain: Option<String>)
    ensures
        text_view(plain) == plain_query_of(query@),
{
    let chars = to_chars(query);
    let parts = split_at(chars.as_slice(), ';');
    let mut found = false;
    let mut k: usize = 0;
    while k < parts.len()
        invariant
            k <= parts.len(),
            parts@.len() == split(query@, ';').len(),
            forall|i: int|
                0 <= i < parts@.len() ==> (#[trigger] parts@[i])@ == split(query@, ';')[i],
            found == asks_blob(split(query@, ';'), k as nat),
        decreases parts.len() - k,
    {
        if same(parts[k].as_slice(), "a=blob") {
            found = true;
        }
        k += 1;
    }
    if found {
        Some(replace(query, ";a=blob;", ";a=blob_plain;"))
    } else {
        None
    }
}

} // verus!
