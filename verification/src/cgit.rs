//! cgit: how a page of a repository browser is told, and where the file
//! that it shows is fetched.

use crate::text::{
    extend, has_prefix, join, join_range, same, split, split_at, starts_with, text_view,
    to_chars, to_string, views,
};
use vstd::prelude::*;

verus! {

/// Tells whether the generator of a page is cgit.
pub fn is_cgit(generator: &str) -> (found: bool)
    ensures
        found == starts_with(generator@, "cgit "@),
{
    has_prefix(to_chars(generator).as_slice(), "cgit ")
}

/// Where the file that the page at `path` shows is had as it is, for a
/// repository whose pages begin with `repo_path`: the page is one of the
/// tree, and the file lies under `plain` at what follows `tree`.
pub open spec fn plain_address(path: Seq<char>, repo_path: Seq<char>) -> Option<Seq<char>> {
    if starts_with(path, repo_path) {
        let s = split(path.skip(repo_path.len() as int), '/');
        if s.len() >= 2 && s[0] == "tree"@ {
            Some(repo_path + "/plain/"@ + join(s.subrange(1, s.len() as int), '/'))
        } else {
            None
        }
    } else {
        None
    }
}

/// Tells where the file that a page of the tree shows is had as it is.
pub fn plain_path(path: &str, repo_path: &str) -> (address: Option<String>)
    ensures
        text_view(address) == plain_address(path@, repo_path@),
{
    let chars = to_chars(path);
    let repo = to_chars(repo_path);
    if !has_prefix(chars.as_slice(), repo_path) {
        return None;
    }
    let rest = vstd::slice::slice_subrange(chars.as_slice(), repo.len(), chars.len());
    assert(rest@ =~= path@.skip(repo_path@.len() as int));
    let s = split_at(rest, '/');
    assert(views(s@) =~= split(rest@, '/'));
    if s.len() >= 2 && same(s[0].as_slice(), "tree") {
        let mut address: Vec<char> = Vec::new();
        extend(&mut address, repo.as_slice());
        extend(&mut address, to_chars("/plain/").as_slice());
        extend(&mut address, join_range(&s, 1, s.len(), '/').as_slice());
        assert(address@ =~= repo_path@ + "/plain/"@ + join(
            views(s@).subrange(1, s@.len() as int),
            '/',
        ));
        Some(to_string(address.as_slice()))
    } else {
        None
    }
}

} // verus!
