//! Discourse: how a page of a forum is told, where a topic is fetched, and
//! how a post is brought into shape.

use crate::content::Post;
use crate::html::dom::fragment;
use crate::html::{render, rendered};
use crate::route::{path_segments, segments};
use crate::text::{
    extend, has_prefix, same, starts_with, text_view, to_chars, to_string, views,
};
use crate::LINE_LENGTH;
use vstd::prelude::*;

verus! {

/// Tells whether the generator of a page is Discourse.
pub fn is_discourse(generator: &str) -> (found: bool)
    ensures
        found == starts_with(generator@, "Discourse "@),
{
    has_prefix(to_chars(generator).as_slice(), "Discourse ")
}

/// The path under which the topic that `path` names is had as JSON: the
/// path is `t`, a title and the number of the topic.
pub open spec fn topic_address(path: Seq<char>) -> Option<Seq<char>> {
    let s = segments(path);
    if s.len() == 3 && s[0] == "t"@ {
        Some("/t/"@ + s[2] + ".json"@)
    } else {
        None
    }
}

/// Tells under which path the topic that `path` names is had as JSON.
pub fn topic_path(path: &str) -> (address: Option<String>)
    ensures
        text_view(address) == topic_address(path@),
{
    let s = path_segments(path);
    proof {
        assert forall|i: int| 0 <= i < s@.len() implies segments(path@)[i] == (#[trigger] s@[i])@ by {
            assert(views(s@)[i] == s@[i]@);
        }
    }
    if s.len() == 3 && same(s[0].as_slice(), "t") {
        let mut address = to_chars("/t/");
        extend(&mut address, s[2].as_slice());
        extend(&mut address, to_chars(".json").as_slice());
        Some(to_string(address.as_slice()))
    } else {
        None
    }
}

/// A post as the API gives it.
#[derive(Debug)]
pub struct DiscoursePost {
    /// The text of the post, as HTML.
    pub cooked: String,
    /// The name of the author.
    pub username: String,
}

impl DiscoursePost {
    /// Brings the post into shape: its text is rendered.
    pub fn render(self, url: &str) -> (post: Post)
        ensures
            post.author == self.username,
            post.body@ == rendered(fragment(self.cooked@), url@, Some(LINE_LENGTH as nat)),
            post.urls@.len() == 0,
    {
        let body = render(self.cooked.as_str(), url);
        Post { author: self.username, body, urls: Vec::new() }
    }
}

} // verus!
