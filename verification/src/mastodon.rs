//! Mastodon and the servers that speak its API: what an address names, and
//! how a status is brought into shape.

use crate::content::Post;
use crate::html::dom::fragment;
use crate::html::{render, rendered};
use crate::route::{path_segments, segments};
use crate::text::{contains, has_part, same, to_chars, to_string, views};
use crate::LINE_LENGTH;
use vstd::prelude::*;

verus! {

/// What an address on a Mastodon server names.
#[derive(Debug, PartialEq, Eq)]
pub enum Path {
    Status { status_id: String },
}

/// A [`Path`] as a mathematical value.
pub enum PathView {
    Status { status_id: Seq<char> },
}

impl View for Path {
    type V = PathView;

    open spec fn view(&self) -> PathView {
        match self {
            Path::Status { status_id } => PathView::Status { status_id: status_id@ },
        }
    }
}

/// A path that may be missing, as a mathematical value.
pub open spec fn path_view(path: Option<Path>) -> Option<PathView> {
    match path {
        Some(path) => Some(path@),
        None => None,
    }
}

/// What the path of an address names: a status, where the path is the
/// handle of an account and an identifier.
pub open spec fn parsed(path: Seq<char>) -> Option<PathView> {
    let s = segments(path);
    if s.len() == 2 && s[0].len() > 0 && s[0][0] == '@' {
        Some(PathView::Status { status_id: s[1] })
    } else {
        None
    }
}

/// Tells what the path of an address names.
pub fn parse_path(path: &str) -> (out: Option<Path>)
    ensures
        path_view(out) == parsed(path@),
{
    let s = path_segments(path);
    proof {
        assert forall|i: int| 0 <= i < s@.len() implies segments(path@)[i] == (#[trigger] s@[i])@ by {
            assert(views(s@)[i] == s@[i]@);
        }
    }
    if s.len() == 2 && s[0].len() > 0 && s[0][0] == '@' {
        Some(Path::Status { status_id: to_string(s[1].as_slice()) })
    } else {
        None
    }
}

/// What a page shows of the software that serves it.
#[derive(Debug)]
pub struct Marks {
    /// What the page says to browsers without scripts, if it says so in
    /// one place.
    pub noscript: Option<String>,
    /// The name of the application, if the page names one.
    pub application: Option<String>,
    /// Whether the page holds the frame of the Mastodon client.
    pub client: bool,
}

impl Marks {
    /// Whether the page is one of a server that speaks the API of Mastodon:
    /// of Akkoma or Pleroma, which say so without scripts, of Iceshrimp or
    /// Sharkey, which name themselves, or of Mastodon itself.
    pub open spec fn speaks_api(self) -> bool {
        ||| self.noscript matches Some(text) && (contains(text@, "Akkoma"@) || contains(
            text@,
            "Pleroma"@,
        ))
        ||| self.application matches Some(name) && (name@ == "Iceshrimp"@ || name@ == "Sharkey"@)
        ||| self.client
    }

    /// Tells whether the page is one of a server that speaks the API of
    /// Mastodon.
    pub fn is_mastodon(&self) -> (found: bool)
        ensures
            found == self.speaks_api(),
    {
        let by_noscript = match &self.noscript {
            Some(text) => has_part(text.as_str(), "Akkoma") || has_part(text.as_str(), "Pleroma"),
            None => false,
        };
        let by_name = match &self.application {
            Some(name) => {
                let name = to_chars(name.as_str());
                same(name.as_slice(), "Iceshrimp") || same(name.as_slice(), "Sharkey")
            },
            None => false,
        };
        by_noscript || by_name || self.client
    }
}

/// A status as the API gives it.
#[derive(Debug)]
pub struct Status {
    /// The text of the status, as HTML.
    pub content: String,
    /// The name that the author shows.
    pub display_name: String,
    /// The addresses of what is attached.
    pub media: Vec<String>,
}

impl Status {
    /// Brings the status into the shape of a post: the text rendered, and
    /// the attachments as its addresses.
    pub fn render(self, url: &str) -> (post: Post)
        ensures
            post.author == self.display_name,
            post.body@ == rendered(fragment(self.content@), url@, Some(LINE_LENGTH as nat)),
            post.urls == self.media,
    {
        let body = render(self.content.as_str(), url);
        Post { author: self.display_name, body, urls: self.media }
    }
}

} // verus!
