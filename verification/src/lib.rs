//! Renders the essential content of a web page as readable plain text.

use vstd::prelude::*;

pub mod bsky;
pub mod cgit;
pub mod codec;
pub mod config;
pub mod content;
pub mod discourse;
pub mod gitea;
pub mod github;
pub mod gitweb;
pub mod html;
pub mod imgur;
pub mod lobsters;
pub mod mastodon;
pub mod nextcloud;
pub mod route;
pub mod stackoverflow;
pub mod text;
pub mod wikimedia;

verus! {

/// The line length that rendered text is wrapped to unless a caller asks for
/// another.
pub const LINE_LENGTH: usize = 80;

} // verus!
