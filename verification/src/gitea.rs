//! Gitea and Forgejo: how a page of theirs is told, and what an address
//! names.

use crate::github::{path_from, rest_path};
use crate::route::{path_segments, segments};
use crate::text::{same, split, split_at, to_chars, to_string, views};
use vstd::prelude::*;

verus! {

/// What an address on a Gitea server names. The first two fields are the
/// owner and the name of the repository.
#[derive(Debug, PartialEq, Eq)]
pub enum Path {
    /// A commit: the repository and the hash.
    Commit(String, String, String),
    /// An issue: the repository and the number.
    Issue(String, String, String),
    /// A file: the repository, the path of the file and the ref.
    Src(String, String, String, String),
}

/// A [`Path`] as a mathematical value.
pub enum PathView {
    Commit(Seq<char>, Seq<char>, Seq<char>),
    Issue(Seq<char>, Seq<char>, Seq<char>),
    Src(Seq<char>, Seq<char>, Seq<char>, Seq<char>),
}

impl View for Path {
    type V = PathView;

    open spec fn view(&self) -> PathView {
        match self {
            Path::Commit(owner, repo, hash) => PathView::Commit(owner@, repo@, hash@),
            Path::Issue(owner, repo, number) => PathView::Issue(owner@, repo@, number@),
            Path::Src(owner, repo, file, at) => PathView::Src(owner@, repo@, file@, at@),
        }
    }
}

/// A path that may be missing, as a mathematical value.
pub open spec fn path_view(path: Option<Path>) -> Option<PathView> {
    match path {
        Some(path) => Some(path@),
        None => None,
    }
}

/// What the path of an address names.
pub open spec fn parsed(path: Seq<char>) -> Option<PathView> {
    let s = segments(path);
    if s.len() == 4 && s[2] == "commit"@ {
        Some(PathView::Commit(s[0], s[1], s[3]))
    } else if s.len() == 4 && s[2] == "issues"@ {
        Some(PathView::Issue(s[0], s[1], s[3]))
    } else if s.len() >= 6 && s[2] == "src"@ {
        Some(PathView::Src(s[0], s[1], rest_path(s, 5), s[4]))
    } else {
        None
    }
}

/// Tells what the path of an address names.
pub fn parse_path(path: &str) -> (out: Option<Path>)
    ensures
        path_view(out) == parsed(path@),
{
    let s = path_segments(path);
    proof {
        assert forall|i: int| 0 <= i < s@.len() implies segments(path@)[i] == (#[trigger] s@[i])@ by {
            assert(views(s@)[i] == s@[i]@);
        }
    }
    if s.len() == 4 && same(s[2].as_slice(), "commit") {
        Some(
            Path::Commit(
                to_string(s[0].as_slice()),
                to_string(s[1].as_slice()),
                to_string(s[3].as_slice()),
            ),
        )
    } else if s.len() == 4 && same(s[2].as_slice(), "issues") {
        Some(
            Path::Issue(
                to_string(s[0].as_slice()),
                to_string(s[1].as_slice()),
                to_string(s[3].as_slice()),
            ),
        )
    } else if s.len() >= 6 && same(s[2].as_slice(), "src") {
        Some(
            Path::Src(
                to_string(s[0].as_slice()),
                to_string(s[1].as_slice()),
                path_from(&s, 5),
                to_string(s[4].as_slice()),
            ),
        )
    } else {
        None
    }
}

/// Why the content that the API gives for a path is not shown.
#[derive(Debug, Clone, Copy, PartialEq, Eq, Structural)]
pub enum ContentError {
    /// The path names something other than a file.
    UnknownType,
    /// The content is no base64.
    Malformed,
}

/// The bytes of what the API gives for a path: of a file, what its content
/// stands for in base64.
pub open spec fn file_bytes(kind: Seq<char>, content: Seq<char>) -> Result<
    Seq<u8>,
    ContentError,
> {
    if kind == "file"@ {
        match crate::codec::base64_decoded(content) {
            Some(bytes) => Ok(bytes),
            None => Err(ContentError::Malformed),
        }
    } else {
        Err(ContentError::UnknownType)
    }
}

/// Decodes what the API gives for a path.
pub fn file_content(kind: &str, content: &str) -> (out: Result<Vec<u8>, ContentError>)
    ensures
        match out {
            Ok(bytes) => file_bytes(kind@, content@) == Ok::<Seq<u8>, ContentError>(bytes@),
            Err(error) => file_bytes(kind@, content@) == Err::<Seq<u8>, ContentError>(error),
        },
{
    if same(to_chars(kind).as_slice(), "file") {
        match crate::codec::decode_base64(content) {
            Some(bytes) => Ok(bytes),
            None => Err(ContentError::Malformed),
        }
    } else {
        Err(ContentError::UnknownType)
    }
}

/// Whether one of the first `k` pieces is `forgejo` or `gitea`.
pub open spec fn names_gitea(pieces: Seq<Seq<char>>, k: nat) -> bool
    decreases k,
{
    if k == 0 || k > pieces.len() {
        false
    } else {
        names_gitea(pieces, (k - 1) as nat) || pieces[k - 1] == "forgejo"@ || pieces[k - 1]
            == "gitea"@
    }
}

/// Tells whether the keywords of a page, which commas separate, mark it as
/// one of a Gitea or Forgejo server.
pub fn is_gitea(keywords: &str) -> (found: bool)
    ensures
        found == names_gitea(split(keywords@, ','), split(keywords@, ',').len()),
{
    let chars = to_chars(keywords);
    let pieces = split_at(chars.as_slice(), ',');
    let mut found = false;
    let mut k: usize = 0;
    while k < pieces.len()
        invariant
            k <= pieces.len(),
            pieces@.len() == split(keywords@, ',').len(),
            forall|i: int|
                0 <= i < pieces@.len() ==> (#[trigger] pieces@[i])@ == split(keywords@, ',')[i],
            found == names_gitea(split(keywords@, ','), k as nat),
        decreases pieces.len() - k,
    {
        if same(pieces[k].as_slice(), "forgejo") || same(pieces[k].as_slice(), "gitea") {
            found = true;
        }
        k += 1;
    }
    found
}

} // verus!
