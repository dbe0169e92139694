//! Imgur: what an address names.

use crate::content::{Collection, Item};
use crate::route::{path_segments, segments};
use crate::text::{same, split, split_at, text_view, to_string, views};
use vstd::prelude::*;

verus! {

/// What an address on Imgur names, by the identifier that the API knows.
#[derive(Debug, PartialEq, Eq)]
pub enum Path {
    Album(String),
    Image(String),
    Gallery(String),
}

/// A [`Path`] as a mathematical value.
pub enum PathView {
    Album(Seq<char>),
    Image(Seq<char>),
    Gallery(Seq<char>),
}

impl View for Path {
    type V = PathView;

    open spec fn view(&self) -> PathView {
        match self {
            Path::Album(id) => PathView::Album(id@),
            Path::Image(id) => PathView::Image(id@),
            Path::Gallery(id) => PathView::Gallery(id@),
        }
    }
}

/// A path that may be missing, as a mathematical value.
pub open spec fn path_view(path: Option<Path>) -> Option<PathView> {
    match path {
        Some(path) => Some(path@),
        None => None,
    }
}

/// The identifier in a segment that may begin with a title: what stands
/// behind the last hyphen.
pub open spec fn identifier(segment: Seq<char>) -> Seq<char> {
    split(segment, '-').last()
}

/// What the path of an address names.
pub open spec fn parsed(path: Seq<char>) -> Option<PathView> {
    let s = segments(path);
    if s.len() == 1 {
        Some(PathView::Image(identifier(s[0])))
    } else if s.len() == 2 && s[0] == "a"@ {
        Some(PathView::Album(identifier(s[1])))
    } else if s.len() == 2 && s[0] == "gallery"@ {
        Some(PathView::Gallery(identifier(s[1])))
    } else {
        None
    }
}

fn find_identifier(segment: &[char]) -> (id: String)
    ensures
        id@ == identifier(segment@),
{
    let pieces = split_at(segment, '-');
    to_string(pieces[pieces.len() - 1].as_slice())
}

/// Tells what the path of an address names.
pub fn parse_path(path: &str) -> (out: Option<Path>)
    ensures
        path_view(out) == parsed(path@),
{
    let s = path_segments(path);
    proof {
        assert forall|i: int| 0 <= i < s@.len() implies segments(path@)[i] == (#[trigger] s@[i])@ by {
            assert(views(s@)[i] == s@[i]@);
        }
    }
    if s.len() == 1 {
        Some(Path::Image(find_identifier(s[0].as_slice())))
    } else if s.len() == 2 && same(s[0].as_slice(), "a") {
        Some(Path::Album(find_identifier(s[1].as_slice())))
    } else if s.len() == 2 && same(s[0].as_slice(), "gallery") {
        Some(Path::Gallery(find_identifier(s[1].as_slice())))
    } else {
        None
    }
}

/// An image of an album as the API gives it.
#[derive(Debug)]
pub struct AlbumImage {
    pub title: Option<String>,
    pub link: String,
}

/// An album as the API gives it.
#[derive(Debug)]
pub struct Album {
    pub title: String,
    pub images: Vec<AlbumImage>,
}

/// What is shown for an album.
#[derive(Debug)]
pub enum Shown {
    /// The one image of the album, by its address.
    Single(String),
    /// The images as a list of links.
    Collection(Collection),
}

impl Album {
    /// Whether `collection` lists the images of the album: under the title
    /// of the album, if it has one, each image by its own title and its
    /// address.
    pub open spec fn listed_as(self, collection: Collection) -> bool {
        &&& text_view(collection.title) == (if self.title@.len() == 0 {
            None
        } else {
            Some(self.title@)
        })
        &&& collection.description is None
        &&& collection.items@.len() == self.images@.len()
        &&& forall|i: int|
            0 <= i < self.images@.len() ==> {
                let item = #[trigger] collection.items@[i];
                &&& text_view(item.title) == text_view(self.images@[i].title)
                &&& item.url@ == self.images@[i].link@
                &&& item.description is None
            }
    }

    /// Tells what is shown for the album: its image where it has just one,
    /// and otherwise the list of its images.
    pub fn show(&self) -> (shown: Shown)
        ensures
            match shown {
                Shown::Single(link) => self.images@.len() == 1 && link@ == self.images@[0].link@,
                Shown::Collection(collection) => self.images@.len() != 1 && self.listed_as(
                    collection,
                ),
            },
    {
        if self.images.len() == 1 {
            return Shown::Single(self.images[0].link.clone());
        }
        let mut items: Vec<Item> = Vec::new();
        let mut k: usize = 0;
        while k < self.images.len()
            invariant
                k <= self.images.len(),
                items@.len() == k,
                forall|i: int|
                    0 <= i < k ==> {
                        let item = #[trigger] items@[i];
                        &&& text_view(item.title) == text_view(self.images@[i].title)
                        &&& item.url@ == self.images@[i].link@
                        &&& item.description is None
                    },
            decreases self.images.len() - k,
        {
            let image = &self.images[k];
            items.push(
                Item {
                    title: match &image.title {
                        Some(title) => Some(title.clone()),
                        None => None,
                    },
                    url: image.link.clone(),
                    description: None,
                },
            );
            k += 1;
        }
        let title = if self.title.as_str().unicode_len() == 0 {
            None
        } else {
            Some(self.title.clone())
        };
        Shown::Collection(Collection { title, description: None, items })
    }
}

} // verus!
