//! Bluesky: what an address names, and how posts and threads are brought
//! into shape.

use crate::content::Post;
use crate::route::{path_segments, segments};
use crate::text::{same, strings_view, to_string, views};
use vstd::prelude::*;

verus! {

/// What an address on Bluesky names.
#[derive(Debug, PartialEq, Eq)]
pub enum Path {
    List { profile: String, list: String },
    Post { profile: String, post: String },
    Profile { profile: String },
}

/// A [`Path`] as a mathematical value.
pub enum PathView {
    List { profile: Seq<char>, list: Seq<char> },
    Post { profile: Seq<char>, post: Seq<char> },
    Profile { profile: Seq<char> },
}

impl View for Path {
    type V = PathView;

    open spec fn view(&self) -> PathView {
        match self {
            Path::List { profile, list } => PathView::List { profile: profile@, list: list@ },
            Path::Post { profile, post } => PathView::Post { profile: profile@, post: post@ },
            Path::Profile { profile } => PathView::Profile { profile: profile@ },
        }
    }
}

/// A path that may be missing, as a mathematical value.
pub open spec fn path_view(path: Option<Path>) -> Option<PathView> {
    match path {
        Some(path) => Some(path@),
        None => None,
    }
}

/// What the path of an address names: a list or a post of a profile, or
/// the profile itself.
pub open spec fn parsed(path: Seq<char>) -> Option<PathView> {
    let s = segments(path);
    if s.len() == 4 && s[0] == "profile"@ && s[2] == "lists"@ {
        Some(PathView::List { profile: s[1], list: s[3] })
    } else if s.len() == 4 && s[0] == "profile"@ && s[2] == "post"@ {
        Some(PathView::Post { profile: s[1], post: s[3] })
    } else if s.len() == 2 && s[0] == "profile"@ {
        Some(PathView::Profile { profile: s[1] })
    } else {
        None
    }
}

/// Tells what the path of an address names.
pub fn parse_path(path: &str) -> (out: Option<Path>)
    ensures
        path_view(out) == parsed(path@),
{
    let s = path_segments(path);
    proof {
        assert forall|i: int| 0 <= i < s@.len() implies segments(path@)[i] == (#[trigger] s@[i])@ by {
            assert(views(s@)[i] == s@[i]@);
        }
    }
    if s.len() == 4 && same(s[0].as_slice(), "profile") && same(s[2].as_slice(), "lists") {
        Some(
            Path::List {
                profile: to_string(s[1].as_slice()),
                list: to_string(s[3].as_slice()),
            },
        )
    } else if s.len() == 4 && same(s[0].as_slice(), "profile") && same(s[2].as_slice(), "post") {
        Some(
            Path::Post {
                profile: to_string(s[1].as_slice()),
                post: to_string(s[3].as_slice()),
            },
        )
    } else if s.len() == 2 && same(s[0].as_slice(), "profile") {
        Some(Path::Profile { profile: to_string(s[1].as_slice()) })
    } else {
        None
    }
}

/// What a part of the text of a post is marked as.
#[derive(Debug)]
pub enum FacetFeature {
    Mention,
    /// A link, with its address.
    Link(String),
    Tag,
    ByteSlice,
}

/// The marks on one part of the text of a post.
#[derive(Debug)]
pub struct Facet {
    pub features: Vec<FacetFeature>,
}

/// What is attached to a record beside another record.
#[derive(Debug)]
pub enum Media {
    /// Images, each by the address of its full size.
    Images(Vec<String>),
    /// A link, by its address.
    External(String),
}

/// What is attached to a post.
#[derive(Debug)]
pub enum Embed {
    /// Images, each by the address of its full size.
    Images(Vec<String>),
    /// A link, by its address.
    External(String),
    /// Another record.
    Record,
    /// Another record together with images or a link.
    RecordWithMedia(Media),
    /// A video, by the address of its playlist.
    Video(String),
}

/// A post as the API shows it.
#[derive(Debug)]
pub struct PostView {
    /// The handle of the author.
    pub handle: String,
    /// The name that the author shows, if any.
    pub display_name: Option<String>,
    /// The text of the post.
    pub text: String,
    /// The marks on the text.
    pub facets: Option<Vec<Facet>>,
    /// What is attached.
    pub embed: Option<Embed>,
}

/// A place in a thread: a post, or a mark that one cannot be shown.
#[derive(Debug)]
pub enum PostViewEnum {
    Thread(ThreadViewPost),
    NotFound,
    Blocked,
}

/// A post with the post that it answers and the posts that answer it.
#[derive(Debug)]
pub struct ThreadViewPost {
    pub post: PostView,
    pub replies: Option<Vec<PostViewEnum>>,
    pub parent: Option<Box<PostViewEnum>>,
}

/// The addresses of the links among the first `k` features.
pub open spec fn feature_links(features: Seq<FacetFeature>, k: nat) -> Seq<Seq<char>>
    decreases k,
{
    if k == 0 || k > features.len() {
        Seq::empty()
    } else {
        match features[k - 1] {
            FacetFeature::Link(uri) => feature_links(features, (k - 1) as nat).push(uri@),
            _ => feature_links(features, (k - 1) as nat),
        }
    }
}

/// The addresses of the links among the first `k` facets.
pub open spec fn facet_links(facets: Seq<Facet>, k: nat) -> Seq<Seq<char>>
    decreases k,
{
    if k == 0 || k > facets.len() {
        Seq::empty()
    } else {
        facet_links(facets, (k - 1) as nat) + feature_links(
            facets[k - 1].features@,
            facets[k - 1].features@.len(),
        )
    }
}

impl Media {
    /// The addresses of what is attached.
    pub open spec fn links(self) -> Seq<Seq<char>> {
        match self {
            Media::Images(images) => strings_view(images@),
            Media::External(uri) => seq![uri@],
        }
    }
}

impl Embed {
    /// The addresses of what is attached: of each image, of the link or of
    /// the video, and none for a record.
    pub open spec fn links(self) -> Seq<Seq<char>> {
        match self {
            Embed::Images(images) => strings_view(images@),
            Embed::External(uri) => seq![uri@],
            Embed::Record => Seq::empty(),
            Embed::RecordWithMedia(media) => media.links(),
            Embed::Video(playlist) => seq![playlist@],
        }
    }

    /// Lists the addresses of what is attached.
    pub fn urls(&self) -> (urls: Vec<String>)
        ensures
            strings_view(urls@) == self.links(),
    {
        let mut urls: Vec<String> = Vec::new();
        match self {
            Embed::Images(images) | Embed::RecordWithMedia(Media::Images(images)) => {
                copy_urls(images, &mut urls);
                assert(strings_view(urls@) =~= self.links());
            },
            Embed::External(uri)
            | Embed::RecordWithMedia(Media::External(uri))
            | Embed::Video(uri) => {
                urls.push(uri.clone());
                assert(strings_view(urls@) =~= self.links());
            },
            Embed::Record => {
                assert(strings_view(urls@) =~= self.links());
            },
        }
        urls
    }
}

/// Copies the addresses `from` onto the end of `urls`.
fn copy_urls(from: &Vec<String>, urls: &mut Vec<String>)
    ensures
        strings_view(final(urls)@) == strings_view(old(urls)@) + strings_view(from@),
{
    let mut k: usize = 0;
    assert(strings_view(urls@) =~= strings_view(old(urls)@) + strings_view(from@).take(0));
    while k < from.len()
        invariant
            k <= from.len(),
            strings_view(urls@) == strings_view(old(urls)@) + strings_view(from@).take(k as int),
        decreases from.len() - k,
    {
        let ghost before = strings_view(urls@);
        urls.push(from[k].clone());
        k += 1;
        assert(strings_view(urls@) =~= before.push(from@[k - 1]@));
        assert(strings_view(from@).take(k as int) =~= strings_view(from@).take(k - 1).push(
            from@[k - 1]@,
        ));
        assert(strings_view(urls@) =~= strings_view(old(urls)@) + strings_view(from@).take(k as int));
    }
    assert(strings_view(from@).take(from@.len() as int) =~= strings_view(from@));
}

impl PostView {
    /// The name under which the post is shown: the name that the author
    /// shows, or without one the handle.
    pub open spec fn author(self) -> Seq<char> {
        match self.display_name {
            Some(name) => name@,
            None => self.handle@,
        }
    }

    /// The addresses that belong to the post: those of the links in its
    /// text, then those of what is attached.
    pub open spec fn links(self) -> Seq<Seq<char>> {
        let marked = match self.facets {
            Some(facets) => facet_links(facets@, facets@.len()),
            None => Seq::empty(),
        };
        let attached = match self.embed {
            Some(embed) => embed.links(),
            None => Seq::empty(),
        };
        marked + attached
    }

    /// Whether `post` is this post brought into shape.
    pub open spec fn shown_as(self, post: Post) -> bool {
        &&& post.author@ == self.author()
        &&& post.body@ == self.text@
        &&& strings_view(post.urls@) == self.links()
    }

    /// Brings the post into shape.
    pub fn render(&self) -> (post: Post)
        ensures
            self.shown_as(post),
    {
        let mut urls: Vec<String> = Vec::new();
        if let Some(facets) = &self.facets {
            let mut i: usize = 0;
            assert(strings_view(urls@) =~= facet_links(facets@, 0));
            while i < facets.len()
                invariant
                    i <= facets.len(),
                    strings_view(urls@) == facet_links(facets@, i as nat),
                decreases facets.len() - i,
            {
                let features = &facets[i].features;
                let ghost before = strings_view(urls@);
                let mut j: usize = 0;
                assert(strings_view(urls@) =~= before + feature_links(features@, 0));
                while j < features.len()
                    invariant
                        j <= features.len(),
                        strings_view(urls@) == before + feature_links(features@, j as nat),
                    decreases features.len() - j,
                {
                    if let FacetFeature::Link(uri) = &features[j] {
                        let ghost so_far = strings_view(urls@);
                        urls.push(uri.clone());
                        assert(strings_view(urls@) =~= so_far.push(uri@));
                    }
                    j += 1;
                    assert(strings_view(urls@) =~= before + feature_links(features@, j as nat));
                }
                i += 1;
            }
        }
        let ghost marked = strings_view(urls@);
        if let Some(embed) = &self.embed {
            let attached = embed.urls();
            copy_urls(&attached, &mut urls);
        }
        assert(strings_view(urls@) =~= self.links());
        Post {
            author: match &self.display_name {
                Some(name) => name.clone(),
                None => self.handle.clone(),
            },
            body: self.text.clone(),
            urls,
        }
    }
}

/// The posts that `thread` answers, the nearest first, up to the first
/// that cannot be shown.
pub open spec fn ancestors(thread: ThreadViewPost) -> Seq<PostView>
    decreases thread,
{
    match thread.parent {
        Some(parent) => match *parent {
            PostViewEnum::Thread(above) => seq![above.post] + ancestors(above),
            _ => Seq::empty(),
        },
        None => Seq::empty(),
    }
}

/// The posts below the first `k` answers to `thread`: each answer that can
/// be shown, followed by what lies below it.
pub open spec fn descendants(thread: ThreadViewPost, k: nat) -> Seq<PostView>
    decreases thread, k,
{
    match thread.replies {
        Some(replies) => if k == 0 || k > replies@.len() {
            Seq::empty()
        } else {
            let before = descendants(thread, (k - 1) as nat);
            match replies@[k - 1] {
                PostViewEnum::Thread(below) => (before + seq![below.post]) + all_descendants(
                    below,
                ),
                _ => before,
            }
        },
        None => Seq::empty(),
    }
}

/// The posts below `thread`, in the order in which a reader meets them.
pub open spec fn all_descendants(thread: ThreadViewPost) -> Seq<PostView>
    decreases
            thread,
            (match thread.replies {
                Some(replies) => replies@.len() + 1,
                None => 0,
            }),
{
    match thread.replies {
        Some(replies) => descendants(thread, replies@.len()),
        None => Seq::empty(),
    }
}

/// Whether `posts` are `shown`, each brought into shape.
pub open spec fn all_shown(shown: Seq<PostView>, posts: Seq<Post>) -> bool {
    &&& posts.len() == shown.len()
    &&& forall|i: int| 0 <= i < posts.len() ==> (#[trigger] shown[i]).shown_as(posts[i])
}

impl ThreadViewPost {
    /// Brings the posts that this one answers into shape, the nearest
    /// first.
    pub fn take_parents(&self) -> (posts: Vec<Post>)
        ensures
            all_shown(ancestors(*self), posts@),
    {
        let mut posts: Vec<Post> = Vec::new();
        let mut current = self;
        let ghost done: Seq<PostView> = Seq::empty();
        loop
            invariant
                all_shown(done, posts@),
                done + ancestors(*current) == ancestors(*self),
            ensures
                all_shown(ancestors(*self), posts@),
            decreases *current,
        {
            match &current.parent {
                Some(parent) => match &**parent {
                    PostViewEnum::Thread(above) => {
                        proof {
                            assert(decreases_to!(*current => current.parent));
                            assert(decreases_to!(current.parent => current.parent->0));
                            assert(decreases_to!(**parent => (**parent)->Thread_0));
                            let longer = done.push(above.post);
                            assert(longer + ancestors(*above) =~= done + ancestors(*current));
                            done = longer;
                        }
                        posts.push(above.post.render());
                        current = above;
                    },
                    _ => {
                        assert(done =~= done + ancestors(*current));
                        break;
                    },
                },
                None => {
                    assert(done =~= done + ancestors(*current));
                    break;
                },
            }
        }
        posts
    }

    /// Brings the posts below this one into shape, in the order in which a
    /// reader meets them.
    pub fn take_replies(&self) -> (posts: Vec<Post>)
        ensures
            all_shown(all_descendants(*self), posts@),
    {
        let mut posts: Vec<Post> = Vec::new();
        let ghost mut shown: Seq<PostView> = Seq::empty();
        collect_replies(self, &mut posts, Ghost(shown));
        assert(shown + all_descendants(*self) =~= all_descendants(*self));
        posts
    }
}

/// Adds the posts below `thread` to `posts`.
fn collect_replies(thread: &ThreadViewPost, posts: &mut Vec<Post>, Ghost(shown): Ghost<Seq<PostView>>)
    requires
        all_shown(shown, old(posts)@),
    ensures
        all_shown(shown + all_descendants(*thread), final(posts)@),
    decreases *thread,
{
    match &thread.replies {
        Some(replies) => {
            let mut k: usize = 0;
            assert(shown + descendants(*thread, 0) =~= shown);
            while k < replies.len()
                invariant
                    k <= replies.len(),
                    thread.replies == Some(*replies),
                    all_shown(shown + descendants(*thread, k as nat), posts@),
                decreases replies.len() - k,
            {
                if let PostViewEnum::Thread(below) = &replies[k] {
                    proof {
                        assert(decreases_to!(*thread => thread.replies));
                        assert(decreases_to!(thread.replies => thread.replies->0));
                        assert(decreases_to!(thread.replies->0 => thread.replies->0@));
                        assert(decreases_to!(replies@ => replies@[k as int]));
                        assert(decreases_to!(replies@[k as int] => replies@[k as int]->Thread_0));
                    }
                    let ghost before = shown + descendants(*thread, k as nat);
                    posts.push(below.post.render());
                    assert(all_shown(before.push(below.post), posts@));
                    collect_replies(below, posts, Ghost(before.push(below.post)));
                    assert(before.push(below.post) + all_descendants(*below) =~= shown
                        + descendants(*thread, (k + 1) as nat));
                } else {
                    assert(descendants(*thread, (k + 1) as nat) == descendants(*thread, k as nat));
                }
                k += 1;
            }
        },
        None => {
            assert(shown + all_descendants(*thread) =~= shown);
        },
    }
}

} // verus!
