//! GitHub: what an address names, and how comments and gists are brought
//! into shape.

use crate::content::{Collection, Item, Post};
use crate::route::{path_segments, segments};
use crate::text::{
    extend, join, join_range, same, split, split_at, to_chars, to_string, views,
};
use vstd::prelude::*;

verus! {

/// What an address on GitHub names. The first two fields are the owner and
/// the name of the repository.
#[derive(Debug, PartialEq, Eq)]
pub enum Path {
    /// A file: the repository, the path of the file and the ref.
    Blob(String, String, String, String),
    /// A commit: the repository and the hash.
    Commit(String, String, String),
    /// A comparison: the repository and the two ends.
    Compare(String, String, String),
    /// An issue: the repository and the number.
    Issue(String, String, String),
    /// A pull request: the repository and the number.
    PullRequest(String, String, String),
    /// Something that is fetched as it is.
    Raw,
    /// A release: the repository and the tag.
    Release(String, String, String),
    /// A repository.
    Repo(String, String),
}

/// A [`Path`] as a mathematical value.
pub enum PathView {
    Blob(Seq<char>, Seq<char>, Seq<char>, Seq<char>),
    Commit(Seq<char>, Seq<char>, Seq<char>),
    Compare(Seq<char>, Seq<char>, Seq<char>),
    Issue(Seq<char>, Seq<char>, Seq<char>),
    PullRequest(Seq<char>, Seq<char>, Seq<char>),
    Raw,
    Release(Seq<char>, Seq<char>, Seq<char>),
    Repo(Seq<char>, Seq<char>),
}

impl View for Path {
    type V = PathView;

    open spec fn view(&self) -> PathView {
        match self {
            Path::Blob(owner, repo, file, at) => PathView::Blob(owner@, repo@, file@, at@),
            Path::Commit(owner, repo, hash) => PathView::Commit(owner@, repo@, hash@),
            Path::Compare(owner, repo, ends) => PathView::Compare(owner@, repo@, ends@),
            Path::Issue(owner, repo, number) => PathView::Issue(owner@, repo@, number@),
            Path::PullRequest(owner, repo, number) => PathView::PullRequest(
                owner@,
                repo@,
                number@,
            ),
            Path::Raw => PathView::Raw,
            Path::Release(owner, repo, tag) => PathView::Release(owner@, repo@, tag@),
            Path::Repo(owner, repo) => PathView::Repo(owner@, repo@),
        }
    }
}

/// A path that may be missing, as a mathematical value.
pub open spec fn path_view(path: Option<Path>) -> Option<PathView> {
    match path {
        Some(path) => Some(path@),
        None => None,
    }
}

/// The segments from place `from` on, as a path of their own.
pub open spec fn rest_path(s: Seq<Seq<char>>, from: int) -> Seq<char> {
    seq!['/'] + join(s.subrange(from, s.len() as int), '/')
}

/// What stands before the first dot of `name`.
pub open spec fn before_dot(name: Seq<char>) -> Seq<char> {
    split(name, '.')[0]
}

/// The two ends of a comparison, without an extension: what stands before
/// the fourth dot of `name`, or all of it where it has fewer dots.
pub open spec fn before_fourth_dot(name: Seq<char>) -> Seq<char> {
    let pieces = split(name, '.');
    if pieces.len() >= 5 {
        join(pieces.subrange(0, 4), '.')
    } else {
        name
    }
}

/// Whether `name` holds a dot.
pub open spec fn dotted(name: Seq<char>) -> bool {
    split(name, '.').len() >= 2
}

/// What the path of an address names.
pub open spec fn parsed(path: Seq<char>) -> Option<PathView> {
    let s = segments(path);
    if s.len() == 2 {
        Some(PathView::Repo(s[0], s[1]))
    } else if s.len() >= 4 && s[2] == "assets"@ {
        Some(PathView::Raw)
    } else if s.len() >= 5 && s[2] == "blob"@ {
        Some(PathView::Blob(s[0], s[1], rest_path(s, 4), s[3]))
    } else if s.len() == 4 && s[2] == "commit"@ {
        Some(PathView::Commit(s[0], s[1], before_dot(s[3])))
    } else if s.len() == 4 && s[2] == "compare"@ {
        Some(PathView::Compare(s[0], s[1], before_fourth_dot(s[3])))
    } else if s.len() == 4 && s[2] == "issues"@ {
        Some(PathView::Issue(s[0], s[1], s[3]))
    } else if s.len() == 4 && s[2] == "pull"@ {
        if dotted(s[3]) {
            Some(PathView::Raw)
        } else {
            Some(PathView::PullRequest(s[0], s[1], s[3]))
        }
    } else if s.len() >= 5 && s[2] == "raw"@ {
        Some(PathView::Raw)
    } else if s.len() == 5 && s[2] == "releases"@ && s[3] == "tag"@ {
        Some(PathView::Release(s[0], s[1], s[4]))
    } else {
        None
    }
}

/// Puts the segments from place `from` on together as a path.
pub(crate) fn path_from(s: &Vec<Vec<char>>, from: usize) -> (out: String)
    requires
        from <= s@.len(),
    ensures
        out@ == rest_path(views(s@), from as int),
{
    let mut out: Vec<char> = Vec::new();
    out.push('/');
    let rest = join_range(s, from, s.len(), '/');
    extend(&mut out, rest.as_slice());
    assert(out@ =~= rest_path(views(s@), from as int));
    to_string(out.as_slice())
}

/// Tells what the path of an address names.
pub fn parse_path(path: &str) -> (out: Option<Path>)
    ensures
        path_view(out) == parsed(path@),
{
    let s = path_segments(path);
    proof {
        assert forall|i: int| 0 <= i < s@.len() implies segments(path@)[i] == (#[trigger] s@[i])@ by {
            assert(views(s@)[i] == s@[i]@);
        }
    }
    if s.len() == 2 {
        return Some(Path::Repo(to_string(s[0].as_slice()), to_string(s[1].as_slice())));
    }
    if s.len() < 4 {
        return None;
    }
    let owner = to_string(s[0].as_slice());
    let repo = to_string(s[1].as_slice());
    let kind = s[2].as_slice();
    if same(kind, "assets") {
        Some(Path::Raw)
    } else if s.len() >= 5 && same(kind, "blob") {
        Some(Path::Blob(owner, repo, path_from(&s, 4), to_string(s[3].as_slice())))
    } else if s.len() == 4 && same(kind, "commit") {
        let pieces = split_at(s[3].as_slice(), '.');
        assert(views(pieces@)[0] == pieces@[0]@);
        Some(Path::Commit(owner, repo, to_string(pieces[0].as_slice())))
    } else if s.len() == 4 && same(kind, "compare") {
        let pieces = split_at(s[3].as_slice(), '.');
        assert(views(pieces@) =~= split(s@[3]@, '.'));
        let ends = if pieces.len() >= 5 {
            let kept = join_range(&pieces, 0, 4, '.');
            to_string(kept.as_slice())
        } else {
            to_string(s[3].as_slice())
        };
        Some(Path::Compare(owner, repo, ends))
    } else if s.len() == 4 && same(kind, "issues") {
        Some(Path::Issue(owner, repo, to_string(s[3].as_slice())))
    } else if s.len() == 4 && same(kind, "pull") {
        let pieces = split_at(s[3].as_slice(), '.');
        if pieces.len() >= 2 {
            Some(Path::Raw)
        } else {
            Some(Path::PullRequest(owner, repo, to_string(s[3].as_slice())))
        }
    } else if s.len() >= 5 && same(kind, "raw") {
        Some(Path::Raw)
    } else if s.len() == 5 && same(kind, "releases") && same(s[3].as_slice(), "tag") {
        Some(Path::Release(owner, repo, to_string(s[4].as_slice())))
    } else {
        None
    }
}

/// A comment as the API gives it.
#[derive(Debug)]
pub struct Comment {
    /// The text of the comment.
    pub body: String,
    /// When the comment was made, as an ISO 8601 timestamp.
    pub created_at: String,
    /// The name of the author.
    pub login: String,
}

impl Comment {
    /// Whether `post` is this comment brought into shape.
    pub open spec fn shown_as(self, post: Post) -> bool {
        &&& post.author@ == self.login@
        &&& post.body@ == self.body@
        &&& post.urls@.len() == 0
    }

    fn render(&self) -> (post: Post)
        ensures
            self.shown_as(post),
    {
        Post { author: self.login.clone(), body: self.body.clone(), urls: Vec::new() }
    }
}

/// Whether `posts` are `comments`, each brought into shape.
pub open spec fn all_shown(comments: Seq<Comment>, posts: Seq<Post>) -> bool {
    &&& posts.len() == comments.len()
    &&& forall|i: int| 0 <= i < posts.len() ==> (#[trigger] comments[i]).shown_as(posts[i])
}

/// Brings comments into shape, in the order in which they are given.
pub fn posts_of(comments: &Vec<Comment>) -> (posts: Vec<Post>)
    ensures
        all_shown(comments@, posts@),
{
    let mut posts: Vec<Post> = Vec::new();
    let mut k: usize = 0;
    while k < comments.len()
        invariant
            k <= comments.len(),
            all_shown(comments@.take(k as int), posts@),
        decreases comments.len() - k,
    {
        posts.push(comments[k].render());
        k += 1;
    }
    assert(comments@.take(comments@.len() as int) =~= comments@);
    posts
}

/// Whether the text `a` stands before `b`, or is the same, in the order of
/// a dictionary that goes by the characters' numbers: timestamps of one
/// format stand in it as they follow in time.
pub open spec fn no_later(a: Seq<char>, b: Seq<char>) -> bool
    decreases a.len(),
{
    if a.len() == 0 {
        true
    } else if b.len() == 0 {
        false
    } else if a[0] != b[0] {
        a[0] < b[0]
    } else {
        no_later(a.drop_first(), b.drop_first())
    }
}

/// Tells whether the text `a` stands before `b` or is the same.
fn precedes(a: &[char], b: &[char]) -> (before: bool)
    ensures
        before == no_later(a@, b@),
{
    let mut i: usize = 0;
    assert(a@.skip(0) =~= a@ && b@.skip(0) =~= b@);
    while i < a.len() && i < b.len()
        invariant
            i <= a.len(),
            i <= b.len(),
            no_later(a@, b@) == no_later(a@.skip(i as int), b@.skip(i as int)),
        decreases a.len() - i,
    {
        assert(a@.skip(i as int)[0] == a@[i as int] && b@.skip(i as int)[0] == b@[i as int]);
        if a[i] != b[i] {
            return a[i] < b[i];
        }
        assert(a@.skip(i as int).drop_first() =~= a@.skip(i + 1));
        assert(b@.skip(i as int).drop_first() =~= b@.skip(i + 1));
        i += 1;
    }
    i == a.len()
}

/// The comments `sorted`, which stand in the order of their time, with
/// `comment` among them: behind the last that is no later than it.
pub open spec fn inserted(sorted: Seq<Comment>, comment: Comment) -> Seq<Comment>
    decreases sorted.len(),
{
    if sorted.len() == 0 {
        seq![comment]
    } else if no_later(sorted.last().created_at@, comment.created_at@) {
        sorted.push(comment)
    } else {
        inserted(sorted.drop_last(), comment).push(sorted.last())
    }
}

/// The comments in the order of their time. Comments of the same time keep
/// the order in which they are given.
pub open spec fn in_time_order(comments: Seq<Comment>) -> Seq<Comment>
    decreases comments.len(),
{
    if comments.len() == 0 {
        Seq::empty()
    } else {
        inserted(in_time_order(comments.drop_last()), comments.last())
    }
}

/// A comment goes to the place behind which every comment is later than
/// it, and before which the nearest is not.
proof fn lemma_inserted_at(sorted: Seq<Comment>, comment: Comment, place: int)
    requires
        0 <= place <= sorted.len(),
        place > 0 ==> no_later(sorted[place - 1].created_at@, comment.created_at@),
        forall|i: int|
            place <= i < sorted.len() ==> !no_later(
                (#[trigger] sorted[i]).created_at@,
                comment.created_at@,
            ),
    ensures
        inserted(sorted, comment) == sorted.insert(place, comment),
    decreases sorted.len() - place,
{
    if place < sorted.len() {
        let front = sorted.drop_last();
        assert(!no_later(sorted[sorted.len() - 1].created_at@, comment.created_at@));
        assert forall|i: int| place <= i < front.len() implies !no_later(
            (#[trigger] front[i]).created_at@,
            comment.created_at@,
        ) by {
            assert(front[i] == sorted[i]);
        }
        lemma_inserted_at(front, comment, place);
        assert(front.insert(place, comment).push(sorted.last()) =~= sorted.insert(
            place,
            comment,
        ));
    } else {
        assert(sorted.insert(place, comment) =~= sorted.push(comment));
    }
}

/// Of two texts, one is no later than the other.
pub proof fn lemma_no_later_total(a: Seq<char>, b: Seq<char>)
    ensures
        no_later(a, b) || no_later(b, a),
    decreases a.len(),
{
    if a.len() > 0 && b.len() > 0 && a[0] == b[0] {
        lemma_no_later_total(a.drop_first(), b.drop_first());
    }
}

/// What is no later than something that is no later than a third is no
/// later than the third.
pub proof fn lemma_no_later_transitive(a: Seq<char>, b: Seq<char>, c: Seq<char>)
    requires
        no_later(a, b),
        no_later(b, c),
    ensures
        no_later(a, c),
    decreases a.len(),
{
    if a.len() > 0 && b.len() > 0 && c.len() > 0 && a[0] == b[0] && b[0] == c[0] {
        lemma_no_later_transitive(a.drop_first(), b.drop_first(), c.drop_first());
    }
}

/// Whether each of the comments is no later than those behind it.
pub open spec fn sorted_by_time(comments: Seq<Comment>) -> bool {
    forall|i: int, j: int|
        0 <= i < j < comments.len() ==> no_later(
            (#[trigger] comments[i]).created_at@,
            (#[trigger] comments[j]).created_at@,
        )
}

proof fn lemma_inserted_sorted(sorted: Seq<Comment>, comment: Comment)
    requires
        sorted_by_time(sorted),
    ensures
        sorted_by_time(inserted(sorted, comment)),
        inserted(sorted, comment).len() == sorted.len() + 1,
        forall|i: int|
            0 <= i < inserted(sorted, comment).len() ==> (#[trigger] inserted(sorted, comment)[i])
                == comment || exists|j: int|
                0 <= j < sorted.len() && sorted[j] == inserted(sorted, comment)[i],
    decreases sorted.len(),
{
    let out = inserted(sorted, comment);
    if sorted.len() == 0 {
    } else if no_later(sorted.last().created_at@, comment.created_at@) {
        assert forall|i: int, j: int| 0 <= i < j < out.len() implies no_later(
            (#[trigger] out[i]).created_at@,
            (#[trigger] out[j]).created_at@,
        ) by {
            if j == out.len() - 1 {
                if i < sorted.len() - 1 {
                    assert(no_later(sorted[i].created_at@, sorted[sorted.len() - 1].created_at@));
                    lemma_no_later_transitive(
                        sorted[i].created_at@,
                        sorted.last().created_at@,
                        comment.created_at@,
                    );
                }
            } else {
                assert(no_later(sorted[i].created_at@, sorted[j].created_at@));
            }
        }
        assert forall|i: int| 0 <= i < out.len() implies (#[trigger] out[i]) == comment
            || exists|j: int| 0 <= j < sorted.len() && sorted[j] == out[i] by {
            if i < sorted.len() {
                assert(sorted[i] == out[i]);
            }
        }
    } else {
        let front = sorted.drop_last();
        let last = sorted.last();
        assert forall|i: int, j: int| 0 <= i < j < front.len() implies no_later(
            (#[trigger] front[i]).created_at@,
            (#[trigger] front[j]).created_at@,
        ) by {
            assert(no_later(sorted[i].created_at@, sorted[j].created_at@));
        }
        lemma_inserted_sorted(front, comment);
        let inner = inserted(front, comment);
        lemma_no_later_total(last.created_at@, comment.created_at@);
        assert forall|i: int| 0 <= i < inner.len() implies no_later(
            (#[trigger] inner[i]).created_at@,
            last.created_at@,
        ) by {
            if inner[i] != comment {
                let j = choose|j: int| 0 <= j < front.len() && front[j] == inner[i];
                assert(no_later(sorted[j].created_at@, sorted[sorted.len() - 1].created_at@));
            }
        }
        assert forall|i: int, j: int| 0 <= i < j < out.len() implies no_later(
            (#[trigger] out[i]).created_at@,
            (#[trigger] out[j]).created_at@,
        ) by {
            if j < inner.len() {
                assert(no_later(inner[i].created_at@, inner[j].created_at@));
            } else {
                assert(no_later(inner[i].created_at@, last.created_at@));
            }
        }
        assert forall|i: int| 0 <= i < out.len() implies (#[trigger] out[i]) == comment
            || exists|j: int| 0 <= j < sorted.len() && sorted[j] == out[i] by {
            if i < inner.len() {
                if inner[i] != comment {
                    let j = choose|j: int| 0 <= j < front.len() && front[j] == inner[i];
                    assert(sorted[j] == out[i]);
                }
            } else {
                assert(sorted[sorted.len() - 1] == out[i]);
            }
        }
    }
}

/// Comments in the order of their time are as many as were given, and
/// each is no later than those behind it.
pub proof fn time_order_is_sorted(comments: Seq<Comment>)
    ensures
        sorted_by_time(in_time_order(comments)),
        in_time_order(comments).len() == comments.len(),
    decreases comments.len(),
{
    if comments.len() > 0 {
        time_order_is_sorted(comments.drop_last());
        lemma_inserted_sorted(in_time_order(comments.drop_last()), comments.last());
    }
}

/// Brings comments into shape, in the order of their time.
pub fn posts_in_time_order(comments: &Vec<Comment>) -> (posts: Vec<Post>)
    ensures
        all_shown(in_time_order(comments@), posts@),
{
    let mut posts: Vec<Post> = Vec::new();
    let mut times: Vec<Vec<char>> = Vec::new();
    let ghost mut sorted: Seq<Comment> = Seq::empty();
    let mut k: usize = 0;
    while k < comments.len()
        invariant
            k <= comments.len(),
            sorted == in_time_order(comments@.take(k as int)),
            all_shown(sorted, posts@),
            times@.len() == sorted.len(),
            forall|i: int| 0 <= i < times@.len() ==> (#[trigger] times@[i])@ == sorted[i].created_at@,
        decreases comments.len() - k,
    {
        let comment = &comments[k];
        let time = to_chars(comment.created_at.as_str());
        let mut place = times.len();
        while place > 0 && !precedes(times[place - 1].as_slice(), time.as_slice())
            invariant
                place <= times@.len(),
                times@.len() == sorted.len(),
                time@ == comment.created_at@,
                forall|i: int|
                    0 <= i < times@.len() ==> (#[trigger] times@[i])@ == sorted[i].created_at@,
                forall|i: int|
                    place <= i < sorted.len() ==> !no_later(
                        (#[trigger] sorted[i]).created_at@,
                        comment.created_at@,
                    ),
            decreases place,
        {
            place -= 1;
        }
        proof {
            lemma_inserted_at(sorted, *comment, place as int);
            assert(comments@.take(k + 1).drop_last() =~= comments@.take(k as int));
            sorted = sorted.insert(place as int, *comment);
        }
        times.insert(place, time);
        posts.insert(place, comment.render());
        k += 1;
    }
    assert(comments@.take(comments@.len() as int) =~= comments@);
    posts
}

/// A file of a gist as the API gives it.
#[derive(Debug)]
pub struct GistFile {
    pub content: String,
    pub filename: String,
    pub raw_url: String,
}

/// What is shown for a gist.
#[derive(Debug)]
pub enum GistShown {
    /// The content of the one file of the gist.
    Raw(String),
    /// The files as a list of links.
    Collection(Collection),
}

/// Whether `collection` lists `files` under `description`: each file by its
/// name and the address of its raw content.
pub open spec fn lists_files(collection: Collection, description: String, files: Seq<GistFile>) -> bool {
    &&& collection.title is None
    &&& collection.description == Some(description)
    &&& collection.items@.len() == files.len()
    &&& forall|i: int|
        0 <= i < files.len() ==> {
            let item = #[trigger] collection.items@[i];
            &&& item.title == Some(files[i].filename)
            &&& item.url == files[i].raw_url
            &&& item.description is None
        }
}

/// Tells what is shown for a gist: the content of its file where it has
/// just one, and otherwise the list of its files.
pub fn show_gist(description: String, files: Vec<GistFile>) -> (shown: GistShown)
    ensures
        match shown {
            GistShown::Raw(content) => files@.len() == 1 && content == files@[0].content,
            GistShown::Collection(collection) => files@.len() != 1 && lists_files(
                collection,
                description,
                files@,
            ),
        },
{
    let mut files = files;
    let ghost given = files@;
    if files.len() == 1 {
        let file = files.remove(0);
        return GistShown::Raw(file.content);
    }
    let mut items: Vec<Item> = Vec::new();
    let mut k: usize = 0;
    while k < files.len()
        invariant
            k <= files.len(),
            files@ == given,
            items@.len() == k,
            forall|i: int|
                0 <= i < k ==> {
                    let item = #[trigger] items@[i];
                    &&& item.title == Some(given[i].filename)
                    &&& item.url == given[i].raw_url
                    &&& item.description is None
                },
        decreases files.len() - k,
    {
        items.push(
            Item {
                title: Some(files[k].filename.clone()),
                url: files[k].raw_url.clone(),
                description: None,
            },
        );
        k += 1;
    }
    GistShown::Collection(Collection { title: None, description: Some(description), items })
}

} // verus!
