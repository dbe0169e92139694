//! The shapes that the content of a page is brought into, and how each is
//! written out as text.

use crate::html::wrap::{fill, filled};
use crate::text::{extend, to_chars, to_string};
use crate::LINE_LENGTH;
use vstd::prelude::*;
use vstd::string::StringSliceAdditionalSpecFns;

verus! {

/// An article: a title and a body that is already laid out.
#[derive(Debug)]
pub struct Article {
    pub title: String,
    pub body: String,
}

/// One contribution to a discussion.
#[derive(Debug)]
pub struct Post {
    pub author: String,
    pub body: String,
    pub urls: Vec<String>,
}

/// A post with what came before it and what came after.
#[derive(Debug)]
pub struct PostThread {
    pub main: Post,
    pub before: Vec<Post>,
    pub after: Vec<Post>,
}

/// One entry of a collection.
#[derive(Debug)]
pub struct Item {
    pub title: Option<String>,
    pub url: String,
    pub description: Option<String>,
}

/// A list of links.
#[derive(Debug)]
pub struct Collection {
    pub title: Option<String>,
    pub description: Option<String>,
    pub items: Vec<Item>,
}

/// Content that is shown as text.
#[derive(Debug)]
pub enum TextType {
    Article(Article),
    Post(Post),
    PostThread(PostThread),
    Raw(Vec<u8>),
}

/// `text` wrapped to the usual line length, without indentation.
pub open spec fn wrapped(text: Seq<char>) -> Seq<char> {
    filled(text, LINE_LENGTH as nat, Seq::empty(), Seq::empty())
}

/// `text` wrapped to the usual line length, each line behind four spaces.
pub open spec fn indented(text: Seq<char>) -> Seq<char> {
    filled(text, LINE_LENGTH as nat, seq![' ', ' ', ' ', ' '], seq![' ', ' ', ' ', ' '])
}

/// The first `k` addresses, each on a line of its own.
pub open spec fn url_lines(urls: Seq<String>, k: nat) -> Seq<char>
    decreases k,
{
    if k == 0 || k > urls.len() {
        Seq::empty()
    } else {
        url_lines(urls, (k - 1) as nat) + seq!['\n'] + urls[k - 1]@
    }
}

impl Post {
    /// The post as text: the author in angle brackets in front of the body,
    /// wrapped, and after an empty line the addresses that belong to it.
    pub open spec fn text(self) -> Seq<char> {
        let said = wrapped(seq!['<'] + self.author@ + seq!['>', ' '] + self.body@);
        if self.urls@.len() == 0 {
            said
        } else {
            said + seq!['\n'] + url_lines(self.urls@, self.urls@.len())
        }
    }

    /// Writes the post as text.
    pub fn render(&self) -> (out: String)
        ensures
            out@ == self.text(),
    {
        let mut out: Vec<char> = Vec::new();
        self.write(&mut out);
        to_string(out.as_slice())
    }

    fn write(&self, out: &mut Vec<char>)
        ensures
            final(out)@ == old(out)@ + self.text(),
    {
        let mut said: Vec<char> = Vec::new();
        said.push('<');
        extend(&mut said, to_chars(self.author.as_str()).as_slice());
        said.push('>');
        said.push(' ');
        extend(&mut said, to_chars(self.body.as_str()).as_slice());
        assert(said@ =~= seq!['<'] + self.author@ + seq!['>', ' '] + self.body@);
        let nothing: Vec<char> = Vec::new();
        let filled = fill(said.as_slice(), LINE_LENGTH, nothing.as_slice(), nothing.as_slice());
        assert(nothing@ =~= Seq::<char>::empty());
        extend(out, filled.as_slice());
        if self.urls.len() > 0 {
            out.push('\n');
            let ghost start = out@;
            let mut k: usize = 0;
            while k < self.urls.len()
                invariant
                    k <= self.urls.len(),
                    out@ == start + url_lines(self.urls@, k as nat),
                decreases self.urls.len() - k,
            {
                out.push('\n');
                extend(out, to_chars(self.urls[k].as_str()).as_slice());
                k += 1;
                assert(out@ =~= start + url_lines(self.urls@, k as nat));
            }
            assert(out@ =~= old(out)@ + self.text());
        }
    }
}

/// The first `k` posts as text, an empty line between each two. The flag
/// tells whether a post stands before them.
pub open spec fn posts_text(posts: Seq<Post>, k: nat, follows: bool) -> Seq<char>
    decreases k,
{
    if k == 0 || k > posts.len() {
        Seq::empty()
    } else {
        posts_text(posts, (k - 1) as nat, follows) + (if k > 1 || follows {
            seq!['\n', '\n']
        } else {
            Seq::empty()
        }) + posts[k - 1].text()
    }
}

fn write_posts(posts: &Vec<Post>, out: &mut Vec<char>, follows: bool)
    ensures
        final(out)@ == old(out)@ + posts_text(posts@, posts@.len(), follows),
{
    let mut k: usize = 0;
    assert(out@ =~= old(out)@ + posts_text(posts@, 0, follows));
    while k < posts.len()
        invariant
            k <= posts.len(),
            out@ == old(out)@ + posts_text(posts@, k as nat, follows),
        decreases posts.len() - k,
    {
        if k > 0 || follows {
            out.push('\n');
            out.push('\n');
        }
        posts[k].write(out);
        k += 1;
        assert(out@ =~= old(out)@ + posts_text(posts@, k as nat, follows));
    }
}

impl PostThread {
    /// The thread as text: the earlier posts, the post itself and the later
    /// ones, an empty line between each two.
    pub open spec fn text(self) -> Seq<char> {
        let before = posts_text(self.before@, self.before@.len(), false);
        let main = (if self.before@.len() > 0 {
            seq!['\n', '\n']
        } else {
            Seq::empty()
        }) + self.main.text();
        before + main + posts_text(self.after@, self.after@.len(), true)
    }

    /// Writes the thread as text.
    pub fn render(&self) -> (out: String)
        ensures
            out@ == self.text(),
    {
        let mut out: Vec<char> = Vec::new();
        write_posts(&self.before, &mut out, false);
        if self.before.len() > 0 {
            out.push('\n');
            out.push('\n');
        }
        self.main.write(&mut out);
        write_posts(&self.after, &mut out, true);
        assert(out@ =~= self.text());
        to_string(out.as_slice())
    }
}

impl Article {
    /// The article as text: the title, an empty line, the body.
    pub open spec fn text(self) -> Seq<char> {
        self.title@ + seq!['\n', '\n'] + self.body@
    }

    /// Writes the article as text.
    pub fn render(&self) -> (out: String)
        ensures
            out@ == self.text(),
    {
        let mut out = to_chars(self.title.as_str());
        out.push('\n');
        out.push('\n');
        extend(&mut out, to_chars(self.body.as_str()).as_slice());
        assert(out@ =~= self.text());
        to_string(out.as_slice())
    }
}

impl Item {
    /// The entry as text: the title, if there is one, in front of the
    /// address, and under them the description, indented.
    pub open spec fn text(self) -> Seq<char> {
        let title = match self.title {
            Some(title) => title@ + seq![':', ' '],
            None => Seq::empty(),
        };
        let description = match self.description {
            Some(description) => indented(description@) + seq!['\n'],
            None => Seq::empty(),
        };
        title + self.url@ + seq!['\n'] + description
    }

    fn write(&self, out: &mut Vec<char>)
        ensures
            final(out)@ == old(out)@ + self.text(),
    {
        if let Some(title) = &self.title {
            extend(out, to_chars(title.as_str()).as_slice());
            out.push(':');
            out.push(' ');
        }
        extend(out, to_chars(self.url.as_str()).as_slice());
        out.push('\n');
        if let Some(description) = &self.description {
            let mut indent: Vec<char> = Vec::new();
            indent.push(' ');
            indent.push(' ');
            indent.push(' ');
            indent.push(' ');
            assert(indent@ =~= seq![' ', ' ', ' ', ' ']);
            let filled = fill(
                to_chars(description.as_str()).as_slice(),
                LINE_LENGTH,
                indent.as_slice(),
                indent.as_slice(),
            );
            extend(out, filled.as_slice());
            out.push('\n');
        }
        assert(out@ =~= old(out)@ + self.text());
    }
}

/// The first `k` entries as text.
pub open spec fn items_text(items: Seq<Item>, k: nat) -> Seq<char>
    decreases k,
{
    if k == 0 || k > items.len() {
        Seq::empty()
    } else {
        items_text(items, (k - 1) as nat) + items[k - 1].text()
    }
}

impl Collection {
    /// What stands above the entries: the title and the wrapped
    /// description, each followed by an empty line.
    pub open spec fn heading(self) -> Seq<char> {
        let title = match self.title {
            Some(title) => title@ + seq!['\n', '\n'],
            None => Seq::empty(),
        };
        let description = match self.description {
            Some(description) => wrapped(description@) + seq!['\n', '\n'],
            None => Seq::empty(),
        };
        title + description
    }

    /// The collection as text.
    pub open spec fn text(self) -> Seq<char> {
        self.heading() + items_text(self.items@, self.items@.len())
    }

    /// Writes the collection as text.
    pub fn render(&self) -> (out: String)
        ensures
            out@ == self.text(),
    {
        let mut out: Vec<char> = Vec::new();
        if let Some(title) = &self.title {
            extend(&mut out, to_chars(title.as_str()).as_slice());
            out.push('\n');
            out.push('\n');
        }
        if let Some(description) = &self.description {
            let nothing: Vec<char> = Vec::new();
            assert(nothing@ =~= Seq::<char>::empty());
            let filled = fill(
                to_chars(description.as_str()).as_slice(),
                LINE_LENGTH,
                nothing.as_slice(),
                nothing.as_slice(),
            );
            extend(&mut out, filled.as_slice());
            out.push('\n');
            out.push('\n');
        }
        assert(out@ =~= self.heading());
        let mut k: usize = 0;
        assert(out@ =~= self.heading() + items_text(self.items@, 0));
        while k < self.items.len()
            invariant
                k <= self.items.len(),
                out@ == self.heading() + items_text(self.items@, k as nat),
            decreases self.items.len() - k,
        {
            self.items[k].write(&mut out);
            k += 1;
            assert(out@ =~= self.heading() + items_text(self.items@, k as nat));
        }
        to_string(out.as_slice())
    }
}

impl TextType {
    /// The bytes that are shown: the UTF-8 encoding of the text of an
    /// article, a post or a thread, and raw content as it is.
    pub open spec fn bytes(self) -> Seq<u8> {
        match self {
            TextType::Article(article) => vstd::utf8::encode_utf8(article.text()),
            TextType::Post(post) => vstd::utf8::encode_utf8(post.text()),
            TextType::PostThread(thread) => vstd::utf8::encode_utf8(thread.text()),
            TextType::Raw(bytes) => bytes@,
        }
    }

    /// Writes the content out as bytes.
    pub fn write(&self) -> (out: Vec<u8>)
        ensures
            out@ == self.bytes(),
    {
        match self {
            TextType::Article(article) => article.render().as_str().as_bytes_vec(),
            TextType::Post(post) => post.render().as_str().as_bytes_vec(),
            TextType::PostThread(thread) => thread.render().as_str().as_bytes_vec(),
            TextType::Raw(bytes) => bytes.clone(),
        }
    }
}

} // verus!
