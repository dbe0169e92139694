//! Decides, from an address and from what a server answers, how the content
//! of a page is to be had.

use crate::stackoverflow::{name_view, site_tag, site_tag_of};
use crate::text::{
    ends_with, extend, find, has_prefix, has_suffix, join, join_range, lemma_find, same, split,
    split_at, starts_with, tail, text_view, to_chars, to_string, views,
};
use vstd::prelude::*;

verus! {

/// The segments of the path of an address: what stands between the slashes
/// behind the first one. A path that begins with no slash has one empty
/// segment.
pub open spec fn segments(path: Seq<char>) -> Seq<Seq<char>> {
    if path.len() > 0 && path[0] == '/' {
        split(path.skip(1), '/')
    } else {
        seq![Seq::empty()]
    }
}

/// Splits the path of an address into its segments.
pub fn path_segments(path: &str) -> (found: Vec<Vec<char>>)
    ensures
        views(found@) == segments(path@),
{
    let chars = to_chars(path);
    if chars.len() > 0 && chars[0] == '/' {
        let rest = vstd::slice::slice_subrange(chars.as_slice(), 1, chars.len());
        assert(rest@ =~= path@.skip(1));
        let found = split_at(rest, '/');
        assert(views(found@) =~= segments(path@));
        found
    } else {
        let mut found: Vec<Vec<char>> = Vec::new();
        found.push(Vec::new());
        assert(views(found@) =~= segments(path@));
        found
    }
}

/// The segment at place `index`, where the path has that many.
pub open spec fn segment(path: Seq<char>, index: int) -> Option<Seq<char>> {
    if 0 <= index < segments(path).len() && path.len() > 0 && path[0] == '/' {
        Some(segments(path)[index])
    } else {
        None
    }
}

/// Finds the segment at place `index` of the path of an address, if the
/// path is a list of segments and has that many.
pub fn nth_segment(path: &str, index: usize) -> (found: Option<String>)
    ensures
        text_view(found) == segment(path@, index as int),
{
    let chars = to_chars(path);
    if chars.len() > 0 && chars[0] == '/' {
        let found = path_segments(path);
        if index < found.len() {
            assert(views(found@)[index as int] == found@[index as int]@);
            Some(to_string(found[index].as_slice()))
        } else {
            None
        }
    } else {
        None
    }
}

/// What is to be done to an address before its content is fetched.
#[derive(Debug, PartialEq, Eq)]
pub enum Rewrite {
    /// The host is none that serves raw content at another address.
    Unknown,
    /// The address leads to the raw content already.
    Unchanged,
    /// The raw content is found under this path.
    Path(String),
    /// The raw content is had with the query `q=mbox`. The flag tells
    /// whether the query holds a `q` already, which is taken out first.
    Mbox(bool),
}

/// A [`Rewrite`] as a mathematical value.
pub enum RewriteView {
    Unknown,
    Unchanged,
    Path(Seq<char>),
    Mbox(bool),
}

impl View for Rewrite {
    type V = RewriteView;

    open spec fn view(&self) -> RewriteView {
        match self {
            Rewrite::Unknown => RewriteView::Unknown,
            Rewrite::Unchanged => RewriteView::Unchanged,
            Rewrite::Path(path) => RewriteView::Path(path@),
            Rewrite::Mbox(has_q) => RewriteView::Mbox(*has_q),
        }
    }
}

/// `path` with `suffix` behind it, unless it ends with it already.
pub open spec fn with_suffix(path: Seq<char>, suffix: Seq<char>) -> RewriteView {
    if ends_with(path, suffix) {
        RewriteView::Unchanged
    } else {
        RewriteView::Path(path + suffix)
    }
}

/// `path` without a slash at its end, unless the slash is all there is.
pub open spec fn without_last_slash(path: Seq<char>) -> Seq<char> {
    if path.len() > 1 && path.last() == '/' {
        path.drop_last()
    } else {
        path
    }
}

/// The path under which a paste, whose number is the last segment of
/// `path`, is served as plain text.
pub open spec fn plain_path(path: Seq<char>) -> RewriteView {
    if starts_with(path, "/plain"@) {
        RewriteView::Unchanged
    } else if path.len() == 0 || path[0] != '/' {
        RewriteView::Unknown
    } else {
        RewriteView::Path("/plain/"@ + split(without_last_slash(path).skip(1), '/').last())
    }
}

/// `path` without its extension: without what follows its last dot, and
/// without that dot.
pub open spec fn without_extension(path: Seq<char>) -> RewriteView {
    let pieces = split(path, '.');
    if pieces.len() >= 2 {
        RewriteView::Path(join(pieces.drop_last(), '.'))
    } else {
        RewriteView::Unchanged
    }
}

/// How the address with this host, path and query is rewritten so that it
/// leads to the raw content of a paste or a message.
pub open spec fn rewritten(host: Option<Seq<char>>, path: Seq<char>, has_q: bool) -> RewriteView {
    match host {
        None => RewriteView::Unknown,
        Some(host) => if host == "bpa.st"@ {
            if starts_with(path, "/raw/"@) {
                RewriteView::Unchanged
            } else {
                with_suffix(path, "/raw"@)
            }
        } else if host == "p.dav1d.de"@ {
            without_extension(path)
        } else if host == "paste.debian.net"@ {
            plain_path(path)
        } else if host == "dpaste.com"@ {
            with_suffix(path, ".txt"@)
        } else if host == "dpaste.org"@ || host == "paste.mozilla.org"@ || host
            == "pastebin.mozilla.org"@ {
            with_suffix(path, "/raw"@)
        } else if host == "marc.info"@ {
            RewriteView::Mbox(has_q)
        } else if host == "pastebin.com"@ {
            if starts_with(path, "/raw"@) {
                RewriteView::Unchanged
            } else {
                RewriteView::Path("/raw"@ + path)
            }
        } else {
            RewriteView::Unknown
        },
    }
}

fn add_suffix(path: &[char], suffix: &str) -> (out: Rewrite)
    ensures
        out@ == with_suffix(path@, suffix@),
{
    if has_suffix(path, suffix) {
        Rewrite::Unchanged
    } else {
        let mut longer: Vec<char> = Vec::new();
        extend(&mut longer, path);
        extend(&mut longer, to_chars(suffix).as_slice());
        assert(longer@ =~= path@ + suffix@);
        Rewrite::Path(to_string(longer.as_slice()))
    }
}

fn to_plain_path(path: &[char]) -> (out: Rewrite)
    ensures
        out@ == plain_path(path@),
{
    if has_prefix(path, "/plain") {
        Rewrite::Unchanged
    } else if path.len() == 0 || path[0] != '/' {
        Rewrite::Unknown
    } else {
        let end = if path.len() > 1 && path[path.len() - 1] == '/' {
            path.len() - 1
        } else {
            path.len()
        };
        let segments = vstd::slice::slice_subrange(path, 1, end);
        assert(segments@ =~= without_last_slash(path@).skip(1));
        let pieces = split_at(segments, '/');
        let mut plain = to_chars("/plain/");
        extend(&mut plain, pieces[pieces.len() - 1].as_slice());
        Rewrite::Path(to_string(plain.as_slice()))
    }
}

fn strip_extension(path: &[char]) -> (out: Rewrite)
    ensures
        out@ == without_extension(path@),
{
    let pieces = split_at(path, '.');
    assert(views(pieces@) =~= split(path@, '.'));
    if pieces.len() >= 2 {
        let kept = join_range(&pieces, 0, pieces.len() - 1, '.');
        assert(views(pieces@).subrange(0, pieces@.len() - 1) =~= split(path@, '.').drop_last());
        Rewrite::Path(to_string(kept.as_slice()))
    } else {
        Rewrite::Unchanged
    }
}

/// Tells how an address is rewritten so that it leads to raw content.
/// `host` and `path` are those of the address, and `has_q` tells whether
/// its query holds a pair named `q`.
pub fn rewrite_url(host: Option<&str>, path: &str, has_q: bool) -> (out: Rewrite)
    ensures
        out@ == rewritten(
            match host {
                Some(host) => Some(host@),
                None => None,
            },
            path@,
            has_q,
        ),
{
    let Some(host) = host else {
        return Rewrite::Unknown;
    };
    let host_chars = to_chars(host);
    let host = host_chars.as_slice();
    let path_chars = to_chars(path);
    let path = path_chars.as_slice();
    if same(host, "bpa.st") {
        if has_prefix(path, "/raw/") {
            Rewrite::Unchanged
        } else {
            add_suffix(path, "/raw")
        }
    } else if same(host, "p.dav1d.de") {
        strip_extension(path)
    } else if same(host, "paste.debian.net") {
        to_plain_path(path)
    } else if same(host, "dpaste.com") {
        add_suffix(path, ".txt")
    } else if same(host, "dpaste.org") || same(host, "paste.mozilla.org") || same(
        host,
        "pastebin.mozilla.org",
    ) {
        add_suffix(path, "/raw")
    } else if same(host, "marc.info") {
        Rewrite::Mbox(has_q)
    } else if same(host, "pastebin.com") {
        if has_prefix(path, "/raw") {
            Rewrite::Unchanged
        } else {
            let mut raw = to_chars("/raw");
            extend(&mut raw, path);
            Rewrite::Path(to_string(raw.as_slice()))
        }
    } else {
        Rewrite::Unknown
    }
}

/// The ways to get at the content of a page, by the host that serves it.
#[derive(Debug, Clone, Copy, PartialEq, Eq)]
pub enum Site {
    /// A profile, a post or a list on Bluesky.
    Bsky,
    /// A page that shows one image, which this selector finds.
    Image(&'static str),
    /// A repository on GitHub.
    Github,
    /// A gist.
    Gist,
    /// A page that names a gist in its query.
    GistQuery,
    /// An image or an album on Imgur.
    Imgur,
    /// A story on Lobsters.
    Lobsters,
    /// Audio that a player fetches by itself.
    Audio,
    /// Video that a player fetches by itself.
    Video,
    /// An article of Wikipedia.
    Wikimedia,
    /// A question or an answer on the site of the Stack Exchange network
    /// that the API knows by this name.
    StackExchange(&'static str),
    /// Any other host: the page itself is fetched.
    Generic,
}

/// A [`Site`] as a mathematical value.
pub enum SiteView {
    Bsky,
    Image(Seq<char>),
    Github,
    Gist,
    GistQuery,
    Imgur,
    Lobsters,
    Audio,
    Video,
    Wikimedia,
    StackExchange(Seq<char>),
    Generic,
}

impl View for Site {
    type V = SiteView;

    open spec fn view(&self) -> SiteView {
        match self {
            Site::Bsky => SiteView::Bsky,
            Site::Image(selector) => SiteView::Image(selector@),
            Site::Github => SiteView::Github,
            Site::Gist => SiteView::Gist,
            Site::GistQuery => SiteView::GistQuery,
            Site::Imgur => SiteView::Imgur,
            Site::Lobsters => SiteView::Lobsters,
            Site::Audio => SiteView::Audio,
            Site::Video => SiteView::Video,
            Site::Wikimedia => SiteView::Wikimedia,
            Site::StackExchange(name) => SiteView::StackExchange(name@),
            Site::Generic => SiteView::Generic,
        }
    }
}

/// How the content of a page on `host` is had.
pub open spec fn site_of(host: Seq<char>) -> SiteView {
    if host == "bsky.app"@ {
        SiteView::Bsky
    } else if host == "giphy.com"@ {
        SiteView::Image("figure img"@)
    } else if host == "github.com"@ {
        SiteView::Github
    } else if host == "gist.github.com"@ {
        SiteView::Gist
    } else if host == "ibb.co"@ || host == "imgbb.com"@ {
        SiteView::Image("#image-viewer-container > img"@)
    } else if host == "imgur.com"@ {
        SiteView::Imgur
    } else if host == "lobste.rs"@ {
        SiteView::Lobsters
    } else if host == "mypy-play.net"@ || host == "play.integer32.com"@ || host
        == "play.rust-lang.org"@ {
        SiteView::GistQuery
    } else if host == "postimg.cc"@ {
        SiteView::Image("#main-image"@)
    } else if host == "soundcloud.com"@ || host == "m.soundcloud.com"@ {
        SiteView::Audio
    } else if host == "tenor.com"@ {
        SiteView::Image(".main-container .Gif > img"@)
    } else if host == "twitch.tv"@ || host == "www.twitch.tv"@ {
        SiteView::Video
    } else if host == "en.wikipedia.org"@ {
        SiteView::Wikimedia
    } else if host == "xkcd.com"@ || host == "m.xkcd.com"@ {
        SiteView::Image("#comic > img"@)
    } else if host == "youtu.be"@ || host == "youtube.com"@ || host == "m.youtube.com"@ || host
        == "music.youtube.com"@ || host == "www.youtube.com"@ {
        SiteView::Video
    } else {
        match site_tag_of(host) {
            Some(name) => SiteView::StackExchange(name),
            None => SiteView::Generic,
        }
    }
}

/// Tells how the content of a page on `hostname` is had.
pub fn process_specific(hostname: &str) -> (site: Site)
    ensures
        site@ == site_of(hostname@),
{
    let chars = to_chars(hostname);
    let host = chars.as_slice();
    if same(host, "bsky.app") {
        Site::Bsky
    } else if same(host, "giphy.com") {
        Site::Image("figure img")
    } else if same(host, "github.com") {
        Site::Github
    } else if same(host, "gist.github.com") {
        Site::Gist
    } else if same(host, "ibb.co") || same(host, "imgbb.com") {
        Site::Image("#image-viewer-container > img")
    } else if same(host, "imgur.com") {
        Site::Imgur
    } else if same(host, "lobste.rs") {
        Site::Lobsters
    } else if same(host, "mypy-play.net") || same(host, "play.integer32.com") || same(
        host,
        "play.rust-lang.org",
    ) {
        Site::GistQuery
    } else if same(host, "postimg.cc") {
        Site::Image("#main-image")
    } else if same(host, "soundcloud.com") || same(host, "m.soundcloud.com") {
        Site::Audio
    } else if same(host, "tenor.com") {
        Site::Image(".main-container .Gif > img")
    } else if same(host, "twitch.tv") || same(host, "www.twitch.tv") {
        Site::Video
    } else if same(host, "en.wikipedia.org") {
        Site::Wikimedia
    } else if same(host, "xkcd.com") || same(host, "m.xkcd.com") {
        Site::Image("#comic > img")
    } else if same(host, "youtu.be") || same(host, "youtube.com") || same(host, "m.youtube.com")
        || same(host, "music.youtube.com") || same(host, "www.youtube.com") {
        Site::Video
    } else {
        match site_tag(hostname) {
            Some(name) => Site::StackExchange(name),
            None => Site::Generic,
        }
    }
}

/// The parts of an address that decide how its content is had.
#[derive(Debug)]
pub struct Address {
    /// The scheme, in lower case.
    pub scheme: String,
    /// The host, if the address has one.
    pub host: Option<String>,
    /// The path.
    pub path: String,
    /// The names of the pairs of the query, in order.
    pub query_keys: Vec<String>,
    /// Whether nothing can be resolved against the address.
    pub cannot_be_a_base: bool,
}

/// The parts of the address that `url` parses to, or nothing where it is no
/// address.
pub uninterp spec fn address_of(url: Seq<char>) -> Option<Address>;

/// Parses `url` with `url::Url::parse` and copies what `scheme`,
/// `host_str`, `path`, `query_pairs` and `cannot_be_a_base` of `url::Url`
/// give. The parts are a function of the text alone; they are absent where
/// the parser refuses the text.
#[verifier::external_body]
fn parse_address(url: &str) -> (address: Option<Address>)
    ensures
        address == address_of(url@),
{
    let url = url::Url::parse(url).ok()?;
    Some(
        Address {
            scheme: url.scheme().to_string(),
            host: url.host_str().map(str::to_string),
            path: url.path().to_string(),
            query_keys: url.query_pairs().map(|pair| pair.0.into_owned()).collect(),
            cannot_be_a_base: url.cannot_be_a_base(),
        },
    )
}

/// Why an address is not shown.
#[derive(Debug, Clone, Copy, PartialEq, Eq, Structural)]
pub enum UrlError {
    /// The text is no address.
    Invalid,
    /// The address is not absolute.
    NotAbsolute,
    /// The scheme is neither `http` nor `https`.
    UnsupportedScheme,
}

/// How the content behind an address is had.
#[derive(Debug, PartialEq, Eq)]
pub enum Route {
    /// The host serves raw content: the address is rewritten as told and
    /// fetched.
    Raw(Rewrite),
    /// The host is handled in a way of its own, or as any other.
    Site(Site),
}

/// A [`Route`] as a mathematical value.
pub enum RouteView {
    Raw(RewriteView),
    Site(SiteView),
}

impl View for Route {
    type V = RouteView;

    open spec fn view(&self) -> RouteView {
        match self {
            Route::Raw(rewrite) => RouteView::Raw(rewrite@),
            Route::Site(site) => RouteView::Site(site@),
        }
    }
}

/// Whether one of the first `k` names is `q`.
pub open spec fn names_q(keys: Seq<String>, k: nat) -> bool
    decreases k,
{
    if k == 0 || k > keys.len() {
        false
    } else {
        names_q(keys, (k - 1) as nat) || keys[k - 1]@ == "q"@
    }
}

/// How the content behind an address with these parts is had: rewritten
/// where the host serves raw content, and otherwise as the host asks. An
/// address that is not absolute, or that is of another scheme than `http`
/// and `https`, is refused.
pub open spec fn routed(address: Address) -> Result<RouteView, UrlError> {
    if address.cannot_be_a_base {
        Err(UrlError::NotAbsolute)
    } else if !(address.scheme@ == "http"@ || address.scheme@ == "https"@) {
        Err(UrlError::UnsupportedScheme)
    } else {
        let rewrite = rewritten(
            text_view(address.host),
            address.path@,
            names_q(address.query_keys@, address.query_keys@.len()),
        );
        if rewrite is Unknown {
            match address.host {
                Some(host) => Ok(RouteView::Site(site_of(host@))),
                None => Ok(RouteView::Site(SiteView::Generic)),
            }
        } else {
            Ok(RouteView::Raw(rewrite))
        }
    }
}

/// A route or the reason for none, as a mathematical value.
pub open spec fn route_view(route: Result<Route, UrlError>) -> Result<RouteView, UrlError> {
    match route {
        Ok(route) => Ok(route@),
        Err(error) => Err(error),
    }
}

/// Tells how the content behind an address with these parts is had.
pub fn route_address(address: &Address) -> (route: Result<Route, UrlError>)
    ensures
        route_view(route) == routed(*address),
{
    if address.cannot_be_a_base {
        return Err(UrlError::NotAbsolute);
    }
    let scheme = to_chars(address.scheme.as_str());
    if !(same(scheme.as_slice(), "http") || same(scheme.as_slice(), "https")) {
        return Err(UrlError::UnsupportedScheme);
    }
    let mut has_q = false;
    let mut k: usize = 0;
    while k < address.query_keys.len()
        invariant
            k <= address.query_keys.len(),
            has_q == names_q(address.query_keys@, k as nat),
        decreases address.query_keys.len() - k,
    {
        if same(to_chars(address.query_keys[k].as_str()).as_slice(), "q") {
            has_q = true;
        }
        k += 1;
    }
    let rewrite = match &address.host {
        Some(host) => rewrite_url(Some(host.as_str()), address.path.as_str(), has_q),
        None => rewrite_url(None, address.path.as_str(), has_q),
    };
    match rewrite {
        Rewrite::Unknown => match &address.host {
            Some(host) => Ok(Route::Site(process_specific(host.as_str()))),
            None => Ok(Route::Site(Site::Generic)),
        },
        rewrite => Ok(Route::Raw(rewrite)),
    }
}

/// Tells how the content behind the address `url` is had, or why it is not
/// shown.
pub fn route(url: &str) -> (route: Result<Route, UrlError>)
    ensures
        route_view(route) == (match address_of(url@) {
            Some(address) => routed(address),
            None => Err(UrlError::Invalid),
        }),
{
    match parse_address(url) {
        Some(address) => route_address(&address),
        None => Err(UrlError::Invalid),
    }
}

/// What a server says it sends, as far as it decides what is done with it.
#[derive(Debug, Clone, Copy, PartialEq, Eq, Structural)]
pub enum Media {
    Pdf,
    Video,
    Html,
    Audio,
    Image,
    Text,
    Unsupported,
}

/// The media type of a `Content-Type` header: what stands before its first
/// semicolon.
pub open spec fn media_type(content_type: Seq<char>) -> Seq<char> {
    content_type.take(find(content_type, ';') as int)
}

/// What is done with content of this type.
pub open spec fn media_of(content_type: Seq<char>) -> Media {
    let media = media_type(content_type);
    if media == "application/pdf"@ {
        Media::Pdf
    } else if media == "application/vnd.apple.mpegurl"@ {
        Media::Video
    } else if media == "text/html"@ {
        Media::Html
    } else if starts_with(media, "audio/"@) {
        Media::Audio
    } else if starts_with(media, "image/"@) {
        Media::Image
    } else if starts_with(media, "text/"@) {
        Media::Text
    } else if starts_with(media, "video/"@) {
        Media::Video
    } else {
        Media::Unsupported
    }
}

/// Tells what is done with content that comes with this `Content-Type`.
pub fn process_generic(content_type: &str) -> (media: Media)
    ensures
        media == media_of(content_type@),
{
    let chars = to_chars(content_type);
    let mut end: usize = 0;
    while end < chars.len() && chars[end] != ';'
        invariant
            end <= chars.len(),
            forall|i: int| 0 <= i < end ==> chars@[i] != ';',
        decreases chars.len() - end,
    {
        end += 1;
    }
    proof {
        lemma_find(chars@, ';');
        let first = find(chars@, ';');
        if first < end {
            assert(chars@[first as int] == ';');
        }
    }
    let media = vstd::slice::slice_subrange(chars.as_slice(), 0, end);
    assert(media@ =~= media_type(content_type@));
    if same(media, "application/pdf") {
        Media::Pdf
    } else if same(media, "application/vnd.apple.mpegurl") {
        Media::Video
    } else if same(media, "text/html") {
        Media::Html
    } else if has_prefix(media, "audio/") {
        Media::Audio
    } else if has_prefix(media, "image/") {
        Media::Image
    } else if has_prefix(media, "text/") {
        Media::Text
    } else if has_prefix(media, "video/") {
        Media::Video
    } else {
        Media::Unsupported
    }
}

} // verus!
