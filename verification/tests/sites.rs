use zxcv::bsky::{Embed, Facet, FacetFeature, Media, PostView, PostViewEnum, ThreadViewPost};
use zxcv::imgur::{Album, AlbumImage, Shown};
use zxcv::github::{posts_in_time_order, posts_of, show_gist, Comment, GistFile, GistShown};
use zxcv::text::{has_part, parse_number, replace};
use zxcv::{cgit, discourse, gitweb, lobsters, mastodon, nextcloud, wikimedia};

fn post_view(text: &str) -> PostView {
    PostView {
        handle: "handle".to_string(),
        display_name: None,
        text: text.to_string(),
        facets: None,
        embed: None,
    }
}

fn thread(text: &str, parent: Option<PostViewEnum>, replies: Option<Vec<PostViewEnum>>) -> ThreadViewPost {
    ThreadViewPost { post: post_view(text), replies, parent: parent.map(Box::new) }
}

fn bodies(posts: Vec<zxcv::content::Post>) -> Vec<String> {
    posts.into_iter().map(|p| p.body).collect()
}

#[test]
fn bsky_embed_urls() {
    assert_eq!(Embed::Images(vec!["a".into(), "b".into()]).urls(), vec!["a", "b"]);
    assert_eq!(Embed::External("x".into()).urls(), vec!["x"]);
    assert_eq!(Embed::Record.urls(), Vec::<String>::new());
    assert_eq!(Embed::RecordWithMedia(Media::External("m".into())).urls(), vec!["m"]);
    assert_eq!(Embed::RecordWithMedia(Media::Images(vec!["i".into()])).urls(), vec!["i"]);
    assert_eq!(Embed::Video("v".into()).urls(), vec!["v"]);
}

#[test]
fn bsky_post_render() {
    let view = PostView {
        handle: "ann.example".to_string(),
        display_name: Some("Ann".to_string()),
        text: "hello *world*".to_string(),
        facets: Some(vec![
            Facet { features: vec![FacetFeature::Mention, FacetFeature::Link("l1".into())] },
            Facet { features: vec![] },
            Facet {
                features: vec![
                    FacetFeature::Link("l2".into()),
                    FacetFeature::Tag,
                    FacetFeature::ByteSlice,
                    FacetFeature::Link("l3".into()),
                ],
            },
        ]),
        embed: Some(Embed::Images(vec!["i1".into(), "i2".into()])),
    };
    let post = view.render();
    assert_eq!(post.author, "Ann");
    assert_eq!(post.body, "hello *world*");
    assert_eq!(post.urls, vec!["l1", "l2", "l3", "i1", "i2"]);
    assert_eq!(post_view("x").render().author, "handle");
}

#[test]
fn bsky_parents_nearest_first() {
    let top = thread("top", Some(PostViewEnum::Blocked), None);
    let middle = thread("middle", Some(PostViewEnum::Thread(top)), None);
    let leaf = thread("leaf", Some(PostViewEnum::Thread(middle)), None);
    assert_eq!(bodies(leaf.take_parents()), vec!["middle", "top"]);
    assert!(thread("alone", None, None).take_parents().is_empty());
    assert!(thread("lost", Some(PostViewEnum::NotFound), None).take_parents().is_empty());
}

#[test]
fn bsky_replies_in_reading_order() {
    let a1 = thread("a1", None, Some(vec![]));
    let a2 = thread("a2", None, None);
    let a = thread("a", None, Some(vec![PostViewEnum::Thread(a1), PostViewEnum::NotFound, PostViewEnum::Thread(a2)]));
    let b = thread("b", None, None);
    let root = thread(
        "root",
        None,
        Some(vec![PostViewEnum::Thread(a), PostViewEnum::Blocked, PostViewEnum::Thread(b)]),
    );
    assert_eq!(bodies(root.take_replies()), vec!["a", "a1", "a2", "b"]);
    assert!(thread("alone", None, None).take_replies().is_empty());
}

#[test]
fn imgur_albums() {
    let image = |title: Option<&str>, link: &str| AlbumImage {
        title: title.map(str::to_string),
        link: link.to_string(),
    };
    let single = Album { title: "t".into(), images: vec![image(None, "l")] };
    assert!(matches!(single.show(), Shown::Single(link) if link == "l"));
    let album = Album { title: String::new(), images: vec![image(Some("a"), "la"), image(None, "lb")] };
    let Shown::Collection(collection) = album.show() else {
        panic!("an album of two images is a collection");
    };
    assert_eq!(collection.title, None);
    assert_eq!(collection.description, None);
    assert_eq!(collection.render(), "a: la\nlb\n");
    let empty = Album { title: "Empty".into(), images: vec![] };
    assert!(matches!(empty.show(), Shown::Collection(c) if c.title.as_deref() == Some("Empty") && c.items.is_empty()));
}

#[test]
fn discourse_topics() {
    assert!(discourse::is_discourse("Discourse 3.2.0"));
    assert!(!discourse::is_discourse("Discourse"));
    assert_eq!(discourse::topic_path("/t/some-title/1729"), Some("/t/1729.json".to_string()));
    assert_eq!(discourse::topic_path("/t/some-title"), None);
    assert_eq!(discourse::topic_path("/c/some-title/1729"), None);
    let post = discourse::DiscoursePost { cooked: "<p>a</p><p>b</p>".into(), username: "u_v".into() }
        .render("https://example.com/");
    assert_eq!((post.author.as_str(), post.body.as_str()), ("u_v", "a\n\nb"));
}

#[test]
fn mastodon_status_render() {
    let post = mastodon::Status {
        content: "<p>see <a href=\"/x\">this</a></p>".into(),
        display_name: "<b>".into(),
        media: vec!["m".into()],
    }
    .render("https://example.com/@a/1");
    assert_eq!(post.author, "<b>");
    assert_eq!(post.body, "see [this](https://example.com/x)");
    assert_eq!(post.urls, vec!["m"]);
}

#[test]
fn cgit_paths() {
    assert!(cgit::is_cgit("cgit v1.2.3"));
    assert!(!cgit::is_cgit("gitweb/2"));
    assert_eq!(
        cgit::plain_path("/repo/tree/src/main.rs", "/repo/"),
        Some("/repo//plain/src/main.rs".to_string())
    );
    assert_eq!(cgit::plain_path("/repo/tree", "/repo/"), None);
    assert_eq!(cgit::plain_path("/repo/log/x", "/repo/"), None);
    assert_eq!(cgit::plain_path("/other/tree/x", "/repo/"), None);
}

#[test]
fn gitweb_queries() {
    assert!(gitweb::is_gitweb("gitweb/2.40"));
    assert_eq!(
        gitweb::plain_query("p=repo.git;a=blob;f=README"),
        Some("p=repo.git;a=blob_plain;f=README".to_string())
    );
    assert_eq!(gitweb::plain_query("a=blob;f=README"), Some("a=blob;f=README".to_string()));
    assert_eq!(gitweb::plain_query("p=repo.git;a=tree"), None);
    assert_eq!(gitweb::plain_query("x;a=blob;a=blob;y"), Some("x;a=blob_plain;a=blob;y".to_string()));
}

#[test]
fn lobsters_stories() {
    assert_eq!(lobsters::story_path("/s/abc/title"), Some("/s/abc/title.json".to_string()));
    assert_eq!(lobsters::story_path("/s/abc/"), Some("/s/abc.json".to_string()));
    assert_eq!(lobsters::story_path("/s/abc.json"), Some("/s/abc.json".to_string()));
    assert_eq!(lobsters::story_path("/t/abc"), None);
}

#[test]
fn nextcloud_shares() {
    assert!(nextcloud::is_nextcloud("app-id=1125420102"));
    assert!(!nextcloud::is_nextcloud("app-id=1"));
    assert_eq!(nextcloud::sharing_token("ImFiY0RFRiI="), Some("abcDEF".to_string()));
    assert_eq!(nextcloud::sharing_token("YWJj"), None);
    assert_eq!(nextcloud::sharing_token("Iv8i"), None);
    assert_eq!(nextcloud::sharing_token("not base64"), None);
    assert_eq!(
        nextcloud::share_url("https://cloud.example/s/abcDEF", "abcDEF"),
        Some("https://cloud.example/public.php/dav/files/abcDEF".to_string())
    );
    assert_eq!(nextcloud::share_url("nowhere", "abcDEF"), None);
}

#[test]
fn wikimedia_articles() {
    assert_eq!(wikimedia::title("/wiki/Rust_%28language%29"), Ok("Rust_(language)".to_string()));
    assert_eq!(wikimedia::title("/wiki"), Err(wikimedia::TitleError::Missing));
    assert_eq!(wikimedia::title("/wiki/%ff"), Err(wikimedia::TitleError::Malformed));
    let article = wikimedia::article("T".to_string(), &"word ".repeat(20));
    assert_eq!(article.title, "T");
    assert_eq!(
        article.body,
        format!("{}\n{}", "word ".repeat(16).trim_end(), "word ".repeat(4).trim_end())
    );
}

#[test]
fn numbers() {
    assert_eq!(parse_number("0"), Some(0));
    assert_eq!(parse_number("+17"), Some(17));
    assert_eq!(parse_number("007"), Some(7));
    assert_eq!(parse_number("18446744073709551615"), Some(u64::MAX));
    assert_eq!(parse_number("18446744073709551616"), None);
    assert_eq!(parse_number("99999999999999999999999"), None);
    assert_eq!(parse_number(""), None);
    assert_eq!(parse_number("+"), None);
    assert_eq!(parse_number("-1"), None);
    assert_eq!(parse_number("1 "), None);
    assert_eq!(parse_number("++1"), None);
    assert_eq!(parse_number("१"), None);
}

#[test]
fn replacing() {
    assert_eq!(replace("aXbXc", "X", "--"), "a--b--c");
    assert_eq!(replace("aaa", "aa", "b"), "ba");
    assert_eq!(replace("abc", "", "x"), "abc");
    assert_eq!(replace("abc", "abcd", "x"), "abc");
    assert_eq!(replace("", "a", "x"), "");
}

#[test]
fn containing() {
    assert!(has_part("abcabd", "abd"));
    assert!(has_part("abc", ""));
    assert!(has_part("", ""));
    assert!(has_part("abc", "abc"));
    assert!(!has_part("abc", "abcd"));
    assert!(!has_part("abcabc", "acb"));
}

#[test]
fn mastodon_marks() {
    let marks = |noscript: Option<&str>, application: Option<&str>, client| mastodon::Marks {
        noscript: noscript.map(str::to_string),
        application: application.map(str::to_string),
        client,
    };
    assert!(marks(Some("To use Akkoma, enable JavaScript"), None, false).is_mastodon());
    assert!(marks(Some("Pleroma"), None, false).is_mastodon());
    assert!(marks(None, Some("Iceshrimp"), false).is_mastodon());
    assert!(marks(None, Some("Sharkey"), false).is_mastodon());
    assert!(marks(None, None, true).is_mastodon());
    assert!(!marks(Some("akkoma"), Some("Sharkey "), false).is_mastodon());
    assert!(!marks(None, None, false).is_mastodon());
}

fn comment(login: &str, created_at: &str) -> Comment {
    Comment { body: format!("by {login}"), created_at: created_at.to_string(), login: login.to_string() }
}

#[test]
fn github_comments() {
    let comments = vec![
        comment("c", "2024-03-01T00:00:00Z"),
        comment("a", "2024-01-01T00:00:00Z"),
        comment("d", "2024-03-01T00:00:00Z"),
        comment("b", "2024-02-01T00:00:00Z"),
        comment("e", "2024-01-01T00:00:00"),
    ];
    let authors = |posts: Vec<zxcv::content::Post>| -> Vec<String> {
        posts.into_iter().map(|p| p.author).collect()
    };
    assert_eq!(authors(posts_of(&comments)), vec!["c", "a", "d", "b", "e"]);
    let sorted = posts_in_time_order(&comments);
    assert_eq!(sorted[0].body, "by e");
    assert!(sorted.iter().all(|p| p.urls.is_empty()));
    assert_eq!(authors(sorted), vec!["e", "a", "b", "c", "d"]);
    assert!(posts_in_time_order(&vec![]).is_empty());
    let mut by_std = comments;
    by_std.sort_by(|a, b| a.created_at.cmp(&b.created_at));
    let logins: Vec<String> = by_std.iter().map(|c| c.login.clone()).collect();
    assert_eq!(authors(posts_in_time_order(&by_std)), logins);
}

#[test]
fn github_gists() {
    let file = |name: &str| GistFile {
        content: format!("content of {name}"),
        filename: name.to_string(),
        raw_url: format!("https://gist.example/{name}"),
    };
    assert!(matches!(
        show_gist("d".to_string(), vec![file("a")]),
        GistShown::Raw(content) if content == "content of a"
    ));
    let GistShown::Collection(collection) = show_gist("d".to_string(), vec![file("a"), file("b")]) else {
        panic!("a gist of two files is a collection");
    };
    assert_eq!(collection.render(), "d\n\na: https://gist.example/a\nb: https://gist.example/b\n");
    assert!(matches!(show_gist("d".to_string(), vec![]), GistShown::Collection(c) if c.items.is_empty()));
}
