use zxcv::config::{expand_arguments, Config, ContentKind, InvalidPlaceholder, Replacements};
use zxcv::content::{Article, Collection, Item, Post, PostThread, TextType};

fn post(author: &str, body: &str, urls: &[&str]) -> Post {
    Post {
        author: author.to_string(),
        body: body.to_string(),
        urls: urls.iter().map(|u| u.to_string()).collect(),
    }
}

#[test]
fn post_without_urls() {
    assert_eq!(post("ann", "hello there", &[]).render(), "<ann> hello there");
}

#[test]
fn post_with_urls() {
    assert_eq!(
        post("ann", "hello", &["https://a.example/", "https://b.example/"]).render(),
        "<ann> hello\n\nhttps://a.example/\nhttps://b.example/"
    );
}

#[test]
fn post_is_wrapped() {
    let body = "word ".repeat(20);
    let text = post("ann", &body, &[]).render();
    let lines: Vec<&str> = text.split('\n').collect();
    assert_eq!(lines.len(), 2);
    assert_eq!(lines[0], format!("<ann> {}", "word ".repeat(15).trim_end()));
    assert_eq!(lines[1], "word ".repeat(5).trim_end());
}

#[test]
fn thread_in_order() {
    let thread = PostThread {
        main: post("b", "two", &["https://x.example/"]),
        before: vec![post("a", "one", &[])],
        after: vec![post("c", "three", &[]), post("d", "four", &[])],
    };
    assert_eq!(
        thread.render(),
        "<a> one\n\n<b> two\n\nhttps://x.example/\n\n<c> three\n\n<d> four"
    );
    assert_eq!(TextType::PostThread(thread).write().len(), 57);
}

#[test]
fn thread_of_one() {
    let thread = PostThread { main: post("b", "two", &[]), before: vec![], after: vec![] };
    assert_eq!(thread.render(), "<b> two");
}

#[test]
fn article_text() {
    let article = Article { title: "Title".to_string(), body: "Body\ntext".to_string() };
    assert_eq!(article.render(), "Title\n\nBody\ntext");
    assert_eq!(TextType::Article(article).write(), b"Title\n\nBody\ntext".to_vec());
}

#[test]
fn raw_bytes_pass() {
    assert_eq!(TextType::Raw(vec![0, 159, 255]).write(), vec![0, 159, 255]);
    assert_eq!(TextType::Post(post("é", "ü", &[])).write(), "<é> ü".as_bytes().to_vec());
}

#[test]
fn collection_text() {
    let collection = Collection {
        title: Some("Files".to_string()),
        description: Some("Some files".to_string()),
        items: vec![
            Item {
                title: Some("a.txt".to_string()),
                url: "https://a.example/".to_string(),
                description: Some("The first file".to_string()),
            },
            Item { title: None, url: "https://b.example/".to_string(), description: None },
        ],
    };
    assert_eq!(
        collection.render(),
        "Files\n\nSome files\n\na.txt: https://a.example/\n    The first file\nhttps://b.example/\n"
    );
}

#[test]
fn collection_bare() {
    let collection = Collection { title: None, description: None, items: vec![] };
    assert_eq!(collection.render(), "");
}

#[test]
fn config_defaults() {
    let config = Config::default();
    assert_eq!(
        config.get_argv(ContentKind::Audio),
        &["mpv", "--profile=builtin-pseudo-gui", "--", "%u"]
    );
    assert_eq!(config.get_argv(ContentKind::Image), &["mupdf", "--", "%f"]);
    assert_eq!(config.get_argv(ContentKind::Pdf), &["mupdf", "--", "%f"]);
    assert_eq!(config.get_argv(ContentKind::Text), &["xterm", "-e", "%p", "--", "%f"]);
    assert_eq!(config.get_argv(ContentKind::Collection), &["xterm", "-e", "%p", "--", "%f"]);
    assert_eq!(config.get_argv(ContentKind::Video), &["mpv", "--", "%u"]);
}

#[test]
fn config_of_own_commands() {
    let words = |w: &[&str]| -> Vec<String> { w.iter().map(|s| s.to_string()).collect() };
    let config = Config::new(words(&["a"]), words(&["i"]), words(&["p"]), words(&["t"]), words(&["v"]));
    assert_eq!(config.get_argv(ContentKind::Audio), &["a"]);
    assert_eq!(config.get_argv(ContentKind::Image), &["i"]);
    assert_eq!(config.get_argv(ContentKind::Pdf), &["p"]);
    assert_eq!(config.get_argv(ContentKind::Collection), &["t"]);
    assert_eq!(config.get_argv(ContentKind::Video), &["v"]);
}

fn replacements(kind: ContentKind) -> Replacements {
    Replacements::new(kind, "URL".to_string(), "FILE".to_string(), "PAGER".to_string())
}

fn arguments(words: &[&str]) -> Vec<String> {
    words.iter().map(|s| s.to_string()).collect()
}

#[test]
fn placeholders_are_filled() {
    assert_eq!(
        expand_arguments(
            &arguments(&["-e", "%p", "--", "%f", "%", "%fx", "x%f"]),
            &replacements(ContentKind::Text)
        ),
        Ok(arguments(&["-e", "PAGER", "--", "FILE", "%", "%fx", "x%f"]))
    );
    assert_eq!(
        expand_arguments(&arguments(&["--", "%u"]), &replacements(ContentKind::Video)),
        Ok(arguments(&["--", "URL"]))
    );
    assert_eq!(expand_arguments(&arguments(&[]), &replacements(ContentKind::Pdf)), Ok(vec![]));
}

#[test]
fn placeholders_without_meaning() {
    assert_eq!(
        expand_arguments(&arguments(&["%f", "%u", "%p"]), &replacements(ContentKind::Image)),
        Err(InvalidPlaceholder('u'))
    );
    assert_eq!(
        expand_arguments(&arguments(&["%u", "%f"]), &replacements(ContentKind::Audio)),
        Err(InvalidPlaceholder('f'))
    );
    assert_eq!(
        expand_arguments(&arguments(&["%p"]), &replacements(ContentKind::Pdf)),
        Err(InvalidPlaceholder('p'))
    );
    assert_eq!(
        expand_arguments(&arguments(&["%é"]), &replacements(ContentKind::Text)),
        Err(InvalidPlaceholder('é'))
    );
    assert_eq!(
        expand_arguments(&arguments(&["%f", "%%"]), &replacements(ContentKind::Text)),
        Err(InvalidPlaceholder('%'))
    );
}
