use url::Url;
use zxcv::route::{
    nth_segment, path_segments, process_generic, process_specific, route, route_address,
    Address, Media, Rewrite, Route, Site, UrlError,
};

fn rewrite_url(url: &mut Url) -> bool {
    let has_q = url.query_pairs().any(|(k, _)| k == "q");
    let rewrite = zxcv::route::rewrite_url(url.host_str(), url.path(), has_q);
    match rewrite {
        Rewrite::Unknown => false,
        Rewrite::Unchanged => true,
        Rewrite::Path(path) => {
            url.set_path(&path);
            true
        }
        Rewrite::Mbox(has_q) => {
            if has_q {
                let pairs: Vec<_> = url
                    .query_pairs()
                    .filter(|(k, _)| k != "q")
                    .map(|(k, v)| (k.into_owned(), v.into_owned()))
                    .collect();
                url.query_pairs_mut().clear().extend_pairs(pairs);
            }
            url.query_pairs_mut().append_pair("q", "mbox");
            true
        }
    }
}

fn rewrite_test(url: &str, expected: &str) {
    let mut url = Url::parse(url).unwrap();
    let expected = Url::parse(expected).unwrap();

    assert!(rewrite_url(&mut url));
    assert_eq!(url, expected);
    assert!(rewrite_url(&mut url));
    assert_eq!(url, expected);
}

#[test]
fn rewrite_bpa_st() {
    rewrite_test("https://bpa.st/example", "https://bpa.st/example/raw");
}

#[test]
fn rewrite_bpa_st_pre_raw() {
    rewrite_test("https://bpa.st/raw/example", "https://bpa.st/raw/example");
}

#[test]
fn rewrite_dav1d_de() {
    rewrite_test("https://p.dav1d.de/example.rs", "https://p.dav1d.de/example");
}

#[test]
fn rewrite_paste_debian_net() {
    rewrite_test("https://paste.debian.net/1729/", "https://paste.debian.net/plain/1729");
}

#[test]
fn rewrite_dpaste_com() {
    rewrite_test("https://dpaste.com/example", "https://dpaste.com/example.txt");
}

#[test]
fn rewrite_dpaste_org() {
    rewrite_test("https://dpaste.org/example", "https://dpaste.org/example/raw");
}

#[test]
fn rewrite_marc_info() {
    rewrite_test(
        "https://marc.info/?l=example&m=1729&w=2",
        "https://marc.info/?l=example&m=1729&w=2&q=mbox",
    );
}

#[test]
fn rewrite_paste_mozilla_org() {
    rewrite_test("https://paste.mozilla.org/example", "https://paste.mozilla.org/example/raw");
}

#[test]
fn rewrite_pastebin_com() {
    rewrite_test("https://pastebin.com/example", "https://pastebin.com/raw/example");
}

#[test]
fn rewrite_unknown() {
    let mut url = Url::parse("https://example.com").unwrap();
    let expected = url.clone();

    assert!(!rewrite_url(&mut url));
    assert_eq!(url, expected);
}

#[test]
fn rewrite_ip() {
    let mut url = Url::parse("https://192.0.2.17/example").unwrap();
    let expected = url.clone();

    assert!(!rewrite_url(&mut url));
    assert_eq!(url, expected);
}

#[test]
fn rewrite_values() {
    let rewrite_url = zxcv::route::rewrite_url;
    assert_eq!(rewrite_url(None, "/x", false), Rewrite::Unknown);
    assert_eq!(rewrite_url(Some("bpa.st"), "/x/raw", false), Rewrite::Unchanged);
    assert_eq!(rewrite_url(Some("p.dav1d.de"), "/a.b.c", false), Rewrite::Path("/a.b".into()));
    assert_eq!(rewrite_url(Some("p.dav1d.de"), "/abc", false), Rewrite::Unchanged);
    assert_eq!(rewrite_url(Some("paste.debian.net"), "/", false), Rewrite::Path("/plain/".into()));
    assert_eq!(rewrite_url(Some("paste.debian.net"), "/a/b", false), Rewrite::Path("/plain/b".into()));
    assert_eq!(rewrite_url(Some("paste.debian.net"), "/plain/7", false), Rewrite::Unchanged);
    assert_eq!(rewrite_url(Some("paste.debian.net"), "", false), Rewrite::Unknown);
    assert_eq!(rewrite_url(Some("marc.info"), "/", true), Rewrite::Mbox(true));
    assert_eq!(rewrite_url(Some("pastebin.com"), "/raw/x", false), Rewrite::Unchanged);
    assert_eq!(rewrite_url(Some("pastebin.mozilla.org"), "/x", false), Rewrite::Path("/x/raw".into()));
}

#[test]
fn segments_of_paths() {
    let strings = |path: &str| -> Vec<String> {
        path_segments(path).into_iter().map(|s| s.into_iter().collect()).collect()
    };
    assert_eq!(strings("/a/b"), vec!["a", "b"]);
    assert_eq!(strings("/"), vec![""]);
    assert_eq!(strings("/a//b/"), vec!["a", "", "b", ""]);
    assert_eq!(strings(""), vec![""]);
    assert_eq!(strings("mailto"), vec![""]);
    assert_eq!(nth_segment("/wiki/Rust", 1), Some("Rust".to_string()));
    assert_eq!(nth_segment("/wiki", 1), None);
    assert_eq!(nth_segment("wiki/Rust", 1), None);
}

#[test]
fn sites_by_host() {
    assert_eq!(process_specific("bsky.app"), Site::Bsky);
    assert_eq!(process_specific("giphy.com"), Site::Image("figure img"));
    assert_eq!(process_specific("imgbb.com"), Site::Image("#image-viewer-container > img"));
    assert_eq!(process_specific("github.com"), Site::Github);
    assert_eq!(process_specific("gist.github.com"), Site::Gist);
    assert_eq!(process_specific("play.rust-lang.org"), Site::GistQuery);
    assert_eq!(process_specific("imgur.com"), Site::Imgur);
    assert_eq!(process_specific("lobste.rs"), Site::Lobsters);
    assert_eq!(process_specific("m.soundcloud.com"), Site::Audio);
    assert_eq!(process_specific("music.youtube.com"), Site::Video);
    assert_eq!(process_specific("www.twitch.tv"), Site::Video);
    assert_eq!(process_specific("en.wikipedia.org"), Site::Wikimedia);
    assert_eq!(process_specific("m.xkcd.com"), Site::Image("#comic > img"));
    assert_eq!(process_specific("askubuntu.com"), Site::StackExchange("askubuntu"));
    assert_eq!(process_specific("example.com"), Site::Generic);
    assert_eq!(process_specific("GitHub.com"), Site::Generic);
}

#[test]
fn media_by_content_type() {
    assert_eq!(process_generic("application/pdf"), Media::Pdf);
    assert_eq!(process_generic("application/vnd.apple.mpegurl"), Media::Video);
    assert_eq!(process_generic("text/html; charset=utf-8"), Media::Html);
    assert_eq!(process_generic("text/html;charset=utf-8;x"), Media::Html);
    assert_eq!(process_generic("audio/ogg"), Media::Audio);
    assert_eq!(process_generic("image/png"), Media::Image);
    assert_eq!(process_generic("text/plain"), Media::Text);
    assert_eq!(process_generic("video/mp4"), Media::Video);
    assert_eq!(process_generic("application/json"), Media::Unsupported);
    assert_eq!(process_generic(""), Media::Unsupported);
    assert_eq!(process_generic(";text/html"), Media::Unsupported);
}

#[test]
fn routes() {
    assert_eq!(route("not an address"), Err(UrlError::Invalid));
    assert_eq!(route("mailto:someone@example.com"), Err(UrlError::NotAbsolute));
    assert_eq!(route("ftp://example.com/x"), Err(UrlError::UnsupportedScheme));
    assert_eq!(route("https://example.com/x"), Ok(Route::Site(Site::Generic)));
    assert_eq!(route("HTTPS://GitHub.com/a/b"), Ok(Route::Site(Site::Github)));
    assert_eq!(
        route("https://dpaste.com/x"),
        Ok(Route::Raw(Rewrite::Path("/x.txt".to_string())))
    );
    assert_eq!(route("https://marc.info/?q=a&l=b"), Ok(Route::Raw(Rewrite::Mbox(true))));
    assert_eq!(route("https://marc.info/?l=b"), Ok(Route::Raw(Rewrite::Mbox(false))));
    assert_eq!(route("http://bpa.st/raw/x"), Ok(Route::Raw(Rewrite::Unchanged)));
}

#[test]
fn route_of_parts() {
    let address = Address {
        scheme: "https".to_string(),
        host: None,
        path: "/x".to_string(),
        query_keys: vec![],
        cannot_be_a_base: false,
    };
    assert_eq!(route_address(&address), Ok(Route::Site(Site::Generic)));
}
