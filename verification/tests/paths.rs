use zxcv::{bsky, gitea, github, imgur, mastodon, stackoverflow};

#[test]
fn bsky_list() {
    assert_eq!(
        bsky::parse_path("/profile/example.bsky.social/lists/17296c1"),
        Some(bsky::Path::List { profile: "example.bsky.social".into(), list: "17296c1".into() })
    );
}

#[test]
fn bsky_post() {
    assert_eq!(
        bsky::parse_path("/profile/example.bsky.social/post/17296c1"),
        Some(bsky::Path::Post { profile: "example.bsky.social".into(), post: "17296c1".into() })
    );
}

#[test]
fn bsky_profile() {
    assert_eq!(
        bsky::parse_path("/profile/example.bsky.social"),
        Some(bsky::Path::Profile { profile: "example.bsky.social".into() })
    );
}

#[test]
fn bsky_unknown() {
    assert_eq!(bsky::parse_path("/unknown"), None);
}

#[test]
fn github_assets() {
    assert_eq!(
        github::parse_path("/foo/bar/assets/1729/06c106c1-06c1-46c1-06c1-06c106c106c1"),
        Some(github::Path::Raw)
    );
}

#[test]
fn github_blob() {
    assert_eq!(
        github::parse_path("/foo/bar/blob/ref/some/path"),
        Some(github::Path::Blob("foo".into(), "bar".into(), "/some/path".into(), "ref".into()))
    );
}

#[test]
fn github_commit() {
    assert_eq!(
        github::parse_path("/foo/bar/commit/06c106c106c106c106c106c106c106c106c106c1"),
        Some(github::Path::Commit(
            "foo".into(),
            "bar".into(),
            "06c106c106c106c106c106c106c106c106c106c1".into()
        ))
    );
}

#[test]
fn github_commit_patch() {
    assert_eq!(
        github::parse_path("/foo/bar/commit/06c106c106c106c106c106c106c106c106c106c1.patch"),
        Some(github::Path::Commit(
            "foo".into(),
            "bar".into(),
            "06c106c106c106c106c106c106c106c106c106c1".into()
        ))
    );
}

#[test]
fn github_compare() {
    assert_eq!(
        github::parse_path("/foo/bar/compare/06c106c106c1...c106c106c106"),
        Some(github::Path::Compare(
            "foo".into(),
            "bar".into(),
            "06c106c106c1...c106c106c106".into()
        ))
    );
}

#[test]
fn github_compare_patch() {
    assert_eq!(
        github::parse_path("/foo/bar/compare/06c106c106c1...c106c106c106.patch"),
        Some(github::Path::Compare(
            "foo".into(),
            "bar".into(),
            "06c106c106c1...c106c106c106".into()
        ))
    );
}

#[test]
fn github_issue() {
    assert_eq!(
        github::parse_path("/foo/bar/issues/1729"),
        Some(github::Path::Issue("foo".into(), "bar".into(), "1729".into()))
    );
}

#[test]
fn github_pull_request() {
    assert_eq!(
        github::parse_path("/foo/bar/pull/1729"),
        Some(github::Path::PullRequest("foo".into(), "bar".into(), "1729".into()))
    );
}

#[test]
fn github_pull_request_patch() {
    assert_eq!(github::parse_path("/foo/bar/pull/1729.patch"), Some(github::Path::Raw));
}

#[test]
fn github_raw() {
    assert_eq!(github::parse_path("/foo/bar/raw/ref/some/path"), Some(github::Path::Raw));
}

#[test]
fn github_release() {
    assert_eq!(
        github::parse_path("/foo/bar/releases/tag/v1.72.9"),
        Some(github::Path::Release("foo".into(), "bar".into(), "v1.72.9".into()))
    );
}

#[test]
fn github_repo() {
    assert_eq!(
        github::parse_path("/foo/bar"),
        Some(github::Path::Repo("foo".into(), "bar".into()))
    );
}

#[test]
fn github_unknown() {
    assert_eq!(github::parse_path("/invalid"), None);
}

#[test]
fn github_edges() {
    assert_eq!(github::parse_path("/foo/bar/blob/ref"), None);
    assert_eq!(
        github::parse_path("/foo/bar/blob/ref/"),
        Some(github::Path::Blob("foo".into(), "bar".into(), "/".into(), "ref".into()))
    );
    assert_eq!(github::parse_path("/foo/bar/releases/tags/v1"), None);
    assert_eq!(
        github::parse_path("/foo/bar/compare/a.b.c.d.e.f"),
        Some(github::Path::Compare("foo".into(), "bar".into(), "a.b.c.d".into()))
    );
    assert_eq!(github::parse_path("foo/bar"), None);
}

#[test]
fn gitea_commit() {
    assert_eq!(
        gitea::parse_path("/foo/bar/commit/06c106c106c106c106c106c106c106c106c106c1"),
        Some(gitea::Path::Commit(
            "foo".into(),
            "bar".into(),
            "06c106c106c106c106c106c106c106c106c106c1".into()
        ))
    );
}

#[test]
fn gitea_issue() {
    assert_eq!(
        gitea::parse_path("/foo/bar/issues/1729"),
        Some(gitea::Path::Issue("foo".into(), "bar".into(), "1729".into()))
    );
}

#[test]
fn gitea_src() {
    assert_eq!(
        gitea::parse_path("/foo/bar/src/branch/ref/some/path"),
        Some(gitea::Path::Src("foo".into(), "bar".into(), "/some/path".into(), "ref".into()))
    );
}

#[test]
fn gitea_unknown() {
    assert_eq!(gitea::parse_path("/invalid"), None);
}

#[test]
fn gitea_keywords() {
    assert!(gitea::is_gitea("git,forgejo,code"));
    assert!(gitea::is_gitea("gitea"));
    assert!(!gitea::is_gitea("git, gitea"));
    assert!(!gitea::is_gitea(""));
}

#[test]
fn gitea_content() {
    assert_eq!(gitea::file_content("file", "aGVsbG8="), Ok(b"hello".to_vec()));
    assert_eq!(gitea::file_content("file", "%%%"), Err(gitea::ContentError::Malformed));
    assert_eq!(gitea::file_content("dir", "aGVsbG8="), Err(gitea::ContentError::UnknownType));
}

#[test]
fn imgur_album() {
    assert_eq!(imgur::parse_path("/a/abcdefg"), Some(imgur::Path::Album("abcdefg".into())));
}

#[test]
fn imgur_album_title() {
    assert_eq!(imgur::parse_path("/a/title-abcdefg"), Some(imgur::Path::Album("abcdefg".into())));
}

#[test]
fn imgur_gallery() {
    assert_eq!(
        imgur::parse_path("/gallery/abcdefg"),
        Some(imgur::Path::Gallery("abcdefg".into()))
    );
}

#[test]
fn imgur_gallery_title() {
    assert_eq!(
        imgur::parse_path("/gallery/foo-bar-baz-abcdefg"),
        Some(imgur::Path::Gallery("abcdefg".into()))
    );
}

#[test]
fn imgur_image() {
    assert_eq!(imgur::parse_path("/abcdefg"), Some(imgur::Path::Image("abcdefg".into())));
}

#[test]
fn imgur_image_title() {
    assert_eq!(imgur::parse_path("/title-abcdefg"), Some(imgur::Path::Image("abcdefg".into())));
}

#[test]
fn imgur_unknown() {
    assert_eq!(imgur::parse_path("/unknown/path"), None);
}

#[test]
fn mastodon_status() {
    assert_eq!(
        mastodon::parse_path("/@example/17291729"),
        Some(mastodon::Path::Status { status_id: "17291729".into() })
    );
}

#[test]
fn mastodon_unknown() {
    assert_eq!(mastodon::parse_path("/unknown"), None);
}

#[test]
fn stackoverflow_paths() {
    assert_eq!(stackoverflow::parse_path("/a/42"), Some(stackoverflow::Path::Answer("42".into())));
    assert_eq!(
        stackoverflow::parse_path("/questions/7/some-title"),
        Some(stackoverflow::Path::Question("7".into(), None))
    );
    assert_eq!(
        stackoverflow::parse_path("/questions/7/some-title/99"),
        Some(stackoverflow::Path::Question("7".into(), Some(99)))
    );
    assert_eq!(
        stackoverflow::parse_path("/q/7/some-title/x99"),
        Some(stackoverflow::Path::Question("7".into(), None))
    );
    assert_eq!(stackoverflow::parse_path("/users/7"), None);
    assert_eq!(stackoverflow::parse_path("/a"), None);
}

#[test]
fn stackoverflow_sites() {
    assert_eq!(stackoverflow::site_tag("stackoverflow.com"), Some("stackoverflow"));
    assert_eq!(stackoverflow::site_tag("facebook.stackoverflow.com"), Some("stackoverflow"));
    assert_eq!(stackoverflow::site_tag("meta.nothingtoinstall.com"), Some("webapps.meta"));
    assert_eq!(stackoverflow::site_tag("miyodeya.com"), Some("judaism"));
    assert_eq!(stackoverflow::site_tag("genai.meta.stackexchange.com"), Some("genai.meta"));
    assert_eq!(stackoverflow::site_tag("languagedesign.stackexchange.com"), Some("langdev"));
    assert_eq!(stackoverflow::site_tag("example.com"), None);
    assert_eq!(stackoverflow::site_tag(""), None);
}

#[test]
fn stackoverflow_answers() {
    let answer = |answer_id| stackoverflow::Answer { answer_id, body: String::new(), display_name: String::new() };
    let answers = vec![answer(3), answer(9), answer(3)];
    assert_eq!(stackoverflow::find_answer(&answers, 9), Some(1));
    assert_eq!(stackoverflow::find_answer(&answers, 3), Some(0));
    assert_eq!(stackoverflow::find_answer(&answers, 4), None);
    let post = stackoverflow::Answer { answer_id: 1, body: "<p>a_b</p>".into(), display_name: "<b>x</b>".into() }
        .render("https://example.com/");
    assert_eq!((post.author.as_str(), post.body.as_str()), ("**x**", "a\\_b"));
    assert!(post.urls.is_empty());
}
