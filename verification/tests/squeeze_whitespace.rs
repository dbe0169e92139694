use zxcv::html::squeeze_whitespace::SqueezeWhitespace;
use zxcv::text::{collect_chars, StrSource};

fn squeeze(input: &str) -> String {
    collect_chars(SqueezeWhitespace::new(StrSource::new(input))).into_iter().collect()
}

#[test]
fn squeeze_plain() {
    assert_eq!(squeeze("foo bar baz"), "foo bar baz");
}

#[test]
fn squeeze_leading() {
    assert_eq!(squeeze("  foo bar baz"), "foo bar baz");
}

#[test]
fn squeeze_trailing() {
    assert_eq!(squeeze("foo bar baz  "), "foo bar baz");
}

#[test]
fn squeeze_middle() {
    assert_eq!(squeeze("foo  bar  baz"), "foo bar baz");
}

#[test]
fn squeeze_newline() {
    assert_eq!(squeeze("foo\nbar\n  baz \nquux"), "foo bar baz quux");
}

#[test]
fn squeeze_tab() {
    assert_eq!(squeeze("foo\tbar\t  baz \tquux"), "foo bar baz quux");
}

#[test]
fn squeeze_zwsp() {
    assert_eq!(squeeze("foo\u{200b}bar\u{200b}  baz \u{200b}quux"), "foo bar baz quux");
}

#[test]
fn squeeze_all_whitespace() {
    assert_eq!(squeeze(" \t\n\u{200b} "), "");
}

#[test]
fn squeeze_empty() {
    assert_eq!(squeeze(""), "");
}

#[test]
fn squeeze_twice_changes_nothing() {
    for input in ["  foo \t bar\u{200b}\u{200b}baz  ", "a", " ", "\u{a0}x\u{3000}y "] {
        let once = squeeze(input);
        assert_eq!(squeeze(&once), once);
    }
}
