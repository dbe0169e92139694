use zxcv::html::escape_markdown::EscapeMarkdown;
use zxcv::html::squeeze_whitespace::SqueezeWhitespace;
use zxcv::text::{collect_chars, StrSource};

fn escape(input: &str) -> String {
    collect_chars(EscapeMarkdown::new(StrSource::new(input))).into_iter().collect()
}

#[test]
fn escape_plain() {
    assert_eq!(escape("foo bar baz"), "foo bar baz");
}

#[test]
fn escape_backtick() {
    assert_eq!(escape("foo`bar"), "foo\\`bar");
}

#[test]
fn escape_every_control_character() {
    assert_eq!(escape("#*\\_`"), "\\#\\*\\\\\\_\\`");
}

#[test]
fn escape_leaves_no_control_character_bare() {
    let escaped: Vec<char> = escape("a#b**c\\d_e`f\\").chars().collect();
    let mut i = 0;
    while i < escaped.len() {
        if escaped[i] == '\\' {
            assert!(matches!(escaped[i + 1], '#' | '*' | '\\' | '_' | '`'));
            i += 2;
        } else {
            assert!(!matches!(escaped[i], '#' | '*' | '_' | '`'));
            i += 1;
        }
    }
}

#[test]
fn escape_after_squeeze() {
    let chained = EscapeMarkdown::new(SqueezeWhitespace::new(StrSource::new("  a_b \n c*  ")));
    let out: String = collect_chars(chained).into_iter().collect();
    assert_eq!(out, "a\\_b c\\*");
}
