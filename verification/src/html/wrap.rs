//! Measuring and wrapping text: what the renderer leaves to `textwrap` and
//! `unicode-width`.

use vstd::prelude::*;

verus! {

/// The number of terminal columns that `text` takes up.
pub uninterp spec fn display_width(text: Seq<char>) -> nat;

/// `text` wrapped into lines of at most `width` columns, the first line
/// behind `initial_indent` and every later one behind `subsequent_indent`.
pub uninterp spec fn filled(
    text: Seq<char>,
    width: nat,
    initial_indent: Seq<char>,
    subsequent_indent: Seq<char>,
) -> Seq<char>;

/// The words of `text`, each without the whitespace that follows it, in the
/// order in which they occur.
pub uninterp spec fn words(text: Seq<char>) -> Seq<Seq<char>>;

/// The characters from the space to the tilde: printable ASCII.
pub open spec fn printable_ascii(c: char) -> bool {
    ' ' <= c <= '~'
}

/// Calls `unicode_width::UnicodeWidthStr::width`. The width of a text is a
/// function of its characters alone. The crate counts one column for each
/// character up to U+00A0 other than a line feed or carriage return, so a
/// text of printable ASCII is as wide as it is long.
#[verifier::external_body]
pub(crate) fn width(text: &[char]) -> (columns: usize)
    ensures
        columns == display_width(text@),
        (forall|i: int| 0 <= i < text@.len() ==> printable_ascii(#[trigger] text@[i])) ==> columns
            == text@.len(),
{
    let text: String = text.iter().collect();
    unicode_width::UnicodeWidthStr::width(text.as_str())
}

/// Calls `textwrap::fill` with the options that `textwrap::Options::new`
/// gives for `width`, and the two indents. The result is a function of the
/// four arguments alone.
#[verifier::external_body]
pub(crate) fn fill(
    text: &[char],
    width: usize,
    initial_indent: &[char],
    subsequent_indent: &[char],
) -> (wrapped: Vec<char>)
    ensures
        wrapped@ == filled(text@, width as nat, initial_indent@, subsequent_indent@),
{
    let text: String = text.iter().collect();
    let initial_indent: String = initial_indent.iter().collect();
    let subsequent_indent: String = subsequent_indent.iter().collect();
    let options = textwrap::Options::new(width)
        .initial_indent(&initial_indent)
        .subsequent_indent(&subsequent_indent);
    textwrap::fill(&text, options).chars().collect()
}

/// Calls `textwrap::WordSeparator::find_words` on the separator that
/// `textwrap::WordSeparator::new` gives, and keeps the `word` of each item.
/// The result is a function of `text` alone.
#[verifier::external_body]
pub(crate) fn find_words(text: &[char]) -> (found: Vec<Vec<char>>)
    ensures
        found@.len() == words(text@).len(),
        forall|i: int| 0 <= i < found@.len() ==> (#[trigger] found@[i])@ == words(text@)[i],
{
    let text: String = text.iter().collect();
    textwrap::WordSeparator::new().find_words(&text).map(|w| w.word.chars().collect()).collect()
}

} // verus!
