//! Backslash-escapes the characters that Markdown would read as syntax.

use crate::text::CharSource;
use vstd::prelude::*;

verus! {

/// The characters that Markdown gives a meaning to, and that are therefore
/// escaped in literal text.
pub open spec fn markdown_control(c: char) -> bool {
    c == '#' || c == '*' || c == '\\' || c == '_' || c == '`'
}

/// Tells whether Markdown gives `c` a meaning.
#[verifier::when_used_as_spec(markdown_control)]
pub fn is_markdown_control(c: char) -> (b: bool)
    ensures
        b == markdown_control(c),
{
    c == '#' || c == '*' || c == '\\' || c == '_' || c == '`'
}

/// `s` with a backslash in front of each control character.
pub open spec fn escape(s: Seq<char>) -> Seq<char>
    decreases s.len(),
{
    if s.len() == 0 {
        Seq::empty()
    } else if markdown_control(s[0]) {
        seq!['\\', s[0]] + escape(s.drop_first())
    } else {
        seq![s[0]] + escape(s.drop_first())
    }
}

/// What a reader of `t` finds when taking each backslash together with the
/// control character behind it: no control character on its own, and no
/// backslash that escapes nothing.
pub open spec fn escaped(t: Seq<char>) -> bool
    decreases t.len(),
{
    if t.len() == 0 {
        true
    } else if t[0] == '\\' {
        t.len() >= 2 && markdown_control(t[1]) && escaped(t.skip(2))
    } else {
        !markdown_control(t[0]) && escaped(t.drop_first())
    }
}

/// The literal text that escaped text stands for: each backslash is dropped
/// and the character behind it kept.
pub open spec fn unescape(t: Seq<char>) -> Seq<char>
    decreases t.len(),
{
    if t.len() == 0 {
        Seq::empty()
    } else if t[0] == '\\' && t.len() >= 2 {
        seq![t[1]] + unescape(t.skip(2))
    } else {
        seq![t[0]] + unescape(t.drop_first())
    }
}

/// Escaped text never shows a control character that is not escaped.
pub proof fn escape_leaves_no_bare_control(s: Seq<char>)
    ensures
        escaped(escape(s)),
    decreases s.len(),
{
    if s.len() > 0 {
        let rest = escape(s.drop_first());
        escape_leaves_no_bare_control(s.drop_first());
        if markdown_control(s[0]) {
            assert(escape(s).skip(2) =~= rest);
        } else {
            assert(escape(s).drop_first() =~= rest);
        }
    }
}

/// Escaping loses nothing: the literal text can be read back.
pub proof fn unescape_escape(s: Seq<char>)
    ensures
        unescape(escape(s)) == s,
    decreases s.len(),
{
    if s.len() > 0 {
        let rest = escape(s.drop_first());
        unescape_escape(s.drop_first());
        if markdown_control(s[0]) {
            assert(escape(s).skip(2) =~= rest);
        } else {
            assert(escape(s).drop_first() =~= rest);
        }
        assert(seq![s[0]] + s.drop_first() =~= s);
    } else {
        assert(unescape(escape(s)) =~= s);
    }
}

/// A stream that yields the characters of another with the control
/// characters escaped.
pub struct EscapeMarkdown<T: CharSource> {
    chars: T,
    next: Option<char>,
}

impl<T: CharSource> EscapeMarkdown<T> {
    /// A stream of what `chars` yields, escaped.
    pub fn new(chars: T) -> (escaper: Self)
        ensures
            escaper.remaining() == escape(chars.remaining()),
    {
        EscapeMarkdown { chars, next: None }
    }
}

impl<T: CharSource> CharSource for EscapeMarkdown<T> {
    closed spec fn remaining(&self) -> Seq<char> {
        match self.next {
            Some(c) => seq![c] + escape(self.chars.remaining()),
            None => escape(self.chars.remaining()),
        }
    }

    fn next(&mut self) -> (c: Option<char>) {
        if let Some(next) = self.next {
            self.next = None;
            assert(final(self).remaining() =~= old(self).remaining().drop_first());
            return Some(next);
        }
        match self.chars.next() {
            Some(next) => {
                if is_markdown_control(next) {
                    self.next = Some(next);
                    assert(final(self).remaining() =~= old(self).remaining().drop_first());
                    Some('\\')
                } else {
                    assert(final(self).remaining() =~= old(self).remaining().drop_first());
                    Some(next)
                }
            },
            None => None,
        }
    }
}

} // verus!
