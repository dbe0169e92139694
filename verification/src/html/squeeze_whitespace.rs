//! Collapses runs of whitespace into single spaces.

use crate::text::{unicode_whitespace, CharSource};
use vstd::prelude::*;

verus! {

/// Whitespace for the purposes of rendering: Unicode whitespace and the
/// zero-width space.
pub open spec fn whitespace(c: char) -> bool {
    unicode_whitespace(c) || c == '\u{200b}'
}

/// Tells whether `c` is whitespace for the purposes of rendering.
#[verifier::when_used_as_spec(whitespace)]
pub fn is_whitespace(c: char) -> (b: bool)
    ensures
        b == whitespace(c),
{
    c.is_whitespace() || c == '\u{200b}'
}

/// `s` without its leading whitespace.
pub open spec fn skip_whitespace(s: Seq<char>) -> Seq<char>
    decreases s.len(),
{
    if s.len() > 0 && whitespace(s[0]) {
        skip_whitespace(s.drop_first())
    } else {
        s
    }
}

/// Character by character: a character that is not whitespace stands for
/// itself, a whitespace character that is directly followed by one that is
/// not stands for a single space, and any other whitespace for nothing.
pub open spec fn squeeze_tail(s: Seq<char>) -> Seq<char>
    decreases s.len(),
{
    if s.len() == 0 {
        Seq::empty()
    } else if !whitespace(s[0]) {
        seq![s[0]] + squeeze_tail(s.drop_first())
    } else if s.len() > 1 && !whitespace(s[1]) {
        seq![' '] + squeeze_tail(s.drop_first())
    } else {
        squeeze_tail(s.drop_first())
    }
}

/// `s` with every run of whitespace replaced by one space, and without the
/// whitespace at either end.
pub open spec fn squeeze(s: Seq<char>) -> Seq<char> {
    squeeze_tail(skip_whitespace(s))
}

/// Every whitespace character of `t` is a space that lies between two
/// characters that are not whitespace, except that one may come first.
pub open spec fn spaced(t: Seq<char>) -> bool {
    forall|i: int|
        0 <= i < t.len() && whitespace(#[trigger] t[i]) ==> {
            &&& t[i] == ' '
            &&& i + 1 < t.len()
            &&& !whitespace(t[i + 1])
        }
}

/// `t` is what squeezing leaves behind: it neither begins nor ends with
/// whitespace, and its only whitespace is single spaces between other
/// characters.
pub open spec fn squeezed(t: Seq<char>) -> bool {
    &&& spaced(t)
    &&& t.len() > 0 ==> !whitespace(t[0])
}

/// What is left after the leading whitespace is empty or begins with a
/// character that is not whitespace, and is no longer than the input.
pub proof fn lemma_skip_whitespace(s: Seq<char>)
    ensures
        skip_whitespace(s).len() > 0 ==> !whitespace(skip_whitespace(s)[0]),
        skip_whitespace(s).len() <= s.len(),
        s.len() > 0 && whitespace(s[0]) ==> skip_whitespace(s) == skip_whitespace(
            s.drop_first(),
        ),
        !(s.len() > 0 && whitespace(s[0])) ==> skip_whitespace(s) == s,
    decreases s.len(),
{
    if s.len() > 0 && whitespace(s[0]) {
        lemma_skip_whitespace(s.drop_first());
    }
}

/// A run of whitespace at the front contributes nothing when only
/// whitespace follows it, and one space otherwise.
pub proof fn lemma_squeeze_tail_run(s: Seq<char>)
    requires
        s.len() > 0,
        whitespace(s[0]),
    ensures
        squeeze_tail(s) == (if skip_whitespace(s).len() == 0 {
            Seq::<char>::empty()
        } else {
            seq![' '] + squeeze_tail(skip_whitespace(s))
        }),
    decreases s.len(),
{
    let rest = s.drop_first();
    lemma_skip_whitespace(s);
    lemma_skip_whitespace(rest);
    if rest.len() > 0 {
        assert(rest[0] == s[1]);
        if whitespace(rest[0]) {
            lemma_squeeze_tail_run(rest);
        }
    } else {
        assert(squeeze_tail(rest) =~= Seq::<char>::empty());
    }
}

proof fn lemma_squeeze_tail_shape(s: Seq<char>)
    ensures
        spaced(squeeze_tail(s)),
        s.len() > 0 && !whitespace(s[0]) ==> squeeze_tail(s).len() > 0 && squeeze_tail(s)[0]
            == s[0],
    decreases s.len(),
{
    if s.len() > 0 {
        let rest = s.drop_first();
        let tail = squeeze_tail(rest);
        lemma_squeeze_tail_shape(rest);
        let out = squeeze_tail(s);
        if !whitespace(s[0]) || (s.len() > 1 && !whitespace(s[1])) {
            assert forall|i: int| 0 <= i < out.len() && whitespace(#[trigger] out[i]) implies {
                &&& out[i] == ' '
                &&& i + 1 < out.len()
                &&& !whitespace(out[i + 1])
            } by {
                if i > 0 {
                    assert(out[i] == tail[i - 1]);
                    assert(whitespace(tail[i - 1]));
                    assert(out[i + 1] == tail[i]);
                } else {
                    assert(rest[0] == s[1]);
                }
            }
        }
    }
}

/// Squeezing leaves no whitespace at either end and none but single spaces
/// in between.
pub proof fn lemma_squeeze_squeezed(s: Seq<char>)
    ensures
        squeezed(squeeze(s)),
{
    lemma_skip_whitespace(s);
    lemma_squeeze_tail_shape(skip_whitespace(s));
}

proof fn lemma_spaced_fixed(t: Seq<char>)
    requires
        spaced(t),
    ensures
        squeeze_tail(t) == t,
    decreases t.len(),
{
    if t.len() > 0 {
        let rest = t.drop_first();
        assert forall|i: int| 0 <= i < rest.len() && whitespace(#[trigger] rest[i]) implies {
            &&& rest[i] == ' '
            &&& i + 1 < rest.len()
            &&& !whitespace(rest[i + 1])
        } by {
            assert(rest[i] == t[i + 1]);
            assert(whitespace(t[i + 1]));
        }
        lemma_spaced_fixed(rest);
        assert(whitespace(t[0]) ==> t[0] == ' ' && t.len() > 1 && !whitespace(t[1]));
        assert(seq![t[0]] + rest =~= t);
    } else {
        assert(squeeze_tail(t) =~= t);
    }
}

/// Text that is already squeezed is left as it is.
pub proof fn lemma_squeezed_fixed(t: Seq<char>)
    requires
        squeezed(t),
    ensures
        squeeze(t) == t,
{
    lemma_skip_whitespace(t);
    lemma_spaced_fixed(t);
}

/// Squeezing is idempotent: squeezing squeezed text changes nothing.
pub proof fn squeeze_idempotent(s: Seq<char>)
    ensures
        squeeze(squeeze(s)) == squeeze(s),
{
    lemma_squeeze_squeezed(s);
    lemma_squeezed_fixed(squeeze(s));
}

/// Takes characters off `source` up to and including the first that is not
/// whitespace, which it returns.
fn find_non_whitespace<T: CharSource>(source: &mut T) -> (found: Option<char>)
    ensures
        found == (if skip_whitespace(old(source).remaining()).len() > 0 {
            Some(skip_whitespace(old(source).remaining())[0])
        } else {
            None
        }),
        final(source).remaining() == (if skip_whitespace(old(source).remaining()).len() > 0 {
            skip_whitespace(old(source).remaining()).drop_first()
        } else {
            Seq::<char>::empty()
        }),
{
    loop
        invariant
            skip_whitespace(source.remaining()) == skip_whitespace(old(source).remaining()),
        decreases source.remaining().len(),
    {
        proof {
            lemma_skip_whitespace(source.remaining());
        }
        match source.next() {
            Some(c) => {
                if !is_whitespace(c) {
                    return Some(c);
                }
            },
            None => {
                assert(source.remaining() =~= Seq::<char>::empty());
                return None;
            },
        }
    }
}

/// A stream that yields the characters of another with its whitespace
/// squeezed.
pub struct SqueezeWhitespace<T: CharSource> {
    chars: T,
    next: Option<char>,
}

impl<T: CharSource> SqueezeWhitespace<T> {
    /// A stream of what `chars` yields, squeezed.
    pub fn new(chars: T) -> (squeezer: Self)
        ensures
            squeezer.remaining() == squeeze(chars.remaining()),
    {
        let mut chars = chars;
        let ghost all = chars.remaining();
        let next = find_non_whitespace(&mut chars);
        proof {
            lemma_skip_whitespace(all);
            let rest = skip_whitespace(all);
            if rest.len() > 0 {
                assert(squeeze_tail(rest) == seq![rest[0]] + squeeze_tail(rest.drop_first()));
            }
        }
        SqueezeWhitespace { chars, next }
    }
}

impl<T: CharSource> CharSource for SqueezeWhitespace<T> {
    closed spec fn remaining(&self) -> Seq<char> {
        match self.next {
            Some(c) => seq![c] + squeeze_tail(self.chars.remaining()),
            None => squeeze_tail(self.chars.remaining()),
        }
    }

    fn next(&mut self) -> (c: Option<char>) {
        if let Some(next) = self.next {
            self.next = None;
            assert(final(self).remaining() =~= old(self).remaining().drop_first());
            return Some(next);
        }
        let ghost before = self.chars.remaining();
        match self.chars.next() {
            Some(next) => {
                if is_whitespace(next) {
                    let ghost rest = self.chars.remaining();
                    self.next = find_non_whitespace(&mut self.chars);
                    proof {
                        lemma_squeeze_tail_run(before);
                        lemma_skip_whitespace(before);
                        lemma_skip_whitespace(rest);
                        let run = skip_whitespace(before);
                        assert(run == skip_whitespace(rest));
                        if run.len() > 0 {
                            assert(squeeze_tail(run) == seq![run[0]] + squeeze_tail(
                                run.drop_first(),
                            ));
                            assert(final(self).remaining() =~= old(self).remaining().drop_first());
                        }
                    }
                    if self.next.is_some() {
                        Some(' ')
                    } else {
                        None
                    }
                } else {
                    assert(final(self).remaining() =~= old(self).remaining().drop_first());
                    Some(next)
                }
            },
            None => None,
        }
    }
}

} // verus!
