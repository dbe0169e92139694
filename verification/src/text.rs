//! Characters and character sequences: the plumbing shared by the renderers.

use vstd::prelude::*;

verus! {

/// Whether `c` has the Unicode `White_Space` property.
pub uninterp spec fn unicode_whitespace(c: char) -> bool;

/// `char::is_whitespace` of std reports whether its argument has the Unicode
/// `White_Space` property. Nothing is claimed here about which characters
/// have it.
pub assume_specification[ std::primitive::char::is_whitespace ](c: char) -> (b: bool)
    ensures
        b == unicode_whitespace(c),
;

/// `String::push` of std appends one character to the end of the string and
/// leaves the rest of it alone.
pub assume_specification[ String::push ](s: &mut String, c: char)
    ensures
        final(s)@ == old(s)@.push(c),
;

/// A text that may be missing, as a mathematical value.
pub open spec fn text_view(text: Option<String>) -> Option<Seq<char>> {
    match text {
        Some(text) => Some(text@),
        None => None,
    }
}

/// Some texts as mathematical values.
pub open spec fn strings_view(texts: Seq<String>) -> Seq<Seq<char>> {
    Seq::new(texts.len(), |i: int| texts[i]@)
}

/// A stream of characters that is consumed from the front.
pub trait CharSource {
    /// The characters that are still to come, in order.
    spec fn remaining(&self) -> Seq<char>;

    /// Takes the next character off the stream, if there is one.
    fn next(&mut self) -> (c: Option<char>)
        ensures
            c == (if old(self).remaining().len() > 0 {
                Some(old(self).remaining()[0])
            } else {
                None
            }),
            final(self).remaining() == (if old(self).remaining().len() > 0 {
                old(self).remaining().drop_first()
            } else {
                old(self).remaining()
            }),
    ;
}

/// The characters of a string slice, as a stream.
pub struct StrSource {
    chars: Vec<char>,
    position: usize,
}

impl StrSource {
    /// A stream of the characters of `s`.
    pub fn new(s: &str) -> (source: Self)
        ensures
            source.remaining() == s@,
    {
        StrSource { chars: to_chars(s), position: 0 }
    }
}

impl CharSource for StrSource {
    closed spec fn remaining(&self) -> Seq<char> {
        if self.position <= self.chars@.len() {
            self.chars@.skip(self.position as int)
        } else {
            Seq::empty()
        }
    }

    fn next(&mut self) -> (c: Option<char>) {
        if self.position < self.chars.len() {
            let c = self.chars[self.position];
            self.position += 1;
            assert(final(self).remaining() =~= old(self).remaining().drop_first());
            Some(c)
        } else {
            None
        }
    }
}

/// Drains `source` into a vector.
pub fn collect_chars<T: CharSource>(source: T) -> (out: Vec<char>)
    ensures
        out@ == source.remaining(),
{
    let mut out: Vec<char> = Vec::new();
    append_chars(&mut out, source);
    out
}

/// Drains `source` onto the end of `dst`.
pub fn append_chars<T: CharSource>(dst: &mut Vec<char>, source: T)
    ensures
        final(dst)@ == old(dst)@ + source.remaining(),
{
    let mut source = source;
    let ghost all = source.remaining();
    let ghost before = dst@;
    loop
        invariant
            dst@ + source.remaining() == before + all,
        ensures
            source.remaining().len() == 0,
        decreases source.remaining().len(),
    {
        let ghost rest = source.remaining();
        match source.next() {
            Some(c) => {
                dst.push(c);
                assert(rest == seq![c] + rest.drop_first());
                assert(dst@ + source.remaining() == before + all) by {
                    assert(dst@ + source.remaining() =~= (dst@.drop_last() + rest));
                }
            },
            None => {
                assert(dst@ + source.remaining() =~= dst@);
                break;
            },
        }
    }
    assert(dst@ =~= before + all);
}

/// The characters of `s`, in order.
pub fn to_chars(s: &str) -> (out: Vec<char>)
    ensures
        out@ == s@,
{
    let mut out: Vec<char> = Vec::new();
    for c in it: s.chars()
        invariant
            out@ == it.seq().take(it.index() as int),
            it.seq() == s@,
    {
        out.push(c);
    }
    out
}

/// The string made of the characters of `chars`, in order.
pub fn to_string(chars: &[char]) -> (out: String)
    ensures
        out@ == chars@,
{
    let mut out = String::new();
    let mut i: usize = 0;
    while i < chars.len()
        invariant
            i <= chars.len(),
            out@ == chars@.take(i as int),
        decreases chars.len() - i,
    {
        out.push(chars[i]);
        i += 1;
        assert(chars@.take(i as int) =~= chars@.take(i - 1).push(chars@[i - 1]));
    }
    assert(chars@.take(chars.len() as int) =~= chars@);
    out
}

/// Copies `src` onto the end of `dst`.
pub fn extend(dst: &mut Vec<char>, src: &[char])
    ensures
        final(dst)@ == old(dst)@ + src@,
{
    let mut i: usize = 0;
    while i < src.len()
        invariant
            i <= src.len(),
            dst@ == old(dst)@ + src@.take(i as int),
        decreases src.len() - i,
    {
        dst.push(src[i]);
        i += 1;
        assert(src@.take(i as int) =~= src@.take(i - 1).push(src@[i - 1]));
        assert(dst@ =~= old(dst)@ + src@.take(i as int));
    }
    assert(src@.take(src.len() as int) =~= src@);
}

/// `s` without the Unicode whitespace at its end.
pub open spec fn trim_end(s: Seq<char>) -> Seq<char>
    decreases s.len(),
{
    if s.len() > 0 && unicode_whitespace(s.last()) {
        trim_end(s.drop_last())
    } else {
        s
    }
}

/// How many characters of `chars` are left when the whitespace at its end
/// is taken off.
pub fn trimmed_len(chars: &[char]) -> (len: usize)
    ensures
        len <= chars@.len(),
        chars@.take(len as int) == trim_end(chars@),
{
    let mut len = chars.len();
    assert(chars@.take(len as int) =~= chars@);
    while len > 0 && chars[len - 1].is_whitespace()
        invariant
            len <= chars@.len(),
            trim_end(chars@.take(len as int)) == trim_end(chars@),
        decreases len,
    {
        assert(chars@.take(len as int).drop_last() =~= chars@.take(len - 1));
        len -= 1;
    }
    len
}

/// Copies `src`, without the whitespace at its end, onto the end of `dst`.
pub fn extend_trimmed(dst: &mut Vec<char>, src: &[char])
    ensures
        final(dst)@ == old(dst)@ + trim_end(src@),
{
    let len = trimmed_len(src);
    let mut i: usize = 0;
    while i < len
        invariant
            i <= len <= src.len(),
            dst@ == old(dst)@ + src@.take(i as int),
        decreases len - i,
    {
        dst.push(src[i]);
        i += 1;
        assert(src@.take(i as int) =~= src@.take(i - 1).push(src@[i - 1]));
        assert(dst@ =~= old(dst)@ + src@.take(i as int));
    }
}

/// Whether `a` holds the characters of `b`.
pub fn same(a: &[char], b: &str) -> (eq: bool)
    ensures
        eq == (a@ == b@),
{
    let mut eq = true;
    let mut i: usize = 0;
    for c in it: b.chars()
        invariant
            it.seq() == b@,
            eq ==> i == it.index() && i <= a@.len() && a@.take(i as int) == b@.take(i as int),
            !eq ==> a@ != b@,
    {
        if eq {
            if i < a.len() && a[i] == c {
                assert(a@.take(i + 1) =~= a@.take(i as int).push(a@[i as int]));
                assert(b@.take(i + 1) =~= b@.take(i as int).push(b@[i as int]));
                i += 1;
            } else {
                eq = false;
            }
        }
    }
    if eq && i == a.len() {
        assert(a@.take(i as int) =~= a@);
        assert(b@.take(i as int) =~= b@);
        true
    } else {
        false
    }
}

/// Whether `s` begins with `prefix`.
pub open spec fn starts_with(s: Seq<char>, prefix: Seq<char>) -> bool {
    prefix.len() <= s.len() && s.take(prefix.len() as int) == prefix
}

/// Whether `a` begins with the characters of `prefix`.
pub fn has_prefix(a: &[char], prefix: &str) -> (found: bool)
    ensures
        found == starts_with(a@, prefix@),
{
    let mut found = true;
    let mut i: usize = 0;
    for c in it: prefix.chars()
        invariant
            it.seq() == prefix@,
            found ==> i == it.index() && i <= a@.len() && a@.take(i as int) == prefix@.take(
                i as int,
            ),
            !found ==> !starts_with(a@, prefix@),
    {
        if found {
            if i < a.len() && a[i] == c {
                assert(a@.take(i + 1) =~= a@.take(i as int).push(a@[i as int]));
                assert(prefix@.take(i + 1) =~= prefix@.take(i as int).push(prefix@[i as int]));
                i += 1;
            } else {
                found = false;
                assert(!starts_with(a@, prefix@)) by {
                    if starts_with(a@, prefix@) {
                        assert(a@.take(prefix@.len() as int)[i as int] == prefix@[i as int]);
                    }
                }
            }
        }
    }
    proof {
        if found {
            assert(prefix@.take(i as int) =~= prefix@);
        }
    }
    found
}

/// The part of `chars` from `from` on.
pub(crate) fn tail(chars: &[char], from: usize) -> (out: Vec<char>)
    requires
        from <= chars@.len(),
    ensures
        out@ == chars@.skip(from as int),
{
    let mut out: Vec<char> = Vec::new();
    let mut i: usize = from;
    while i < chars.len()
        invariant
            from <= i <= chars.len(),
            out@ == chars@.subrange(from as int, i as int),
        decreases chars.len() - i,
    {
        out.push(chars[i]);
        i += 1;
        assert(chars@.subrange(from as int, i as int) =~= chars@.subrange(from as int, i - 1).push(
            chars@[i - 1],
        ));
    }
    assert(chars@.subrange(from as int, chars@.len() as int) =~= chars@.skip(from as int));
    out
}

/// Where `sep` first occurs in `s`, or the length of `s` where it does not.
pub open spec fn find(s: Seq<char>, sep: char) -> nat
    decreases s.len(),
{
    if s.len() == 0 || s[0] == sep {
        0
    } else {
        1 + find(s.drop_first(), sep)
    }
}

/// The first occurrence of `sep` lies within `s` or just behind it, and
/// nothing before it is `sep`.
pub proof fn lemma_find(s: Seq<char>, sep: char)
    ensures
        find(s, sep) <= s.len(),
        find(s, sep) < s.len() ==> s[find(s, sep) as int] == sep,
        forall|i: int| 0 <= i < find(s, sep) ==> s[i] != sep,
    decreases s.len(),
{
    if s.len() > 0 && s[0] != sep {
        let rest = s.drop_first();
        lemma_find(rest, sep);
        assert forall|i: int| 0 <= i < find(s, sep) implies s[i] != sep by {
            if i > 0 {
                assert(s[i] == rest[i - 1]);
            }
        }
    }
}

/// The pieces of `s` between the occurrences of `sep`: one more than there
/// are occurrences, some of them empty where two occurrences meet or one
/// stands at either end.
pub open spec fn split(s: Seq<char>, sep: char) -> Seq<Seq<char>>
    decreases s.len(),
{
    let first = find(s, sep);
    if first >= s.len() {
        seq![s]
    } else {
        seq![s.take(first as int)] + split(s.skip(first as int + 1), sep)
    }
}

/// Splits `chars` at each occurrence of `sep`.
pub fn split_at(chars: &[char], sep: char) -> (pieces: Vec<Vec<char>>)
    ensures
        pieces@.len() == split(chars@, sep).len(),
        pieces@.len() > 0,
        forall|i: int| 0 <= i < pieces@.len() ==> (#[trigger] pieces@[i])@ == split(chars@, sep)[i],
{
    let mut pieces: Vec<Vec<char>> = Vec::new();
    let mut piece: Vec<char> = Vec::new();
    let mut start: usize = 0;
    let mut i: usize = 0;
    let ghost views: Seq<Seq<char>> = Seq::empty();
    assert(chars@.skip(0) =~= chars@);
    assert(views + split(chars@, sep) =~= split(chars@, sep));
    while i < chars.len()
        invariant
            start <= i <= chars.len(),
            views.len() == pieces@.len(),
            forall|j: int| 0 <= j < pieces@.len() ==> (#[trigger] pieces@[j])@ == views[j],
            split(chars@, sep) == views + split(chars@.skip(start as int), sep),
            piece@ == chars@.subrange(start as int, i as int),
            forall|j: int| start <= j < i ==> chars@[j] != sep,
        decreases chars.len() - i,
    {
        let ghost rest = chars@.skip(start as int);
        proof {
            lemma_find(rest, sep);
            assert forall|j: int| 0 <= j < i - start implies rest[j] != sep by {
                assert(rest[j] == chars@[start + j]);
            }
            assert(rest[i - start] == chars@[i as int]);
        }
        if chars[i] == sep {
            proof {
                assert(find(rest, sep) == i - start) by {
                    if find(rest, sep) < i - start {
                        assert(rest[find(rest, sep) as int] == sep);
                    }
                }
                assert(rest.take(i - start) =~= piece@);
                assert(rest.skip(i - start + 1) =~= chars@.skip(i + 1));
                views = views.push(piece@);
                assert(views + split(chars@.skip(i + 1), sep) =~= views.drop_last() + split(
                    rest,
                    sep,
                ));
            }
            pieces.push(piece);
            piece = Vec::new();
            start = i + 1;
            assert(piece@ =~= chars@.subrange(start as int, i + 1));
        } else {
            piece.push(chars[i]);
            assert(piece@ =~= chars@.subrange(start as int, i + 1));
        }
        i += 1;
    }
    proof {
        let rest = chars@.skip(start as int);
        lemma_find(rest, sep);
        assert(find(rest, sep) >= rest.len()) by {
            if find(rest, sep) < rest.len() {
                assert(rest[find(rest, sep) as int] == chars@[start + find(rest, sep)]);
            }
        }
        assert(rest =~= piece@);
        views = views.push(piece@);
        assert(split(chars@, sep) =~= views);
    }
    pieces.push(piece);
    pieces
}

/// Whether `s` ends with `suffix`.
pub open spec fn ends_with(s: Seq<char>, suffix: Seq<char>) -> bool {
    suffix.len() <= s.len() && s.skip(s.len() - suffix.len()) == suffix
}

/// Whether `a` ends with the characters of `suffix`.
pub fn has_suffix(a: &[char], suffix: &str) -> (found: bool)
    ensures
        found == ends_with(a@, suffix@),
{
    let wanted = to_chars(suffix);
    if wanted.len() > a.len() {
        return false;
    }
    let start = a.len() - wanted.len();
    let ghost end = a@.skip(a@.len() - suffix@.len());
    let mut i: usize = 0;
    while i < wanted.len()
        invariant
            i <= wanted.len(),
            wanted@ == suffix@,
            start + wanted.len() == a.len(),
            end == a@.skip(a@.len() - suffix@.len()),
            end.take(i as int) == wanted@.take(i as int),
        decreases wanted.len() - i,
    {
        if a[start + i] != wanted[i] {
            assert(end[i as int] == a@[start + i]);
            assert(end != suffix@);
            return false;
        }
        assert(end.take(i + 1) =~= end.take(i as int).push(end[i as int]));
        assert(wanted@.take(i + 1) =~= wanted@.take(i as int).push(wanted@[i as int]));
        i += 1;
    }
    assert(end.take(i as int) =~= end);
    assert(wanted@.take(i as int) =~= wanted@);
    true
}

/// Some texts as mathematical values.
pub open spec fn views(pieces: Seq<Vec<char>>) -> Seq<Seq<char>> {
    Seq::new(pieces.len(), |i: int| pieces[i]@)
}

/// The pieces in a row, with `sep` between each two.
pub open spec fn join(pieces: Seq<Seq<char>>, sep: char) -> Seq<char>
    decreases pieces.len(),
{
    if pieces.len() == 0 {
        Seq::empty()
    } else if pieces.len() == 1 {
        pieces[0]
    } else {
        join(pieces.drop_last(), sep).push(sep) + pieces.last()
    }
}

/// Puts the pieces from `from` up to `to` in a row, with `sep` between each
/// two.
pub(crate) fn join_range(pieces: &Vec<Vec<char>>, from: usize, to: usize, sep: char) -> (out: Vec<char>)
    requires
        from <= to <= pieces@.len(),
    ensures
        out@ == join(views(pieces@).subrange(from as int, to as int), sep),
{
    let ghost all = views(pieces@);
    let mut out: Vec<char> = Vec::new();
    let mut k: usize = from;
    assert(all.subrange(from as int, from as int) =~= Seq::<Seq<char>>::empty());
    while k < to
        invariant
            from <= k <= to <= pieces@.len(),
            all == views(pieces@),
            out@ == join(all.subrange(from as int, k as int), sep),
        decreases to - k,
    {
        if k > from {
            out.push(sep);
        }
        extend(&mut out, pieces[k].as_slice());
        proof {
            let now = all.subrange(from as int, k + 1);
            assert(now.drop_last() =~= all.subrange(from as int, k as int));
            assert(now.last() == pieces@[k as int]@);
            if k == from {
                assert(out@ =~= now[0]);
            }
        }
        k += 1;
    }
    out
}

/// Whether `pattern` occurs in `s`.
pub open spec fn contains(s: Seq<char>, pattern: Seq<char>) -> bool {
    exists|i: int| occurs_at(s, pattern, i)
}

/// Whether `pattern` occurs in `s` at place `i`.
pub open spec fn occurs_at(s: Seq<char>, pattern: Seq<char>, i: int) -> bool {
    0 <= i && i + pattern.len() <= s.len() && s.subrange(i, i + pattern.len()) == pattern
}

/// Tells whether `pattern` occurs in `text`.
pub fn has_part(text: &str, pattern: &str) -> (found: bool)
    ensures
        found == contains(text@, pattern@),
{
    let chars = to_chars(text);
    let length = to_chars(pattern).len();
    if length > chars.len() {
        assert forall|i: int| !occurs_at(text@, pattern@, i) by {}
        return false;
    }
    if length == 0 {
        assert(text@.subrange(0, 0) =~= pattern@);
        assert(occurs_at(text@, pattern@, 0));
        return true;
    }
    let last = chars.len() - length;
    let mut i: usize = 0;
    while i <= last
        invariant
            i <= last + 1,
            last + length == chars.len(),
            length > 0,
            chars@ == text@,
            length == pattern@.len(),
            forall|j: int| 0 <= j < i ==> !occurs_at(text@, pattern@, j),
        decreases last + 1 - i,
    {
        let rest = vstd::slice::slice_subrange(chars.as_slice(), i, chars.len());
        if has_prefix(rest, pattern) {
            assert(rest@.take(length as int) =~= text@.subrange(i as int, i + length));
            assert(occurs_at(text@, pattern@, i as int));
            return true;
        }
        assert(!occurs_at(text@, pattern@, i as int)) by {
            assert(rest@.take(length as int) =~= text@.subrange(i as int, i + length));
        }
        i += 1;
    }
    assert forall|i: int| !occurs_at(text@, pattern@, i) by {}
    false
}

/// `s` with each occurrence of `pattern` replaced by `with`, the
/// occurrences taken from the left and none overlapping another. An empty
/// pattern occurs nowhere.
pub open spec fn replaced(s: Seq<char>, pattern: Seq<char>, with: Seq<char>) -> Seq<char>
    decreases s.len(),
{
    if pattern.len() == 0 || s.len() < pattern.len() {
        s
    } else if starts_with(s, pattern) {
        with + replaced(s.skip(pattern.len() as int), pattern, with)
    } else {
        seq![s[0]] + replaced(s.drop_first(), pattern, with)
    }
}

/// Replaces each occurrence of `pattern` in `text` by `with`.
pub fn replace(text: &str, pattern: &str, with: &str) -> (out: String)
    ensures
        out@ == replaced(text@, pattern@, with@),
{
    let chars = to_chars(text);
    let with = to_chars(with);
    let length = to_chars(pattern).len();
    if length == 0 {
        return to_string(chars.as_slice());
    }
    let ghost whole = replaced(text@, pattern@, with@);
    let mut out: Vec<char> = Vec::new();
    let mut i: usize = 0;
    assert(chars@.skip(0) =~= chars@);
    while i < chars.len()
        invariant
            i <= chars.len(),
            chars@ == text@,
            length == pattern@.len(),
            length > 0,
            out@ + replaced(chars@.skip(i as int), pattern@, with@) == replaced(
                text@,
                pattern@,
                with@,
            ),
        decreases chars.len() - i,
    {
        let rest = vstd::slice::slice_subrange(chars.as_slice(), i, chars.len());
        assert(rest@ =~= chars@.skip(i as int));
        let ghost before = out@;
        if has_prefix(rest, pattern) {
            extend(&mut out, with.as_slice());
            assert(rest@.skip(length as int) =~= chars@.skip(i + length));
            assert(out@ + replaced(chars@.skip(i + length), pattern@, with@) =~= before
                + replaced(rest@, pattern@, with@));
            i += length;
        } else {
            out.push(chars[i]);
            assert(rest@.drop_first() =~= chars@.skip(i + 1));
            proof {
                if rest@.len() < length {
                    lemma_replaced_short(rest@.drop_first(), pattern@, with@);
                    assert(seq![rest@[0]] + rest@.drop_first() =~= rest@);
                }
            }
            assert(out@ + replaced(chars@.skip(i + 1), pattern@, with@) =~= before + replaced(
                rest@,
                pattern@,
                with@,
            ));
            i += 1;
        }
    }
    assert(chars@.skip(chars@.len() as int) =~= Seq::<char>::empty());
    assert(out@ =~= whole);
    to_string(out.as_slice())
}

/// A text that is shorter than the pattern holds no occurrence of it.
proof fn lemma_replaced_short(s: Seq<char>, pattern: Seq<char>, with: Seq<char>)
    requires
        s.len() < pattern.len(),
    ensures
        replaced(s, pattern, with) == s,
{
}

/// How much a decimal digit counts, or nothing for another character.
pub open spec fn digit_value(c: char) -> Option<nat> {
    if '0' <= c <= '9' {
        Some((c as nat - '0' as nat) as nat)
    } else {
        None
    }
}

/// The number that decimal digits write, or nothing where a character is no
/// digit. No digits write zero.
pub open spec fn digits_value(digits: Seq<char>) -> Option<nat>
    decreases digits.len(),
{
    if digits.len() == 0 {
        Some(0)
    } else {
        match (digits_value(digits.drop_last()), digit_value(digits.last())) {
            (Some(front), Some(last)) => Some(front * 10 + last),
            _ => None,
        }
    }
}

/// The number that `text` writes: decimal digits, at least one, behind at
/// most one plus sign, that come to no more than fits in 64 bits.
pub open spec fn number(text: Seq<char>) -> Option<u64> {
    let digits = if text.len() > 0 && text[0] == '+' {
        text.skip(1)
    } else {
        text
    };
    match digits_value(digits) {
        Some(value) => if digits.len() > 0 && value <= u64::MAX {
            Some(value as u64)
        } else {
            None
        },
        None => None,
    }
}

/// Digits that begin a longer row of digits write no more than the row.
proof fn lemma_digits_value_grows(digits: Seq<char>, k: int)
    requires
        0 <= k <= digits.len(),
        digits_value(digits) is Some,
    ensures
        digits_value(digits.take(k)) is Some,
        digits_value(digits.take(k))->0 <= digits_value(digits)->0,
    decreases digits.len() - k,
{
    if k < digits.len() {
        lemma_digits_value_grows(digits, k + 1);
        assert(digits.take(k + 1).drop_last() =~= digits.take(k));
    } else {
        assert(digits.take(k) =~= digits);
    }
}

/// Where a digit is missing from the beginning of a row, the row writes no
/// number.
proof fn lemma_digits_value_none(digits: Seq<char>, k: int)
    requires
        0 <= k <= digits.len(),
        digits_value(digits.take(k)) is None,
    ensures
        digits_value(digits) is None,
    decreases digits.len() - k,
{
    if k < digits.len() {
        assert(digits.take(k + 1).drop_last() =~= digits.take(k));
        lemma_digits_value_none(digits, k + 1);
    } else {
        assert(digits.take(k) =~= digits);
    }
}

/// Reads the number that `text` writes.
pub fn parse_number(text: &str) -> (out: Option<u64>)
    ensures
        out == number(text@),
{
    let chars = to_chars(text);
    let start: usize = if chars.len() > 0 && chars[0] == '+' {
        1
    } else {
        0
    };
    if start == chars.len() {
        assert(chars@.skip(start as int) =~= Seq::<char>::empty());
        return None;
    }
    let ghost digits = chars@.skip(start as int);
    let mut value: u64 = 0;
    let mut i: usize = start;
    assert(digits.take(0) =~= Seq::<char>::empty());
    assert(chars@.skip(0) =~= chars@);
    while i < chars.len()
        invariant
            start <= i <= chars.len(),
            start < chars.len(),
            chars@ == text@,
            digits == chars@.skip(start as int),
            digits == (if text@.len() > 0 && text@[0] == '+' {
                text@.skip(1)
            } else {
                text@
            }),
            digits_value(digits.take(i - start)) == Some(value as nat),
        decreases chars.len() - i,
    {
        let c = chars[i];
        let ghost k = i - start;
        proof {
            assert(digits.take(k + 1).drop_last() =~= digits.take(k));
            assert(digits.take(k + 1).last() == c);
        }
        if !('0' <= c && c <= '9') {
            proof {
                assert(digit_value(c) is None);
                assert(digits_value(digits.take(k + 1)) is None);
                lemma_digits_value_none(digits, k + 1);
            }
            return None;
        }
        let d = (c as u32 - '0' as u32) as u64;
        assert(digit_value(c) == Some(d as nat));
        assert(digits_value(digits.take(k + 1)) == Some((value * 10 + d) as nat));
        if value > (u64::MAX - d) / 10 {
            proof {
                if digits_value(digits) is Some {
                    lemma_digits_value_grows(digits, k + 1);
                }
            }
            return None;
        }
        value = value * 10 + d;
        i += 1;
    }
    assert(digits.take(chars@.len() - start) =~= digits);
    Some(value)
}

/// The character for one decimal digit.
pub open spec fn digit(d: nat) -> char {
    if d == 0 {
        '0'
    } else if d == 1 {
        '1'
    } else if d == 2 {
        '2'
    } else if d == 3 {
        '3'
    } else if d == 4 {
        '4'
    } else if d == 5 {
        '5'
    } else if d == 6 {
        '6'
    } else if d == 7 {
        '7'
    } else if d == 8 {
        '8'
    } else {
        '9'
    }
}

/// `n` written in decimal, without leading zeros.
pub open spec fn decimal(n: nat) -> Seq<char>
    decreases n,
{
    if n < 10 {
        seq![digit(n)]
    } else {
        decimal(n / 10).push(digit(n % 10))
    }
}

/// `count` times the character `c`.
pub open spec fn repeated(c: char, count: nat) -> Seq<char> {
    Seq::new(count, |i: int| c)
}

/// `s` behind as many spaces as it takes to make it `width` characters
/// long.
pub open spec fn right_aligned(s: Seq<char>, width: nat) -> Seq<char> {
    if s.len() >= width {
        s
    } else {
        repeated(' ', (width - s.len()) as nat) + s
    }
}

/// A larger number has no fewer digits.
pub proof fn lemma_decimal_len(a: nat, b: nat)
    requires
        a <= b,
    ensures
        0 < decimal(a).len() <= decimal(b).len(),
    decreases b,
{
    if b >= 10 {
        if a >= 10 {
            lemma_decimal_len(a / 10, b / 10);
        } else {
            lemma_decimal_len(0, b / 10);
        }
    }
}

/// Writes `n` in decimal.
pub fn decimal_digits(n: usize) -> (out: Vec<char>)
    ensures
        out@ == decimal(n as nat),
    decreases n,
{
    let d = n % 10;
    let c = if d == 0 {
        '0'
    } else if d == 1 {
        '1'
    } else if d == 2 {
        '2'
    } else if d == 3 {
        '3'
    } else if d == 4 {
        '4'
    } else if d == 5 {
        '5'
    } else if d == 6 {
        '6'
    } else if d == 7 {
        '7'
    } else if d == 8 {
        '8'
    } else {
        '9'
    };
    if n < 10 {
        let mut out: Vec<char> = Vec::new();
        out.push(c);
        assert(out@ =~= seq![digit(n as nat)]);
        out
    } else {
        let mut out = decimal_digits(n / 10);
        out.push(c);
        out
    }
}

/// Appends `count` times the character `c` to `dst`.
pub fn extend_repeated(dst: &mut Vec<char>, c: char, count: usize)
    ensures
        final(dst)@ == old(dst)@ + repeated(c, count as nat),
{
    let mut i: usize = 0;
    while i < count
        invariant
            i <= count,
            dst@ == old(dst)@ + repeated(c, i as nat),
        decreases count - i,
    {
        dst.push(c);
        i += 1;
        assert(dst@ =~= old(dst)@ + repeated(c, i as nat));
    }
}

} // verus!
