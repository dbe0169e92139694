//! The text accumulator: committed output, the text of the block being
//! assembled, and the prefixes that nested quotes and lists put in front of
//! each line.

use super::escape_markdown::{escape, escape_leaves_no_bare_control, escaped, EscapeMarkdown};
use super::squeeze_whitespace::{is_whitespace, squeeze, whitespace, SqueezeWhitespace};
use super::wrap::{display_width, fill, filled};
use crate::text::{
    append_chars, extend, extend_trimmed, to_chars, to_string, trim_end, StrSource,
};
use vstd::prelude::*;

verus! {

/// What a [`State`] holds, as mathematical values.
pub struct Render {
    /// The output that is final.
    pub result: Seq<char>,
    /// The text of the block that is being assembled.
    pub pending: Seq<char>,
    /// What goes in front of the first line of the next text to be flushed.
    pub initial_prefix: Seq<char>,
    /// What goes in front of every later line.
    pub subsequent_prefix: Seq<char>,
    /// How many characters at the end of `subsequent_prefix` belong to
    /// prefixes behind which no line has been written yet.
    pub gap_prefix_offset: nat,
    /// The line length to wrap to, if any.
    pub max_width: Option<nat>,
}

/// The prefix that a block installed, as mathematical values.
pub struct PrefixView {
    /// The length of the prefix for the first line.
    pub initial_len: nat,
    /// The length of the prefix for later lines.
    pub subsequent_len: nat,
    /// The initial prefix that was in force before.
    pub previous: Seq<char>,
}

/// What a [`Block`] holds, as mathematical values.
pub struct BlockView {
    pub pending_whitespace: bool,
    pub prefixes: Option<PrefixView>,
    pub pending_raw_start: Option<Seq<char>>,
    pub must_emit: bool,
    pub in_code: bool,
    pub in_item: bool,
}

/// `a - b`, or zero where `b` is the larger.
pub open spec fn minus(a: nat, b: nat) -> nat {
    if a >= b {
        (a - b) as nat
    } else {
        0
    }
}

/// Whether every character of `s` is whitespace.
pub open spec fn all_whitespace(s: Seq<char>) -> bool {
    forall|i: int| 0 <= i < s.len() ==> whitespace(#[trigger] s[i])
}

impl Render {
    /// The state before anything is rendered.
    pub open spec fn new(max_width: Option<nat>) -> Render {
        Render {
            result: Seq::empty(),
            pending: Seq::empty(),
            initial_prefix: Seq::empty(),
            subsequent_prefix: Seq::empty(),
            gap_prefix_offset: 0,
            max_width,
        }
    }

    /// The offset never reaches past the prefix that it counts in.
    pub open spec fn wf(self) -> bool {
        self.gap_prefix_offset <= self.subsequent_prefix.len()
    }

    /// The width handed to the wrapper: the maximum, or without one the
    /// largest number there is.
    pub open spec fn wrap_width(self) -> nat {
        match self.max_width {
            Some(width) => width,
            None => usize::MAX as nat,
        }
    }

    /// The prefix for the next first line: the initial prefix while a newly
    /// installed prefix is still waiting for its line, the subsequent one
    /// otherwise.
    pub open spec fn active_prefix(self) -> Seq<char> {
        if self.gap_prefix_offset == 0 {
            self.subsequent_prefix
        } else {
            self.initial_prefix
        }
    }

    /// The prefix of the enclosing blocks whose first line is written
    /// already, as it stands on a line without text.
    pub open spec fn gap_prefix(self) -> Seq<char> {
        trim_end(
            self.subsequent_prefix.take(
                minus(self.subsequent_prefix.len(), self.gap_prefix_offset) as int,
            ),
        )
    }

    /// The state after the separation from earlier output is written: none
    /// at the very start, a line break between adjacent items, and
    /// otherwise a line that holds the enclosing prefix alone.
    pub open spec fn gap_pushed(self, in_item: bool) -> Render {
        if self.result.len() == 0 {
            self
        } else if in_item {
            Render { result: self.result.push('\n'), ..self }
        } else {
            Render { result: (self.result.push('\n') + self.gap_prefix()).push('\n'), ..self }
        }
    }

    /// The state after the prefix for a raw line is written, where a line
    /// starts.
    pub open spec fn prefix_handled(self, at_sol: bool, trim: bool) -> Render {
        if at_sol {
            Render {
                result: self.result + (if trim {
                    trim_end(self.active_prefix())
                } else {
                    self.active_prefix()
                }),
                gap_prefix_offset: 0,
                ..self
            }
        } else {
            self
        }
    }

    /// The state and the start-of-line flag after one character of raw text.
    pub open spec fn raw_char_pushed(self, at_sol: bool, c: char) -> (Render, bool) {
        let handled = self.prefix_handled(at_sol, c == '\n');
        (Render { result: handled.result.push(c), ..handled }, c == '\n')
    }

    /// The state and the start-of-line flag after raw text: each line of it
    /// behind the prefix, which is trimmed where the line is empty.
    pub open spec fn raw_pushed(self, at_sol: bool, s: Seq<char>) -> (Render, bool)
        decreases s.len(),
    {
        if s.len() == 0 {
            (self, at_sol)
        } else {
            let (before, sol) = self.raw_pushed(at_sol, s.drop_last());
            before.raw_char_pushed(sol, s.last())
        }
    }

    /// The state and the start-of-line flag after a line break in raw text.
    pub open spec fn raw_newlined(self, at_sol: bool) -> (Render, bool) {
        let handled = self.prefix_handled(at_sol, true);
        (Render { result: handled.result.push('\n'), ..handled }, true)
    }

    /// The state and the start-of-line flag once the last raw line is
    /// terminated.
    pub open spec fn raw_newline_ensured(self, at_sol: bool) -> (Render, bool) {
        if at_sol {
            (self, at_sol)
        } else {
            self.raw_newlined(at_sol)
        }
    }
}

impl BlockView {
    /// The outermost block.
    pub open spec fn root() -> BlockView {
        BlockView {
            pending_whitespace: false,
            prefixes: None,
            pending_raw_start: None,
            must_emit: false,
            in_code: false,
            in_item: false,
        }
    }

    /// A new block inside this one.
    pub open spec fn child(self, in_item: bool) -> BlockView {
        BlockView {
            pending_whitespace: false,
            prefixes: None,
            pending_raw_start: None,
            must_emit: false,
            in_code: self.in_code,
            in_item,
        }
    }

    /// Installing a prefix: the new initial prefix continues whichever
    /// prefix is active, the subsequent prefix grows, and so does the
    /// offset.
    pub open spec fn prefixed(self, r: Render, initial: Seq<char>, subsequent: Seq<char>) -> (
        Render,
        BlockView,
    ) {
        (
            Render {
                initial_prefix: r.active_prefix() + initial,
                subsequent_prefix: r.subsequent_prefix + subsequent,
                gap_prefix_offset: r.gap_prefix_offset + subsequent.len(),
                ..r
            },
            BlockView {
                prefixes: Some(
                    PrefixView {
                        initial_len: initial.len(),
                        subsequent_len: subsequent.len(),
                        previous: r.initial_prefix,
                    },
                ),
                ..self
            },
        )
    }

    /// What precedes any text that is added: one space where whitespace is
    /// owed and the pending text neither is empty nor ends a line, then the
    /// opening marker that was held back.
    pub open spec fn pre_pushed(self, r: Render) -> (Render, BlockView) {
        let space = self.pending_whitespace && r.pending.len() > 0 && r.pending.last() != '\n';
        let spaced = if space {
            r.pending.push(' ')
        } else {
            r.pending
        };
        let marked = match self.pending_raw_start {
            Some(marker) => spaced + marker,
            None => spaced,
        };
        (
            Render { pending: marked, ..r },
            BlockView {
                pending_whitespace: self.pending_whitespace && !space,
                pending_raw_start: None,
                ..self
            },
        )
    }

    /// Adding literal text. Whitespace alone is only noted. Other text is
    /// squeezed and, outside code, escaped; whitespace at its start or end
    /// is noted.
    pub open spec fn pushed(self, r: Render, s: Seq<char>) -> (Render, BlockView) {
        if all_whitespace(s) {
            (r, BlockView { pending_whitespace: self.pending_whitespace || s.len() > 0, ..self })
        } else {
            let (r1, b1) = BlockView {
                pending_whitespace: self.pending_whitespace || whitespace(s[0]),
                ..self
            }.pre_pushed(r);
            let text = if self.in_code {
                squeeze(s)
            } else {
                escape(squeeze(s))
            };
            (
                Render { pending: r1.pending + text, ..r1 },
                BlockView { pending_whitespace: whitespace(s.last()), ..b1 },
            )
        }
    }

    /// Adding text as it is.
    pub open spec fn raw_pushed(self, r: Render, s: Seq<char>) -> (Render, BlockView) {
        let (r1, b1) = self.pre_pushed(r);
        (Render { pending: r1.pending + s, ..r1 }, b1)
    }

    /// Holding an opening marker back until text follows it.
    pub open spec fn raw_started(self, s: Seq<char>) -> BlockView {
        BlockView { pending_raw_start: Some(s), ..self }
    }

    /// Closing a marker: where the opening one is still held back, both are
    /// dropped.
    pub open spec fn raw_ended(self, r: Render, s: Seq<char>) -> (Render, BlockView) {
        if self.pending_raw_start is Some {
            (r, BlockView { pending_raw_start: None, ..self })
        } else {
            (Render { pending: r.pending + s, ..r }, self)
        }
    }

    /// A line break inside the block.
    pub open spec fn newlined(self, r: Render) -> (Render, BlockView) {
        (Render { pending: r.pending.push('\n'), ..r }, BlockView { pending_whitespace: false, ..self })
    }

    /// Committing the pending text: after the gap it is wrapped behind the
    /// active prefix. Where there is none, a closing block that must show
    /// and whose prefix has had no line yet leaves its trimmed prefix.
    pub open spec fn pending_flushed(self, r: Render, closing: bool) -> (Render, BlockView) {
        if r.pending.len() > 0 {
            let gapped = r.gap_pushed(self.in_item);
            (
                Render {
                    result: gapped.result + filled(
                        r.pending,
                        r.wrap_width(),
                        r.active_prefix(),
                        r.subsequent_prefix,
                    ),
                    pending: Seq::empty(),
                    gap_prefix_offset: 0,
                    ..r
                },
                BlockView { pending_whitespace: false, ..self },
            )
        } else if closing && self.must_emit && r.gap_prefix_offset != 0 {
            let gapped = r.gap_pushed(self.in_item);
            (Render { result: gapped.result + trim_end(r.initial_prefix), ..r }, self)
        } else {
            (r, self)
        }
    }

    /// Opening a block inside this one: the pending text is committed first.
    pub open spec fn block_opened(self, r: Render, in_item: bool) -> (Render, BlockView) {
        self.pending_flushed(r, false)
    }

    /// Opening a raw block inside this one: the pending text is committed
    /// and the gap written.
    pub open spec fn raw_block_opened(self, r: Render) -> (Render, BlockView) {
        let (r1, b1) = self.pending_flushed(r, false);
        (r1.gap_pushed(b1.in_item), b1)
    }

    /// Closing the block: the pending text is committed and the prefix that
    /// the block installed is taken off again.
    pub open spec fn closed(self, r: Render) -> Render {
        let (r1, b1) = self.pending_flushed(r, true);
        match b1.prefixes {
            Some(prefix) => {
                let kept = minus(r1.subsequent_prefix.len(), prefix.subsequent_len);
                let offset = minus(r1.gap_prefix_offset, prefix.initial_len);
                Render {
                    initial_prefix: prefix.previous,
                    subsequent_prefix: r1.subsequent_prefix.take(kept as int),
                    gap_prefix_offset: if offset <= kept {
                        offset
                    } else {
                        kept
                    },
                    ..r1
                }
            },
            None => r1,
        }
    }
}

/// Literal text that is added outside code reaches the pending text
/// escaped: what is appended shows no control character that is not
/// escaped. Text of whitespace alone appends nothing.
pub proof fn literal_text_is_escaped(b: BlockView, r: Render, s: Seq<char>)
    requires
        !b.in_code,
    ensures
        all_whitespace(s) ==> b.pushed(r, s).0.pending == r.pending,
        !all_whitespace(s) ==> b.pushed(r, s).0.pending == (BlockView {
            pending_whitespace: b.pending_whitespace || whitespace(s[0]),
            ..b
        }).pre_pushed(r).0.pending + escape(squeeze(s)),
        escaped(escape(squeeze(s))),
{
    escape_leaves_no_bare_control(squeeze(s));
}

/// Closing a block takes its prefix off again: whatever was written in
/// between, the two prefixes are afterwards what they were before the block
/// installed its own.
pub proof fn prefix_is_unwound(
    block: BlockView,
    before: Render,
    initial: Seq<char>,
    subsequent: Seq<char>,
    later: BlockView,
    at_close: Render,
)
    requires
        later.prefixes == block.prefixed(before, initial, subsequent).1.prefixes,
        at_close.subsequent_prefix == block.prefixed(
            before,
            initial,
            subsequent,
        ).0.subsequent_prefix,
    ensures
        later.closed(at_close).initial_prefix == before.initial_prefix,
        later.closed(at_close).subsequent_prefix == before.subsequent_prefix,
{
    assert((before.subsequent_prefix + subsequent).take(before.subsequent_prefix.len() as int)
        =~= before.subsequent_prefix);
}

/// The accumulator that one rendering writes to.
pub struct State {
    result: Vec<char>,
    pending: Vec<char>,
    initial_prefix: Vec<char>,
    subsequent_prefix: Vec<char>,
    gap_prefix_offset: usize,
    max_width: Option<usize>,
}

impl View for State {
    type V = Render;

    closed spec fn view(&self) -> Render {
        Render {
            result: self.result@,
            pending: self.pending@,
            initial_prefix: self.initial_prefix@,
            subsequent_prefix: self.subsequent_prefix@,
            gap_prefix_offset: self.gap_prefix_offset as nat,
            max_width: match self.max_width {
                Some(width) => Some(width as nat),
                None => None,
            },
        }
    }
}

/// The maximum as a mathematical value.
pub open spec fn width_view(max_width: Option<usize>) -> Option<nat> {
    match max_width {
        Some(width) => Some(width as nat),
        None => None,
    }
}

impl State {
    /// An empty accumulator that wraps to `max_width` columns, or not at all.
    pub fn new(max_width: Option<usize>) -> (state: State)
        ensures
            state@ == Render::new(width_view(max_width)),
            state@.wf(),
    {
        State {
            result: Vec::new(),
            pending: Vec::new(),
            initial_prefix: Vec::new(),
            subsequent_prefix: Vec::new(),
            gap_prefix_offset: 0,
            max_width,
        }
    }

    /// The line length that this accumulator wraps to, if any.
    pub fn max_width(&self) -> (max_width: Option<usize>)
        ensures
            width_view(max_width) == self@.max_width,
    {
        self.max_width
    }

    /// The outermost block.
    pub fn root_block(&self) -> (block: Block)
        ensures
            block@ == BlockView::root(),
    {
        Block {
            pending_whitespace: false,
            prefixes: None,
            pending_raw_start: None,
            must_emit: false,
            in_code: false,
            in_item: false,
        }
    }

    /// The finished output. Every block must have been closed, so that no
    /// text is pending.
    pub fn render(self) -> (out: String)
        requires
            self@.pending.len() == 0,
        ensures
            out@ == self@.result,
    {
        to_string(self.result.as_slice())
    }

    fn handle_prefix(&mut self, at_sol: bool, trim: bool)
        ensures
            final(self)@ == old(self)@.prefix_handled(at_sol, trim),
    {
        if at_sol {
            if self.gap_prefix_offset == 0 {
                if trim {
                    extend_trimmed(&mut self.result, self.subsequent_prefix.as_slice());
                } else {
                    extend(&mut self.result, self.subsequent_prefix.as_slice());
                }
            } else {
                self.gap_prefix_offset = 0;
                if trim {
                    extend_trimmed(&mut self.result, self.initial_prefix.as_slice());
                } else {
                    extend(&mut self.result, self.initial_prefix.as_slice());
                }
            }
        }
    }
}

/// The prefix that a block installed.
struct Prefix {
    initial_len: usize,
    subsequent_len: usize,
    previous: Vec<char>,
}

/// One paragraph-like unit of text. A block holds only what is its own;
/// every operation is handed the [`State`] that the block writes to. Blocks
/// nest: one opened inside another has to be closed before the outer one is
/// used again.
pub struct Block {
    pending_whitespace: bool,
    prefixes: Option<Prefix>,
    pending_raw_start: Option<Vec<char>>,
    must_emit: bool,
    in_code: bool,
    in_item: bool,
}

impl View for Block {
    type V = BlockView;

    closed spec fn view(&self) -> BlockView {
        BlockView {
            pending_whitespace: self.pending_whitespace,
            prefixes: match self.prefixes {
                Some(prefix) => Some(
                    PrefixView {
                        initial_len: prefix.initial_len as nat,
                        subsequent_len: prefix.subsequent_len as nat,
                        previous: prefix.previous@,
                    },
                ),
                None => None,
            },
            pending_raw_start: match self.pending_raw_start {
                Some(marker) => Some(marker@),
                None => None,
            },
            must_emit: self.must_emit,
            in_code: self.in_code,
            in_item: self.in_item,
        }
    }
}

impl Block {
    /// Puts `initial_prefix` in front of the first line of this block and
    /// `subsequent_prefix` in front of its other lines, behind the prefixes
    /// of the enclosing blocks. The two are equally wide.
    pub fn prefix(&mut self, state: &mut State, initial_prefix: &str, subsequent_prefix: &str)
        requires
            old(state)@.wf(),
            old(self)@.prefixes is None,
            display_width(initial_prefix@) == display_width(subsequent_prefix@),
        ensures
            (final(state)@, final(self)@) == old(self)@.prefixed(
                old(state)@,
                initial_prefix@,
                subsequent_prefix@,
            ),
            final(state)@.wf(),
    {
        let initial = to_chars(initial_prefix);
        let subsequent = to_chars(subsequent_prefix);
        let mut new_initial_prefix = if state.gap_prefix_offset == 0 {
            state.subsequent_prefix.clone()
        } else {
            state.initial_prefix.clone()
        };
        extend(&mut new_initial_prefix, initial.as_slice());
        let mut previous = new_initial_prefix;
        core::mem::swap(&mut state.initial_prefix, &mut previous);
        extend(&mut state.subsequent_prefix, subsequent.as_slice());
        assert(state.subsequent_prefix.len() == old(state).subsequent_prefix.len()
            + subsequent.len());
        state.gap_prefix_offset = state.gap_prefix_offset + subsequent.len();
        self.prefixes = Some(
            Prefix { initial_len: initial.len(), subsequent_len: subsequent.len(), previous },
        );
    }

    /// Makes the block leave its prefix behind even if it stays empty.
    pub fn must_emit(&mut self)
        requires
            old(self)@.prefixes is Some,
        ensures
            final(self)@ == (BlockView { must_emit: true, ..old(self)@ }),
    {
        self.must_emit = true;
    }

    /// Text that follows is code: it is not escaped.
    pub fn start_code(&mut self)
        ensures
            final(self)@ == (BlockView { in_code: true, ..old(self)@ }),
    {
        self.in_code = true;
    }

    /// Text that follows is no longer code.
    pub fn end_code(&mut self)
        ensures
            final(self)@ == (BlockView { in_code: false, ..old(self)@ }),
    {
        self.in_code = false;
    }

    fn pre_push(&mut self, state: &mut State)
        ensures
            (final(state)@, final(self)@) == old(self)@.pre_pushed(old(state)@),
    {
        let len = state.pending.len();
        if self.pending_whitespace && len > 0 && state.pending[len - 1] != '\n' {
            state.pending.push(' ');
            self.pending_whitespace = false;
        }
        let mut pending_raw_start: Option<Vec<char>> = None;
        core::mem::swap(&mut self.pending_raw_start, &mut pending_raw_start);
        if let Some(marker) = pending_raw_start {
            extend(&mut state.pending, marker.as_slice());
        }
    }

    /// Adds literal text to the block.
    pub fn push(&mut self, state: &mut State, s: &str)
        ensures
            (final(state)@, final(self)@) == old(self)@.pushed(old(state)@, s@),
            old(state)@.wf() ==> final(state)@.wf(),
    {
        let chars = to_chars(s);
        let mut all = true;
        let mut i: usize = 0;
        while i < chars.len()
            invariant
                i <= chars.len(),
                all == all_whitespace(chars@.take(i as int)),
            decreases chars.len() - i,
        {
            let ghost before = chars@.take(i as int);
            if !is_whitespace(chars[i]) {
                all = false;
            }
            i += 1;
            proof {
                let now = chars@.take(i as int);
                assert(now[i - 1] == chars@[i - 1]);
                assert forall|j: int| 0 <= j < before.len() implies before[j] == now[j] by {}
                if all {
                    assert forall|j: int| 0 <= j < now.len() implies whitespace(
                        #[trigger] now[j],
                    ) by {
                        if j < i - 1 {
                            assert(whitespace(before[j]));
                        }
                    }
                }
            }
        }
        assert(chars@.take(chars.len() as int) =~= chars@);
        if all {
            self.pending_whitespace = self.pending_whitespace || chars.len() > 0;
        } else {
            self.pending_whitespace = self.pending_whitespace || is_whitespace(chars[0]);
            self.pre_push(state);
            if self.in_code {
                append_chars(&mut state.pending, SqueezeWhitespace::new(StrSource::new(s)));
            } else {
                append_chars(
                    &mut state.pending,
                    EscapeMarkdown::new(SqueezeWhitespace::new(StrSource::new(s))),
                );
            }
            self.pending_whitespace = is_whitespace(chars[chars.len() - 1]);
        }
    }

    /// Adds text to the block as it is.
    pub fn push_raw(&mut self, state: &mut State, s: &str)
        ensures
            (final(state)@, final(self)@) == old(self)@.raw_pushed(old(state)@, s@),
            old(state)@.wf() ==> final(state)@.wf(),
    {
        self.pre_push(state);
        let chars = to_chars(s);
        extend(&mut state.pending, chars.as_slice());
    }

    /// Notes an opening marker, which is written only once text follows.
    pub fn push_raw_start(&mut self, s: &str)
        ensures
            final(self)@ == old(self)@.raw_started(s@),
    {
        self.pending_raw_start = Some(to_chars(s));
    }

    /// Writes a closing marker, or drops the opening one if nothing came
    /// after it.
    pub fn push_raw_end(&mut self, state: &mut State, s: &str)
        ensures
            (final(state)@, final(self)@) == old(self)@.raw_ended(old(state)@, s@),
            old(state)@.wf() ==> final(state)@.wf(),
    {
        if self.pending_raw_start.is_some() {
            self.pending_raw_start = None;
        } else {
            let chars = to_chars(s);
            extend(&mut state.pending, chars.as_slice());
        }
    }

    /// Breaks the line inside the block.
    pub fn newline(&mut self, state: &mut State)
        ensures
            (final(state)@, final(self)@) == old(self)@.newlined(old(state)@),
            old(state)@.wf() ==> final(state)@.wf(),
    {
        state.pending.push('\n');
        self.pending_whitespace = false;
    }

    fn push_pending(&mut self, state: &mut State, closing: bool)
        ensures
            (final(state)@, final(self)@) == old(self)@.pending_flushed(old(state)@, closing),
            old(state)@.wf() ==> final(state)@.wf(),
    {
        if state.pending.len() > 0 {
            let width = match state.max_width {
                Some(width) => width,
                None => usize::MAX,
            };
            let wrapped = if state.gap_prefix_offset == 0 {
                fill(
                    state.pending.as_slice(),
                    width,
                    state.subsequent_prefix.as_slice(),
                    state.subsequent_prefix.as_slice(),
                )
            } else {
                fill(
                    state.pending.as_slice(),
                    width,
                    state.initial_prefix.as_slice(),
                    state.subsequent_prefix.as_slice(),
                )
            };
            self.push_gap(state);
            extend(&mut state.result, wrapped.as_slice());
            state.gap_prefix_offset = 0;
            state.pending.clear();
            self.pending_whitespace = false;
        } else if closing && self.must_emit && state.gap_prefix_offset != 0 {
            self.push_gap(state);
            extend_trimmed(&mut state.result, state.initial_prefix.as_slice());
        }
    }

    fn push_gap(&self, state: &mut State)
        ensures
            final(state)@ == old(state)@.gap_pushed(self@.in_item),
    {
        if state.result.len() > 0 {
            if !self.in_item {
                state.result.push('\n');
                let len = state.subsequent_prefix.len();
                let kept = if len >= state.gap_prefix_offset {
                    len - state.gap_prefix_offset
                } else {
                    0
                };
                let enclosing = vstd::slice::slice_subrange(
                    state.subsequent_prefix.as_slice(),
                    0,
                    kept,
                );
                extend_trimmed(&mut state.result, enclosing);
            }
            state.result.push('\n');
        }
    }

    /// Commits the text of this block and opens a block inside it. The new
    /// block is to be closed before this one is used again.
    pub fn new_block(&mut self, state: &mut State) -> (block: Block)
        ensures
            (final(state)@, final(self)@) == old(self)@.block_opened(
                old(state)@,
                old(self)@.in_item,
            ),
            block@ == old(self)@.child(old(self)@.in_item),
            old(state)@.wf() ==> final(state)@.wf(),
    {
        let in_item = self.in_item;
        self.new_block_inner(state, in_item)
    }

    /// As [`Block::new_block`], for a block that joins the one before it
    /// without an empty line in between.
    pub fn new_item(&mut self, state: &mut State) -> (block: Block)
        ensures
            (final(state)@, final(self)@) == old(self)@.block_opened(old(state)@, true),
            block@ == old(self)@.child(true),
            old(state)@.wf() ==> final(state)@.wf(),
    {
        self.new_block_inner(state, true)
    }

    fn new_block_inner(&mut self, state: &mut State, in_item: bool) -> (block: Block)
        ensures
            (final(state)@, final(self)@) == old(self)@.block_opened(old(state)@, in_item),
            block@ == old(self)@.child(in_item),
            old(state)@.wf() ==> final(state)@.wf(),
    {
        self.push_pending(state, false);
        Block {
            pending_whitespace: false,
            prefixes: None,
            pending_raw_start: None,
            must_emit: false,
            in_code: self.in_code,
            in_item,
        }
    }

    /// Commits the text of this block and opens a block of raw lines inside
    /// it.
    pub fn new_raw_block(&mut self, state: &mut State) -> (block: RawBlock)
        ensures
            (final(state)@, final(self)@) == old(self)@.raw_block_opened(old(state)@),
            block.at_start_of_line(),
            old(state)@.wf() ==> final(state)@.wf(),
    {
        self.push_pending(state, false);
        self.push_gap(state);
        RawBlock { at_sol: true }
    }

    /// Commits the text of this block and takes its prefix off again.
    pub fn close(self, state: &mut State)
        ensures
            final(state)@ == self@.closed(old(state)@),
            old(state)@.wf() ==> final(state)@.wf(),
            final(state)@.pending.len() == 0,
    {
        let mut block = self;
        block.push_pending(state, true);
        if let Some(prefix) = block.prefixes {
            let len = state.subsequent_prefix.len();
            let kept = if len >= prefix.subsequent_len {
                len - prefix.subsequent_len
            } else {
                0
            };
            let offset = if state.gap_prefix_offset >= prefix.initial_len {
                state.gap_prefix_offset - prefix.initial_len
            } else {
                0
            };
            state.gap_prefix_offset = if offset <= kept {
                offset
            } else {
                kept
            };
            state.initial_prefix = prefix.previous;
            state.subsequent_prefix.truncate(kept);
        }
    }
}

/// A block of preformatted lines: its text is neither squeezed nor escaped
/// nor wrapped.
pub struct RawBlock {
    at_sol: bool,
}

impl RawBlock {
    /// Whether the next character starts a line.
    pub closed spec fn at_start_of_line(&self) -> bool {
        self.at_sol
    }

    /// Writes `s`, each of its lines behind the prefix.
    pub fn push(&mut self, state: &mut State, s: &str)
        ensures
            (final(state)@, final(self).at_start_of_line()) == old(state)@.raw_pushed(
                old(self).at_start_of_line(),
                s@,
            ),
            old(state)@.wf() ==> final(state)@.wf(),
    {
        let chars = to_chars(s);
        let mut i: usize = 0;
        while i < chars.len()
            invariant
                i <= chars.len(),
                (state@, self.at_sol) == old(state)@.raw_pushed(
                    old(self).at_sol,
                    chars@.take(i as int),
                ),
                old(state)@.wf() ==> state@.wf(),
            decreases chars.len() - i,
        {
            let c = chars[i];
            state.handle_prefix(self.at_sol, c == '\n');
            state.result.push(c);
            self.at_sol = c == '\n';
            i += 1;
            assert(chars@.take(i as int).drop_last() =~= chars@.take(i - 1));
        }
        assert(chars@.take(chars.len() as int) =~= chars@);
    }

    /// Ends the line.
    pub fn newline(&mut self, state: &mut State)
        ensures
            (final(state)@, final(self).at_start_of_line()) == old(state)@.raw_newlined(
                old(self).at_start_of_line(),
            ),
            old(state)@.wf() ==> final(state)@.wf(),
    {
        state.handle_prefix(self.at_sol, true);
        state.result.push('\n');
        self.at_sol = true;
    }

    /// Ends the line unless it is ended already.
    pub fn ensure_newline(&mut self, state: &mut State)
        ensures
            (final(state)@, final(self).at_start_of_line()) == old(state)@.raw_newline_ensured(
                old(self).at_start_of_line(),
            ),
            old(state)@.wf() ==> final(state)@.wf(),
    {
        if !self.at_sol {
            self.newline(state);
        }
    }
}

} // verus!
