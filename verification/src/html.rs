//! Converts an HTML tree into line-wrapped, Markdown-flavoured plain text.

use vstd::prelude::*;

pub mod dom;
pub mod escape_markdown;
pub mod link;
pub mod squeeze_whitespace;
pub mod state;
pub mod table;
pub mod wrap;

use crate::text::{
    decimal, decimal_digits, extend, extend_repeated, has_prefix, lemma_decimal_len, repeated,
    right_aligned, split, split_at, starts_with, tail, text_view, to_chars, to_string,
};
use crate::LINE_LENGTH;
use dom::{
    classify, element_height, height, lemma_child_height, named, parse_fragment, fragment,
    tag_of, HtmlElement, HtmlNode, Tag,
};
use link::{join, joined, make_relative, relative};
use state::{width_view, Block, BlockView, RawBlock, Render, State};
use wrap::{display_width, printable_ascii, width};

verus! {

/// The text of an attribute, or the empty text where it is missing.
pub open spec fn text_or_empty(text: Option<String>) -> Seq<char> {
    match text {
        Some(text) => text@,
        None => Seq::empty(),
    }
}

/// Where a link leads, or nothing where the link is not worth showing: one
/// that stays on the page of `url` and whose text is a single visible
/// character, as the marks beside headings are. A reference that does not
/// resolve is kept as it is written.
pub open spec fn anchor_target(url: Seq<char>, link: Seq<char>, text: Seq<char>) -> Option<
    Seq<char>,
> {
    match joined(url, link) {
        Some(absolute) => {
            let same_page = match relative(url, absolute) {
                Some(reference) => reference.len() == 0 || reference[0] == '#',
                None => false,
            };
            let single: nat = if text.len() > 0 && text[0] == '\\' {
                2
            } else {
                1
            };
            if !same_page || text.len() > single {
                Some(absolute)
            } else {
                None
            }
        },
        None => Some(link),
    }
}

/// The state after `[text](target)` is added.
pub open spec fn linked(b: BlockView, r: Render, text: Seq<char>, target: Seq<char>) -> (
    Render,
    BlockView,
) {
    let (r1, b1) = b.raw_pushed(r, "["@);
    let (r2, b2) = b1.raw_pushed(r1, text);
    let (r3, b3) = b2.raw_pushed(r2, "]("@);
    let (r4, b4) = b3.raw_pushed(r3, target);
    b4.raw_pushed(r4, ")"@)
}

/// Where an image is found: its source resolved against `url`, or as it is
/// written where it does not resolve.
pub open spec fn image_target(url: Seq<char>, src: Seq<char>) -> Seq<char> {
    match joined(url, src) {
        Some(absolute) => absolute,
        None => src,
    }
}

/// The state after `![alt](target)` is added, the alternative text as
/// literal text.
pub open spec fn pictured(b: BlockView, r: Render, alt: Seq<char>, target: Seq<char>) -> (
    Render,
    BlockView,
) {
    let (r1, b1) = b.raw_pushed(r, "!["@);
    let (r2, b2) = b1.pushed(r1, alt);
    let (r3, b3) = b2.raw_pushed(r2, "]("@);
    let (r4, b4) = b3.raw_pushed(r3, target);
    b4.raw_pushed(r4, ")"@)
}

/// What stands in front of a heading of level three and deeper.
pub open spec fn heading_marker(level: u8) -> Seq<char> {
    if level == 3 {
        "### "@
    } else if level == 4 {
        "#### "@
    } else if level == 5 {
        "##### "@
    } else {
        "###### "@
    }
}

/// The smaller of two numbers.
pub open spec fn least(a: nat, b: nat) -> nat {
    if a <= b {
        a
    } else {
        b
    }
}

/// The line under a heading of level one or two: as wide as the heading,
/// but no wider than a line.
pub open spec fn underline(level: u8, header: Seq<char>, r: Render) -> Seq<char> {
    repeated(
        if level == 1 {
            '='
        } else {
            '-'
        },
        least(display_width(header), r.wrap_width()),
    )
}

/// The state after a heading with the text `header` is written into the
/// block `b`.
pub open spec fn headed(b: BlockView, r: Render, level: u8, header: Seq<char>) -> (
    Render,
    BlockView,
) {
    if level <= 2 {
        let (r1, b1) = b.raw_pushed(r, header);
        let (r2, b2) = b1.newlined(r1);
        b2.raw_pushed(r2, underline(level, header, r))
    } else {
        let (r1, b1) = b.raw_pushed(r, heading_marker(level));
        b1.raw_pushed(r1, header)
    }
}

/// How many of the first `k` children of `element` are list items.
pub open spec fn item_count(element: HtmlElement, k: nat) -> nat
    decreases k,
{
    if k == 0 || k > element.children@.len() {
        0
    } else if named(element.children@[k - 1], "li"@) {
        item_count(element, (k - 1) as nat) + 1
    } else {
        item_count(element, (k - 1) as nat)
    }
}

/// How the items of a list are marked.
pub enum Bullets {
    /// With an asterisk.
    Plain,
    /// With their number, in a column as wide as `digits`.
    Numbered { digits: nat },
}

impl Bullets {
    /// What stands in front of the first line of the item with this number.
    pub open spec fn initial(self, number: nat) -> Seq<char> {
        match self {
            Bullets::Plain => seq!['*', ' '],
            Bullets::Numbered { digits } => right_aligned(decimal(number), digits).push('.').push(
                ' ',
            ),
        }
    }

    /// What stands in front of the other lines of an item.
    pub open spec fn subsequent(self) -> Seq<char> {
        match self {
            Bullets::Plain => seq![' ', ' '],
            Bullets::Numbered { digits } => repeated(' ', digits + 2),
        }
    }
}

/// The first piece of `class`, as split at its spaces, that begins with
/// `language-`, without that beginning.
pub open spec fn language_of(class: Seq<char>) -> Option<Seq<char>> {
    first_language(split(class, ' '), 0)
}

/// The language that the first of `pieces` from `from` on names.
pub open spec fn first_language(pieces: Seq<Seq<char>>, from: nat) -> Option<Seq<char>>
    decreases pieces.len() - from,
{
    if from >= pieces.len() {
        None
    } else if starts_with(pieces[from as int], "language-"@) {
        Some(pieces[from as int].skip("language-"@.len() as int))
    } else {
        first_language(pieces, from + 1)
    }
}

/// The `class` attributes of the `code` elements at and below `node`, in
/// document order.
pub open spec fn code_classes(node: HtmlNode) -> Seq<Option<String>>
    decreases node, 0nat,
{
    match node {
        HtmlNode::Element(element) => {
            let below = code_classes_below(element, element.children@.len());
            if element.name@ == "code"@ {
                seq![element.class] + below
            } else {
                below
            }
        },
        _ => Seq::empty(),
    }
}

/// The `class` attributes of the `code` elements at and below the first
/// `k` children of `element`.
pub open spec fn code_classes_below(element: HtmlElement, k: nat) -> Seq<Option<String>>
    decreases element, k,
{
    if k == 0 || k > element.children@.len() {
        Seq::empty()
    } else {
        code_classes_below(element, (k - 1) as nat) + code_classes(element.children@[k - 1])
    }
}

/// The language of a preformatted block: what the class of the one `code`
/// element inside it names.
pub open spec fn language(element: HtmlElement) -> Option<Seq<char>> {
    let classes = code_classes_below(element, element.children@.len());
    if classes.len() == 1 {
        match classes[0] {
            Some(class) => language_of(class@),
            None => None,
        }
    } else {
        None
    }
}

/// The state after the text at and below `node` is written as raw lines:
/// text as it is, and a line break for each `br`.
pub open spec fn raw_visited(node: HtmlNode, r: Render, at_sol: bool) -> (Render, bool)
    decreases node, 0nat,
{
    match node {
        HtmlNode::Text(text) => r.raw_pushed(at_sol, text@),
        HtmlNode::Element(element) => {
            let (r1, sol) = if element.name@ == "br"@ {
                r.raw_newlined(at_sol)
            } else {
                (r, at_sol)
            };
            raw_children_visited(element, element.children@.len(), r1, sol)
        },
        HtmlNode::Other => (r, at_sol),
    }
}

/// The state after the first `k` children of `element` are written as raw
/// lines.
pub open spec fn raw_children_visited(element: HtmlElement, k: nat, r: Render, at_sol: bool) -> (
    Render,
    bool,
)
    decreases element, k,
{
    if k == 0 || k > element.children@.len() {
        (r, at_sol)
    } else {
        let (r1, sol) = raw_children_visited(element, (k - 1) as nat, r, at_sol);
        raw_visited(element.children@[k - 1], r1, sol)
    }
}

/// The state after a preformatted element is written: a fenced block that
/// names the language, if there is one, and holds the text of the element.
pub open spec fn preformatted(element: HtmlElement, r: Render, b: BlockView) -> (
    Render,
    BlockView,
) {
    let (r1, b1) = b.raw_block_opened(r);
    let (r2, sol2) = r1.raw_pushed(true, "```"@);
    let (r3, sol3) = match language(element) {
        Some(name) => r2.raw_pushed(sol2, name),
        None => (r2, sol2),
    };
    let (r4, sol4) = r3.raw_newlined(sol3);
    let (r5, sol5) = raw_visited(HtmlNode::Element(element), r4, sol4);
    let (r6, sol6) = r5.raw_newline_ensured(sol5);
    (r6.raw_pushed(sol6, "```"@).0, b1)
}

/// The text that `node` renders to on its own, wrapped to `max_width`
/// columns or not at all.
pub open spec fn rendered(node: HtmlNode, url: Seq<char>, max_width: Option<nat>) -> Seq<char>
    decreases height(node), 4nat, 0nat,
{
    let (r, b) = visited(node, url, Render::new(max_width), BlockView::root());
    b.closed(r).result
}

/// The text that the children of `element` render to on their own.
pub open spec fn inline_text(element: HtmlElement, url: Seq<char>, max_width: Option<nat>) -> Seq<
    char,
>
    decreases element_height(element), 1nat, 0nat,
{
    let (r, b) = children_visited(
        element,
        element.children@.len(),
        url,
        Render::new(max_width),
        BlockView::root(),
    );
    b.closed(r).result
}

/// The state after the first `k` children of `element` are rendered into
/// the block `b`.
pub open spec fn children_visited(
    element: HtmlElement,
    k: nat,
    url: Seq<char>,
    r: Render,
    b: BlockView,
) -> (Render, BlockView)
    decreases element_height(element), 0nat, k,
{
    if k == 0 || k > element.children@.len() {
        (r, b)
    } else {
        let (r1, b1) = children_visited(element, (k - 1) as nat, url, r, b);
        proof {
            lemma_child_height(element, k - 1);
        }
        visited(element.children@[k - 1], url, r1, b1)
    }
}

/// The state after the list items among the first `k` children of
/// `element` are rendered, each as a block of its own inside the block
/// `b`, behind its bullet.
pub open spec fn items_visited(
    element: HtmlElement,
    k: nat,
    bullets: Bullets,
    url: Seq<char>,
    r: Render,
    b: BlockView,
) -> (Render, BlockView)
    decreases element_height(element), 0nat, k,
{
    if k == 0 || k > element.children@.len() {
        (r, b)
    } else {
        let (r1, b1) = items_visited(element, (k - 1) as nat, bullets, url, r, b);
        let child = element.children@[k - 1];
        if named(child, "li"@) {
            let (r2, b2) = b1.block_opened(r1, true);
            let (r3, item) = b1.child(true).prefixed(
                r2,
                bullets.initial(item_count(element, k)),
                bullets.subsequent(),
            );
            proof {
                lemma_child_height(element, k - 1);
            }
            let (r4, item4) = visited(
                child,
                url,
                r3,
                BlockView { must_emit: true, ..item },
            );
            (item4.closed(r4), b2)
        } else {
            (r1, b1)
        }
    }
}

/// The state after `node` is rendered into the block `b`.
pub open spec fn visited(node: HtmlNode, url: Seq<char>, r: Render, b: BlockView) -> (
    Render,
    BlockView,
)
    decreases height(node), 3nat, 0nat,
{
    match node {
        HtmlNode::Text(text) => b.pushed(r, text@),
        HtmlNode::Element(element) => element_visited(element, url, r, b),
        HtmlNode::Other => (r, b),
    }
}

/// The state after `element` is rendered into the block `b`, as its name
/// asks.
pub open spec fn element_visited(element: HtmlElement, url: Seq<char>, r: Render, b: BlockView) -> (
    Render,
    BlockView,
)
    decreases element_height(element), 2nat, 0nat,
{
    let all = element.children@.len();
    match tag_of(element.name@) {
        Tag::Anchor => match element.href {
            Some(link) => {
                let text = inline_text(element, url, r.max_width);
                match anchor_target(url, link@, text) {
                    Some(target) => linked(b, r, text, target),
                    None => (r, b),
                }
            },
            None => (r, b),
        },
        Tag::Strong => {
            let (r1, b1) = children_visited(element, all, url, r, b.raw_started("**"@));
            b1.raw_ended(r1, "**"@)
        },
        Tag::Blockquote => {
            let (r1, b1) = b.block_opened(r, b.in_item);
            let (r2, quote) = b.child(b.in_item).prefixed(r1, "> "@, "> "@);
            let (r3, quote3) = children_visited(element, all, url, r2, quote);
            (quote3.closed(r3), b1)
        },
        Tag::Break => b.newlined(r),
        Tag::Code => {
            let (r1, b1) = children_visited(
                element,
                all,
                url,
                r,
                BlockView { in_code: true, ..b.raw_started("`"@) },
            );
            (BlockView { in_code: false, ..b1 }).raw_ended(r1, "`"@)
        },
        Tag::Paragraph => {
            let (r1, b1) = b.block_opened(r, b.in_item);
            let (r2, inner) = children_visited(element, all, url, r1, b.child(b.in_item));
            (inner.closed(r2), b1)
        },
        Tag::Emphasis => {
            let (r1, b1) = children_visited(element, all, url, r, b.raw_started("_"@));
            b1.raw_ended(r1, "_"@)
        },
        Tag::Heading(level) => {
            let header = inline_text(element, url, r.max_width);
            if header.len() == 0 {
                (r, b)
            } else {
                let (r1, b1) = b.block_opened(r, b.in_item);
                let (r2, inner) = headed(b.child(b.in_item), r1, level, header);
                (inner.closed(r2), b1)
            }
        },
        Tag::Image => match element.src {
            Some(src) => pictured(b, r, text_or_empty(element.alt), image_target(url, src@)),
            None => (r, b),
        },
        Tag::OrderedList => {
            let count = item_count(element, all);
            if count == 0 {
                (r, b)
            } else {
                let (r1, b1) = b.block_opened(r, b.in_item);
                let (r2, list) = items_visited(
                    element,
                    all,
                    Bullets::Numbered { digits: decimal(count).len() },
                    url,
                    r1,
                    b.child(b.in_item),
                );
                (list.closed(r2), b1)
            }
        },
        Tag::Preformatted => preformatted(element, r, b),
        Tag::Table => {
            let text = table::table_text(element, url, r.max_width);
            let (r1, b1) = b.block_opened(r, b.in_item);
            let (r2, inner) = b.child(b.in_item).raw_pushed(r1, text);
            (inner.closed(r2), b1)
        },
        Tag::UnorderedList => {
            let (r1, b1) = b.block_opened(r, b.in_item);
            let (r2, list) = items_visited(
                element,
                all,
                Bullets::Plain,
                url,
                r1,
                b.child(b.in_item),
            );
            (list.closed(r2), b1)
        },
        Tag::Skipped => (r, b),
        Tag::Transparent => children_visited(element, all, url, r, b),
    }
}

/// Finds the language that a class attribute names.
fn find_language(class: &str) -> (found: Option<String>)
    ensures
        text_view(found) == language_of(class@),
{
    let chars = to_chars(class);
    let pieces = split_at(chars.as_slice(), ' ');
    let ghost all = split(class@, ' ');
    proof {
        reveal_strlit("language-");
    }
    let mut i: usize = 0;
    while i < pieces.len()
        invariant
            i <= pieces.len(),
            pieces@.len() == all.len(),
            forall|j: int| 0 <= j < pieces@.len() ==> (#[trigger] pieces@[j])@ == all[j],
            first_language(all, i as nat) == language_of(class@),
            "language-"@.len() == 9,
        decreases pieces.len() - i,
    {
        if has_prefix(pieces[i].as_slice(), "language-") {
            let name = tail(pieces[i].as_slice(), 9);
            return Some(to_string(name.as_slice()));
        }
        i += 1;
    }
    None
}

/// Collects the class attributes of the `code` elements at and below
/// `node`.
fn collect_code_classes<'a>(node: &'a HtmlNode, found: &mut Vec<&'a Option<String>>)
    ensures
        final(found)@.len() == old(found)@.len() + code_classes(*node).len(),
        forall|i: int| 0 <= i < old(found)@.len() ==> final(found)@[i] == old(found)@[i],
        forall|i: int|
            0 <= i < code_classes(*node).len() ==> *final(found)@[old(found)@.len() + i]
                == code_classes(*node)[i],
    decreases height(*node), 1nat,
{
    if let HtmlNode::Element(element) = node {
        if dom::is_element_named(element, "code") {
            found.push(&element.class);
        }
        collect_code_classes_below(element, found);
    }
}

fn collect_code_classes_below<'a>(element: &'a HtmlElement, found: &mut Vec<&'a Option<String>>)
    ensures
        final(found)@.len() == old(found)@.len() + code_classes_below(
            *element,
            element.children@.len(),
        ).len(),
        forall|i: int| 0 <= i < old(found)@.len() ==> final(found)@[i] == old(found)@[i],
        forall|i: int|
            0 <= i < code_classes_below(*element, element.children@.len()).len()
                ==> *final(found)@[old(found)@.len() + i] == code_classes_below(
                *element,
                element.children@.len(),
            )[i],
    decreases element_height(*element), 0nat,
{
    let ghost start = found@.len();
    let mut k: usize = 0;
    while k < element.children.len()
        invariant
            k <= element.children.len(),
            found@.len() == start + code_classes_below(*element, k as nat).len(),
            start == old(found)@.len(),
            forall|i: int| 0 <= i < start ==> found@[i] == old(found)@[i],
            forall|i: int|
                0 <= i < code_classes_below(*element, k as nat).len() ==> *found@[start + i]
                    == code_classes_below(*element, k as nat)[i],
        decreases element.children.len() - k,
    {
        proof {
            lemma_child_height(*element, k as int);
        }
        collect_code_classes(&element.children[k], found);
        k += 1;
    }
}

/// Finds the language of a preformatted block.
fn find_block_language(element: &HtmlElement) -> (found: Option<String>)
    ensures
        text_view(found) == language(*element),
{
    let mut classes: Vec<&Option<String>> = Vec::new();
    collect_code_classes_below(element, &mut classes);
    if classes.len() == 1 {
        match classes[0] {
            Some(class) => find_language(class.as_str()),
            None => None,
        }
    } else {
        None
    }
}

/// Writes the text at and below `node` as raw lines.
fn render_raw(node: &HtmlNode, state: &mut State, block: &mut RawBlock)
    ensures
        (final(state)@, final(block).at_start_of_line()) == raw_visited(
            *node,
            old(state)@,
            old(block).at_start_of_line(),
        ),
        old(state)@.wf() ==> final(state)@.wf(),
    decreases height(*node), 2nat,
{
    match node {
        HtmlNode::Text(text) => block.push(state, text.as_str()),
        HtmlNode::Element(element) => render_raw_element(element, state, block),
        HtmlNode::Other => {},
    }
}

fn render_raw_children(element: &HtmlElement, state: &mut State, block: &mut RawBlock)
    ensures
        (final(state)@, final(block).at_start_of_line()) == raw_children_visited(
            *element,
            element.children@.len(),
            old(state)@,
            old(block).at_start_of_line(),
        ),
        old(state)@.wf() ==> final(state)@.wf(),
    decreases element_height(*element), 0nat,
{
    let mut k: usize = 0;
    while k < element.children.len()
        invariant
            k <= element.children.len(),
            (state@, block.at_start_of_line()) == raw_children_visited(
                *element,
                k as nat,
                old(state)@,
                old(block).at_start_of_line(),
            ),
            old(state)@.wf() ==> state@.wf(),
        decreases element.children.len() - k,
    {
        proof {
            lemma_child_height(*element, k as int);
        }
        render_raw(&element.children[k], state, block);
        k += 1;
    }
}

/// Writes a preformatted element as a fenced block.
fn render_preformatted(element: &HtmlElement, state: &mut State, block: &mut Block)
    ensures
        (final(state)@, final(block)@) == preformatted(*element, old(state)@, old(block)@),
        old(state)@.wf() ==> final(state)@.wf(),
{
    let mut raw = block.new_raw_block(state);
    raw.push(state, "```");
    if let Some(name) = find_block_language(element) {
        raw.push(state, name.as_str());
    }
    raw.newline(state);
    render_raw_element(element, state, &mut raw);
    raw.ensure_newline(state);
    raw.push(state, "```");
}

/// Writes the text at and below `element` as raw lines.
fn render_raw_element(element: &HtmlElement, state: &mut State, block: &mut RawBlock)
    ensures
        (final(state)@, final(block).at_start_of_line()) == raw_visited(
            HtmlNode::Element(*element),
            old(state)@,
            old(block).at_start_of_line(),
        ),
        old(state)@.wf() ==> final(state)@.wf(),
    decreases element_height(*element), 1nat,
{
    if dom::is_element_named(element, "br") {
        block.newline(state);
    }
    render_raw_children(element, state, block);
}

/// Rendering is deterministic: whatever two renderings of the same tree,
/// with the same address and the same width, return is the same text.
pub proof fn rendering_is_deterministic(
    node: HtmlNode,
    url: Seq<char>,
    max_width: Option<nat>,
    first: String,
    second: String,
)
    requires
        first@ == rendered(node, url, max_width),
        second@ == rendered(node, url, max_width),
    ensures
        first@ == second@,
{
}

/// Renders the HTML fragment `html`, which was found at `url`, as text of
/// at most [`LINE_LENGTH`] columns.
pub fn render(html: &str, url: &str) -> (out: String)
    ensures
        out@ == rendered(fragment(html@), url@, Some(LINE_LENGTH as nat)),
{
    let root = parse_fragment(html);
    render_node(&root, url, Some(LINE_LENGTH))
}

/// Renders `node`, which was found at `url`, as text of at most `max_width`
/// columns, or without wrapping where no width is given.
pub fn render_node(node: &HtmlNode, url: &str, max_width: Option<usize>) -> (out: String)
    ensures
        out@ == rendered(*node, url@, width_view(max_width)),
    decreases height(*node), 5nat,
{
    let mut state = State::new(max_width);
    let mut block = state.root_block();
    render_node_inner(node, url, &mut state, &mut block);
    block.close(&mut state);
    state.render()
}

/// Renders `node` into `block`.
fn render_node_inner(node: &HtmlNode, url: &str, state: &mut State, block: &mut Block)
    requires
        old(state)@.wf(),
    ensures
        (final(state)@, final(block)@) == visited(*node, url@, old(state)@, old(block)@),
        final(state)@.wf(),
    decreases height(*node), 4nat,
{
    match node {
        HtmlNode::Text(text) => block.push(state, text.as_str()),
        HtmlNode::Element(element) => render_element(element, url, state, block),
        HtmlNode::Other => {},
    }
}

/// Renders the children of `element` into `block`.
fn render_children(element: &HtmlElement, url: &str, state: &mut State, block: &mut Block)
    requires
        old(state)@.wf(),
    ensures
        (final(state)@, final(block)@) == children_visited(
            *element,
            element.children@.len(),
            url@,
            old(state)@,
            old(block)@,
        ),
        final(state)@.wf(),
    decreases element_height(*element), 0nat,
{
    let mut k: usize = 0;
    while k < element.children.len()
        invariant
            k <= element.children.len(),
            (state@, block@) == children_visited(
                *element,
                k as nat,
                url@,
                old(state)@,
                old(block)@,
            ),
            state@.wf(),
        decreases element.children.len() - k,
    {
        proof {
            lemma_child_height(*element, k as int);
        }
        render_node_inner(&element.children[k], url, state, block);
        k += 1;
    }
}

/// Renders the children of `element` on their own.
fn render_inline(element: &HtmlElement, url: &str, max_width: Option<usize>) -> (out: String)
    ensures
        out@ == inline_text(*element, url@, width_view(max_width)),
    decreases element_height(*element), 1nat,
{
    let mut state = State::new(max_width);
    let mut block = state.root_block();
    render_children(element, url, &mut state, &mut block);
    block.close(&mut state);
    state.render()
}

/// Decides where a link leads and whether it is shown.
fn resolve_anchor(url: &str, link: &str, text: &str) -> (target: Option<String>)
    ensures
        text_view(target) == anchor_target(url@, link@, text@),
{
    match join(url, link) {
        Some(absolute) => {
            let same_page = match make_relative(url, absolute.as_str()) {
                Some(reference) => {
                    let reference = to_chars(reference.as_str());
                    reference.len() == 0 || reference[0] == '#'
                },
                None => false,
            };
            let text = to_chars(text);
            let single: usize = if text.len() > 0 && text[0] == '\\' {
                2
            } else {
                1
            };
            if !same_page || text.len() > single {
                Some(absolute)
            } else {
                None
            }
        },
        None => Some(to_string(to_chars(link).as_slice())),
    }
}

/// Renders a link.
fn render_anchor(element: &HtmlElement, url: &str, state: &mut State, block: &mut Block)
    requires
        old(state)@.wf(),
        tag_of(element.name@) == Tag::Anchor,
    ensures
        (final(state)@, final(block)@) == element_visited(
            *element,
            url@,
            old(state)@,
            old(block)@,
        ),
        final(state)@.wf(),
    decreases element_height(*element), 2nat,
{
    if let Some(link) = &element.href {
        let text = render_inline(element, url, state.max_width());
        if let Some(target) = resolve_anchor(url, link.as_str(), text.as_str()) {
            block.push_raw(state, "[");
            block.push_raw(state, text.as_str());
            block.push_raw(state, "](");
            block.push_raw(state, target.as_str());
            block.push_raw(state, ")");
        }
    }
}

/// Renders a heading.
fn render_heading(
    element: &HtmlElement,
    level: u8,
    url: &str,
    state: &mut State,
    block: &mut Block,
)
    requires
        old(state)@.wf(),
        tag_of(element.name@) == Tag::Heading(level),
    ensures
        (final(state)@, final(block)@) == element_visited(
            *element,
            url@,
            old(state)@,
            old(block)@,
        ),
        final(state)@.wf(),
    decreases element_height(*element), 2nat,
{
    let header = render_inline(element, url, state.max_width());
    let chars = to_chars(header.as_str());
    if chars.len() > 0 {
        let mut inner = block.new_block(state);
        if level <= 2 {
            let columns = width(chars.as_slice());
            let count = match state.max_width() {
                Some(limit) => if columns <= limit {
                    columns
                } else {
                    limit
                },
                None => columns,
            };
            let mut line: Vec<char> = Vec::new();
            extend_repeated(
                &mut line,
                if level == 1 {
                    '='
                } else {
                    '-'
                },
                count,
            );
            assert(line@ =~= underline(level, header@, state@));
            let line = to_string(line.as_slice());
            inner.push_raw(state, header.as_str());
            inner.newline(state);
            inner.push_raw(state, line.as_str());
        } else {
            inner.push_raw(
                state,
                if level == 3 {
                    "### "
                } else if level == 4 {
                    "#### "
                } else if level == 5 {
                    "##### "
                } else {
                    "###### "
                },
            );
            inner.push_raw(state, header.as_str());
        }
        inner.close(state);
    }
}

/// Renders an image.
fn render_image(element: &HtmlElement, url: &str, state: &mut State, block: &mut Block)
    requires
        old(state)@.wf(),
        tag_of(element.name@) == Tag::Image,
    ensures
        (final(state)@, final(block)@) == element_visited(
            *element,
            url@,
            old(state)@,
            old(block)@,
        ),
        final(state)@.wf(),
{
    if let Some(src) = &element.src {
        let target = match join(url, src.as_str()) {
            Some(absolute) => absolute,
            None => to_string(to_chars(src.as_str()).as_slice()),
        };
        block.push_raw(state, "![");
        match &element.alt {
            Some(alt) => block.push(state, alt.as_str()),
            None => block.push(state, String::new().as_str()),
        }
        block.push_raw(state, "](");
        block.push_raw(state, target.as_str());
        block.push_raw(state, ")");
    }
}

/// How the items of a list are marked.
enum Marker {
    Plain,
    Numbered(usize),
}

impl Marker {
    spec fn bullets(self) -> Bullets {
        match self {
            Marker::Plain => Bullets::Plain,
            Marker::Numbered(digits) => Bullets::Numbered { digits: digits as nat },
        }
    }

    /// Whether the number `number` fits into the column for numbers.
    spec fn fits(self, number: nat) -> bool {
        match self {
            Marker::Plain => true,
            Marker::Numbered(digits) => decimal(number).len() <= digits,
        }
    }
}

/// The digits of a number are printable.
proof fn lemma_decimal_printable(n: nat)
    ensures
        forall|i: int| 0 <= i < decimal(n).len() ==> printable_ascii(#[trigger] decimal(n)[i]),
    decreases n,
{
    if n >= 10 {
        lemma_decimal_printable(n / 10);
        let front = decimal(n / 10);
        assert forall|i: int| 0 <= i < decimal(n).len() implies printable_ascii(
            #[trigger] decimal(n)[i],
        ) by {
            if i < front.len() {
                assert(decimal(n)[i] == front[i]);
            } else {
                assert(decimal(n)[i] == crate::text::digit(n % 10));
            }
        }
    } else {
        assert(decimal(n)[0] == crate::text::digit(n));
    }
}

/// No more items are counted among fewer children.
proof fn lemma_item_count(element: HtmlElement, a: nat, b: nat)
    requires
        a <= b <= element.children@.len(),
    ensures
        item_count(element, a) <= item_count(element, b) <= b,
    decreases b,
{
    if a < b {
        lemma_item_count(element, a, (b - 1) as nat);
    } else if b > 0 {
        lemma_item_count(element, (b - 1) as nat, (b - 1) as nat);
    }
}

/// Counts the list items among the children of `element`.
fn count_items(element: &HtmlElement) -> (count: usize)
    ensures
        count == item_count(*element, element.children@.len()),
{
    let mut count: usize = 0;
    let mut k: usize = 0;
    while k < element.children.len()
        invariant
            k <= element.children.len(),
            count == item_count(*element, k as nat),
            count <= k,
        decreases element.children.len() - k,
    {
        if dom::is_named(&element.children[k], "li") {
            count += 1;
        }
        k += 1;
    }
    count
}

/// Builds the two prefixes of the item with the number `number`.
fn item_prefixes(marker: &Marker, number: usize) -> (prefixes: (String, String))
    requires
        marker.fits(number as nat),
    ensures
        prefixes.0@ == marker.bullets().initial(number as nat),
        prefixes.1@ == marker.bullets().subsequent(),
        display_width(prefixes.0@) == display_width(prefixes.1@),
{
    let mut initial: Vec<char> = Vec::new();
    let mut subsequent: Vec<char> = Vec::new();
    match marker {
        Marker::Plain => {
            initial.push('*');
            initial.push(' ');
            subsequent.push(' ');
            subsequent.push(' ');
        },
        Marker::Numbered(digits) => {
            let written = decimal_digits(number);
            proof {
                lemma_decimal_printable(number as nat);
            }
            if written.len() < *digits {
                extend_repeated(&mut initial, ' ', *digits - written.len());
            }
            extend(&mut initial, written.as_slice());
            initial.push('.');
            initial.push(' ');
            extend_repeated(&mut subsequent, ' ', *digits);
            subsequent.push(' ');
            subsequent.push(' ');
        },
    }
    assert(initial@ =~= marker.bullets().initial(number as nat));
    assert(subsequent@ =~= marker.bullets().subsequent());
    assert(initial@.len() == subsequent@.len());
    assert forall|i: int| 0 <= i < initial@.len() implies printable_ascii(
        #[trigger] initial@[i],
    ) by {
        match marker {
            Marker::Plain => {},
            Marker::Numbered(digits) => {
                let written = decimal(number as nat);
                let pad = initial@.len() - 2 - written.len();
                if pad <= i < pad + written.len() {
                    assert(initial@[i] == written[i - pad]);
                }
            },
        }
    }
    assert forall|i: int| 0 <= i < subsequent@.len() implies printable_ascii(
        #[trigger] subsequent@[i],
    ) by {}
    let initial_width = width(initial.as_slice());
    let subsequent_width = width(subsequent.as_slice());
    (to_string(initial.as_slice()), to_string(subsequent.as_slice()))
}

/// Renders the list items among the children of `element`, each as a block
/// of its own inside `list`.
fn render_items(
    element: &HtmlElement,
    marker: &Marker,
    url: &str,
    state: &mut State,
    list: &mut Block,
)
    requires
        old(state)@.wf(),
        marker.fits(item_count(*element, element.children@.len())),
    ensures
        (final(state)@, final(list)@) == items_visited(
            *element,
            element.children@.len(),
            marker.bullets(),
            url@,
            old(state)@,
            old(list)@,
        ),
        final(state)@.wf(),
    decreases element_height(*element), 0nat,
{
    let mut count: usize = 0;
    let mut k: usize = 0;
    while k < element.children.len()
        invariant
            k <= element.children.len(),
            count == item_count(*element, k as nat),
            count <= k,
            marker.fits(item_count(*element, element.children@.len())),
            (state@, list@) == items_visited(
                *element,
                k as nat,
                marker.bullets(),
                url@,
                old(state)@,
                old(list)@,
            ),
            state@.wf(),
        decreases element.children.len() - k,
    {
        if dom::is_named(&element.children[k], "li") {
            count += 1;
            proof {
                lemma_child_height(*element, k as int);
                lemma_item_count(*element, (k + 1) as nat, element.children@.len());
                lemma_decimal_len(
                    count as nat,
                    item_count(*element, element.children@.len()),
                );
            }
            let (initial, subsequent) = item_prefixes(marker, count);
            let mut item = list.new_item(state);
            item.prefix(state, initial.as_str(), subsequent.as_str());
            item.must_emit();
            render_node_inner(&element.children[k], url, state, &mut item);
            item.close(state);
        }
        k += 1;
    }
}

/// Renders `element` into `block`, as its name asks.
fn render_element(element: &HtmlElement, url: &str, state: &mut State, block: &mut Block)
    requires
        old(state)@.wf(),
    ensures
        (final(state)@, final(block)@) == element_visited(
            *element,
            url@,
            old(state)@,
            old(block)@,
        ),
        final(state)@.wf(),
    decreases element_height(*element), 3nat,
{
    match classify(element.name.as_str()) {
        Tag::Anchor => render_anchor(element, url, state, block),
        Tag::Strong => {
            block.push_raw_start("**");
            render_children(element, url, state, block);
            block.push_raw_end(state, "**");
        },
        Tag::Blockquote => {
            let mut quote = block.new_block(state);
            quote.prefix(state, "> ", "> ");
            render_children(element, url, state, &mut quote);
            quote.close(state);
        },
        Tag::Break => block.newline(state),
        Tag::Code => {
            block.push_raw_start("`");
            block.start_code();
            render_children(element, url, state, block);
            block.end_code();
            block.push_raw_end(state, "`");
        },
        Tag::Paragraph => {
            let mut inner = block.new_block(state);
            render_children(element, url, state, &mut inner);
            inner.close(state);
        },
        Tag::Emphasis => {
            block.push_raw_start("_");
            render_children(element, url, state, block);
            block.push_raw_end(state, "_");
        },
        Tag::Heading(level) => render_heading(element, level, url, state, block),
        Tag::Image => render_image(element, url, state, block),
        Tag::OrderedList => {
            let count = count_items(element);
            if count != 0 {
                let digits = decimal_digits(count).len();
                let mut list = block.new_block(state);
                render_items(element, &Marker::Numbered(digits), url, state, &mut list);
                list.close(state);
            }
        },
        Tag::Preformatted => render_preformatted(element, state, block),
        Tag::Table => {
            let text = table::render_table(element, url, state.max_width());
            let mut inner = block.new_block(state);
            inner.push_raw(state, text.as_str());
            inner.close(state);
        },
        Tag::UnorderedList => {
            let mut list = block.new_block(state);
            render_items(element, &Marker::Plain, url, state, &mut list);
            list.close(state);
        },
        Tag::Skipped => {},
        Tag::Transparent => render_children(element, url, state, block),
    }
}

} // verus!
