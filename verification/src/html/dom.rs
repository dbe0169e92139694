//! The HTML tree that is rendered.

use crate::text::{same, to_chars};
use vstd::prelude::*;

verus! {

/// An element, with the attributes that rendering consults.
#[derive(Debug)]
pub struct HtmlElement {
    /// The tag name, in lower case.
    pub name: String,
    /// The `href` attribute.
    pub href: Option<String>,
    /// The `src` attribute.
    pub src: Option<String>,
    /// The `alt` attribute.
    pub alt: Option<String>,
    /// The `class` attribute.
    pub class: Option<String>,
    /// What the element holds, in document order.
    pub children: Vec<HtmlNode>,
}

/// A node of an HTML tree.
#[derive(Debug)]
pub enum HtmlNode {
    /// Literal text.
    Text(String),
    /// An element.
    Element(HtmlElement),
    /// Anything else: a comment, a doctype, a processing instruction.
    Other,
}

/// How many levels of elements `node` has.
pub open spec fn height(node: HtmlNode) -> nat
    decreases node, 0nat,
{
    match node {
        HtmlNode::Element(element) => element_height(element),
        _ => 0,
    }
}

/// How many levels of elements `element` has, itself included.
pub open spec fn element_height(element: HtmlElement) -> nat
    decreases element, element.children@.len() + 1,
{
    1 + forest_height(element, element.children@.len())
}

/// The height of the highest of the first `k` children of `element`.
pub open spec fn forest_height(element: HtmlElement, k: nat) -> nat
    decreases element, k,
{
    if k == 0 || k > element.children@.len() {
        0
    } else {
        let before = forest_height(element, (k - 1) as nat);
        let child = height(element.children@[k - 1]);
        if before >= child {
            before
        } else {
            child
        }
    }
}

proof fn lemma_forest_height(element: HtmlElement, i: int, k: nat)
    requires
        0 <= i < k <= element.children@.len(),
    ensures
        height(element.children@[i]) <= forest_height(element, k),
    decreases k,
{
    if i < k - 1 {
        lemma_forest_height(element, i, (k - 1) as nat);
    }
}

/// A child is less high than the element that holds it.
pub proof fn lemma_child_height(element: HtmlElement, i: int)
    requires
        0 <= i < element.children@.len(),
    ensures
        height(element.children@[i]) < element_height(element),
{
    lemma_forest_height(element, i, element.children@.len());
}

/// What the renderer does with an element, by its name.
#[derive(Debug, Clone, Copy, PartialEq, Eq, Structural)]
pub enum Tag {
    /// `a`
    Anchor,
    /// `b`, `strong`
    Strong,
    /// `blockquote`
    Blockquote,
    /// `br`
    Break,
    /// `code`
    Code,
    /// `div`, `p`
    Paragraph,
    /// `em`, `i`
    Emphasis,
    /// `h1` to `h6`, with the level
    Heading(u8),
    /// `img`
    Image,
    /// `ol`
    OrderedList,
    /// `pre`
    Preformatted,
    /// `table`
    Table,
    /// `ul`
    UnorderedList,
    /// `script`, `style`, `template`, `title`
    Skipped,
    /// Every other name.
    Transparent,
}

/// The kind of the element named `name`.
pub open spec fn tag_of(name: Seq<char>) -> Tag {
    if name == "a"@ {
        Tag::Anchor
    } else if name == "b"@ || name == "strong"@ {
        Tag::Strong
    } else if name == "blockquote"@ {
        Tag::Blockquote
    } else if name == "br"@ {
        Tag::Break
    } else if name == "code"@ {
        Tag::Code
    } else if name == "div"@ || name == "p"@ {
        Tag::Paragraph
    } else if name == "em"@ || name == "i"@ {
        Tag::Emphasis
    } else if name == "h1"@ {
        Tag::Heading(1)
    } else if name == "h2"@ {
        Tag::Heading(2)
    } else if name == "h3"@ {
        Tag::Heading(3)
    } else if name == "h4"@ {
        Tag::Heading(4)
    } else if name == "h5"@ {
        Tag::Heading(5)
    } else if name == "h6"@ {
        Tag::Heading(6)
    } else if name == "img"@ {
        Tag::Image
    } else if name == "ol"@ {
        Tag::OrderedList
    } else if name == "pre"@ {
        Tag::Preformatted
    } else if name == "table"@ {
        Tag::Table
    } else if name == "ul"@ {
        Tag::UnorderedList
    } else if name == "script"@ || name == "style"@ || name == "template"@ || name == "title"@ {
        Tag::Skipped
    } else {
        Tag::Transparent
    }
}

/// Tells what the renderer does with an element of this name.
pub fn classify(name: &str) -> (tag: Tag)
    ensures
        tag == tag_of(name@),
{
    let chars = to_chars(name);
    let name = chars.as_slice();
    if same(name, "a") {
        Tag::Anchor
    } else if same(name, "b") || same(name, "strong") {
        Tag::Strong
    } else if same(name, "blockquote") {
        Tag::Blockquote
    } else if same(name, "br") {
        Tag::Break
    } else if same(name, "code") {
        Tag::Code
    } else if same(name, "div") || same(name, "p") {
        Tag::Paragraph
    } else if same(name, "em") || same(name, "i") {
        Tag::Emphasis
    } else if same(name, "h1") {
        Tag::Heading(1)
    } else if same(name, "h2") {
        Tag::Heading(2)
    } else if same(name, "h3") {
        Tag::Heading(3)
    } else if same(name, "h4") {
        Tag::Heading(4)
    } else if same(name, "h5") {
        Tag::Heading(5)
    } else if same(name, "h6") {
        Tag::Heading(6)
    } else if same(name, "img") {
        Tag::Image
    } else if same(name, "ol") {
        Tag::OrderedList
    } else if same(name, "pre") {
        Tag::Preformatted
    } else if same(name, "table") {
        Tag::Table
    } else if same(name, "ul") {
        Tag::UnorderedList
    } else if same(name, "script") || same(name, "style") || same(name, "template") || same(
        name,
        "title",
    ) {
        Tag::Skipped
    } else {
        Tag::Transparent
    }
}

/// Whether `node` is an element named `name`.
pub open spec fn named(node: HtmlNode, name: Seq<char>) -> bool {
    node matches HtmlNode::Element(element) && element.name@ == name
}

/// Tells whether `element` is named `name`.
pub fn is_element_named(element: &HtmlElement, name: &str) -> (found: bool)
    ensures
        found == (element.name@ == name@),
{
    same(to_chars(element.name.as_str()).as_slice(), name)
}

/// Tells whether `node` is an element named `name`.
pub fn is_named(node: &HtmlNode, name: &str) -> (found: bool)
    ensures
        found == named(*node, name@),
{
    match node {
        HtmlNode::Element(element) => is_element_named(element, name),
        _ => false,
    }
}

/// Makes `ego_tree::NodeRef` known as a type whose values nothing is said
/// of.
#[verifier::external_type_specification]
#[verifier::external_body]
#[verifier::reject_recursive_types(T)]
pub struct ExNodeRef<'a, T: 'a>(ego_tree::NodeRef<'a, T>);

/// Makes `scraper::Node` known as a type whose values nothing is said of.
#[verifier::external_type_specification]
#[verifier::external_body]
pub struct ExScraperNode(scraper::Node);

/// The tree that an HTML fragment parses to, from its `html` element down.
pub uninterp spec fn fragment(html: Seq<char>) -> HtmlNode;

/// Copies a node of a parsed tree and everything below it. It reads each
/// node with `ego_tree::NodeRef::value`, an element's name and attributes
/// with `scraper::node::Element::name` and `attr`, and its children with
/// `ego_tree::NodeRef::children`. Nothing is claimed of the copy.
#[verifier::external_body]
fn convert(node: ego_tree::NodeRef<'_, scraper::Node>) -> (out: HtmlNode) {
    match node.value() {
        scraper::Node::Text(text) => HtmlNode::Text(text.to_string()),
        scraper::Node::Element(element) => HtmlNode::Element(
            HtmlElement {
                name: element.name().to_string(),
                href: element.attr("href").map(str::to_string),
                src: element.attr("src").map(str::to_string),
                alt: element.attr("alt").map(str::to_string),
                class: element.attr("class").map(str::to_string),
                children: node.children().map(convert).collect(),
            },
        ),
        _ => HtmlNode::Other,
    }
}

/// Parses `html` with `scraper::Html::parse_fragment` and copies the tree
/// below `scraper::Html::root_element`. The tree is a function of the text
/// alone.
#[verifier::external_body]
pub(crate) fn parse_fragment(html: &str) -> (root: HtmlNode)
    ensures
        root == fragment(html@),
{
    convert(*scraper::Html::parse_fragment(html).root_element())
}

} // verus!
