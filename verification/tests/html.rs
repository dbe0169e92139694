use zxcv::html::render;

#[test]
fn render_plain() {
    assert_eq!(render("foo bar", "https://example.com/"), "foo bar");
}

#[test]
fn render_escaped() {
    assert_eq!(render("foo* bar_baz", "https://example.com/"), "foo\\* bar\\_baz");
}

#[test]
fn render_whitespace_compress_spaces() {
    assert_eq!(render("foo      bar", "https://example.com/"), "foo bar");
}

#[test]
fn render_whitespace_compress_newlines() {
    assert_eq!(render("foo\n\n  bar", "https://example.com/"), "foo bar");
}

#[test]
fn render_whitespace_compress_tabs() {
    assert_eq!(render("foo\t\t \tbar", "https://example.com/"), "foo bar");
}

#[test]
fn render_whitespace_leading() {
    assert_eq!(render("  foo bar", "https://example.com/"), "foo bar");
}

#[test]
fn render_whitespace_trailing() {
    assert_eq!(render("foo bar  ", "https://example.com/"), "foo bar");
}

#[test]
fn render_whitespace_span_trailing() {
    assert_eq!(render("<span>foo </span> bar", "https://example.com/"), "foo bar");
}

#[test]
fn render_whitespace_span_middle() {
    assert_eq!(render("<span>foo</span> <span>bar</span>", "https://example.com/"), "foo bar");
}

#[test]
fn render_whitespace_zwsp() {
    assert_eq!(render("foo <p>\u{200b}</p> bar", "https://example.com/"), "foo\n\nbar");
}

#[test]
fn render_whitespace_link() {
    assert_eq!(render("<span>foo </span><a href=\"/2\">bar</a>", "https://example.com/"), "foo [bar](https://example.com/2)");
}

#[test]
fn render_link() {
    assert_eq!(render("<a href=\"/foo\">bar</a>", "https://example.com/"), "[bar](https://example.com/foo)");
}

#[test]
fn render_link_url_is_raw() {
    assert_eq!(render("<a href=\"/foo_bar\">baz</a>", "https://example.com/"), "[baz](https://example.com/foo_bar)");
}

#[test]
fn render_link_code() {
    assert_eq!(render("<a href=\"/foo\"><code>bar</code></a>", "https://example.com/"), "[`bar`](https://example.com/foo)");
}

#[test]
fn render_link_not_code() {
    assert_eq!(render("<a href=\"/foo\">`bar`</a>", "https://example.com/"), "[\\`bar\\`](https://example.com/foo)");
}

#[test]
fn render_link_anchor() {
    assert_eq!(render("<a href=\"#somewhere\">text</a>", "https://example.com/"), "[text](https://example.com/#somewhere)");
}

#[test]
fn render_link_anchor_useless() {
    assert_eq!(render("<h3>header <a href=\"#somewhere\">#</a></h3>", "https://example.com/"), "### header");
}

#[test]
fn render_strong() {
    assert_eq!(render("foo <strong>bar</strong> baz", "https://example.com/"), "foo **bar** baz");
}

#[test]
fn render_strong_leading_space() {
    assert_eq!(render("foo<strong> bar</strong> baz", "https://example.com/"), "foo **bar** baz");
}

#[test]
fn render_strong_trailing_space() {
    assert_eq!(render("foo <strong>bar </strong>baz", "https://example.com/"), "foo **bar** baz");
}

#[test]
fn render_strong_empty() {
    assert_eq!(render("foo <strong> </strong>baz", "https://example.com/"), "foo baz");
}

#[test]
fn render_blockquote() {
    assert_eq!(render("<blockquote>foo</blockquote>", "https://example.com/"), "> foo");
}

#[test]
fn render_blockquote_empty() {
    assert_eq!(render("<blockquote></blockquote>", "https://example.com/"), "");
}

#[test]
fn render_blockquote_over_ps() {
    assert_eq!(render("before <blockquote>\n<p>foo</p><p>bar</p>\n</blockquote> after", "https://example.com/"), "before\n\n> foo\n>\n> bar\n\nafter");
}

#[test]
fn render_blockquote_adjacent() {
    assert_eq!(render("<blockquote>foo</blockquote><blockquote>bar</blockquote>", "https://example.com/"), "> foo\n\n> bar");
}

#[test]
fn render_blockquote_nested_empty() {
    assert_eq!(render("<blockquote>foo<blockquote></blockquote>bar</blockquote", "https://example.com/"), "> foo\n>\n> bar");
}

#[test]
fn render_blockquote_pre() {
    assert_eq!(render("<blockquote>foo<pre>  bar</pre>baz</blockquote>", "https://example.com/"), "> foo\n>\n> ```\n>   bar\n> ```\n>\n> baz");
}

#[test]
fn render_blockquote_pre_newline() {
    assert_eq!(render("<blockquote>foo<pre>  bar\n</pre>baz</blockquote>", "https://example.com/"), "> foo\n>\n> ```\n>   bar\n> ```\n>\n> baz");
}

#[test]
fn render_br() {
    assert_eq!(render("foo<br>bar", "https://example.com/"), "foo\nbar");
}

#[test]
fn render_br_space() {
    assert_eq!(render("foo<br> bar", "https://example.com/"), "foo\nbar");
}

#[test]
fn render_br_space_span() {
    assert_eq!(render("foo<br>\n<span>bar</span>", "https://example.com/"), "foo\nbar");
}

#[test]
fn render_code() {
    assert_eq!(render("foo <code>bar</code> baz", "https://example.com/"), "foo `bar` baz");
}

#[test]
fn render_code_leading_space() {
    assert_eq!(render("foo<code> bar</code> baz", "https://example.com/"), "foo `bar` baz");
}

#[test]
fn render_code_trailing_space() {
    assert_eq!(render("foo <code>bar </code>baz", "https://example.com/"), "foo `bar` baz");
}

#[test]
fn render_code_empty() {
    assert_eq!(render("foo <code> </code>baz", "https://example.com/"), "foo baz");
}

#[test]
fn render_code_literals() {
    assert_eq!(render("<code>*_foo</code>bar*", "https://example.com/"), "`*_foo`bar\\*");
}

#[test]
fn render_div() {
    assert_eq!(render("<div>foo</div><div>bar</div>", "https://example.com/"), "foo\n\nbar");
}

#[test]
fn render_p() {
    assert_eq!(render("<p>foo</p><p>bar</p>", "https://example.com/"), "foo\n\nbar");
}

#[test]
fn render_em() {
    assert_eq!(render("foo <em>bar</em> baz", "https://example.com/"), "foo _bar_ baz");
}

#[test]
fn render_em_leading_space() {
    assert_eq!(render("foo<em> bar</em> baz", "https://example.com/"), "foo _bar_ baz");
}

#[test]
fn render_em_trailing_space() {
    assert_eq!(render("foo <em>bar </em>baz", "https://example.com/"), "foo _bar_ baz");
}

#[test]
fn render_em_empty() {
    assert_eq!(render("foo <em> </em>baz", "https://example.com/"), "foo baz");
}

#[test]
fn render_header_h1() {
    assert_eq!(render("<h1>header</h1>", "https://example.com/"), "header\n======");
}

#[test]
fn render_header_h1_long() {
    assert_eq!(render("<h1>header header header header header header header header header header header header</h1>", "https://example.com/"), "header header header header header header header header header header header\nheader\n================================================================================");
}

#[test]
fn render_header_ignore_empty() {
    assert_eq!(render("<h1></h1>", "https://example.com/"), "");
}

#[test]
fn render_header_escapes() {
    assert_eq!(render("<h1>foo `bar` baz</h1>", "https://example.com/"), "foo \\`bar\\` baz\n===============");
}

#[test]
fn render_header_h2() {
    assert_eq!(render("<h2>header</h2>", "https://example.com/"), "header\n------");
}

#[test]
fn render_header_h3() {
    assert_eq!(render("<h3>header</h3>", "https://example.com/"), "### header");
}

#[test]
fn render_img_escape_alt() {
    assert_eq!(render("<img src=\"/foo.png\" alt=\"bar_baz\">", "https://example.com/"), "![bar\\_baz](https://example.com/foo.png)");
}

#[test]
fn render_img_url_is_raw() {
    assert_eq!(render("<img src=\"/foo_bar.png\" alt=\"baz\">", "https://example.com/"), "![baz](https://example.com/foo_bar.png)");
}

#[test]
fn render_ol() {
    assert_eq!(render("<ol><li>foo</li><li>bar</li></ol>", "https://example.com/"), "1. foo\n2. bar");
}

#[test]
fn render_ol_whitespace() {
    assert_eq!(render("<ol> <li>foo</li> <li>bar</li> <li>baz</li> <li>quux</li> <li>not ten</li> </ol>", "https://example.com/"), "1. foo\n2. bar\n3. baz\n4. quux\n5. not ten");
}

#[test]
fn render_ol_empty_item() {
    assert_eq!(render("<ol><li>foo</li><li></li><li>bar</li></ol>", "https://example.com/"), "1. foo\n2.\n3. bar");
}

#[test]
fn render_ol_ten() {
    assert_eq!(render("<ol><li>1</li><li>2</li><li>3</li><li>4</li><li>5</li><li>6</li><li>7</li><li>8</li><li>9</li><li>10</li></ol>", "https://example.com/"), " 1. 1\n 2. 2\n 3. 3\n 4. 4\n 5. 5\n 6. 6\n 7. 7\n 8. 8\n 9. 9\n10. 10");
}

#[test]
fn render_pre() {
    assert_eq!(render("<pre>\nfoo\n    bar\n</pre>", "https://example.com/"), "```\nfoo\n    bar\n```");
}

#[test]
fn render_pre_no_whitespace_compress() {
    assert_eq!(render("<pre>\nfoo  bar\n</pre>", "https://example.com/"), "```\nfoo  bar\n```");
}

#[test]
fn render_pre_no_newline() {
    assert_eq!(render("<pre>\n  foo</pre>", "https://example.com/"), "```\n  foo\n```");
}

#[test]
fn render_pre_following_text() {
    assert_eq!(render("foo bar<pre>baz</pre>", "https://example.com/"), "foo bar\n\n```\nbaz\n```");
}

#[test]
fn render_pre_in_p() {
    assert_eq!(render("<p>foo <pre>\nbar\n</pre>baz</p>", "https://example.com/"), "foo\n\n```\nbar\n```\n\nbaz");
}

#[test]
fn render_pre_language() {
    assert_eq!(render("<pre><code class=\"language-foo bar\">foo\n    bar\n</code></pre>", "https://example.com/"), "```foo\nfoo\n    bar\n```");
}

#[test]
fn render_pre_br() {
    assert_eq!(render("<pre>foo<br>bar</pre>", "https://example.com/"), "```\nfoo\nbar\n```");
}

#[test]
fn render_pre_br_twice() {
    assert_eq!(render("<blockquote><pre>foo<br><br>bar</pre></blockquote>", "https://example.com/"), "> ```\n> foo\n>\n> bar\n> ```");
}

#[test]
fn render_ul() {
    assert_eq!(render("<ul><li>foo</li><li>bar</li></ul>", "https://example.com/"), "* foo\n* bar");
}

#[test]
fn render_ul_empty_item() {
    assert_eq!(render("<ul><li>foo</li><li><li>bar</li></ul>", "https://example.com/"), "* foo\n*\n* bar");
}

#[test]
fn render_ul_nested() {
    assert_eq!(render("<ul><li>foo</li><li><ul><li>bar</li><li>baz</li></ul></li><li>quux</li></ul>", "https://example.com/"), "* foo\n* * bar\n  * baz\n* quux");
}

#[test]
fn render_ul_nested_whitespace() {
    assert_eq!(render("<ul><li>foo</li><li>before<ul>\n<li>bar</li>\n<li>baz</li>\n</ul>\nafter</li><li>quux</li></ul>", "https://example.com/"), "* foo\n* before\n  * bar\n  * baz\n  after\n* quux");
}

#[test]
fn render_ul_pre() {
    assert_eq!(render("<ul><li>foo</li><li><pre>bar</pre></li><li>baz</li></ul>", "https://example.com/"), "* foo\n* ```\n  bar\n  ```\n* baz");
}

#[test]
fn render_script() {
    assert_eq!(render("foo <script>bar</script>baz", "https://example.com/"), "foo baz");
}

#[test]
fn render_cthulhu() {
    assert_eq!(render("<p>foo<blockquote>bar<ul><li>baz</li><li><pre>quux</pre></li><li><blockquote>foo<pre>bar</pre>baz</blockquote></li></ul></blockquote>quux</p>", "https://example.com/"), "foo\n\n> bar\n> * baz\n> * ```\n>   quux\n>   ```\n> * > foo\n>   > ```\n>   > bar\n>   > ```\n>   > baz\n\nquux");
}


#[test]
fn render_node_without_width() {
    let words = "word ".repeat(40);
    let node = zxcv::html::dom::HtmlNode::Element(zxcv::html::dom::HtmlElement {
        name: "p".to_string(),
        href: None,
        src: None,
        alt: None,
        class: None,
        children: vec![zxcv::html::dom::HtmlNode::Text(words.clone())],
    });
    assert_eq!(zxcv::html::render_node(&node, "https://example.com/", None), words.trim_end());
    assert_eq!(
        zxcv::html::render_node(&node, "https://example.com/", Some(10)),
        vec!["word word"; 20].join("\n")
    );
}

#[test]
fn render_hand_built_tree() {
    let element = |name: &str, children| {
        zxcv::html::dom::HtmlNode::Element(zxcv::html::dom::HtmlElement {
            name: name.to_string(),
            href: None,
            src: None,
            alt: None,
            class: None,
            children,
        })
    };
    let text = |text: &str| zxcv::html::dom::HtmlNode::Text(text.to_string());
    let tree = element(
        "div",
        vec![
            element("h2", vec![text("Title")]),
            zxcv::html::dom::HtmlNode::Other,
            element(
                "table",
                vec![
                    element("tr", vec![element("td", vec![text("a")]), element("td", vec![text("bb")])]),
                    element("tr", vec![element("td", vec![text("ccc")])]),
                ],
            ),
            element("unknown", vec![text("tail")]),
        ],
    );
    assert_eq!(
        zxcv::html::render_node(&tree, "not an address", Some(80)),
        "Title\n-----\n\na   | bb\nccc\n\ntail"
    );
}

#[test]
fn render_link_without_base() {
    assert_eq!(render("<a href=\"/x\">y</a>", "not an address"), "[y](/x)");
    assert_eq!(render("<img src=\"x.png\">", "not an address"), "![](x.png)");
    assert_eq!(render("<img alt=\"x\">", "https://example.com/"), "");
}

#[test]
fn render_same_page_links() {
    assert_eq!(render("<a href=\"#a\">\\</a>", "https://example.com/p"), "");
    assert_eq!(render("<a href=\"#a\">*</a>", "https://example.com/p"), "");
    assert_eq!(
        render("<a href=\"#a\">ab</a>", "https://example.com/p"),
        "[ab](https://example.com/p#a)"
    );
    assert_eq!(
        render("<a href=\"/q\">a</a>", "https://example.com/p"),
        "[a](https://example.com/q)"
    );
}

#[test]
fn render_twice_is_the_same() {
    let html = "<ul><li>a<ol><li>b</li></ol></li></ul><pre><code class=\"x language-rs\">c</code></pre>";
    let first = render(html, "https://example.com/");
    assert_eq!(first, render(html, "https://example.com/"));
    assert_eq!(first, "* a\n  1. b\n\n```rs\nc\n```");
}
