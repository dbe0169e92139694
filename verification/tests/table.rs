use zxcv::html::dom::{HtmlElement, HtmlNode};
use zxcv::html::render;
use zxcv::html::table::{compute_widths, measure_columns, render_grid, render_table, ColumnStat};

fn convert(node: ego_tree::NodeRef<'_, scraper::Node>) -> HtmlNode {
    match node.value() {
        scraper::Node::Text(text) => HtmlNode::Text(text.to_string()),
        scraper::Node::Element(element) => HtmlNode::Element(HtmlElement {
            name: element.name().to_string(),
            href: element.attr("href").map(str::to_string),
            src: element.attr("src").map(str::to_string),
            alt: element.attr("alt").map(str::to_string),
            class: element.attr("class").map(str::to_string),
            children: node.children().map(convert).collect(),
        }),
        _ => HtmlNode::Other,
    }
}

fn run_render_test(html: &'static str, expected: &'static str) {
    let tree = scraper::Html::parse_fragment(html);

    let root = tree.root_element();
    assert_eq!(root.value().name(), "html");
    assert_eq!(root.children().count(), 1);
    let table = root.child_elements().next().unwrap();
    assert_eq!(table.value().name(), "table");

    let HtmlNode::Element(table) = convert(*table) else {
        panic!("node is an element");
    };
    assert_eq!(render_table(&table, "https://example.com/", Some(80)), expected);
}

fn widths(max_width: usize, stats: &[(usize, usize, usize)]) -> Vec<usize> {
    let data = stats.iter().map(|&(min, avg, max)| ColumnStat { min, avg, max }).collect();
    compute_widths(data, if max_width == 0 { None } else { Some(max_width) })
}

#[test]
fn table_empty() {
    run_render_test("<table></table>", "");
}

#[test]
fn table_simple() {
    run_render_test("<table><tr><td>1</td><td>2</td><td>3</td></tr><tr><td>4</td><td>5</td><td>6</td></tr></table>", "1 | 2 | 3\n4 | 5 | 6");
}

#[test]
fn table_with_space() {
    run_render_test("<table><tr> <td>1</td> <td>2</td> <td>3</td> </tr><tr><td>4</td><td>5</td><td>6</td></tr></table>", "1 | 2 | 3\n4 | 5 | 6");
}

#[test]
fn table_one_column() {
    run_render_test("<table><tr><td>foo</td></tr><tr><td>bar</td></tr><tr><td>baz</td></tr></table>", "foo\nbar\nbaz");
}

#[test]
fn table_empty_column() {
    run_render_test("<table><tr><td>foo</td><td></td><td>bar</td></tr><tr><td>baz</td><td></td><td>quux</td></tr></table>", "foo |  | bar\nbaz |  | quux");
}

#[test]
fn table_width() {
    run_render_test("<table><tr><td>abcd</td><td>2</td><td>3</td></tr><tr><td>4</td><td>5</td><td>6</td></tr></table>", "abcd | 2 | 3\n4    | 5 | 6");
}

#[test]
fn table_unicode_width_zero() {
    run_render_test("<table><tr><td>foo</td><td>bar</td></tr><tr><td>\u{200d}</td><td>baz</td></tr></table>", "foo | bar\n\u{200d}    | baz");
}

#[test]
fn table_unicode_width_double() {
    run_render_test("<table><tr><td>foo</td><td>bar</td></tr><tr><td>\u{1f310}</td><td>baz</td></tr></table>", "foo | bar\n\u{1f310}  | baz");
}

#[test]
fn table_long() {
    run_render_test("<table><tr><td>1234567 10 234567 20 234567 30 234567 40 234567 50 234567 60 234567 70</td><td>foo bar</td><td>baz</td></tr><tr><td>foo</td><td>foo bar</td><td>baz</td></tr></table>", "1234567 10 234567 20 234567 30 234567 40 234567 50 234567 60     | foo bar | baz\n234567 70\nfoo                                                              | foo bar | baz");
}

#[test]
fn table_newline() {
    run_render_test("<table><tr><td>foo<br />bar</td><td>baz</td></tr><tr><td>1</td><td>2</td></tr></table>", "foo | baz\nbar\n1   | 2");
}

#[test]
fn table_ragged() {
    run_render_test("<table><tr><td>1</td><td>2</td></tr><tr><td>4</td><td>5</td><td>6</td></tr></table>", "1 | 2\n4 | 5 | 6");
}

#[test]
fn table_header() {
    run_render_test("<table><thead><tr><td>1</td><td>2</td><td>3</td></tr></thead><tr><td>4</td><td>5</td><td>6</td></tr></table>", "1 | 2 | 3\n==|===|==\n4 | 5 | 6");
}

#[test]
fn table_footer() {
    run_render_test("<table><tr><td>1</td><td>2</td><td>3</td></tr><tfoot><tr><td>4</td><td>5</td><td>6</td></tr></tfoot></table>", "1 | 2 | 3\n--|---|--\n4 | 5 | 6");
}

#[test]
fn table_no_body() {
    run_render_test("<table><thead><tr><td>1</td><td>2</td><td>3</td></tr></thead><tfoot><tr><td>4</td><td>5</td><td>6</td></tr></tfoot></table>", "1 | 2 | 3\n==|===|==\n--|---|--\n4 | 5 | 6");
}

#[test]
fn table_nested() {
    run_render_test("<table><tr><td><table><tr><td>1</td><td>2</td><td>3</td></tr><tr><td>4</td><td>5</td><td>6</td></tr></table></td></tr></table>", "1 | 2 | 3\n4 | 5 | 6");
}

#[test]
fn widths_simple() {
    assert_eq!(widths(80, &[(1, 1, 1), (7, 7, 7), (2, 2, 2), (9, 9, 9)]), vec![1, 7, 2, 9]);
}

#[test]
fn widths_wrap() {
    assert_eq!(widths(20, &[(4, 16, 16), (5, 5, 5)]), vec![12, 5]);
}

#[test]
fn widths_longer_wrap() {
    assert_eq!(widths(28, &[(5, 13, 13), (11, 97, 97)]), vec![5, 19]);
}

#[test]
fn widths_avg_less_than_min() {
    assert_eq!(widths(40, &[(10, 5, 15), (10, 25, 50)]), vec![10, 26]);
}

#[test]
fn widths_avg_under() {
    assert_eq!(widths(40, &[(9, 26, 35), (3, 5, 7)]), vec![30, 6]);
}

#[test]
fn widths_avg_over() {
    assert_eq!(widths(30, &[(9, 26, 35), (3, 5, 7)]), vec![22, 4]);
}

#[test]
fn widths_without_limit() {
    assert_eq!(widths(0, &[(4, 16, 16), (5, 5, 5)]), vec![16, 5]);
}

#[test]
fn widths_of_no_columns() {
    assert_eq!(widths(80, &[]), Vec::<usize>::new());
}

#[test]
fn widths_exactly_at_base() {
    assert_eq!(widths(23, &[(4, 10, 16), (5, 10, 12)]), vec![10, 10]);
}

#[test]
fn widths_never_exceed_limit() {
    let stats = [(3, 40, 90), (7, 20, 20), (1, 2, 300), (12, 12, 12)];
    for limit in 1..400 {
        let allotted = widths(limit, &stats);
        let minimum: usize = stats.iter().map(|s| s.0).sum::<usize>() + 9;
        if minimum < limit {
            assert!(allotted.iter().sum::<usize>() + 9 <= limit, "limit {limit}: {allotted:?}");
        } else {
            assert_eq!(allotted, vec![3, 7, 1, 12]);
        }
    }
}

#[test]
fn widths_huge() {
    let big = usize::MAX / 2;
    assert_eq!(widths(usize::MAX, &[(1, big, big), (1, big, big), (1, big, big)]).len(), 3);
}

#[test]
fn table_in_document() {
    assert_eq!(
        render(
            "<p>before</p><table><tr><td>1</td><td>2</td></tr><tr><td>333</td><td>4</td></tr></table>after",
            "https://example.com/"
        ),
        "before\n\n1   | 2\n333 | 4\n\nafter"
    );
}

#[test]
fn table_empty_in_document() {
    assert_eq!(render("<table></table>", "https://example.com/"), "");
}

#[test]
fn grid_pads_by_display_width() {
    let texts = vec![
        vec!["foo".to_string(), "bar".to_string()],
        vec!["\u{1f310}".to_string(), "baz".to_string()],
    ];
    let stats = measure_columns(&texts);
    assert_eq!((stats[0].min, stats[0].avg, stats[0].max), (3, 2, 3));
    let allotted = compute_widths(stats, Some(80));
    assert_eq!(allotted, vec![3, 3]);
    assert_eq!(render_grid(&texts, &allotted, 1, 0), "foo | bar\n====|====\n\u{1f310}  | baz");
}

#[test]
fn grid_rules_for_head_and_foot() {
    let texts = vec![
        vec!["a".to_string(), "b".to_string()],
        vec!["c\nd".to_string(), "e".to_string()],
        vec!["f".to_string()],
    ];
    assert_eq!(
        render_grid(&texts, &vec![2, 1], 1, 1),
        "a  | b\n===|==\nc  | e\nd\n---|--\nf"
    );
}
