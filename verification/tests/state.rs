use zxcv::html::state::State;

#[test]
fn state_plain_text() {
    let mut state = State::new(Some(80));
    let mut block = state.root_block();
    block.push(&mut state, "  foo   bar_baz ");
    block.close(&mut state);
    assert_eq!(state.render(), "foo bar\\_baz");
}

#[test]
fn state_empty() {
    let mut state = State::new(None);
    let block = state.root_block();
    block.close(&mut state);
    assert_eq!(state.max_width(), None);
    assert_eq!(state.render(), "");
}

#[test]
fn state_whitespace_between_pushes() {
    let mut state = State::new(Some(80));
    let mut block = state.root_block();
    block.push(&mut state, "foo ");
    block.push(&mut state, " ");
    block.push(&mut state, "bar");
    block.push(&mut state, "baz");
    block.close(&mut state);
    assert_eq!(state.render(), "foo barbaz");
}

#[test]
fn state_code_is_not_escaped() {
    let mut state = State::new(Some(80));
    let mut block = state.root_block();
    block.push_raw_start("`");
    block.start_code();
    block.push(&mut state, "a_b  *c");
    block.end_code();
    block.push_raw_end(&mut state, "`");
    block.push(&mut state, "*");
    block.close(&mut state);
    assert_eq!(state.render(), "`a_b *c`\\*");
}

#[test]
fn state_empty_markers_vanish() {
    let mut state = State::new(Some(80));
    let mut block = state.root_block();
    block.push(&mut state, "foo ");
    block.push_raw_start("**");
    block.push(&mut state, " ");
    block.push_raw_end(&mut state, "**");
    block.push(&mut state, "baz");
    block.close(&mut state);
    assert_eq!(state.render(), "foo baz");
}

#[test]
fn state_newline() {
    let mut state = State::new(Some(80));
    let mut block = state.root_block();
    block.push(&mut state, "foo ");
    block.newline(&mut state);
    block.push(&mut state, " bar");
    block.close(&mut state);
    assert_eq!(state.render(), "foo\nbar");
}

#[test]
fn state_blocks_are_separated() {
    let mut state = State::new(Some(80));
    let mut root = state.root_block();
    root.push(&mut state, "before");
    let mut inner = root.new_block(&mut state);
    inner.push(&mut state, "inside");
    inner.close(&mut state);
    root.push(&mut state, "after");
    root.close(&mut state);
    assert_eq!(state.render(), "before\n\ninside\n\nafter");
}

#[test]
fn state_nested_quote_keeps_separator() {
    let mut state = State::new(Some(80));
    let mut root = state.root_block();
    let mut quote = root.new_block(&mut state);
    quote.prefix(&mut state, "> ", "> ");
    quote.push(&mut state, "foo");
    let mut nested = quote.new_block(&mut state);
    nested.prefix(&mut state, "> ", "> ");
    nested.close(&mut state);
    quote.push(&mut state, "bar");
    quote.close(&mut state);
    root.close(&mut state);
    assert_eq!(state.render(), "> foo\n>\n> bar");
}

#[test]
fn state_items_join_and_must_emit() {
    let mut state = State::new(Some(80));
    let mut root = state.root_block();
    let mut list = root.new_block(&mut state);
    for text in ["foo", "", "bar"] {
        let mut item = list.new_item(&mut state);
        item.prefix(&mut state, "* ", "  ");
        item.must_emit();
        item.push(&mut state, text);
        item.close(&mut state);
    }
    list.close(&mut state);
    root.close(&mut state);
    assert_eq!(state.render(), "* foo\n*\n* bar");
}

#[test]
fn state_wraps_behind_prefix() {
    let mut state = State::new(Some(20));
    let mut root = state.root_block();
    let mut item = root.new_item(&mut state);
    item.prefix(&mut state, "1. ", "   ");
    item.push(&mut state, "one two three four five six seven");
    item.close(&mut state);
    root.close(&mut state);
    assert_eq!(state.max_width(), Some(20));
    assert_eq!(state.render(), "1. one two three\n   four five six\n   seven");
}

#[test]
fn state_without_width_does_not_wrap() {
    let mut state = State::new(None);
    let mut root = state.root_block();
    let text = "word ".repeat(60);
    root.push(&mut state, &text);
    root.close(&mut state);
    assert_eq!(state.render(), text.trim_end());
}

#[test]
fn state_raw_block() {
    let mut state = State::new(Some(80));
    let mut root = state.root_block();
    let mut quote = root.new_block(&mut state);
    quote.prefix(&mut state, "> ", "> ");
    quote.push(&mut state, "foo");
    let mut raw = quote.new_raw_block(&mut state);
    raw.push(&mut state, "a  b\n\n c_d");
    raw.ensure_newline(&mut state);
    raw.ensure_newline(&mut state);
    raw.push(&mut state, "end");
    raw.newline(&mut state);
    quote.close(&mut state);
    root.close(&mut state);
    assert_eq!(state.render(), "> foo\n>\n> a  b\n>\n>  c_d\n> end\n");
}

#[test]
fn state_narrow_widths() {
    for width in [0, 1, 2] {
        let mut state = State::new(Some(width));
        let mut root = state.root_block();
        let mut quote = root.new_block(&mut state);
        quote.prefix(&mut state, "> ", "> ");
        quote.push(&mut state, "ab \u{1f310} c");
        quote.close(&mut state);
        root.close(&mut state);
        let text = state.render();
        assert!(text.starts_with("> "), "width {width}: {text:?}");
        assert_eq!(text.chars().filter(|c| !c.is_whitespace() && *c != '>').count(), 4);
    }
}
