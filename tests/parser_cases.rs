use tui_markup::{parse_line, ErrorKind, Item, LocatedError, Span};

fn sp(fragment: &str, offset: usize) -> Span<'_> {
    Span::new(fragment, offset, 1)
}

fn ok(src: &str, expected: Vec<Item>) {
    assert_eq!(parse_line(src, 1), Ok(expected));
}

fn fail(src: &str, column: usize, kind: ErrorKind) {
    let e = parse_line(src, 1).unwrap_err();
    assert_eq!(e.location(), (1, column));
    assert_eq!(e.kind().unwrap(), kind);
}

#[test]
fn test_escaped_char() {
    ok("\\<", vec![Item::PlainText(sp("\\<", 0))]);
    ok("\\>", vec![Item::PlainText(sp("\\>", 0))]);
    ok("\\\\", vec![Item::PlainText(sp("\\\\", 0))]);
}

#[test]
fn test_escaped_string() {
    ok("\\<", vec![Item::PlainText(sp("\\<", 0))]);
    ok("\\>", vec![Item::PlainText(sp("\\>", 0))]);
    ok("\\\\", vec![Item::PlainText(sp("\\\\", 0))]);
}

#[test]
fn test_unescaped_string() {
    fail("<456", 1, ErrorKind::UnescapedChar);
    fail(">456", 1, ErrorKind::UnescapedChar);
    fail("123<456", 4, ErrorKind::UnescapedChar);
    fail("123>456", 4, ErrorKind::UnescapedChar);
    fail("123<", 4, ErrorKind::UnescapedChar);
    fail("123>", 4, ErrorKind::UnescapedChar);
    fail("123\\", 4, ErrorKind::UnescapedChar);
    fail("\\", 1, ErrorKind::UnescapedChar);
}

#[test]
fn test_unescapable_string() {
    fail("\\456", 2, ErrorKind::UnescapableChar);
    fail("123\\456", 5, ErrorKind::UnescapableChar);
}

#[test]
fn test_invalid_escaped_string() {
    fail("\\x", 2, ErrorKind::UnescapableChar);
}

#[test]
fn test_unclosed_element() {
    fail("<b ", 1, ErrorKind::ElementNotClose);
    fail("<b aaa", 1, ErrorKind::ElementNotClose);
    fail("123<b aaa", 4, ErrorKind::ElementNotClose);
}

#[test]
fn test_test_no_space_element() {
    fail("<green>", 1, ErrorKind::UnescapedChar);
}

#[test]
fn test_test_empty_input() {
    ok("", vec![]);
}

#[test]
fn test_test_no_content_element() {
    ok("<green >", vec![Item::Element(vec![sp("green", 1)], vec![])]);
}

#[test]
fn test_test_foreground_element() {
    ok("<fg:green text>", vec![Item::Element(vec![sp("fg:green", 1)], vec![Item::PlainText(sp("text", 10))])]);
}

#[test]
fn test_test_foreground_element_without_mode() {
    ok("<blue text>", vec![Item::Element(vec![sp("blue", 1)], vec![Item::PlainText(sp("text", 6))])]);
}

#[test]
fn test_test_foreground_element_with_only_colon() {
    ok("<:white text>", vec![Item::Element(vec![sp(":white", 1)], vec![Item::PlainText(sp("text", 8))])]);
}

#[test]
fn test_test_background_element() {
    ok("<bg:red text>", vec![Item::Element(vec![sp("bg:red", 1)], vec![Item::PlainText(sp("text", 8))])]);
}

#[test]
fn test_test_modifier_element() {
    ok("<mod:b text>", vec![Item::Element(vec![sp("mod:b", 1)], vec![Item::PlainText(sp("text", 7))])]);
}

#[test]
fn test_test_modifier_element_without_mode() {
    ok("<i text>", vec![Item::Element(vec![sp("i", 1)], vec![Item::PlainText(sp("text", 3))])]);
}

#[test]
fn test_test_modifier_element_with_only_colon() {
    ok("<:d text>", vec![Item::Element(vec![sp(":d", 1)], vec![Item::PlainText(sp("text", 4))])]);
}

#[test]
fn test_test_nested_element() {
    ok("<bg:cyan <yellow one> two>", vec![Item::Element(vec![sp("bg:cyan", 1)], vec![Item::Element(vec![sp("yellow", 10)], vec![Item::PlainText(sp("one", 17))]), Item::PlainText(sp(" two", 21))])]);
}

#[test]
fn test_test_multi_style_element() {
    ok("<bg:magenta,gray,mod:u,x text>", vec![Item::Element(vec![sp("bg:magenta", 1), sp("gray", 12), sp("mod:u", 17), sp("x", 23)], vec![Item::PlainText(sp("text", 25))])]);
}

#[test]
fn test_test_custom_color() {
    ok("<bg:ff8000,66ccff text>", vec![Item::Element(vec![sp("bg:ff8000", 1), sp("66ccff", 11)], vec![Item::PlainText(sp("text", 18))])]);
}

#[test]
fn parser_test_no_space_element() {
    fail("<green>", 1, ErrorKind::UnescapedChar);
}

#[test]
fn parser_test_empty_input() {
    ok("", vec![]);
}

#[test]
fn parser_test_no_content_element() {
    ok("<green >", vec![Item::Element(vec![sp("green", 1)], vec![])]);
}

#[test]
fn parser_test_foreground_element() {
    ok("<fg:green text>", vec![Item::Element(vec![sp("fg:green", 1)], vec![Item::PlainText(sp("text", 10))])]);
}

#[test]
fn parser_test_foreground_element_without_mode() {
    ok("<blue text>", vec![Item::Element(vec![sp("blue", 1)], vec![Item::PlainText(sp("text", 6))])]);
}

#[test]
fn parser_test_foreground_element_with_only_colon() {
    ok("<:white text>", vec![Item::Element(vec![sp(":white", 1)], vec![Item::PlainText(sp("text", 8))])]);
}

#[test]
fn parser_test_background_element() {
    ok("<bg:red text>", vec![Item::Element(vec![sp("bg:red", 1)], vec![Item::PlainText(sp("text", 8))])]);
}

#[test]
fn parser_test_modifier_element() {
    ok("<mod:b text>", vec![Item::Element(vec![sp("mod:b", 1)], vec![Item::PlainText(sp("text", 7))])]);
}

#[test]
fn parser_test_modifier_element_without_mode() {
    ok("<i text>", vec![Item::Element(vec![sp("i", 1)], vec![Item::PlainText(sp("text", 3))])]);
}

#[test]
fn parser_test_modifier_element_with_only_colon() {
    ok("<:d text>", vec![Item::Element(vec![sp(":d", 1)], vec![Item::PlainText(sp("text", 4))])]);
}

#[test]
fn parser_test_nested_element() {
    ok("<bg:cyan <yellow one> two>", vec![Item::Element(vec![sp("bg:cyan", 1)], vec![Item::Element(vec![sp("yellow", 10)], vec![Item::PlainText(sp("one", 17))]), Item::PlainText(sp(" two", 21))])]);
}

#[test]
fn parser_test_multi_style_element() {
    ok("<bg:magenta,gray,mod:u,x text>", vec![Item::Element(vec![sp("bg:magenta", 1), sp("gray", 12), sp("mod:u", 17), sp("x", 23)], vec![Item::PlainText(sp("text", 25))])]);
}

#[test]
fn parser_test_custom_color() {
    ok("<bg:ff8000,66ccff text>", vec![Item::Element(vec![sp("bg:ff8000", 1), sp("66ccff", 11)], vec![Item::PlainText(sp("text", 18))])]);
}
