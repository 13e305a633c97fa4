use tui_markup::{parse, parse_line, Error, ErrorKind, Item, LocatedError, Span};

fn sp(fragment: &str, offset: usize, line: usize) -> Span<'_> {
    Span::new(fragment, offset, line)
}

fn err_of(src: &str) -> Error<'_> {
    parse(src).unwrap_err()
}

#[test]
fn empty_source_is_one_empty_line() {
    let ast = parse("").unwrap();
    assert_eq!(ast.len(), 1);
    assert!(ast[0].is_empty());
}

#[test]
fn escapes_are_kept_verbatim() {
    for src in ["\\<", "\\>", "\\\\"] {
        assert_eq!(parse(src), Ok(vec![vec![Item::PlainText(sp(src, 0, 1))]]));
    }
}

#[test]
fn unescapable_char_points_after_backslash() {
    let e = err_of("\\x");
    assert_eq!(e.kind(), Some(ErrorKind::UnescapableChar));
    assert_eq!(e.location(), (1, 2));
    assert_eq!(e.found(), Some('x'));
}

#[test]
fn missing_space_after_tags_is_unescaped_char() {
    let e = err_of("<green>");
    assert_eq!(e.kind(), Some(ErrorKind::UnescapedChar));
    assert_eq!(e.location(), (1, 1));
    assert_eq!(e.found(), Some('<'));
}

#[test]
fn empty_element() {
    assert_eq!(
        parse("<green >"),
        Ok(vec![vec![Item::Element(vec![sp("green", 1, 1)], vec![])]])
    );
}

#[test]
fn unclosed_element_points_at_its_opening() {
    let e = err_of("<b aaa");
    assert_eq!(e.kind(), Some(ErrorKind::ElementNotClose));
    assert_eq!(e.location(), (1, 1));
    assert_eq!(e.span.fragment, "<b aaa");
}

#[test]
fn unclosed_inner_element_points_at_outermost_opening() {
    let e = err_of("ab <x <y z");
    assert_eq!(e.kind(), Some(ErrorKind::ElementNotClose));
    assert_eq!(e.location(), (1, 4));
}

#[test]
fn bad_escape_inside_element_is_unclosed_element() {
    let e = err_of("<a \\x>");
    assert_eq!(e.kind(), Some(ErrorKind::ElementNotClose));
    assert_eq!(e.location(), (1, 1));
}

#[test]
fn nested_elements() {
    let src = "<bg:cyan <yellow one> two>";
    assert_eq!(
        parse(src),
        Ok(vec![vec![Item::Element(
            vec![sp("bg:cyan", 1, 1)],
            vec![
                Item::Element(vec![sp("yellow", 10, 1)], vec![Item::PlainText(sp("one", 17, 1))]),
                Item::PlainText(sp(" two", 21, 1)),
            ]
        )]])
    );
}

#[test]
fn tag_order_is_kept() {
    let ast = parse("<bg:magenta,gray,mod:u,x text>").unwrap();
    match &ast[0][0] {
        Item::Element(tags, _) => {
            let names: Vec<&str> = tags.iter().map(|t| t.fragment).collect();
            assert_eq!(names, vec!["bg:magenta", "gray", "mod:u", "x"]);
        }
        Item::PlainText(_) => panic!("expected an element"),
    }
}

#[test]
fn error_on_second_line_reports_line_two() {
    let e = err_of("fine\nbad <\nalso <bad");
    assert_eq!(e.kind(), Some(ErrorKind::UnescapedChar));
    assert_eq!(e.location(), (2, 5));
    let e2 = err_of("<b other>\nbad <\n");
    assert_eq!(e2.location(), (2, 5));
}

#[test]
fn lines_are_indexed_in_order() {
    let ast = parse("a\n<b c>\n").unwrap();
    assert_eq!(
        ast,
        vec![
            vec![Item::PlainText(sp("a", 0, 1))],
            vec![Item::Element(vec![sp("b", 1, 2)], vec![Item::PlainText(sp("c", 3, 2))])],
            vec![],
        ]
    );
}

#[test]
fn carriage_return_is_plain_text() {
    let ast = parse("a\r\nb").unwrap();
    assert_eq!(ast[0], vec![Item::PlainText(sp("a\r", 0, 1))]);
    assert_eq!(ast[1], vec![Item::PlainText(sp("b", 0, 2))]);
}

#[test]
fn columns_count_characters() {
    let e = err_of("héllo <");
    assert_eq!(e.location(), (1, 7));
    let ast = parse("é<b x>").unwrap();
    assert_eq!(ast[0][1], Item::Element(vec![sp("b", 2, 1)], vec![Item::PlainText(sp("x", 4, 1))]));
}

#[test]
fn trailing_backslash_after_escape_points_at_start() {
    let e = err_of("\\<\\");
    assert_eq!(e.kind(), Some(ErrorKind::UnescapedChar));
    assert_eq!(e.location(), (1, 1));
}

#[test]
fn text_then_element_then_text() {
    let src = "I have a <green green text> !";
    let items = parse_line(src, 3).unwrap();
    assert_eq!(
        items,
        vec![
            Item::PlainText(sp("I have a ", 0, 3)),
            Item::Element(vec![sp("green", 10, 3)], vec![Item::PlainText(sp("green text", 16, 3))]),
            Item::PlainText(sp(" !", 27, 3)),
        ]
    );
}

#[test]
fn tag_names_take_only_their_characters() {
    let e = err_of("<a_b x>");
    assert_eq!(e.kind(), Some(ErrorKind::UnescapedChar));
    assert_eq!(e.location(), (1, 1));
    let ast = parse("<a+1,-b:c x>").unwrap();
    assert_eq!(
        ast[0][0],
        Item::Element(vec![sp("a+1", 1, 1), sp("-b:c", 5, 1)], vec![Item::PlainText(sp("x", 10, 1))])
    );
}

#[test]
fn error_reason_words() {
    assert_eq!(err_of(">").reason(), "unescaped character");
    assert_eq!(err_of("\\a").reason(), "unescapable character");
    assert_eq!(err_of("<a ").reason(), "expect '>' to close element for element starter");
}

fn rebuild(items: &[Item]) -> String {
    let mut out = String::new();
    for item in items {
        match item {
            Item::PlainText(s) => out.push_str(s.fragment),
            Item::Element(tags, children) => {
                out.push('<');
                let names: Vec<&str> = tags.iter().map(|t| t.fragment).collect();
                out.push_str(&names.join(","));
                out.push(' ');
                out.push_str(&rebuild(children));
                out.push('>');
            }
        }
    }
    out
}

#[test]
fn tree_gives_back_each_line() {
    let src = "I have a <green green text> \\<here\\>\n<bg:cyan,b <yellow one> two \\\\>\n\n<x >";
    let ast = parse(src).unwrap();
    let lines: Vec<&str> = src.split('\n').collect();
    assert_eq!(ast.len(), lines.len());
    for (items, line) in ast.iter().zip(lines) {
        assert_eq!(rebuild(items), line);
    }
}
