use tui_markup::{
    compile_with, convert_ast, convert_item, convert_line, flatten, join_lines, parse, Color, CrosstermCommandsGenerator,
    CustomTagParser, ErrorKind, Item, LocatedError, Modifier, NoopCustomTagParser, RatatuiTagConvertor,
    RatatuiTextGenerator, Span, Style, StyledText, Tag, TuiTagConvertor, TuiTextGenerator,
};

fn pt(text: &str) -> Item<'_> {
    Item::PlainText(Span::new(text, 0, 1))
}

fn elem<'a>(tags: &[&'a str], children: Vec<Item<'a>>) -> Item<'a> {
    Item::Element(tags.iter().map(|t| Span::new(t, 0, 1)).collect(), children)
}

fn styled(text: &str, style: Style) -> StyledText<'_> {
    StyledText { text, style: Some(style) }
}

fn fg(c: Color) -> Style {
    Style { fg: Some(c), ..Style::plain() }
}

fn bg(c: Color) -> Style {
    Style { bg: Some(c), ..Style::plain() }
}

fn flat_with<'a, P: CustomTagParser<Output = Style>>(p: Option<P>, item: Item<'a>) -> Vec<StyledText<'a>> {
    let mut c = match p {
        Some(p) => RatatuiTagConvertor::new(p),
        None => RatatuiTagConvertor::default(),
    };
    let converted = convert_item(&mut c, &item);
    flatten(&vec![converted])
}

fn flat(item: Item<'_>) -> Vec<StyledText<'_>> {
    flat_with::<NoopCustomTagParser<Style>>(None, item)
}

struct Keyboard(Style);

impl CustomTagParser for Keyboard {
    type Output = Style;

    fn parse(&mut self, s: &str) -> Option<Style> {
        match s {
            "keyboard" => Some(self.0),
            _ => None,
        }
    }
}

#[test]
fn test_test_normal_element() {
    assert_eq!(flat(elem(&["green"], vec![pt("xxx")])), vec![styled("xxx", fg(Color::Green))]);
    assert_eq!(flat(elem(&["fg:red"], vec![pt("xxx")])), vec![styled("xxx", fg(Color::Red))]);
    assert_eq!(flat(elem(&["bg:yellow"], vec![pt("xxx")])), vec![styled("xxx", bg(Color::Yellow))]);
    assert_eq!(
        flat(elem(&["b"], vec![pt("xxx")])),
        vec![styled("xxx", Style { bold: true, ..Style::plain() })]
    );
    assert_eq!(
        flat(elem(&["mod:i"], vec![pt("xxx")])),
        vec![styled("xxx", Style { italic: true, ..Style::plain() })]
    );
}

#[test]
fn test_test_multi_tag_element() {
    assert_eq!(
        flat(elem(&["bg:blue", "green", "b"], vec![pt("one")])),
        vec![styled(
            "one",
            Style { fg: Some(Color::Green), bg: Some(Color::Blue), bold: true, ..Style::plain() }
        )]
    );
}

#[test]
fn nested_elements_patch_outer_style() {
    assert_eq!(
        flat(elem(&["bg:blue"], vec![pt("one "), elem(&["green"], vec![pt("two")])])),
        vec![
            styled("one ", bg(Color::Blue)),
            styled("two", Style { fg: Some(Color::Green), bg: Some(Color::Blue), ..Style::plain() }),
        ]
    );
}

#[test]
fn test_test_custom_tag_element() {
    let s = Style { fg: Some(Color::Green), bg: Some(Color::Blue), bold: true, ..Style::plain() };
    assert_eq!(flat_with(Some(Keyboard(s)), elem(&["keyboard"], vec![pt("W")])), vec![styled("W", s)]);
}

#[test]
fn test_test_invalid_element() {
    assert_eq!(flat(elem(&["qwerty"], vec![pt("one")])), vec![styled("one", Style::plain())]);
}

#[test]
fn text_outside_elements_has_no_style() {
    let ast = parse("a\\<b <red x>").unwrap();
    let mut c = TuiTagConvertor::<NoopCustomTagParser<Style>>::default();
    let line = convert_line(&mut c, &ast[0]);
    assert_eq!(
        flatten(&line),
        vec![
            StyledText { text: "a", style: None },
            StyledText { text: "<b ", style: None },
            styled("x", fg(Color::Red)),
        ]
    );
}

#[test]
fn later_tags_override_earlier_colors() {
    assert_eq!(flat(elem(&["red", "blue", "bg:red", "bg:0"], vec![pt("z")])), vec![styled(
        "z",
        Style { fg: Some(Color::Blue), bg: Some(Color::Indexed(0)), ..Style::plain() }
    )]);
}

#[test]
fn conversion_drops_unknown_tags_and_keeps_shape() {
    let ast = parse("<green,nope a <b c>>\nd").unwrap();
    let mut c = TuiTagConvertor::<NoopCustomTagParser<Style>>::default();
    let converted = convert_ast(&mut c, &ast);
    assert_eq!(converted.len(), 2);
    match &converted[0][0] {
        Item::Element(tags, children) => {
            assert_eq!(tags, &vec![Tag::Fg(Color::Green)]);
            assert_eq!(children.len(), 2);
            assert_eq!(children[0], Item::PlainText(Span::new("a ", 12, 1)));
        }
        Item::PlainText(_) => panic!("expected an element"),
    }
    assert_eq!(converted[1], vec![Item::PlainText(Span::new("d", 0, 2))]);
}

#[test]
fn generators_compile_sources() {
    let mut g = RatatuiTextGenerator::new(Keyboard(Style::plain()));
    let out = g.compile("Press <keyboard W> to <b move>\nline two").unwrap();
    assert_eq!(out.len(), 2);
    assert_eq!(
        out[0],
        vec![
            StyledText { text: "Press ", style: None },
            styled("W", Style::plain()),
            StyledText { text: " to ", style: None },
            styled("move", Style { bold: true, ..Style::plain() }),
        ]
    );
    assert_eq!(out[1], vec![StyledText { text: "line two", style: None }]);

    let mut t = TuiTextGenerator::<NoopCustomTagParser<Style>>::default();
    let e = t.compile("ok\n<red x").unwrap_err();
    assert_eq!(e.kind(), Some(ErrorKind::ElementNotClose));
    assert_eq!(e.location(), (2, 1));

    let mut x = CrosstermCommandsGenerator::<NoopCustomTagParser<Style>>::default();
    let ast = parse("<u 1>").unwrap();
    assert_eq!(
        x.generate(&ast),
        vec![vec![styled("1", Style { underlined: true, ..Style::plain() })]]
    );

    let mut c = TuiTagConvertor::<NoopCustomTagParser<Style>>::default();
    assert_eq!(
        compile_with("<mod:s,bg:gray+ q>", &mut c).unwrap(),
        vec![vec![styled(
            "q",
            Style { crossed_out: true, bg: Some(Color::DarkGray), ..Style::plain() }
        )]]
    );
    let m = Modifier::Hidden;
    assert_eq!(Style::with_modifier(m), Style { hidden: true, ..Style::plain() });
}

#[test]
fn lines_join_with_newlines_after_output() {
    let a = StyledText { text: "a", style: None };
    let b = styled("b", fg(Color::Red));
    let nl = StyledText { text: "\n", style: None };
    assert_eq!(join_lines(&vec![vec![a], vec![], vec![b]]), vec![a, nl, nl, b]);
    assert_eq!(join_lines(&vec![vec![], vec![a]]), vec![a]);
    assert!(join_lines(&vec![]).is_empty());
}

#[test]
fn compile_with_default_convertor() {
    type C = tui_markup::ANSITermTagConvertor<NoopCustomTagParser<Style>>;
    let out = tui_markup::compile::<C>("<purple x> y").unwrap();
    assert_eq!(out, vec![vec![styled("x", fg(Color::Magenta)), StyledText { text: " y", style: None }]]);
    let e = tui_markup::compile::<C>("\\q").unwrap_err();
    assert_eq!(e.kind(), Some(ErrorKind::UnescapableChar));
}
