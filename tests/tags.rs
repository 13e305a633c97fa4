use tui_markup::{
    hex_rgb, split_tag, ANSITermTagConvertor, Color, CrosstermTagConvertor, CustomTagParser, Modifier,
    NoopCustomTagParser, RatatuiTagConvertor, Tag, TagConvertor, TuiTagConvertor,
};

struct Keyboard;

impl CustomTagParser for Keyboard {
    type Output = u32;

    fn parse(&mut self, s: &str) -> Option<u32> {
        if s == "keyboard" {
            Some(7)
        } else {
            None
        }
    }
}

type Tui = TuiTagConvertor<NoopCustomTagParser<()>>;
type Ratatui = RatatuiTagConvertor<NoopCustomTagParser<()>>;

#[test]
fn hex_rgb_reads_six_digits() {
    assert_eq!(hex_rgb("ff8000"), Some((255, 128, 0)));
    assert_eq!(hex_rgb("66CCff"), Some((0x66, 0xcc, 0xff)));
    assert_eq!(hex_rgb("000000"), Some((0, 0, 0)));
    assert_eq!(hex_rgb("ff800"), None);
    assert_eq!(hex_rgb("ff80000"), None);
    assert_eq!(hex_rgb("gg8000"), None);
    assert_eq!(hex_rgb(""), None);
}

#[test]
fn tag_split_into_type_and_value() {
    assert_eq!(split_tag("fg:red"), Some(("fg", "red")));
    assert_eq!(split_tag("green"), Some(("", "green")));
    assert_eq!(split_tag(":white"), Some(("", "white")));
    assert_eq!(split_tag("a:b:c"), None);
}

#[test]
fn built_in_tags() {
    let mut c = Tui::default();
    assert_eq!(c.convert_tag("green"), Some(Tag::Fg(Color::Green)));
    assert_eq!(c.convert_tag("fg:red"), Some(Tag::Fg(Color::Red)));
    assert_eq!(c.convert_tag("bg:yellow"), Some(Tag::Bg(Color::Yellow)));
    assert_eq!(c.convert_tag("b"), Some(Tag::Modifier(Modifier::Bold)));
    assert_eq!(c.convert_tag("mod:i"), Some(Tag::Modifier(Modifier::Italic)));
    assert_eq!(c.convert_tag(":d"), Some(Tag::Modifier(Modifier::Dim)));
    assert_eq!(c.convert_tag("purple-"), Some(Tag::Fg(Color::LightMagenta)));
    assert_eq!(c.convert_tag("gray+"), Some(Tag::Fg(Color::DarkGray)));
    assert_eq!(c.convert_tag("bg:ff8000"), Some(Tag::Bg(Color::Rgb(255, 128, 0))));
}

#[test]
fn invalid_tags_give_nothing() {
    let mut c = Tui::default();
    assert_eq!(c.convert_tag("qwerty"), None);
    assert_eq!(c.convert_tag("mod:red"), None);
    assert_eq!(c.convert_tag("fg:b"), None);
    assert_eq!(c.convert_tag("xx:red"), None);
    assert_eq!(c.convert_tag("fg:red:b"), None);
    assert_eq!(c.convert_tag("12"), None);
}

#[test]
fn palette_index_where_the_backend_has_one() {
    let mut r = Ratatui::default();
    assert_eq!(r.convert_tag("12"), Some(Tag::Fg(Color::Indexed(12))));
    assert_eq!(r.convert_tag("bg:+255"), Some(Tag::Bg(Color::Indexed(255))));
    assert_eq!(r.convert_tag("256"), None);
    let mut x = CrosstermTagConvertor::<NoopCustomTagParser<()>>::default();
    assert_eq!(x.convert_tag("fg:0"), Some(Tag::Fg(Color::Indexed(0))));
    assert_eq!(x.convert_tag("red-"), Some(Tag::Fg(Color::LightRed)));
}

#[test]
fn custom_tags_come_first() {
    let mut c = TuiTagConvertor::new(Keyboard);
    assert_eq!(c.convert_tag("keyboard"), Some(Tag::Custom(7)));
    assert_eq!(c.convert_tag("green"), Some(Tag::Fg(Color::Green)));
    let mut r = RatatuiTagConvertor::new(Keyboard);
    assert_eq!(r.convert_tag("keyboard"), Some(Tag::Custom(7)));
    let mut x = CrosstermTagConvertor::new(Keyboard);
    assert_eq!(x.convert_tag("u"), Some(Tag::Modifier(Modifier::Underlined)));
    assert_eq!(x.convert_tag("keyboard"), Some(Tag::Custom(7)));
}

#[test]
fn noop_parser_knows_no_tags() {
    let mut p = NoopCustomTagParser::<u8>::new();
    assert_eq!(p.parse("anything"), None);
}

#[test]
fn ansi_backend_names() {
    let mut a = ANSITermTagConvertor::<NoopCustomTagParser<()>>::default();
    assert_eq!(a.convert_tag("purple"), Some(Tag::Fg(Color::Magenta)));
    assert_eq!(a.convert_tag("bg:magenta"), Some(Tag::Bg(Color::Magenta)));
    assert_eq!(a.convert_tag("gray"), None);
    assert_eq!(a.convert_tag("red-"), None);
    assert_eq!(a.convert_tag("7"), Some(Tag::Fg(Color::Indexed(7))));
    assert_eq!(a.convert_tag("rb"), Some(Tag::Modifier(Modifier::SlowBlink)));
    assert_eq!(a.convert_tag("sb"), Some(Tag::Modifier(Modifier::SlowBlink)));
    assert_eq!(a.convert_tag("mod:h"), Some(Tag::Modifier(Modifier::Hidden)));
}
