//! Colors and modifiers, and the tag values that name them.
use vstd::prelude::*;

use crate::parser::chars_of;
use crate::text::same_text;

verus! {

/// A terminal color: the sixteen named ones, a 24-bit color, or an entry
/// of the 256-color palette.
#[derive(Debug, Clone, Copy, PartialEq, Eq, Structural, Hash)]
pub enum Color {
    Black,
    Red,
    Green,
    Yellow,
    Blue,
    Magenta,
    Cyan,
    Gray,
    DarkGray,
    LightRed,
    LightGreen,
    LightYellow,
    LightBlue,
    LightMagenta,
    LightCyan,
    White,
    Rgb(u8, u8, u8),
    Indexed(u8),
}

/// A text style modifier.
#[derive(Debug, Clone, Copy, PartialEq, Eq, Structural, Hash)]
pub enum Modifier {
    Bold,
    Dim,
    Italic,
    Underlined,
    Reversed,
    SlowBlink,
    RapidBlink,
    Hidden,
    CrossedOut,
}

/// The color that a name stands for: `red-` is the light variant of `red`,
/// `gray+` the dark variant of `gray`, and `purple` is `magenta`.
pub open spec fn named_color(s: Seq<char>) -> Option<Color> {
    if s == "black"@ {
        Some(Color::Black)
    } else if s == "red"@ {
        Some(Color::Red)
    } else if s == "green"@ {
        Some(Color::Green)
    } else if s == "yellow"@ {
        Some(Color::Yellow)
    } else if s == "blue"@ {
        Some(Color::Blue)
    } else if s == "magenta"@ || s == "purple"@ {
        Some(Color::Magenta)
    } else if s == "cyan"@ {
        Some(Color::Cyan)
    } else if s == "gray"@ {
        Some(Color::Gray)
    } else if s == "gray+"@ {
        Some(Color::DarkGray)
    } else if s == "red-"@ {
        Some(Color::LightRed)
    } else if s == "green-"@ {
        Some(Color::LightGreen)
    } else if s == "yellow-"@ {
        Some(Color::LightYellow)
    } else if s == "blue-"@ {
        Some(Color::LightBlue)
    } else if s == "magenta-"@ || s == "purple-"@ {
        Some(Color::LightMagenta)
    } else if s == "cyan-"@ {
        Some(Color::LightCyan)
    } else if s == "white"@ {
        Some(Color::White)
    } else {
        None
    }
}

/// The modifier that a name stands for.
pub open spec fn named_modifier(s: Seq<char>) -> Option<Modifier> {
    if s == "b"@ {
        Some(Modifier::Bold)
    } else if s == "d"@ {
        Some(Modifier::Dim)
    } else if s == "i"@ {
        Some(Modifier::Italic)
    } else if s == "u"@ {
        Some(Modifier::Underlined)
    } else if s == "r"@ {
        Some(Modifier::Reversed)
    } else if s == "sb"@ {
        Some(Modifier::SlowBlink)
    } else if s == "rb"@ {
        Some(Modifier::RapidBlink)
    } else if s == "h"@ {
        Some(Modifier::Hidden)
    } else if s == "s"@ {
        Some(Modifier::CrossedOut)
    } else {
        None
    }
}

/// The value of a hexadecimal digit.
pub open spec fn hex_digit(c: char) -> Option<int> {
    if '0' <= c && c <= '9' {
        Some(c as int - '0' as int)
    } else if 'a' <= c && c <= 'f' {
        Some(c as int - 'a' as int + 10)
    } else if 'A' <= c && c <= 'F' {
        Some(c as int - 'A' as int + 10)
    } else {
        None
    }
}

/// The byte that two hexadecimal digits stand for.
pub open spec fn hex_byte(hi: char, lo: char) -> Option<u8> {
    match (hex_digit(hi), hex_digit(lo)) {
        (Some(h), Some(l)) => Some((16 * h + l) as u8),
        _ => None,
    }
}

/// The red, green and blue bytes of six hexadecimal digits.
pub open spec fn rgb_of(s: Seq<char>) -> Option<(u8, u8, u8)> {
    if s.len() == 6 {
        match (hex_byte(s[0], s[1]), hex_byte(s[2], s[3]), hex_byte(s[4], s[5])) {
            (Some(r), Some(g), Some(b)) => Some((r, g, b)),
            _ => None,
        }
    } else {
        None
    }
}

/// The value of a run of decimal digits.
pub open spec fn digits_value(d: Seq<char>) -> int
    decreases d.len(),
{
    if d.len() == 0 {
        0
    } else {
        digits_value(d.drop_last()) * 10 + (d.last() as int - '0' as int)
    }
}

/// A byte written in decimal: an optional `+`, then one or more digits
/// whose value is at most 255.
pub open spec fn decimal_u8(s: Seq<char>) -> Option<u8> {
    let d = if s.len() > 0 && s[0] == '+' {
        s.drop_first()
    } else {
        s
    };
    if d.len() > 0 && (forall|i: int| 0 <= i < d.len() ==> '0' <= #[trigger] d[i] && d[i] <= '9')
        && digits_value(d) <= 255 {
        Some(digits_value(d) as u8)
    } else {
        None
    }
}

/// Relies on `u8::from_str`: it accepts an optional `+` followed by decimal
/// digits whose value fits in a `u8`, and nothing else.
#[verifier::external_body]
fn parse_decimal_u8(s: &str) -> (r: Option<u8>)
    ensures
        r == decimal_u8(s@),
{
    s.parse::<u8>().ok()
}

fn hex_digit_exec(c: char) -> (r: Option<u8>)
    ensures
        match hex_digit(c) {
            Some(v) => r == Some(v as u8) && v < 16,
            None => r is None,
        },
{
    if '0' <= c && c <= '9' {
        Some((c as u32 - '0' as u32) as u8)
    } else if 'a' <= c && c <= 'f' {
        Some((c as u32 - 'a' as u32 + 10) as u8)
    } else if 'A' <= c && c <= 'F' {
        Some((c as u32 - 'A' as u32 + 10) as u8)
    } else {
        None
    }
}

fn hex_byte_exec(hi: char, lo: char) -> (r: Option<u8>)
    ensures
        r == hex_byte(hi, lo),
{
    match (hex_digit_exec(hi), hex_digit_exec(lo)) {
        (Some(h), Some(l)) => Some(16 * h + l),
        _ => None,
    }
}

/// Reads six hexadecimal digits as red, green and blue bytes.
pub fn hex_rgb(s: &str) -> (r: Option<(u8, u8, u8)>)
    ensures
        r == rgb_of(s@),
{
    let c = chars_of(s);
    if c.len() != 6 {
        return None;
    }
    match (hex_byte_exec(c[0], c[1]), hex_byte_exec(c[2], c[3]), hex_byte_exec(c[4], c[5])) {
        (Some(r), Some(g), Some(b)) => Some((r, g, b)),
        _ => None,
    }
}

/// The color that a name stands for, as `named_color` says.
pub fn parse_named_color(s: &str) -> (r: Option<Color>)
    ensures
        r == named_color(s@),
{
    if same_text(s, "black") {
        Some(Color::Black)
    } else if same_text(s, "red") {
        Some(Color::Red)
    } else if same_text(s, "green") {
        Some(Color::Green)
    } else if same_text(s, "yellow") {
        Some(Color::Yellow)
    } else if same_text(s, "blue") {
        Some(Color::Blue)
    } else if same_text(s, "magenta") || same_text(s, "purple") {
        Some(Color::Magenta)
    } else if same_text(s, "cyan") {
        Some(Color::Cyan)
    } else if same_text(s, "gray") {
        Some(Color::Gray)
    } else if same_text(s, "gray+") {
        Some(Color::DarkGray)
    } else if same_text(s, "red-") {
        Some(Color::LightRed)
    } else if same_text(s, "green-") {
        Some(Color::LightGreen)
    } else if same_text(s, "yellow-") {
        Some(Color::LightYellow)
    } else if same_text(s, "blue-") {
        Some(Color::LightBlue)
    } else if same_text(s, "magenta-") || same_text(s, "purple-") {
        Some(Color::LightMagenta)
    } else if same_text(s, "cyan-") {
        Some(Color::LightCyan)
    } else if same_text(s, "white") {
        Some(Color::White)
    } else {
        None
    }
}

/// The modifier that a name stands for, as `named_modifier` says.
pub fn parse_named_modifier(s: &str) -> (r: Option<Modifier>)
    ensures
        r == named_modifier(s@),
{
    if same_text(s, "b") {
        Some(Modifier::Bold)
    } else if same_text(s, "d") {
        Some(Modifier::Dim)
    } else if same_text(s, "i") {
        Some(Modifier::Italic)
    } else if same_text(s, "u") {
        Some(Modifier::Underlined)
    } else if same_text(s, "r") {
        Some(Modifier::Reversed)
    } else if same_text(s, "sb") {
        Some(Modifier::SlowBlink)
    } else if same_text(s, "rb") {
        Some(Modifier::RapidBlink)
    } else if same_text(s, "h") {
        Some(Modifier::Hidden)
    } else if same_text(s, "s") {
        Some(Modifier::CrossedOut)
    } else {
        None
    }
}

/// A color given as a name or as six hexadecimal digits.
pub open spec fn color_of(s: Seq<char>) -> Option<Color> {
    match named_color(s) {
        Some(c) => Some(c),
        None => match rgb_of(s) {
            Some((r, g, b)) => Some(Color::Rgb(r, g, b)),
            None => None,
        },
    }
}

/// A color given as a name, as six hexadecimal digits, or as a palette
/// index in decimal.
pub open spec fn color_or_index_of(s: Seq<char>) -> Option<Color> {
    match color_of(s) {
        Some(c) => Some(c),
        None => match decimal_u8(s) {
            Some(i) => Some(Color::Indexed(i)),
            None => None,
        },
    }
}

/// Reads a color given as a name or as six hexadecimal digits.
pub fn parse_color_value(s: &str) -> (r: Option<Color>)
    ensures
        r == color_of(s@),
{
    match parse_named_color(s) {
        Some(c) => Some(c),
        None => match hex_rgb(s) {
            Some((r, g, b)) => Some(Color::Rgb(r, g, b)),
            None => None,
        },
    }
}

/// Reads a color given as a name, as six hexadecimal digits, or as a
/// palette index in decimal.
pub fn parse_color_or_index(s: &str) -> (r: Option<Color>)
    ensures
        r == color_or_index_of(s@),
{
    match parse_color_value(s) {
        Some(c) => Some(c),
        None => match parse_decimal_u8(s) {
            Some(i) => Some(Color::Indexed(i)),
            None => None,
        },
    }
}

/// A text style: optional foreground and background colors, and the
/// modifiers that are on.
#[derive(Debug, Clone, Copy, PartialEq, Eq, Hash)]
pub struct Style {
    pub fg: Option<Color>,
    pub bg: Option<Color>,
    pub bold: bool,
    pub dim: bool,
    pub italic: bool,
    pub underlined: bool,
    pub reversed: bool,
    pub slow_blink: bool,
    pub rapid_blink: bool,
    pub hidden: bool,
    pub crossed_out: bool,
}

/// The style that sets nothing.
pub open spec fn plain_style() -> Style {
    Style {
        fg: None,
        bg: None,
        bold: false,
        dim: false,
        italic: false,
        underlined: false,
        reversed: false,
        slow_blink: false,
        rapid_blink: false,
        hidden: false,
        crossed_out: false,
    }
}

/// `base` with `over` laid on it: a color that `over` sets replaces that of
/// `base`, and a modifier is on where it is on in either.
pub open spec fn patched(base: Style, over: Style) -> Style {
    Style {
        fg: if over.fg is Some {
            over.fg
        } else {
            base.fg
        },
        bg: if over.bg is Some {
            over.bg
        } else {
            base.bg
        },
        bold: base.bold || over.bold,
        dim: base.dim || over.dim,
        italic: base.italic || over.italic,
        underlined: base.underlined || over.underlined,
        reversed: base.reversed || over.reversed,
        slow_blink: base.slow_blink || over.slow_blink,
        rapid_blink: base.rapid_blink || over.rapid_blink,
        hidden: base.hidden || over.hidden,
        crossed_out: base.crossed_out || over.crossed_out,
    }
}

/// The style with one modifier on and nothing else.
pub open spec fn modifier_style(m: Modifier) -> Style {
    let p = plain_style();
    match m {
        Modifier::Bold => Style { bold: true, ..p },
        Modifier::Dim => Style { dim: true, ..p },
        Modifier::Italic => Style { italic: true, ..p },
        Modifier::Underlined => Style { underlined: true, ..p },
        Modifier::Reversed => Style { reversed: true, ..p },
        Modifier::SlowBlink => Style { slow_blink: true, ..p },
        Modifier::RapidBlink => Style { rapid_blink: true, ..p },
        Modifier::Hidden => Style { hidden: true, ..p },
        Modifier::CrossedOut => Style { crossed_out: true, ..p },
    }
}

impl Style {
    /// The style that sets nothing.
    pub fn plain() -> (r: Style)
        ensures
            r == plain_style(),
    {
        Style {
            fg: None,
            bg: None,
            bold: false,
            dim: false,
            italic: false,
            underlined: false,
            reversed: false,
            slow_blink: false,
            rapid_blink: false,
            hidden: false,
            crossed_out: false,
        }
    }

    /// The style with one modifier on and nothing else.
    pub fn with_modifier(m: Modifier) -> (r: Style)
        ensures
            r == modifier_style(m),
    {
        let p = Style::plain();
        match m {
            Modifier::Bold => Style { bold: true, ..p },
            Modifier::Dim => Style { dim: true, ..p },
            Modifier::Italic => Style { italic: true, ..p },
            Modifier::Underlined => Style { underlined: true, ..p },
            Modifier::Reversed => Style { reversed: true, ..p },
            Modifier::SlowBlink => Style { slow_blink: true, ..p },
            Modifier::RapidBlink => Style { rapid_blink: true, ..p },
            Modifier::Hidden => Style { hidden: true, ..p },
            Modifier::CrossedOut => Style { crossed_out: true, ..p },
        }
    }

    /// This style with `other` laid on it.
    pub fn patch(self, other: Style) -> (r: Style)
        ensures
            r == patched(self, other),
    {
        Style {
            fg: if other.fg.is_some() {
                other.fg
            } else {
                self.fg
            },
            bg: if other.bg.is_some() {
                other.bg
            } else {
                self.bg
            },
            bold: self.bold || other.bold,
            dim: self.dim || other.dim,
            italic: self.italic || other.italic,
            underlined: self.underlined || other.underlined,
            reversed: self.reversed || other.reversed,
            slow_blink: self.slow_blink || other.slow_blink,
            rapid_blink: self.rapid_blink || other.rapid_blink,
            hidden: self.hidden || other.hidden,
            crossed_out: self.crossed_out || other.crossed_out,
        }
    }
}

impl Default for Style {
    fn default() -> (r: Style)
        ensures
            r == plain_style(),
    {
        Style::plain()
    }
}

/// The colors that the ANSI backend knows by name.
pub open spec fn ansi_named_color(s: Seq<char>) -> Option<Color> {
    if s == "black"@ {
        Some(Color::Black)
    } else if s == "red"@ {
        Some(Color::Red)
    } else if s == "green"@ {
        Some(Color::Green)
    } else if s == "yellow"@ {
        Some(Color::Yellow)
    } else if s == "blue"@ {
        Some(Color::Blue)
    } else if s == "purple"@ || s == "magenta"@ {
        Some(Color::Magenta)
    } else if s == "cyan"@ {
        Some(Color::Cyan)
    } else if s == "white"@ {
        Some(Color::White)
    } else {
        None
    }
}

/// A color for the ANSI backend: one of its names, six hexadecimal digits,
/// or a palette index in decimal.
pub open spec fn ansi_color_of(s: Seq<char>) -> Option<Color> {
    match ansi_named_color(s) {
        Some(c) => Some(c),
        None => match rgb_of(s) {
            Some((r, g, b)) => Some(Color::Rgb(r, g, b)),
            None => match decimal_u8(s) {
                Some(i) => Some(Color::Indexed(i)),
                None => None,
            },
        },
    }
}

/// The modifiers that the ANSI backend knows: it has one kind of blink,
/// which both `sb` and `rb` ask for.
pub open spec fn ansi_modifier_of(s: Seq<char>) -> Option<Modifier> {
    if s == "rb"@ {
        Some(Modifier::SlowBlink)
    } else {
        named_modifier(s)
    }
}

/// Reads a color for the ANSI backend.
pub fn parse_ansi_color(s: &str) -> (r: Option<Color>)
    ensures
        r == ansi_color_of(s@),
{
    let named = if same_text(s, "black") {
        Some(Color::Black)
    } else if same_text(s, "red") {
        Some(Color::Red)
    } else if same_text(s, "green") {
        Some(Color::Green)
    } else if same_text(s, "yellow") {
        Some(Color::Yellow)
    } else if same_text(s, "blue") {
        Some(Color::Blue)
    } else if same_text(s, "purple") || same_text(s, "magenta") {
        Some(Color::Magenta)
    } else if same_text(s, "cyan") {
        Some(Color::Cyan)
    } else if same_text(s, "white") {
        Some(Color::White)
    } else {
        None
    };
    match named {
        Some(c) => Some(c),
        None => match hex_rgb(s) {
            Some((r, g, b)) => Some(Color::Rgb(r, g, b)),
            None => match parse_decimal_u8(s) {
                Some(i) => Some(Color::Indexed(i)),
                None => None,
            },
        },
    }
}

/// Reads a modifier for the ANSI backend.
pub fn parse_ansi_modifier(s: &str) -> (r: Option<Modifier>)
    ensures
        r == ansi_modifier_of(s@),
{
    if same_text(s, "rb") {
        Some(Modifier::SlowBlink)
    } else {
        parse_named_modifier(s)
    }
}

} // verus!
