//! The tag convertors of the terminal backends: each reads colors and
//! modifiers by name, and hands whole tag names to an optional custom tag
//! parser first.
use vstd::prelude::*;

use crate::style::{
    ansi_color_of, ansi_modifier_of, parse_ansi_color, parse_ansi_modifier, color_of, color_or_index_of, named_modifier, parse_color_or_index, parse_color_value,
    parse_named_modifier, Color, Modifier,
};
use crate::tag::{CustomTagParser, TagConvertor};

verus! {

/// Tag convertor for text of the `tui` backend: colors by name or as six
/// hexadecimal digits.
#[derive(Debug)]
pub struct TuiTagConvertor<P> {
    custom_tag_parser: Option<P>,
}

impl<P> TuiTagConvertor<P> {
    /// The custom tag parser, if one was given.
    pub closed spec fn custom_parser(&self) -> Option<P> {
        self.custom_tag_parser
    }

    /// A convertor with a custom tag parser.
    pub fn new(p: P) -> (r: Self)
        ensures
            r.custom_parser() == Some(p),
    {
        TuiTagConvertor { custom_tag_parser: Some(p) }
    }
}

impl<P> Default for TuiTagConvertor<P> {
    fn default() -> (r: Self)
        ensures
            r.custom_parser() is None,
    {
        TuiTagConvertor { custom_tag_parser: None }
    }
}

impl<P: CustomTagParser> TagConvertor for TuiTagConvertor<P> {
    type Color = Color;
    type Modifier = Modifier;
    type Custom = P::Output;

    fn parse_color(&mut self, s: &str) -> (r: Option<Color>)
        ensures
            r == color_of(s@),
    {
        parse_color_value(s)
    }

    fn parse_modifier(&mut self, s: &str) -> (r: Option<Modifier>)
        ensures
            r == named_modifier(s@),
    {
        parse_named_modifier(s)
    }

    fn parse_custom_tag(&mut self, s: &str) -> (r: Option<P::Output>)
        ensures
            old(self).custom_parser() is None ==> r is None,
    {
        match &mut self.custom_tag_parser {
            Some(p) => p.parse(s),
            None => None,
        }
    }
}

/// Tag convertor for text of the `ratatui` backend: colors by name, as six
/// hexadecimal digits, or as a palette index in decimal.
#[derive(Debug)]
pub struct RatatuiTagConvertor<P> {
    custom_tag_parser: Option<P>,
}

impl<P> RatatuiTagConvertor<P> {
    /// The custom tag parser, if one was given.
    pub closed spec fn custom_parser(&self) -> Option<P> {
        self.custom_tag_parser
    }

    /// A convertor with a custom tag parser.
    pub fn new(p: P) -> (r: Self)
        ensures
            r.custom_parser() == Some(p),
    {
        RatatuiTagConvertor { custom_tag_parser: Some(p) }
    }
}

impl<P> Default for RatatuiTagConvertor<P> {
    fn default() -> (r: Self)
        ensures
            r.custom_parser() is None,
    {
        RatatuiTagConvertor { custom_tag_parser: None }
    }
}

impl<P: CustomTagParser> TagConvertor for RatatuiTagConvertor<P> {
    type Color = Color;
    type Modifier = Modifier;
    type Custom = P::Output;

    fn parse_color(&mut self, s: &str) -> (r: Option<Color>)
        ensures
            r == color_or_index_of(s@),
    {
        parse_color_or_index(s)
    }

    fn parse_modifier(&mut self, s: &str) -> (r: Option<Modifier>)
        ensures
            r == named_modifier(s@),
    {
        parse_named_modifier(s)
    }

    fn parse_custom_tag(&mut self, s: &str) -> (r: Option<P::Output>)
        ensures
            old(self).custom_parser() is None ==> r is None,
    {
        match &mut self.custom_tag_parser {
            Some(p) => p.parse(s),
            None => None,
        }
    }
}

/// Tag convertor for commands of the `crossterm` backend: colors by name, as
/// six hexadecimal digits, or as a palette index in decimal.
#[derive(Debug)]
pub struct CrosstermTagConvertor<P> {
    custom_tag_parser: Option<P>,
}

impl<P> CrosstermTagConvertor<P> {
    /// The custom tag parser, if one was given.
    pub closed spec fn custom_parser(&self) -> Option<P> {
        self.custom_tag_parser
    }

    /// A convertor with a custom tag parser.
    pub fn new(p: P) -> (r: Self)
        ensures
            r.custom_parser() == Some(p),
    {
        CrosstermTagConvertor { custom_tag_parser: Some(p) }
    }
}

impl<P> Default for CrosstermTagConvertor<P> {
    fn default() -> (r: Self)
        ensures
            r.custom_parser() is None,
    {
        CrosstermTagConvertor { custom_tag_parser: None }
    }
}

impl<P: CustomTagParser> TagConvertor for CrosstermTagConvertor<P> {
    type Color = Color;
    type Modifier = Modifier;
    type Custom = P::Output;

    fn parse_color(&mut self, s: &str) -> (r: Option<Color>)
        ensures
            r == color_or_index_of(s@),
    {
        parse_color_or_index(s)
    }

    fn parse_modifier(&mut self, s: &str) -> (r: Option<Modifier>)
        ensures
            r == named_modifier(s@),
    {
        parse_named_modifier(s)
    }

    fn parse_custom_tag(&mut self, s: &str) -> (r: Option<P::Output>)
        ensures
            old(self).custom_parser() is None ==> r is None,
    {
        match &mut self.custom_tag_parser {
            Some(p) => p.parse(s),
            None => None,
        }
    }
}

/// Tag convertor for strings of the ANSI backend: colors by its names, as
/// six hexadecimal digits, or as a palette index in decimal.
#[derive(Debug)]
pub struct ANSITermTagConvertor<P> {
    custom_tag_parser: Option<P>,
}

impl<P> ANSITermTagConvertor<P> {
    /// The custom tag parser, if one was given.
    pub closed spec fn custom_parser(&self) -> Option<P> {
        self.custom_tag_parser
    }

    /// A convertor with a custom tag parser.
    pub fn new(p: P) -> (r: Self)
        ensures
            r.custom_parser() == Some(p),
    {
        ANSITermTagConvertor { custom_tag_parser: Some(p) }
    }
}

impl<P> Default for ANSITermTagConvertor<P> {
    fn default() -> (r: Self)
        ensures
            r.custom_parser() is None,
    {
        ANSITermTagConvertor { custom_tag_parser: None }
    }
}

impl<P: CustomTagParser> TagConvertor for ANSITermTagConvertor<P> {
    type Color = Color;
    type Modifier = Modifier;
    type Custom = P::Output;

    fn parse_color(&mut self, s: &str) -> (r: Option<Color>)
        ensures
            r == ansi_color_of(s@),
    {
        parse_ansi_color(s)
    }

    fn parse_modifier(&mut self, s: &str) -> (r: Option<Modifier>)
        ensures
            r == ansi_modifier_of(s@),
    {
        parse_ansi_modifier(s)
    }

    fn parse_custom_tag(&mut self, s: &str) -> (r: Option<P::Output>)
        ensures
            old(self).custom_parser() is None ==> r is None,
    {
        match &mut self.custom_tag_parser {
            Some(p) => p.parse(s),
            None => None,
        }
    }
}

} // verus!
