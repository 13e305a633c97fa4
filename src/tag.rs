//! Turning the tag names of an element into tags: colors, modifiers and
//! custom tags.
use vstd::prelude::*;

use crate::text::{same_text, split_tag, tag_parts};

verus! {

/// A tag after conversion.
#[derive(Debug, PartialEq, Eq)]
pub enum Tag<C, M, X> {
    /// Sets the foreground color.
    Fg(C),
    /// Sets the background color.
    Bg(C),
    /// Adds a style modifier.
    Modifier(M),
    /// A custom tag.
    Custom(X),
}

/// What the type part of a tag asks for.
#[derive(Debug, Clone, Copy, PartialEq, Eq, Structural)]
pub enum TagKind {
    /// `fg:`: a foreground color.
    Fg,
    /// `bg:`: a background color.
    Bg,
    /// `mod:`: a modifier.
    Modifier,
    /// No type: a foreground color, or else a modifier.
    Any,
}

/// The kind that the type part of a tag names, if it names one.
pub open spec fn tag_kind(ty: Seq<char>) -> Option<TagKind> {
    if ty == "fg"@ {
        Some(TagKind::Fg)
    } else if ty == "bg"@ {
        Some(TagKind::Bg)
    } else if ty == "mod"@ {
        Some(TagKind::Modifier)
    } else if ty.len() == 0 {
        Some(TagKind::Any)
    } else {
        None
    }
}

/// Reads the type part of a tag.
pub fn parse_tag_kind(ty: &str) -> (r: Option<TagKind>)
    ensures
        r == tag_kind(ty@),
{
    if same_text(ty, "fg") {
        Some(TagKind::Fg)
    } else if same_text(ty, "bg") {
        Some(TagKind::Bg)
    } else if same_text(ty, "mod") {
        Some(TagKind::Modifier)
    } else if ty.unicode_len() == 0 {
        Some(TagKind::Any)
    } else {
        None
    }
}

/// The built-in tag of a kind, given what the value reads as: a color, a
/// modifier, or neither. With no type, a color wins over a modifier.
pub open spec fn built_in<C, M, X>(kind: TagKind, color: Option<C>, modifier: Option<M>) -> Option<
    Tag<C, M, X>,
> {
    match kind {
        TagKind::Fg => match color {
            Some(c) => Some(Tag::Fg(c)),
            None => None,
        },
        TagKind::Bg => match color {
            Some(c) => Some(Tag::Bg(c)),
            None => None,
        },
        TagKind::Modifier => match modifier {
            Some(m) => Some(Tag::Modifier(m)),
            None => None,
        },
        TagKind::Any => match color {
            Some(c) => Some(Tag::Fg(c)),
            None => match modifier {
                Some(m) => Some(Tag::Modifier(m)),
                None => None,
            },
        },
    }
}

/// Builds the built-in tag of a kind from what the value reads as.
pub fn make_built_in<C, M, X>(kind: TagKind, color: Option<C>, modifier: Option<M>) -> (r: Option<
    Tag<C, M, X>,
>)
    ensures
        r == built_in::<C, M, X>(kind, color, modifier),
{
    match kind {
        TagKind::Fg => match color {
            Some(c) => Some(Tag::Fg(c)),
            None => None,
        },
        TagKind::Bg => match color {
            Some(c) => Some(Tag::Bg(c)),
            None => None,
        },
        TagKind::Modifier => match modifier {
            Some(m) => Some(Tag::Modifier(m)),
            None => None,
        },
        TagKind::Any => match color {
            Some(c) => Some(Tag::Fg(c)),
            None => match modifier {
                Some(m) => Some(Tag::Modifier(m)),
                None => None,
            },
        },
    }
}

/// A parser of custom tags, which a user of a tag convertor may supply.
pub trait CustomTagParser {
    /// What a custom tag becomes.
    type Output;

    /// Reads a tag name as a custom tag.
    fn parse(&mut self, s: &str) -> Option<Self::Output>;
}

/// A custom tag parser that knows no tags.
#[derive(Debug)]
pub struct NoopCustomTagParser<S> {
    marker: core::marker::PhantomData<S>,
}

impl<S> NoopCustomTagParser<S> {
    /// The parser.
    pub fn new() -> (r: Self) {
        NoopCustomTagParser { marker: core::marker::PhantomData }
    }
}

impl<S> CustomTagParser for NoopCustomTagParser<S> {
    type Output = S;

    fn parse(&mut self, s: &str) -> (r: Option<S>)
        ensures
            r is None,
    {
        None
    }
}

/// Converts the raw tag names of elements into tags.
///
/// A convertor says how a value reads as a color, as a modifier and as a
/// custom tag; how a tag name is split and tried on these is common to all.
pub trait TagConvertor {
    /// The color of foreground and background tags.
    type Color;
    /// The modifier of modifier tags.
    type Modifier;
    /// What a custom tag becomes.
    type Custom;

    /// Reads a value as a color.
    fn parse_color(&mut self, s: &str) -> Option<Self::Color>;

    /// Reads a value as a modifier.
    fn parse_modifier(&mut self, s: &str) -> Option<Self::Modifier>;

    /// Reads a whole tag name as a custom tag.
    fn parse_custom_tag(&mut self, s: &str) -> Option<Self::Custom>;

    /// Reads a tag name as a built-in tag: `fg:`, `bg:` or `mod:` and a
    /// value, or a value alone, which is a foreground color if it reads as
    /// a color and a modifier otherwise.
    fn parse_built_in_tag(&mut self, s: &str) -> (r: Option<
        Tag<Self::Color, Self::Modifier, Self::Custom>,
    >)
        ensures
            tag_parts(s@) is None ==> r is None,
            tag_parts(s@) matches Some((ty, _)) && tag_kind(ty) is None ==> r is None,
            tag_parts(s@) matches Some((ty, _)) && tag_kind(ty) == Some(TagKind::Fg) ==> (r is None
                || r matches Some(Tag::Fg(_))),
            tag_parts(s@) matches Some((ty, _)) && tag_kind(ty) == Some(TagKind::Bg) ==> (r is None
                || r matches Some(Tag::Bg(_))),
            tag_parts(s@) matches Some((ty, _)) && tag_kind(ty) == Some(TagKind::Modifier) ==> (r
                is None || r matches Some(Tag::Modifier(_))),
            r is None || r matches Some(Tag::Fg(_)) || r matches Some(Tag::Bg(_)) || r matches Some(
                Tag::Modifier(_),
            ),
    {
        match split_tag(s) {
            None => None,
            Some((ty, value)) => match parse_tag_kind(ty) {
                None => None,
                Some(kind) => {
                    let color = match kind {
                        TagKind::Modifier => None,
                        _ => self.parse_color(value),
                    };
                    let modifier = match (kind, &color) {
                        (TagKind::Modifier, _) => self.parse_modifier(value),
                        (TagKind::Any, None) => self.parse_modifier(value),
                        _ => None,
                    };
                    make_built_in(kind, color, modifier)
                },
            },
        }
    }

    /// Reads a tag name: as a custom tag first, then as a built-in tag.
    fn convert_tag(&mut self, s: &str) -> (r: Option<Tag<Self::Color, Self::Modifier, Self::Custom>>)
        ensures
            tag_parts(s@) is None ==> r is None || r matches Some(Tag::Custom(_)),
    {
        match self.parse_custom_tag(s) {
            Some(c) => Some(Tag::Custom(c)),
            None => self.parse_built_in_tag(s),
        }
    }
}

} // verus!