//! Positioned pieces of source lines.
use vstd::prelude::*;

verus! {

/// A piece of one source line: its text, the offset of its first character
/// within the line (in characters, from 0) and the 1-based line number.
#[derive(Debug, Clone, Copy, PartialEq, Eq)]
pub struct Span<'a> {
    pub fragment: &'a str,
    pub offset: usize,
    pub line: usize,
}

/// What a span stands for: its characters, offset and line.
pub struct SpanView {
    pub text: Seq<char>,
    pub offset: int,
    pub line: int,
}

impl<'a> View for Span<'a> {
    type V = SpanView;

    open spec fn view(&self) -> SpanView {
        SpanView { text: self.fragment@, offset: self.offset as int, line: self.line as int }
    }
}

/// The span of characters `start..end` of line number `line`, whose text is `s`.
pub open spec fn span_of(s: Seq<char>, start: int, end: int, line: int) -> SpanView {
    SpanView { text: s.subrange(start, end), offset: start, line }
}

impl<'a> Span<'a> {
    /// Makes a span from its parts.
    pub fn new(fragment: &'a str, offset: usize, line: usize) -> (r: Span<'a>)
        ensures
            r.fragment == fragment,
            r.offset == offset,
            r.line == line,
    {
        Span { fragment, offset, line }
    }

    /// The 1-based column of the span's first character.
    pub fn column(&self) -> (r: usize)
        requires
            self.offset < usize::MAX,
        ensures
            r == self.offset + 1,
    {
        self.offset + 1
    }

    /// The characters `start..end` of `line_text` as a span of line `line`.
    pub fn slice(line_text: &'a str, start: usize, end: usize, line: usize) -> (r: Span<'a>)
        requires
            start <= end <= line_text@.len(),
        ensures
            r@ == span_of(line_text@, start as int, end as int, line as int),
    {
        Span { fragment: line_text.substring_char(start, end), offset: start, line }
    }
}

} // verus!
