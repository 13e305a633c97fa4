//! Parse errors: their kind and where they were found.
use vstd::prelude::*;

use crate::span::{Span, SpanView};

verus! {

/// An error that knows where in the source it happened.
pub trait LocatedError {
    /// The 1-based line and column of the error.
    fn location(&self) -> (usize, usize);
}

/// Kind of parse error.
#[derive(Debug, Clone, Copy, PartialEq, Eq, Structural, Hash)]
pub enum ErrorKind {
    /// There is an unescaped `<`, `>` or `\` character.
    UnescapedChar,
    /// The character after a `\` cannot be escaped.
    UnescapableChar,
    /// An element reaches the end of its line without a closing `>`.
    ElementNotClose,
}

/// A parse error: its kind, and the rest of the line from where it was found.
#[derive(Debug, Clone, Copy, PartialEq, Eq)]
pub struct Error<'a> {
    pub kind: ErrorKind,
    pub span: Span<'a>,
}

/// What a parse error stands for.
pub struct ErrorView {
    pub kind: ErrorKind,
    pub span: SpanView,
}

impl<'a> View for Error<'a> {
    type V = ErrorView;

    open spec fn view(&self) -> ErrorView {
        ErrorView { kind: self.kind, span: self.span@ }
    }
}

impl<'a> Error<'a> {
    /// The kind of the error; every error that parsing returns has one.
    pub fn kind(&self) -> (r: Option<ErrorKind>)
        ensures
            r == Some(self.kind),
    {
        Some(self.kind)
    }

    /// The character the error points at, if the line has one there.
    pub fn found(&self) -> (r: Option<char>)
        ensures
            self.span.fragment@.len() == 0 ==> r is None,
            self.span.fragment@.len() > 0 ==> r == Some(self.span.fragment@[0]),
    {
        if self.span.fragment.unicode_len() == 0 {
            None
        } else {
            Some(self.span.fragment.get_char(0))
        }
    }

    /// The words that describe the kind of the error.
    pub fn reason(&self) -> (r: &'static str)
        ensures
            self.kind == ErrorKind::UnescapedChar ==> r@ == "unescaped character"@,
            self.kind == ErrorKind::UnescapableChar ==> r@ == "unescapable character"@,
            self.kind == ErrorKind::ElementNotClose ==> r@
                == "expect '>' to close element for element starter"@,
    {
        match self.kind {
            ErrorKind::UnescapedChar => "unescaped character",
            ErrorKind::UnescapableChar => "unescapable character",
            ErrorKind::ElementNotClose => "expect '>' to close element for element starter",
        }
    }
}

impl<'a> LocatedError for Error<'a> {
    fn location(&self) -> (r: (usize, usize))
        ensures
            r.0 == self.span.line,
            self.span.offset < usize::MAX ==> r.1 == self.span.offset + 1,
    {
        (self.span.line, self.span.offset.wrapping_add(1))
    }
}

} // verus!
