//! What output generators share: the traits that styles and styled spans
//! meet, and the error type of a generator that cannot fail.
use vstd::prelude::*;

verus! {

/// A style that can take on the settings of another one.
pub trait FlattenableStyle: Sized {
    /// This style, with the settings of `other` laid over it.
    fn patch(self, other: Self) -> Self;
}

/// A span of output text with an optional style.
pub trait FlattenableSpan<'a, S: FlattenableStyle>: Sized {
    /// The span of `s` in `style`.
    fn with_style(s: &'a str, style: Option<S>) -> Self;
}

/// A style that can take on the settings of another one.
pub trait GenericStyle: Sized {
    /// This style, with the settings of `other` laid over it.
    fn patch(self, other: Self) -> Self;
}

/// A span of output text with an optional style.
pub trait GenericSpan<'a, S: GenericStyle>: Sized {
    /// The span of `s` in `style`.
    fn with_style(s: &'a str, style: Option<S>) -> Self;
}

/// The error type of a generator that cannot fail. Such a generator never
/// makes a value of it.
#[derive(Debug, Clone, Copy, PartialEq, Eq)]
pub struct GeneratorInfallible;

} // verus!
