//! A small markup language for styled terminal text: `<green I have a <b bold> word>`.
//!
//! Source text is split into lines, and each line is parsed into a tree of
//! plain-text runs and tagged elements, or the first error found, with its
//! kind and position. The grammar is stated in [`grammar`] as spec
//! functions, [`parser`] is proved to follow it, and [`laws`] proves what
//! holds of every parse. The tag names of a tree are then converted into
//! colors, modifiers and custom styles ([`tag`], [`convertor`]), and each
//! line is flattened into styled pieces of text ([`flatten`], [`compile`]).
pub mod compile;
pub mod convert;
pub mod convertor;
pub mod error;
pub mod flatten;
pub mod generator;
pub mod grammar;
pub mod item;
pub mod laws;
pub mod parser;
pub mod span;
pub mod style;
pub mod tag;
pub mod text;
pub mod unescape;

pub use compile::{compile, compile_with, ANSIStringsGenerator, CrosstermCommandsGenerator, RatatuiTextGenerator, TuiTextGenerator};
pub use convert::{convert_ast, convert_item, convert_line};
pub use convertor::{ANSITermTagConvertor, CrosstermTagConvertor, RatatuiTagConvertor, TuiTagConvertor};
pub use error::{Error, ErrorKind, ErrorView, LocatedError};
pub use flatten::{flatten, generate, join_lines, StyleTag, StyledText};
pub use generator::{FlattenableSpan, FlattenableStyle, GeneratorInfallible, GenericSpan, GenericStyle};
pub use item::{Item, Node};
pub use parser::{parse, parse_line};
pub use span::{Span, SpanView};
pub use style::{hex_rgb, Color, Modifier, Style};
pub use tag::{CustomTagParser, NoopCustomTagParser, Tag, TagConvertor, TagKind};
pub use text::split_tag;
pub use unescape::{unescape, Unescape};
