//! The whole pipeline: parse a source, convert its tags, flatten each line.
use vstd::prelude::*;

use crate::convertor::{ANSITermTagConvertor, CrosstermTagConvertor, RatatuiTagConvertor, TuiTagConvertor};
use crate::error::{Error, ErrorView};
use crate::flatten::{generate, shows, StyledText};
use crate::grammar::source_result;
use crate::item::{Item, Node};
use crate::parser::{ast_view, parse};
use crate::style::{Color, Modifier, Style};
use crate::tag::{CustomTagParser, TagConvertor};

verus! {

/// `out` shows, line by line, a source whose syntax tree is `lines`.
pub open spec fn shows_source<'a>(out: Seq<Vec<StyledText<'a>>>, lines: Seq<Seq<Node>>) -> bool {
    exists|ast: Seq<Vec<Item<'a>>>|
        #[trigger] ast_view(ast) == lines && out.len() == ast.len() && forall|k: int|
            0 <= k < ast.len() ==> shows(#[trigger] out[k]@, ast[k]@)
}

/// Parses `s` and shows each of its lines as styled pieces, with tags
/// converted by `c`; or gives the parse error.
pub fn compile_with<'a, C: TagConvertor<Color = Color, Modifier = Modifier, Custom = Style>>(
    s: &'a str,
    c: &mut C,
) -> (r: Result<Vec<Vec<StyledText<'a>>>, Error<'a>>)
    requires
        s@.len() < usize::MAX,
    ensures
        match r {
            Ok(out) => source_result(s@) matches Ok(lines) && shows_source(out@, lines),
            Err(e) => source_result(s@) == Err::<Seq<Seq<Node>>, ErrorView>(e@),
        },
{
    match parse(s) {
        Ok(ast) => {
            let out = generate(c, &ast);
            proof {
                assert(ast_view(ast@) == ast_view(ast@));
                assert(forall|k: int| 0 <= k < ast@.len() ==> ast@[k] == ast[k]);
            }
            Ok(out)
        },
        Err(e) => Err(e),
    }
}

/// Parses `s` and shows each of its lines as styled pieces, with tags
/// converted by a default convertor of type `C`; or gives the parse error.
pub fn compile<'a, C: TagConvertor<Color = Color, Modifier = Modifier, Custom = Style> + Default>(
    s: &'a str,
) -> (r: Result<Vec<Vec<StyledText<'a>>>, Error<'a>>)
    requires
        s@.len() < usize::MAX,
    ensures
        match r {
            Ok(out) => source_result(s@) matches Ok(lines) && shows_source(out@, lines),
            Err(e) => source_result(s@) == Err::<Seq<Seq<Node>>, ErrorView>(e@),
        },
{
    let mut c = C::default();
    compile_with(s, &mut c)
}

/// Generator of styled text for the `tui` backend.
#[derive(Debug)]
pub struct TuiTextGenerator<P> {
    convertor: TuiTagConvertor<P>,
}

impl<P> TuiTextGenerator<P> {
    /// Whether the generator was given a custom tag parser.
    pub closed spec fn has_custom_parser(&self) -> bool {
        self.convertor.custom_parser() is Some
    }

    /// A generator with a custom tag parser.
    pub fn new(p: P) -> (r: Self)
        ensures
            r.has_custom_parser(),
    {
        TuiTextGenerator { convertor: TuiTagConvertor::new(p) }
    }
}

impl<P> Default for TuiTextGenerator<P> {
    fn default() -> (r: Self)
        ensures
            !r.has_custom_parser(),
    {
        TuiTextGenerator { convertor: TuiTagConvertor::default() }
    }
}

impl<P: CustomTagParser<Output = Style>> TuiTextGenerator<P> {
    /// Each line of a parsed source as styled pieces.
    pub fn generate<'a>(&mut self, ast: &Vec<Vec<Item<'a>>>) -> (r: Vec<Vec<StyledText<'a>>>)
        ensures
            r.len() == ast.len(),
            forall|k: int| 0 <= k < ast.len() ==> shows(#[trigger] r@[k]@, ast@[k]@),
    {
        generate(&mut self.convertor, ast)
    }

    /// Parses a source and shows each of its lines as styled pieces.
    pub fn compile<'a>(&mut self, s: &'a str) -> (r: Result<Vec<Vec<StyledText<'a>>>, Error<'a>>)
        requires
            s@.len() < usize::MAX,
        ensures
            match r {
                Ok(out) => source_result(s@) matches Ok(lines) && shows_source(out@, lines),
                Err(e) => source_result(s@) == Err::<Seq<Seq<Node>>, ErrorView>(e@),
            },
    {
        compile_with(s, &mut self.convertor)
    }
}

/// Generator of styled text for the `ratatui` backend.
#[derive(Debug)]
pub struct RatatuiTextGenerator<P> {
    convertor: RatatuiTagConvertor<P>,
}

impl<P> RatatuiTextGenerator<P> {
    /// Whether the generator was given a custom tag parser.
    pub closed spec fn has_custom_parser(&self) -> bool {
        self.convertor.custom_parser() is Some
    }

    /// A generator with a custom tag parser.
    pub fn new(p: P) -> (r: Self)
        ensures
            r.has_custom_parser(),
    {
        RatatuiTextGenerator { convertor: RatatuiTagConvertor::new(p) }
    }
}

impl<P> Default for RatatuiTextGenerator<P> {
    fn default() -> (r: Self)
        ensures
            !r.has_custom_parser(),
    {
        RatatuiTextGenerator { convertor: RatatuiTagConvertor::default() }
    }
}

impl<P: CustomTagParser<Output = Style>> RatatuiTextGenerator<P> {
    /// Each line of a parsed source as styled pieces.
    pub fn generate<'a>(&mut self, ast: &Vec<Vec<Item<'a>>>) -> (r: Vec<Vec<StyledText<'a>>>)
        ensures
            r.len() == ast.len(),
            forall|k: int| 0 <= k < ast.len() ==> shows(#[trigger] r@[k]@, ast@[k]@),
    {
        generate(&mut self.convertor, ast)
    }

    /// Parses a source and shows each of its lines as styled pieces.
    pub fn compile<'a>(&mut self, s: &'a str) -> (r: Result<Vec<Vec<StyledText<'a>>>, Error<'a>>)
        requires
            s@.len() < usize::MAX,
        ensures
            match r {
                Ok(out) => source_result(s@) matches Ok(lines) && shows_source(out@, lines),
                Err(e) => source_result(s@) == Err::<Seq<Seq<Node>>, ErrorView>(e@),
            },
    {
        compile_with(s, &mut self.convertor)
    }
}

/// Generator of styled text for the `crossterm` backend.
#[derive(Debug)]
pub struct CrosstermCommandsGenerator<P> {
    convertor: CrosstermTagConvertor<P>,
}

impl<P> CrosstermCommandsGenerator<P> {
    /// Whether the generator was given a custom tag parser.
    pub closed spec fn has_custom_parser(&self) -> bool {
        self.convertor.custom_parser() is Some
    }

    /// A generator with a custom tag parser.
    pub fn new(p: P) -> (r: Self)
        ensures
            r.has_custom_parser(),
    {
        CrosstermCommandsGenerator { convertor: CrosstermTagConvertor::new(p) }
    }
}

impl<P> Default for CrosstermCommandsGenerator<P> {
    fn default() -> (r: Self)
        ensures
            !r.has_custom_parser(),
    {
        CrosstermCommandsGenerator { convertor: CrosstermTagConvertor::default() }
    }
}

impl<P: CustomTagParser<Output = Style>> CrosstermCommandsGenerator<P> {
    /// Each line of a parsed source as styled pieces.
    pub fn generate<'a>(&mut self, ast: &Vec<Vec<Item<'a>>>) -> (r: Vec<Vec<StyledText<'a>>>)
        ensures
            r.len() == ast.len(),
            forall|k: int| 0 <= k < ast.len() ==> shows(#[trigger] r@[k]@, ast@[k]@),
    {
        generate(&mut self.convertor, ast)
    }

    /// Parses a source and shows each of its lines as styled pieces.
    pub fn compile<'a>(&mut self, s: &'a str) -> (r: Result<Vec<Vec<StyledText<'a>>>, Error<'a>>)
        requires
            s@.len() < usize::MAX,
        ensures
            match r {
                Ok(out) => source_result(s@) matches Ok(lines) && shows_source(out@, lines),
                Err(e) => source_result(s@) == Err::<Seq<Seq<Node>>, ErrorView>(e@),
            },
    {
        compile_with(s, &mut self.convertor)
    }
}

/// Generator of styled strings for the ANSI backend.
#[derive(Debug)]
pub struct ANSIStringsGenerator<P> {
    convertor: ANSITermTagConvertor<P>,
}

impl<P> ANSIStringsGenerator<P> {
    /// Whether the generator was given a custom tag parser.
    pub closed spec fn has_custom_parser(&self) -> bool {
        self.convertor.custom_parser() is Some
    }

    /// A generator with a custom tag parser.
    pub fn new(p: P) -> (r: Self)
        ensures
            r.has_custom_parser(),
    {
        ANSIStringsGenerator { convertor: ANSITermTagConvertor::new(p) }
    }
}

impl<P> Default for ANSIStringsGenerator<P> {
    fn default() -> (r: Self)
        ensures
            !r.has_custom_parser(),
    {
        ANSIStringsGenerator { convertor: ANSITermTagConvertor::default() }
    }
}

impl<P: CustomTagParser<Output = Style>> ANSIStringsGenerator<P> {
    /// Each line of a parsed source as styled pieces.
    pub fn generate<'a>(&mut self, ast: &Vec<Vec<Item<'a>>>) -> (r: Vec<Vec<StyledText<'a>>>)
        ensures
            r.len() == ast.len(),
            forall|k: int| 0 <= k < ast.len() ==> shows(#[trigger] r@[k]@, ast@[k]@),
    {
        generate(&mut self.convertor, ast)
    }

    /// Parses a source and shows each of its lines as styled pieces.
    pub fn compile<'a>(&mut self, s: &'a str) -> (r: Result<Vec<Vec<StyledText<'a>>>, Error<'a>>)
        requires
            s@.len() < usize::MAX,
        ensures
            match r {
                Ok(out) => source_result(s@) matches Ok(lines) && shows_source(out@, lines),
                Err(e) => source_result(s@) == Err::<Seq<Seq<Node>>, ErrorView>(e@),
            },
    {
        compile_with(s, &mut self.convertor)
    }
}

} // verus!
