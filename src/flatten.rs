//! Flattening a line of converted items into styled pieces of text.
use vstd::prelude::*;

use crate::convert::{convert_line, outlines};
use crate::generator::{FlattenableSpan, FlattenableStyle};
use crate::item::Item;
use crate::style::{modifier_style, patched, plain_style, Color, Modifier, Style};
use crate::tag::{Tag, TagConvertor};
use crate::unescape::{unescape, unescaped_pieces};

verus! {

/// A tag whose custom form is itself a style.
pub type StyleTag = Tag<Color, Modifier, Style>;

/// The style that a tag stands for on its own.
pub open spec fn tag_style(t: StyleTag) -> Style {
    match t {
        Tag::Fg(c) => Style { fg: Some(c), ..plain_style() },
        Tag::Bg(c) => Style { bg: Some(c), ..plain_style() },
        Tag::Modifier(m) => modifier_style(m),
        Tag::Custom(s) => s,
    }
}

/// `base` with the styles of `tags` laid on it one after another.
pub open spec fn fold_tags(tags: Seq<StyleTag>, base: Style) -> Style
    decreases tags.len(),
{
    if tags.len() == 0 {
        base
    } else {
        patched(fold_tags(tags.drop_last(), base), tag_style(tags.last()))
    }
}

/// Each of `pieces` with `style`.
pub open spec fn with_style(pieces: Seq<Seq<char>>, style: Option<Style>) -> Seq<
    (Seq<char>, Option<Style>),
> {
    pieces.map_values(|p: Seq<char>| (p, style))
}

/// A piece of text with the style it is shown in.
#[derive(Debug, Clone, Copy, PartialEq, Eq)]
pub struct StyledText<'a> {
    pub text: &'a str,
    pub style: Option<Style>,
}

/// The pieces of text that an item is shown as, each with its style: the
/// unescaped pieces of a text run keep the style around them, and an
/// element lays its tags over that style for its children.
pub open spec fn flat_item<'a>(it: Item<'a, StyleTag>, style: Option<Style>) -> Seq<
    (Seq<char>, Option<Style>),
>
    decreases it,
{
    match it {
        Item::PlainText(sp) => with_style(unescaped_pieces(sp.fragment@), style),
        Item::Element(tags, children) => flat_items(
            children@,
            Some(
                fold_tags(
                    tags@,
                    match style {
                        Some(s) => s,
                        None => plain_style(),
                    },
                ),
            ),
        ),
    }
}

/// The pieces of text of a sequence of items, in order.
pub open spec fn flat_items<'a>(v: Seq<Item<'a, StyleTag>>, style: Option<Style>) -> Seq<
    (Seq<char>, Option<Style>),
>
    decreases v,
{
    if v.len() == 0 {
        Seq::empty()
    } else {
        flat_items(v.drop_last(), style) + flat_item(v.last(), style)
    }
}

/// What a list of styled pieces stands for.
pub open spec fn pieces_view<'a>(v: Seq<StyledText<'a>>) -> Seq<(Seq<char>, Option<Style>)> {
    v.map_values(|p: StyledText<'a>| (p.text@, p.style))
}

impl Style {
    /// The style that a tag stands for on its own.
    pub fn from_tag(t: &StyleTag) -> (r: Style)
        ensures
            r == tag_style(*t),
    {
        match t {
            Tag::Fg(c) => Style { fg: Some(*c), ..Style::plain() },
            Tag::Bg(c) => Style { bg: Some(*c), ..Style::plain() },
            Tag::Modifier(m) => Style::with_modifier(*m),
            Tag::Custom(s) => *s,
        }
    }
}

impl FlattenableStyle for Style {
    fn patch(self, other: Style) -> (r: Style)
        ensures
            r == patched(self, other),
    {
        Style::patch(self, other)
    }
}

impl<'a> FlattenableSpan<'a, Style> for StyledText<'a> {
    fn with_style(s: &'a str, style: Option<Style>) -> (r: StyledText<'a>)
        ensures
            r.text == s,
            r.style == style,
    {
        StyledText { text: s, style }
    }
}

fn push_text<'a>(out: &mut Vec<StyledText<'a>>, escaped: &'a str, style: Option<Style>)
    ensures
        pieces_view(final(out)@) == pieces_view(old(out)@) + with_style(
            unescaped_pieces(escaped@),
            style,
        ),
{
    let ghost start = pieces_view(out@);
    let mut it = unescape(escaped);
    loop
        invariant
            it.wf(),
            start == pieces_view(old(out)@),
            pieces_view(out@) + with_style(it.rest(), style) == start + with_style(
                unescaped_pieces(escaped@),
                style,
            ),
        decreases it.rest().len(),
    {
        let ghost before = it.rest();
        match it.next() {
            Some(p) => {
                let ghost old_out = out@;
                out.push(StyledText { text: p, style });
                proof {
                    assert(pieces_view(out@) =~= pieces_view(old_out).push((p@, style)));
                    assert(with_style(before, style) =~= seq![(p@, style)] + with_style(
                        it.rest(),
                        style,
                    ));
                    assert(pieces_view(old_out) + (seq![(p@, style)] + with_style(it.rest(), style))
                        =~= pieces_view(out@) + with_style(it.rest(), style));
                }
            },
            None => {
                proof {
                    assert(with_style(it.rest(), style) =~= Seq::<
                        (Seq<char>, Option<Style>),
                    >::empty());
                    assert(pieces_view(out@) + Seq::<(Seq<char>, Option<Style>)>::empty()
                        =~= pieces_view(out@));
                }
                return ;
            },
        }
    }
}

fn flatten_item<'a>(out: &mut Vec<StyledText<'a>>, it: &Item<'a, StyleTag>, style: Option<Style>)
    ensures
        pieces_view(final(out)@) == pieces_view(old(out)@) + flat_item(*it, style),
    decreases it,
{
    match it {
        Item::PlainText(sp) => {
            push_text(out, sp.fragment, style);
        },
        Item::Element(tags, children) => {
            let mut s = match style {
                Some(s) => s,
                None => Style::plain(),
            };
            let ghost base = s;
            let mut i: usize = 0;
            while i < tags.len()
                invariant
                    i <= tags.len(),
                    s == fold_tags(tags@.subrange(0, i as int), base),
                decreases tags.len() - i,
            {
                s = s.patch(Style::from_tag(&tags[i]));
                proof {
                    assert(tags@.subrange(0, i + 1).drop_last() =~= tags@.subrange(0, i as int));
                }
                i = i + 1;
            }
            proof {
                assert(tags@.subrange(0, tags.len() as int) =~= tags@);
            }
            flatten_items(out, children, Some(s));
        },
    }
}

fn flatten_items<'a>(out: &mut Vec<StyledText<'a>>, v: &Vec<Item<'a, StyleTag>>, style: Option<Style>)
    ensures
        pieces_view(final(out)@) == pieces_view(old(out)@) + flat_items(v@, style),
    decreases v,
{
    let ghost start = pieces_view(out@);
    let mut i: usize = 0;
    while i < v.len()
        invariant
            i <= v.len(),
            pieces_view(out@) == start + flat_items(v@.subrange(0, i as int), style),
        decreases v.len() - i,
    {
        let ghost before = pieces_view(out@);
        flatten_item(out, &v[i], style);
        proof {
            let pre = v@.subrange(0, i + 1);
            assert(pre.drop_last() =~= v@.subrange(0, i as int));
            assert(pre.last() == v@[i as int]);
            assert(start + flat_items(v@.subrange(0, i as int), style) + flat_item(v@[i as int], style)
                =~= start + flat_items(pre, style));
        }
        i = i + 1;
    }
    proof {
        assert(v@.subrange(0, v.len() as int) =~= v@);
    }
}

/// The styled pieces of text that a line of converted items is shown as.
pub fn flatten<'a>(line: &Vec<Item<'a, StyleTag>>) -> (r: Vec<StyledText<'a>>)
    ensures
        pieces_view(r@) == flat_items(line@, None),
{
    let mut out: Vec<StyledText<'a>> = Vec::new();
    flatten_items(&mut out, line, None);
    proof {
        assert(pieces_view(Seq::<StyledText<'a>>::empty()) =~= Seq::empty());
        assert(Seq::<(Seq<char>, Option<Style>)>::empty() + flat_items(line@, None) =~= flat_items(
            line@,
            None,
        ));
    }
    out
}

/// `line` is what `src` is shown as, for some conversion of its tags that
/// keeps its text runs and nesting.
pub open spec fn shows<'a>(line: Seq<StyledText<'a>>, src: Seq<Item<'a>>) -> bool {
    exists|conv: Seq<Item<'a, StyleTag>>|
        outlines(conv) == outlines(src) && pieces_view(line) == #[trigger] flat_items(conv, None)
}

/// Each line of a parsed source, with its tags converted by `c`, flattened
/// into styled pieces. What each tag name becomes is up to `c`; the text
/// runs and nesting of every line are kept.
pub fn generate<'a, C: TagConvertor<Color = Color, Modifier = Modifier, Custom = Style>>(
    c: &mut C,
    ast: &Vec<Vec<Item<'a>>>,
) -> (r: Vec<Vec<StyledText<'a>>>)
    ensures
        r.len() == ast.len(),
        forall|k: int| 0 <= k < ast.len() ==> shows(#[trigger] r@[k]@, ast@[k]@),
{
    let mut out: Vec<Vec<StyledText<'a>>> = Vec::new();
    let mut k: usize = 0;
    while k < ast.len()
        invariant
            k <= ast.len(),
            out.len() == k,
            forall|j: int| 0 <= j < k ==> shows(#[trigger] out@[j]@, ast@[j]@),
        decreases ast.len() - k,
    {
        let converted = convert_line(c, &ast[k]);
        let line = flatten(&converted);
        proof {
            assert(flat_items(converted@, None) == pieces_view(line@));
            assert(shows(line@, ast@[k as int]@));
        }
        out.push(line);
        k = k + 1;
    }
    out
}

/// Lines of pieces joined into one list: a piece `"\n"` without style goes
/// before each line, once something has been written.
pub open spec fn joined(lines: Seq<Seq<(Seq<char>, Option<Style>)>>) -> Seq<
    (Seq<char>, Option<Style>),
>
    decreases lines.len(),
{
    if lines.len() == 0 {
        Seq::empty()
    } else {
        let acc = joined(lines.drop_last());
        if acc.len() > 0 {
            acc + seq![("\n"@, None::<Style>)] + lines.last()
        } else {
            acc + lines.last()
        }
    }
}

/// Joins lines of styled pieces as `joined` says.
pub fn join_lines<'a>(lines: &Vec<Vec<StyledText<'a>>>) -> (r: Vec<StyledText<'a>>)
    ensures
        pieces_view(r@) == joined(lines@.map_values(|l: Vec<StyledText<'a>>| pieces_view(l@))),
{
    let ghost views = lines@.map_values(|l: Vec<StyledText<'a>>| pieces_view(l@));
    let mut out: Vec<StyledText<'a>> = Vec::new();
    let mut k: usize = 0;
    while k < lines.len()
        invariant
            k <= lines.len(),
            views == lines@.map_values(|l: Vec<StyledText<'a>>| pieces_view(l@)),
            pieces_view(out@) == joined(views.subrange(0, k as int)),
        decreases lines.len() - k,
    {
        let ghost acc = pieces_view(out@);
        if out.len() > 0 {
            out.push(StyledText { text: "\n", style: None });
        }
        let ghost mid = pieces_view(out@);
        let line = &lines[k];
        let mut i: usize = 0;
        while i < line.len()
            invariant
                i <= line.len(),
                pieces_view(out@) == mid + pieces_view(line@).subrange(0, i as int),
            decreases line.len() - i,
        {
            let ghost before = out@;
            out.push(line[i]);
            proof {
                assert(pieces_view(out@) =~= pieces_view(before).push((line@[i as int].text@, line@[i as int].style)));
                assert(pieces_view(line@).subrange(0, i + 1) =~= pieces_view(line@).subrange(0, i as int).push(
                    (line@[i as int].text@, line@[i as int].style),
                ));
                assert(mid + pieces_view(line@).subrange(0, i + 1) =~= (mid + pieces_view(line@).subrange(0, i as int)).push(
                    (line@[i as int].text@, line@[i as int].style),
                ));
            }
            i = i + 1;
        }
        proof {
            let pre = views.subrange(0, k + 1);
            assert(pre.drop_last() =~= views.subrange(0, k as int));
            assert(pre.last() == pieces_view(line@));
            assert(pieces_view(line@).subrange(0, line.len() as int) =~= pieces_view(line@));
            if acc.len() > 0 {
                reveal_strlit("\n");
                assert(mid =~= acc + seq![("\n"@, None::<Style>)]);
            } else {
                assert(mid =~= acc);
            }
        }
        k = k + 1;
    }
    proof {
        assert(views.subrange(0, lines.len() as int) =~= views);
    }
    out
}

} // verus!
