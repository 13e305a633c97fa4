//! Converting the tag names of a parsed tree into tags.
use vstd::prelude::*;

use crate::item::Item;
use crate::span::{Span, SpanView};
use crate::tag::{Tag, TagConvertor};

verus! {

/// The outline of an item: its text runs and how elements nest, without
/// the tags.
pub enum Outline {
    Text(SpanView),
    Elem(Seq<Outline>),
}

/// The outline of an item.
pub open spec fn outline<'a, T>(it: Item<'a, T>) -> Outline
    decreases it,
{
    match it {
        Item::PlainText(sp) => Outline::Text(sp@),
        Item::Element(_, children) => Outline::Elem(outlines(children@)),
    }
}

/// The outlines of a sequence of items, in order.
pub open spec fn outlines<'a, T>(v: Seq<Item<'a, T>>) -> Seq<Outline>
    decreases v,
{
    if v.len() == 0 {
        Seq::empty()
    } else {
        outlines(v.drop_last()).push(outline(v.last()))
    }
}

/// An item with each tag name converted by `c`. Text runs and nesting stay
/// as they are; a tag name that does not convert is dropped.
pub fn convert_item<'a, C: TagConvertor>(c: &mut C, item: &Item<'a>) -> (r: Item<
    'a,
    Tag<C::Color, C::Modifier, C::Custom>,
>)
    ensures
        outline(r) == outline(*item),
        item matches Item::Element(names, _) ==> (r matches Item::Element(tags, _) && tags.len()
            <= names.len()),
    decreases item,
{
    match item {
        Item::PlainText(sp) => Item::PlainText(*sp),
        Item::Element(names, children) => {
            let mut tags: Vec<Tag<C::Color, C::Modifier, C::Custom>> = Vec::new();
            let mut i: usize = 0;
            while i < names.len()
                invariant
                    i <= names.len(),
                    tags.len() <= i,
                decreases names.len() - i,
            {
                let name: Span<'a> = names[i];
                match c.convert_tag(name.fragment) {
                    Some(t) => tags.push(t),
                    None => {},
                }
                i = i + 1;
            }
            Item::Element(tags, convert_line(c, children))
        },
    }
}

/// A line of items with each tag name converted by `c`.
pub fn convert_line<'a, C: TagConvertor>(c: &mut C, items: &Vec<Item<'a>>) -> (r: Vec<
    Item<'a, Tag<C::Color, C::Modifier, C::Custom>>,
>)
    ensures
        outlines(r@) == outlines(items@),
    decreases items,
{
    let mut out: Vec<Item<'a, Tag<C::Color, C::Modifier, C::Custom>>> = Vec::new();
    let mut i: usize = 0;
    while i < items.len()
        invariant
            i <= items.len(),
            outlines(out@) == outlines(items@.subrange(0, i as int)),
        decreases items.len() - i,
    {
        let converted = convert_item(c, &items[i]);
        let ghost old_out = out@;
        out.push(converted);
        proof {
            assert(out@.drop_last() =~= old_out);
            let pre = items@.subrange(0, i + 1);
            assert(pre.drop_last() =~= items@.subrange(0, i as int));
        }
        i = i + 1;
    }
    proof {
        assert(items@.subrange(0, items.len() as int) =~= items@);
    }
    out
}

/// Every line of a parsed source with each tag name converted by `c`.
pub fn convert_ast<'a, C: TagConvertor>(c: &mut C, ast: &Vec<Vec<Item<'a>>>) -> (r: Vec<
    Vec<Item<'a, Tag<C::Color, C::Modifier, C::Custom>>>,
>)
    ensures
        r.len() == ast.len(),
        forall|k: int| 0 <= k < ast.len() ==> outlines(#[trigger] r@[k]@) == outlines(ast@[k]@),
{
    let mut out: Vec<Vec<Item<'a, Tag<C::Color, C::Modifier, C::Custom>>>> = Vec::new();
    let mut k: usize = 0;
    while k < ast.len()
        invariant
            k <= ast.len(),
            out.len() == k,
            forall|j: int| 0 <= j < k ==> outlines(#[trigger] out@[j]@) == outlines(ast@[j]@),
        decreases ast.len() - k,
    {
        let line = convert_line(c, &ast[k]);
        out.push(line);
        k = k + 1;
    }
    out
}

} // verus!
