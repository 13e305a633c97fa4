//! The syntax tree of a line, and what it stands for.
use vstd::prelude::*;

use crate::span::{Span, SpanView};

verus! {

/// A node of the syntax tree of one line. Parsing gives each element's tag
/// names as spans; tag conversion turns them into tags of type `T`.
#[derive(Debug, PartialEq)]
pub enum Item<'a, T = Span<'a>> {
    /// A run of text, kept in its escaped form (`\<` stays two characters).
    PlainText(Span<'a>),
    /// An element: its tags in source order, and the items inside it.
    Element(Vec<T>, Vec<Item<'a, T>>),
}

/// What an item stands for.
pub enum Node {
    /// A run of text.
    Text(SpanView),
    /// An element: its tag names and its children.
    Elem(Seq<SpanView>, Seq<Node>),
}

/// What a sequence of spans stands for, in order.
pub open spec fn spans_view<'a>(v: Seq<Span<'a>>) -> Seq<SpanView> {
    v.map_values(|s: Span<'a>| s@)
}

impl<'a> View for Item<'a> {
    type V = Node;

    open spec fn view(&self) -> Node
        decreases self,
    {
        match self {
            Item::PlainText(s) => Node::Text(s@),
            Item::Element(tags, children) => Node::Elem(
                spans_view(tags@),
                items_view(children@),
            ),
        }
    }
}

/// The nodes that a sequence of items stands for, in order.
pub open spec fn items_view<'a>(v: Seq<Item<'a>>) -> Seq<Node>
    decreases v,
{
    if v.len() == 0 {
        Seq::empty()
    } else {
        items_view(v.drop_last()).push(v.last().view())
    }
}

} // verus!
