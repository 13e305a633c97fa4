//! What holds of every parse: the tree gives back its line, and lines are
//! parsed on their own.
use vstd::prelude::*;

use crate::error::ErrorView;
use crate::grammar::{
    element, is_special, is_tag_char, item, items, line_end, line_from, line_result, lines,
    lines_from, more_tags,
    parse_lines, source_result, tag_end, tag_list, text_scan, Children, Parsed,
};
use crate::item::Node;
use crate::span::SpanView;

verus! {

/// The tag names after the first one, each written after a comma.
pub open spec fn comma_tags(tags: Seq<SpanView>) -> Seq<char>
    decreases tags.len(),
{
    if tags.len() == 0 {
        Seq::empty()
    } else {
        seq![','] + tags[0].text + comma_tags(tags.drop_first())
    }
}

/// A tag list as written: the names joined by commas.
pub open spec fn tags_text(tags: Seq<SpanView>) -> Seq<char> {
    if tags.len() == 0 {
        Seq::empty()
    } else {
        tags[0].text + comma_tags(tags.drop_first())
    }
}

/// The characters that a node stands for: the text of a run, and for an
/// element its brackets, tag list, space and children.
pub open spec fn node_text(n: Node) -> Seq<char>
    decreases n,
{
    match n {
        Node::Text(sp) => sp.text,
        Node::Elem(tags, children) => seq!['<'] + tags_text(tags) + seq![' '] + nodes_text(
            children,
        ) + seq!['>'],
    }
}

/// The characters that a sequence of nodes stands for, in order.
pub open spec fn nodes_text(ns: Seq<Node>) -> Seq<char>
    decreases ns,
{
    if ns.len() == 0 {
        Seq::empty()
    } else {
        node_text(ns[0]) + nodes_text(ns.drop_first())
    }
}

proof fn lemma_text_scan_bounds(s: Seq<char>, i: int)
    requires
        0 <= i <= s.len(),
    ensures
        i <= text_scan(s, i).0 <= s.len(),
    decreases s.len() - i,
{
    if i < s.len() {
        if !is_special(s[i]) {
            lemma_text_scan_bounds(s, i + 1);
        } else if s[i] == '\\' && i + 1 < s.len() && is_special(s[i + 1]) {
            lemma_text_scan_bounds(s, i + 2);
        }
    }
}

proof fn lemma_tag_end_bounds(s: Seq<char>, a: int)
    requires
        0 <= a <= s.len(),
    ensures
        a <= tag_end(s, a) <= s.len(),
    decreases s.len() - a,
{
    if a < s.len() && is_tag_char(s[a]) {
        lemma_tag_end_bounds(s, a + 1);
    }
}

proof fn lemma_more_tags_text(s: Seq<char>, i: int, line: int)
    requires
        0 <= i <= s.len(),
    ensures
        i <= more_tags(s, i, line).1 <= s.len(),
        comma_tags(more_tags(s, i, line).0) == s.subrange(i, more_tags(s, i, line).1),
    decreases s.len() - i,
{
    let (ts, end) = more_tags(s, i, line);
    if 0 <= i < s.len() && s[i] == ',' && i + 1 < tag_end(s, i + 1) <= s.len() {
        let j = tag_end(s, i + 1);
        lemma_more_tags_text(s, j, line);
        let rest = more_tags(s, j, line).0;
        assert(ts.drop_first() =~= rest);
        assert(s.subrange(i, end) =~= seq![','] + s.subrange(i + 1, j) + s.subrange(j, end));
    } else {
        assert(s.subrange(i, end) =~= Seq::<char>::empty());
    }
}

proof fn lemma_tag_list_text(s: Seq<char>, a: int, line: int)
    requires
        0 <= a <= s.len(),
    ensures
        tag_list(s, a, line) matches Some((tags, h)) ==> a < h <= s.len() && tags_text(tags)
            == s.subrange(a, h),
{
    let e = tag_end(s, a);
    lemma_tag_end_bounds(s, a);
    lemma_more_tags_text(s, e, line);
    if let Some((tags, h)) = tag_list(s, a, line) {
        assert(tags.drop_first() =~= more_tags(s, e, line).0);
        assert(s.subrange(a, h) =~= s.subrange(a, e) + s.subrange(e, h));
    }
}

proof fn lemma_element_text(s: Seq<char>, p: int, line: int)
    requires
        0 <= p <= s.len(),
    ensures
        element(s, p, line) matches Parsed::Done(n, e) ==> p < e <= s.len() && node_text(n)
            == s.subrange(p, e),
    decreases s.len() - p, 0int,
{
    if 0 <= p < s.len() && s[p] == '<' {
        if let Some((tags, h)) = tag_list(s, p + 1, line) {
            lemma_tag_list_text(s, p + 1, line);
            if p + 1 < h < s.len() && s[h] == ' ' {
                lemma_items_text(s, h + 1, line);
                if let Children::Found(children, q) = items(s, h + 1, line) {
                    if 0 <= q < s.len() && s[q] == '>' {
                        assert(s.subrange(p, q + 1) =~= seq!['<'] + s.subrange(p + 1, h) + seq![
                            ' ',
                        ] + s.subrange(h + 1, q) + seq!['>']);
                    }
                }
            }
        }
    }
}

proof fn lemma_item_text(s: Seq<char>, p: int, line: int)
    requires
        0 <= p <= s.len(),
    ensures
        item(s, p, line) matches Parsed::Done(n, e) ==> p < e <= s.len() && node_text(n)
            == s.subrange(p, e),
    decreases s.len() - p, 1int,
{
    lemma_element_text(s, p, line);
    lemma_text_scan_bounds(s, p);
}

proof fn lemma_items_text(s: Seq<char>, q: int, line: int)
    requires
        0 <= q <= s.len(),
    ensures
        items(s, q, line) matches Children::Found(ns, end) ==> q <= end <= s.len() && nodes_text(
            ns,
        ) == s.subrange(q, end),
    decreases s.len() - q, 2int,
{
    lemma_item_text(s, q, line);
    match item(s, q, line) {
        Parsed::Done(node, e) => {
            if 0 <= q < e <= s.len() {
                lemma_items_text(s, e, line);
                if let Children::Found(rest, end) = items(s, e, line) {
                    let ns = seq![node] + rest;
                    assert(ns.drop_first() =~= rest);
                    assert(s.subrange(q, end) =~= s.subrange(q, e) + s.subrange(e, end));
                }
            }
        },
        _ => {
            assert(s.subrange(q, q) =~= Seq::<char>::empty());
        },
    }
}

proof fn lemma_line_text(s: Seq<char>, p: int, line: int)
    requires
        0 <= p <= s.len(),
    ensures
        line_from(s, p, line) matches Ok(ns) ==> nodes_text(ns) == s.subrange(p, s.len() as int),
    decreases s.len() - p,
{
    if p >= s.len() {
        assert(s.subrange(p, s.len() as int) =~= Seq::<char>::empty());
    } else {
        lemma_item_text(s, p, line);
        if let Parsed::Done(node, e) = item(s, p, line) {
            lemma_line_text(s, e, line);
            if let Ok(rest) = line_from(s, e, line) {
                let ns = seq![node] + rest;
                assert(ns.drop_first() =~= rest);
                assert(s.subrange(p, s.len() as int) =~= s.subrange(p, e) + s.subrange(
                    e,
                    s.len() as int,
                ));
            }
        }
    }
}

/// A line that parses is given back exactly by its tree: the text of its
/// plain-text runs together with each element's `<`, tag names, commas,
/// space and `>`, in order, is the line.
pub proof fn law_round_trip(s: Seq<char>, line: int)
    ensures
        line_result(s, line) matches Ok(ns) ==> nodes_text(ns) == s,
{
    lemma_line_text(s, 0, line);
    assert(s.subrange(0, s.len() as int) =~= s);
}

proof fn lemma_parse_lines(ls: Seq<Seq<char>>, k: int)
    requires
        0 <= k <= ls.len(),
    ensures
        parse_lines(ls, k) matches Ok(ast) ==> ast.len() == ls.len() - k && forall|j: int|
            0 <= j < ast.len() ==> #[trigger] ast[j] == line_result(ls[k + j], k + j + 1)->Ok_0
                && line_result(ls[k + j], k + j + 1) is Ok,
        parse_lines(ls, k) matches Err(e) ==> exists|j: int|
            k <= j < ls.len() && #[trigger] line_result(ls[j], j + 1) == Err::<Seq<Node>, ErrorView>(
                e,
            ) && forall|i: int| k <= i < j ==> #[trigger] line_result(ls[i], i + 1) is Ok,
    decreases ls.len() - k,
{
    if k < ls.len() {
        lemma_parse_lines(ls, k + 1);
        match line_result(ls[k], k + 1) {
            Err(e) => {
                assert(line_result(ls[k], k + 1) == Err::<Seq<Node>, ErrorView>(e));
            },
            Ok(nodes) => {
                match parse_lines(ls, k + 1) {
                    Ok(rest) => {
                        let ast = seq![nodes] + rest;
                        assert forall|j: int| 0 <= j < ast.len() implies #[trigger] ast[j]
                            == line_result(ls[k + j], k + j + 1)->Ok_0 && line_result(
                            ls[k + j],
                            k + j + 1,
                        ) is Ok by {
                            if j > 0 {
                                assert(ast[j] == rest[j - 1]);
                                assert(k + 1 + (j - 1) == k + j);
                            }
                        }
                    },
                    Err(e) => {
                        let j = choose|j: int|
                            k + 1 <= j < ls.len() && #[trigger] line_result(ls[j], j + 1) == Err::<
                                Seq<Node>,
                                ErrorView,
                            >(e) && forall|i: int|
                                k + 1 <= i < j ==> #[trigger] line_result(ls[i], i + 1) is Ok;
                        assert(forall|i: int| k <= i < j ==> #[trigger] line_result(ls[i], i + 1)
                            is Ok);
                    },
                }
            },
        }
    }
}

/// Lines are parsed on their own, in order. A source parses when each of
/// its lines does, and then entry `k` of the result is the parse of line
/// `k` with number `k + 1`. Otherwise the error is that of the first line
/// that fails, and it carries that line's number: no other line bears on it.
pub proof fn law_lines_independent(s: Seq<char>)
    ensures
        source_result(s) matches Ok(ast) ==> ast.len() == lines(s).len() && forall|k: int|
            0 <= k < ast.len() ==> line_result(lines(s)[k], k + 1) == Ok::<Seq<Node>, ErrorView>(
                #[trigger] ast[k],
            ),
        source_result(s) matches Err(e) ==> exists|k: int|
            0 <= k < lines(s).len() && #[trigger] line_result(lines(s)[k], k + 1) == Err::<
                Seq<Node>,
                ErrorView,
            >(e) && e.span.line == k + 1 && forall|i: int|
                0 <= i < k ==> #[trigger] line_result(lines(s)[i], i + 1) is Ok,
{
    let ls = lines(s);
    lemma_parse_lines(ls, 0);
    match source_result(s) {
        Ok(ast) => {
            assert forall|k: int| 0 <= k < ast.len() implies line_result(ls[k], k + 1) == Ok::<
                Seq<Node>,
                ErrorView,
            >(#[trigger] ast[k]) by {
                assert(ast[k] == line_result(ls[0 + k], 0 + k + 1)->Ok_0);
                assert(0 + k == k);
            }
        },
        Err(e) => {
            let k = choose|k: int|
                0 <= k < ls.len() && #[trigger] line_result(ls[k], k + 1) == Err::<
                    Seq<Node>,
                    ErrorView,
                >(e) && forall|i: int| 0 <= i < k ==> #[trigger] line_result(ls[i], i + 1) is Ok;
            assert(e.span.line == k + 1);
        },
    }
}

/// Lines joined back together, with a `\n` between each two.
pub open spec fn join_lines_text(ls: Seq<Seq<char>>) -> Seq<char>
    decreases ls.len(),
{
    if ls.len() == 0 {
        Seq::empty()
    } else if ls.len() == 1 {
        ls[0]
    } else {
        ls[0] + seq!['\n'] + join_lines_text(ls.drop_first())
    }
}

proof fn lemma_line_end(s: Seq<char>, i: int)
    requires
        0 <= i <= s.len(),
    ensures
        i <= line_end(s, i) <= s.len(),
        line_end(s, i) < s.len() ==> s[line_end(s, i)] == '\n',
        forall|j: int| i <= j < line_end(s, i) ==> s[j] != '\n',
    decreases s.len() - i,
{
    if i < s.len() && s[i] != '\n' {
        lemma_line_end(s, i + 1);
    }
}

proof fn lemma_lines_from(s: Seq<char>, i: int)
    requires
        0 <= i <= s.len(),
    ensures
        lines_from(s, i).len() >= 1,
        join_lines_text(lines_from(s, i)) == s.subrange(i, s.len() as int),
        forall|k: int|
            0 <= k < lines_from(s, i).len() ==> !(#[trigger] lines_from(s, i)[k]).contains('\n'),
    decreases s.len() - i,
{
    let e = line_end(s, i);
    lemma_line_end(s, i);
    let ls = lines_from(s, i);
    if e < s.len() {
        lemma_lines_from(s, e + 1);
        let rest = lines_from(s, e + 1);
        assert(ls == seq![s.subrange(i, e)] + rest);
        assert(ls.drop_first() =~= rest);
        assert(s.subrange(i, s.len() as int) =~= s.subrange(i, e) + seq!['\n'] + s.subrange(
            e + 1,
            s.len() as int,
        ));
        assert forall|k: int| 0 <= k < ls.len() implies !(#[trigger] ls[k]).contains('\n') by {
            if k == 0 {
                assert(ls[0] == s.subrange(i, e));
            } else {
                assert(ls[k] == rest[k - 1]);
            }
        }
    } else {
        assert(ls == seq![s.subrange(i, s.len() as int)]);
    }
}

/// A source is cut into lines at each `\n` and nowhere else: no line holds
/// a `\n`, and the lines joined with `\n` give back the source. There is
/// always at least one line.
pub proof fn law_lines_rebuild(s: Seq<char>)
    ensures
        lines(s).len() >= 1,
        join_lines_text(lines(s)) == s,
        forall|k: int| 0 <= k < lines(s).len() ==> !(#[trigger] lines(s)[k]).contains('\n'),
{
    lemma_lines_from(s, 0);
    assert(s.subrange(0, s.len() as int) =~= s);
}

} // verus!
