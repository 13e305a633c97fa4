//! The parser, held to the grammar of `grammar.rs` step by step.
use vstd::prelude::*;
use vstd::std_specs::iter::IteratorSpec;

use crate::error::{Error, ErrorKind, ErrorView};
use crate::grammar::{
    element, is_tag_char, item, items, line_end, line_from, line_result, lines, lines_from,
    more_tags, parse_lines, plain_text, source_result, tag_end, tag_list, text_scan, Children,
    Parsed, Stop,
};
use crate::item::{items_view, spans_view, Item, Node};
use crate::span::{span_of, Span};

verus! {

/// The outcome of parsing one item, as the grammar's `Parsed`.
pub enum Step<'a> {
    Done(Item<'a>, usize),
    Soft(ErrorKind, usize),
    Unclosed,
}

impl<'a> View for Step<'a> {
    type V = Parsed;

    open spec fn view(&self) -> Parsed {
        match self {
            Step::Done(it, e) => Parsed::Done(it@, *e as int),
            Step::Soft(k, at) => Parsed::Soft(*k, *at as int),
            Step::Unclosed => Parsed::Unclosed,
        }
    }
}

/// What the parser is given for one line: its text, and the same text as
/// characters.
pub open spec fn line_input(text: &str, chars: &Vec<char>) -> bool {
    chars@ == text@ && chars.len() < usize::MAX
}

/// Scans plain text from `p`.
pub fn scan_text(chars: &Vec<char>, p: usize) -> (r: (usize, Stop))
    requires
        p <= chars.len() < usize::MAX,
    ensures
        (r.0 as int, r.1) == text_scan(chars@, p as int),
        p <= r.0 <= chars.len(),
{
    let n = chars.len();
    let mut i: usize = p;
    while i < n
        invariant
            n == chars.len() < usize::MAX,
            p <= i <= n,
            text_scan(chars@, p as int) == text_scan(chars@, i as int),
        decreases n - i,
    {
        let c = chars[i];
        if c != '<' && c != '>' && c != '\\' {
            i = i + 1;
        } else if c == '\\' {
            if i + 1 >= n {
                return (i, Stop::Trailing);
            } else {
                let d = chars[i + 1];
                if d == '<' || d == '>' || d == '\\' {
                    i = i + 2;
                } else {
                    return (i + 1, Stop::Unescapable);
                }
            }
        } else {
            return (i, Stop::Clean);
        }
    }
    (i, Stop::Clean)
}

/// Plain text from `p`.
pub fn parse_plain_text<'a>(text: &'a str, chars: &Vec<char>, p: usize, line: usize) -> (r: Step<
    'a,
>)
    requires
        line_input(text, chars),
        p <= chars.len(),
    ensures
        r@ == plain_text(chars@, p as int, line as int),
        r matches Step::Done(_, e) ==> p < e <= chars.len(),
        r matches Step::Soft(_, at) ==> at <= chars.len(),
{
    let (i, stop) = scan_text(chars, p);
    match stop {
        Stop::Clean => {
            if i > p {
                Step::Done(Item::PlainText(Span::slice(text, p, i, line)), i)
            } else {
                Step::Soft(ErrorKind::UnescapedChar, p)
            }
        },
        Stop::Unescapable => Step::Soft(ErrorKind::UnescapableChar, i),
        Stop::Trailing => {
            let at = if p < chars.len() && (chars[p] == '<' || chars[p] == '>' || chars[p]
                == '\\') {
                p
            } else {
                i
            };
            Step::Soft(ErrorKind::UnescapedChar, at)
        },
    }
}

/// Whether `c` may stand in a tag name.
pub fn is_tag_char_exec(c: char) -> (r: bool)
    ensures
        r == is_tag_char(c),
{
    ('a' <= c && c <= 'z') || ('A' <= c && c <= 'Z') || ('0' <= c && c <= '9') || c == ':' || c
        == '+' || c == '-'
}

/// The end of the run of tag characters from `a`.
pub fn scan_tag(chars: &Vec<char>, a: usize) -> (r: usize)
    requires
        a <= chars.len(),
    ensures
        r == tag_end(chars@, a as int),
        a <= r <= chars.len(),
{
    let mut i: usize = a;
    while i < chars.len() && is_tag_char_exec(chars[i])
        invariant
            a <= i <= chars.len(),
            tag_end(chars@, a as int) == tag_end(chars@, i as int),
        decreases chars.len() - i,
    {
        i = i + 1;
    }
    i
}

/// The tag list from `a`: the tag names and the position after them.
pub fn parse_tag_list<'a>(text: &'a str, chars: &Vec<char>, a: usize, line: usize) -> (r: Option<
    (Vec<Span<'a>>, usize),
>)
    requires
        line_input(text, chars),
        a <= chars.len(),
    ensures
        match r {
            Some((tags, h)) => tag_list(chars@, a as int, line as int) == Some(
                (spans_view(tags@), h as int),
            ) && a < h <= chars.len(),
            None => tag_list(chars@, a as int, line as int) is None,
        },
{
    let e = scan_tag(chars, a);
    if e == a {
        return None;
    }
    let mut tags: Vec<Span<'a>> = Vec::new();
    tags.push(Span::slice(text, a, e, line));
    let mut i: usize = e;
    while i < chars.len() && chars[i] == ',' && i + 1 < scan_tag(chars, i + 1)
        invariant
            line_input(text, chars),
            a < e <= i <= chars.len(),
            e == tag_end(chars@, a as int),
            spans_view(tags@) + more_tags(chars@, i as int, line as int).0 == seq![
                span_of(chars@, a as int, e as int, line as int),
            ] + more_tags(chars@, e as int, line as int).0,
            more_tags(chars@, i as int, line as int).1 == more_tags(
                chars@,
                e as int,
                line as int,
            ).1,
        decreases chars.len() - i,
    {
        let j = scan_tag(chars, i + 1);
        let ghost old_tags = tags@;
        tags.push(Span::slice(text, i + 1, j, line));
        proof {
            let s = chars@;
            let sp = span_of(s, i + 1, j as int, line as int);
            let rest = more_tags(s, j as int, line as int).0;
            assert(spans_view(tags@) =~= spans_view(old_tags) + seq![sp]);
            assert(more_tags(s, i as int, line as int).0 == seq![sp] + rest);
            assert((spans_view(old_tags) + seq![sp]) + rest =~= spans_view(old_tags) + (seq![sp]
                + rest));
        }
        i = j;
    }
    Some((tags, i))
}

/// An element at `p`.
pub fn parse_element<'a>(text: &'a str, chars: &Vec<char>, p: usize, line: usize) -> (r: Step<'a>)
    requires
        line_input(text, chars),
        p <= chars.len(),
    ensures
        r@ == element(chars@, p as int, line as int),
        r matches Step::Done(_, e) ==> p < e <= chars.len(),
    decreases chars.len() - p, 0int,
{
    if !(p < chars.len() && chars[p] == '<') {
        return Step::Soft(ErrorKind::UnescapedChar, p);
    }
    match parse_tag_list(text, chars, p + 1, line) {
        None => Step::Soft(ErrorKind::UnescapedChar, p),
        Some((tags, h)) => {
            if !(h < chars.len() && chars[h] == ' ') {
                return Step::Soft(ErrorKind::UnescapedChar, p);
            }
            match parse_items(text, chars, h + 1, line) {
                None => Step::Unclosed,
                Some((children, q)) => {
                    if q < chars.len() && chars[q] == '>' {
                        Step::Done(Item::Element(tags, children), q + 1)
                    } else {
                        Step::Unclosed
                    }
                },
            }
        },
    }
}

/// An item at `p`: an element, or else plain text.
pub fn parse_item<'a>(text: &'a str, chars: &Vec<char>, p: usize, line: usize) -> (r: Step<'a>)
    requires
        line_input(text, chars),
        p <= chars.len(),
    ensures
        r@ == item(chars@, p as int, line as int),
        r matches Step::Done(_, e) ==> p < e <= chars.len(),
        r matches Step::Soft(_, at) ==> at <= chars.len(),
    decreases chars.len() - p, 1int,
{
    match parse_element(text, chars, p, line) {
        Step::Soft(_, _) => parse_plain_text(text, chars, p, line),
        r => r,
    }
}

/// Items from `q` for as long as they match: `None` where one of them is an
/// element that is not closed.
pub fn parse_items<'a>(text: &'a str, chars: &Vec<char>, q: usize, line: usize) -> (r: Option<
    (Vec<Item<'a>>, usize),
>)
    requires
        line_input(text, chars),
        q <= chars.len(),
    ensures
        match r {
            Some((found, end)) => items(chars@, q as int, line as int) == Children::Found(
                items_view(found@),
                end as int,
            ) && q <= end <= chars.len(),
            None => items(chars@, q as int, line as int) is Unclosed,
        },
    decreases chars.len() - q, 2int,
{
    let mut found: Vec<Item<'a>> = Vec::new();
    let mut i: usize = q;
    loop
        invariant
            line_input(text, chars),
            q <= i <= chars.len(),
            match items(chars@, i as int, line as int) {
                Children::Found(rest, end) => items(chars@, q as int, line as int)
                    == Children::Found(items_view(found@) + rest, end),
                Children::Unclosed => items(chars@, q as int, line as int) is Unclosed,
            },
        decreases chars.len() - i,
    {
        let ghost s = chars@;
        match parse_item(text, chars, i, line) {
            Step::Done(it, e) => {
                let ghost node = it@;
                let ghost old_found = found@;
                found.push(it);
                proof {
                    assert(found@.drop_last() =~= old_found);
                    assert(items_view(found@) == items_view(old_found).push(node));
                    match items(s, e as int, line as int) {
                        Children::Found(rest, end) => {
                            assert(items_view(old_found) + (seq![node] + rest)
                                =~= items_view(found@) + rest);
                        },
                        Children::Unclosed => {},
                    }
                }
                i = e;
            },
            Step::Soft(_, _) => {
                proof {
                    assert(items_view(found@) + Seq::<Node>::empty() =~= items_view(found@));
                }
                return Some((found, i));
            },
            Step::Unclosed => {
                return None;
            },
        }
    }
}

/// The characters of `text`, in order.
pub fn chars_of(text: &str) -> (r: Vec<char>)
    ensures
        r@ == text@,
{
    broadcast use vstd::string::axiom_spec_iter, vstd::string::next_postcondition;

    let mut it = text.chars();
    let mut r: Vec<char> = Vec::new();
    loop
        invariant
            r@ + it.remaining() == text@,
            it.decrease() is Some,
        decreases it.decrease()->0,
    {
        let ghost before = it.remaining();
        match it.next() {
            Some(c) => {
                proof {
                    assert(r@.push(c) + it.remaining() =~= r@ + before);
                }
                r.push(c);
            },
            None => {
                proof {
                    assert(r@ + it.remaining() =~= r@);
                }
                return r;
            },
        }
    }
}

/// Parses line number `line`, whose text is `text`.
pub fn parse_line<'a>(text: &'a str, line: usize) -> (r: Result<Vec<Item<'a>>, Error<'a>>)
    requires
        text@.len() < usize::MAX,
    ensures
        match r {
            Ok(found) => line_result(text@, line as int) == Ok::<Seq<Node>, ErrorView>(
                items_view(found@),
            ),
            Err(e) => line_result(text@, line as int) == Err::<Seq<Node>, ErrorView>(e@),
        },
{
    let chars = chars_of(text);
    let n = chars.len();
    let mut found: Vec<Item<'a>> = Vec::new();
    let mut i: usize = 0;
    while i < n
        invariant
            line_input(text, &chars),
            n == chars.len(),
            i <= n,
            match line_from(chars@, i as int, line as int) {
                Ok(rest) => line_from(chars@, 0, line as int) == Ok::<Seq<Node>, (ErrorKind, int)>(
                    items_view(found@) + rest,
                ),
                Err(err) => line_from(chars@, 0, line as int) == Err::<Seq<Node>, (ErrorKind, int)>(
                    err,
                ),
            },
        decreases n - i,
    {
        let ghost s = chars@;
        match parse_item(text, &chars, i, line) {
            Step::Done(it, e) => {
                let ghost node = it@;
                let ghost old_found = found@;
                found.push(it);
                proof {
                    assert(found@.drop_last() =~= old_found);
                    assert(items_view(found@) == items_view(old_found).push(node));
                    match line_from(s, e as int, line as int) {
                        Ok(rest) => {
                            assert(items_view(old_found) + (seq![node] + rest)
                                =~= items_view(found@) + rest);
                        },
                        Err(_) => {},
                    }
                }
                i = e;
            },
            Step::Soft(kind, at) => {
                return Err(Error { kind, span: Span::slice(text, at, n, line) });
            },
            Step::Unclosed => {
                return Err(Error { kind: ErrorKind::ElementNotClose, span: Span::slice(text, i, n, line) });
            },
        }
    }
    proof {
        assert(items_view(found@) + Seq::<Node>::empty() =~= items_view(found@));
    }
    Ok(found)
}

/// What a parsed source stands for, line by line.
pub open spec fn ast_view<'a>(v: Seq<Vec<Item<'a>>>) -> Seq<Seq<Node>> {
    v.map_values(|l: Vec<Item<'a>>| items_view(l@))
}

/// Parses a whole source, line by line: the items of each line, or the
/// first error.
pub fn parse<'a>(source: &'a str) -> (r: Result<Vec<Vec<Item<'a>>>, Error<'a>>)
    requires
        source@.len() < usize::MAX,
    ensures
        match r {
            Ok(ast) => source_result(source@) == Ok::<Seq<Seq<Node>>, ErrorView>(ast_view(ast@)),
            Err(e) => source_result(source@) == Err::<Seq<Seq<Node>>, ErrorView>(e@),
        },
{
    let chars = chars_of(source);
    let ghost s = chars@;
    let ghost ls = lines(s);
    let n = chars.len();
    let mut out: Vec<Vec<Item<'a>>> = Vec::new();
    let mut i: usize = 0;
    let mut k: usize = 0;
    loop
        invariant
            s == chars@,
            s == source@,
            n == chars.len() < usize::MAX,
            ls == lines(s),
            k <= i <= n,
            k == out.len(),
            ls.subrange(k as int, ls.len() as int) == lines_from(s, i as int),
            k < ls.len(),
            match parse_lines(ls, k as int) {
                Ok(rest) => parse_lines(ls, 0) == Ok::<Seq<Seq<Node>>, ErrorView>(
                    ast_view(out@) + rest,
                ),
                Err(e) => parse_lines(ls, 0) == Err::<Seq<Seq<Node>>, ErrorView>(e),
            },
        decreases n - i,
    {
        let mut e: usize = i;
        while e < n && chars[e] != '\n'
            invariant
                s == chars@,
                n == chars.len(),
                i <= e <= n,
                line_end(s, i as int) == line_end(s, e as int),
            decreases n - e,
        {
            e = e + 1;
        }
        proof {
            let rem = lines_from(s, i as int);
            assert(rem[0] == s.subrange(i as int, e as int));
            assert(ls[k as int] == rem[0]);
        }
        let text = source.substring_char(i, e);
        match parse_line(text, k + 1) {
            Err(err) => {
                return Err(err);
            },
            Ok(found) => {
                let ghost nodes = items_view(found@);
                let ghost old_out = out@;
                out.push(found);
                proof {
                    assert(ast_view(out@) =~= ast_view(old_out).push(nodes));
                    match parse_lines(ls, k + 1) {
                        Ok(rest) => {
                            assert(ast_view(old_out) + (seq![nodes] + rest)
                                =~= ast_view(out@) + rest);
                        },
                        Err(_) => {},
                    }
                }
                if e < n {
                    proof {
                        let rem = lines_from(s, i as int);
                        assert(rem == seq![s.subrange(i as int, e as int)] + lines_from(s, e + 1));
                        assert(ls.subrange(k + 1, ls.len() as int) =~= rem.subrange(1, rem.len() as int));
                        assert(rem.subrange(1, rem.len() as int) =~= lines_from(s, e + 1));
                    }
                    i = e + 1;
                    k = k + 1;
                } else {
                    proof {
                        assert(line_end(s, e as int) == e);
                        assert(lines_from(s, i as int).len() == 1);
                        assert(ls.subrange(k as int, ls.len() as int).len() == 1);
                        assert(ls.len() == k + 1);
                        assert(ast_view(out@) + Seq::<Seq<Node>>::empty() =~= ast_view(out@));
                    }
                    return Ok(out);
                }
            },
        }
    }
}

} // verus!
