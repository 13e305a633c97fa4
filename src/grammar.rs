//! The markup grammar, stated over the characters of one line.
//!
//! ```text
//! line       = item*
//! item       = element | plain_text
//! plain_text = (normal_char | '\' escapable)+
//! element    = '<' tag_list ' ' item* '>'
//! tag_list   = tag_name (',' tag_name)*
//! tag_name   = (alnum | ':' | '+' | '-')+
//! ```
//!
//! Positions are character offsets within the line. An element whose header
//! `'<' tag_list ' '` matched and which is not closed on its line is a hard
//! failure, reported at its `<`; any other failure lets the parser try the
//! next alternative.
use vstd::prelude::*;

use crate::error::{ErrorKind, ErrorView};
use crate::item::Node;
use crate::span::{span_of, SpanView};

verus! {

/// `<`, `>` and `\`: the characters that plain text must escape.
pub open spec fn is_special(c: char) -> bool {
    c == '<' || c == '>' || c == '\\'
}

/// The characters of a tag name.
pub open spec fn is_tag_char(c: char) -> bool {
    ('a' <= c && c <= 'z') || ('A' <= c && c <= 'Z') || ('0' <= c && c <= '9') || c == ':' || c
        == '+' || c == '-'
}

/// How a scan of plain text ended.
pub enum Stop {
    /// At the end of the line, or before an unescaped `<` or `>`.
    Clean,
    /// At a character that a `\` cannot escape.
    Unescapable,
    /// At a `\` that is the last character of the line.
    Trailing,
}

/// Scans plain text from `i`: the position where the scan ends, and why.
pub open spec fn text_scan(s: Seq<char>, i: int) -> (int, Stop)
    decreases s.len() - i,
{
    if i < 0 || i >= s.len() {
        (i, Stop::Clean)
    } else if !is_special(s[i]) {
        text_scan(s, i + 1)
    } else if s[i] == '\\' {
        if i + 1 >= s.len() {
            (i, Stop::Trailing)
        } else if is_special(s[i + 1]) {
            text_scan(s, i + 2)
        } else {
            (i + 1, Stop::Unescapable)
        }
    } else {
        (i, Stop::Clean)
    }
}

/// The outcome of parsing one item at a position.
pub enum Parsed {
    /// The node, and the position after it.
    Done(Node, int),
    /// No match here; the error says why.
    Soft(ErrorKind, int),
    /// An element was opened here and not closed.
    Unclosed,
}

/// Plain text from `p`: a non-empty run of normal characters and escape pairs.
pub open spec fn plain_text(s: Seq<char>, p: int, line: int) -> Parsed {
    let (i, stop) = text_scan(s, p);
    match stop {
        Stop::Clean => if i > p {
            Parsed::Done(Node::Text(span_of(s, p, i, line)), i)
        } else {
            Parsed::Soft(ErrorKind::UnescapedChar, p)
        },
        Stop::Unescapable => Parsed::Soft(ErrorKind::UnescapableChar, i),
        Stop::Trailing => Parsed::Soft(
            ErrorKind::UnescapedChar,
            if 0 <= p < s.len() && is_special(s[p]) {
                p
            } else {
                i
            },
        ),
    }
}

/// The end of the run of tag characters that starts at `a`.
pub open spec fn tag_end(s: Seq<char>, a: int) -> int
    decreases s.len() - a,
{
    if 0 <= a < s.len() && is_tag_char(s[a]) {
        tag_end(s, a + 1)
    } else {
        a
    }
}

/// The tag names that follow a first one which ends at `i`: each is a comma
/// and a non-empty name. Returns them and the position after the last.
pub open spec fn more_tags(s: Seq<char>, i: int, line: int) -> (Seq<SpanView>, int)
    decreases s.len() - i,
{
    if 0 <= i < s.len() && s[i] == ',' && i + 1 < tag_end(s, i + 1) <= s.len() {
        let (rest, end) = more_tags(s, tag_end(s, i + 1), line);
        (seq![span_of(s, i + 1, tag_end(s, i + 1), line)] + rest, end)
    } else {
        (Seq::empty(), i)
    }
}

/// The tag list that starts at `a`, and the position after it.
pub open spec fn tag_list(s: Seq<char>, a: int, line: int) -> Option<(Seq<SpanView>, int)> {
    let e = tag_end(s, a);
    if e > a {
        let (rest, end) = more_tags(s, e, line);
        Some((seq![span_of(s, a, e, line)] + rest, end))
    } else {
        None
    }
}

/// The outcome of parsing the items inside an element.
pub enum Children {
    /// The items, and the position where the first one that does not match starts.
    Found(Seq<Node>, int),
    /// One of them is an element that is not closed.
    Unclosed,
}

/// An element at `p`: `<`, a tag list, a space, items and `>`.
pub open spec fn element(s: Seq<char>, p: int, line: int) -> Parsed
    decreases s.len() - p, 0int,
{
    if 0 <= p < s.len() && s[p] == '<' {
        match tag_list(s, p + 1, line) {
            Some((tags, h)) => if p + 1 < h < s.len() && s[h] == ' ' {
                match items(s, h + 1, line) {
                    Children::Found(children, q) => if 0 <= q < s.len() && s[q] == '>' {
                        Parsed::Done(Node::Elem(tags, children), q + 1)
                    } else {
                        Parsed::Unclosed
                    },
                    Children::Unclosed => Parsed::Unclosed,
                }
            } else {
                Parsed::Soft(ErrorKind::UnescapedChar, p)
            },
            None => Parsed::Soft(ErrorKind::UnescapedChar, p),
        }
    } else {
        Parsed::Soft(ErrorKind::UnescapedChar, p)
    }
}

/// An item at `p`: an element, or else plain text.
pub open spec fn item(s: Seq<char>, p: int, line: int) -> Parsed
    decreases s.len() - p, 1int,
{
    match element(s, p, line) {
        Parsed::Soft(_, _) => plain_text(s, p, line),
        r => r,
    }
}

/// Items from `q` for as long as they match.
pub open spec fn items(s: Seq<char>, q: int, line: int) -> Children
    decreases s.len() - q, 2int,
{
    match item(s, q, line) {
        Parsed::Done(node, e) => if 0 <= q < e <= s.len() {
            match items(s, e, line) {
                Children::Found(rest, end) => Children::Found(seq![node] + rest, end),
                Children::Unclosed => Children::Unclosed,
            }
        } else {
            Children::Found(Seq::empty(), q)
        },
        Parsed::Soft(_, _) => Children::Found(Seq::empty(), q),
        Parsed::Unclosed => Children::Unclosed,
    }
}

/// A whole line from `p` on: its items, or the kind and position of the
/// first error.
pub open spec fn line_from(s: Seq<char>, p: int, line: int) -> Result<Seq<Node>, (ErrorKind, int)>
    decreases s.len() - p,
{
    if p >= s.len() {
        Ok(Seq::empty())
    } else {
        match item(s, p, line) {
            Parsed::Done(node, e) => if 0 <= p < e <= s.len() {
                match line_from(s, e, line) {
                    Ok(rest) => Ok(seq![node] + rest),
                    Err(err) => Err(err),
                }
            } else {
                Ok(Seq::empty())
            },
            Parsed::Soft(kind, at) => Err((kind, at)),
            Parsed::Unclosed => Err((ErrorKind::ElementNotClose, p)),
        }
    }
}

/// The items of a line, or its first error.
pub open spec fn line_result(s: Seq<char>, line: int) -> Result<Seq<Node>, ErrorView> {
    match line_from(s, 0, line) {
        Ok(nodes) => Ok(nodes),
        Err((kind, at)) => Err(ErrorView { kind, span: span_of(s, at, s.len() as int, line) }),
    }
}

/// The end of the line that starts at `i`: the position of the next `\n`,
/// or the end of the source.
pub open spec fn line_end(s: Seq<char>, i: int) -> int
    decreases s.len() - i,
{
    if 0 <= i < s.len() && s[i] != '\n' {
        line_end(s, i + 1)
    } else {
        i
    }
}

/// The lines of the source from position `i` on. Only `\n` separates lines,
/// so the last line may be empty.
pub open spec fn lines_from(s: Seq<char>, i: int) -> Seq<Seq<char>>
    decreases s.len() - i,
{
    let e = line_end(s, i);
    if 0 <= i <= e < s.len() {
        seq![s.subrange(i, e)] + lines_from(s, e + 1)
    } else {
        seq![s.subrange(i, s.len() as int)]
    }
}

/// The lines of a source: there is always at least one.
pub open spec fn lines(s: Seq<char>) -> Seq<Seq<char>> {
    lines_from(s, 0)
}

/// The items of lines `k..` (line `k` has number `k + 1`), or the first error.
pub open spec fn parse_lines(ls: Seq<Seq<char>>, k: int) -> Result<Seq<Seq<Node>>, ErrorView>
    decreases ls.len() - k,
{
    if k < 0 || k >= ls.len() {
        Ok(Seq::empty())
    } else {
        match line_result(ls[k], k + 1) {
            Err(e) => Err(e),
            Ok(nodes) => match parse_lines(ls, k + 1) {
                Ok(rest) => Ok(seq![nodes] + rest),
                Err(e) => Err(e),
            },
        }
    }
}

/// The syntax tree of a whole source, or its first error.
pub open spec fn source_result(s: Seq<char>) -> Result<Seq<Seq<Node>>, ErrorView> {
    parse_lines(lines(s), 0)
}

} // verus!
