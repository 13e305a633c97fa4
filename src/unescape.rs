//! Turning the escaped text of a plain-text run back into the text it means.
use vstd::prelude::*;

use crate::parser::chars_of;

verus! {

/// `s[start..end]` as a piece, or no piece where that is empty.
pub open spec fn piece(s: Seq<char>, start: int, end: int) -> Seq<Seq<char>> {
    if start < end {
        seq![s.subrange(start, end)]
    } else {
        Seq::empty()
    }
}

/// The pieces of `s` from position `i` on, where the current piece began at
/// `start` and `escaping` says whether the character before `i` was a `\`
/// that escapes the next one. Each `\` that is not itself escaped ends a
/// piece and is dropped; the character after it begins the next one.
pub open spec fn pieces_from(s: Seq<char>, i: int, start: int, escaping: bool) -> Seq<Seq<char>>
    decreases s.len() - i,
{
    if i < 0 || i >= s.len() {
        piece(s, start, s.len() as int)
    } else if !escaping && s[i] == '\\' {
        piece(s, start, i) + pieces_from(s, i + 1, i + 1, true)
    } else {
        pieces_from(s, i + 1, start, false)
    }
}

/// The unescaped pieces of `s`, in order: none of them is empty.
pub open spec fn unescaped_pieces(s: Seq<char>) -> Seq<Seq<char>> {
    pieces_from(s, 0, 0, false)
}

/// The pieces of an escaped text, handed out one at a time.
#[derive(Debug)]
pub struct Unescape<'a> {
    escaped: &'a str,
    chars: Vec<char>,
    pos: usize,
    start: usize,
    escaping: bool,
}

impl<'a> Unescape<'a> {
    /// The state is consistent with the text.
    pub closed spec fn wf(&self) -> bool {
        &&& self.chars@ == self.escaped@
        &&& self.start <= self.pos <= self.chars.len()
    }

    /// The pieces that are still to come.
    pub closed spec fn rest(&self) -> Seq<Seq<char>> {
        pieces_from(self.chars@, self.pos as int, self.start as int, self.escaping)
    }

    /// The next piece, if there is one left.
    pub fn next(&mut self) -> (r: Option<&'a str>)
        requires
            old(self).wf(),
        ensures
            final(self).wf(),
            old(self).rest().len() == 0 ==> r is None && final(self).rest().len() == 0,
            old(self).rest().len() > 0 ==> (r matches Some(x) && x@ == old(self).rest()[0]
                && final(self).rest() == old(self).rest().drop_first()),
    {
        let n = self.chars.len();
        while self.pos < n
            invariant
                self.wf(),
                n == self.chars.len(),
                self.escaped == old(self).escaped,
                self.chars@ == old(self).chars@,
                self.rest() == old(self).rest(),
            decreases n - self.pos,
        {
            let i = self.pos;
            if !self.escaping && self.chars[i] == '\\' {
                let start = self.start;
                self.escaping = true;
                self.start = i + 1;
                self.pos = i + 1;
                if start < i {
                    let r = self.escaped.substring_char(start, i);
                    proof {
                        let s = self.chars@;
                        assert(old(self).rest() == seq![s.subrange(start as int, i as int)]
                            + self.rest());
                        assert(old(self).rest().drop_first() =~= self.rest());
                    }
                    return Some(r);
                } else {
                    proof {
                        assert(self.rest() =~= Seq::<Seq<char>>::empty() + self.rest());
                    }
                }
            } else {
                self.escaping = false;
                self.pos = i + 1;
            }
        }
        let start = self.start;
        self.start = n;
        if start < n {
            let r = self.escaped.substring_char(start, n);
            proof {
                assert(old(self).rest().drop_first() =~= self.rest());
            }
            Some(r)
        } else {
            None
        }
    }
}

/// The pieces of an escaped plain-text run: the text is cut at each `\`
/// that is not itself escaped, that `\` is dropped, and empty pieces are
/// left out. `1\<2` gives `1` and `<2`; a final lone `\` gives nothing.
pub fn unescape<'a>(escaped: &'a str) -> (r: Unescape<'a>)
    ensures
        r.wf(),
        r.rest() == unescaped_pieces(escaped@),
{
    Unescape { escaped, chars: chars_of(escaped), pos: 0, start: 0, escaping: false }
}

} // verus!
