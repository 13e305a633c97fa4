//! Small verified operations on text.
use vstd::prelude::*;

use crate::parser::chars_of;

verus! {

/// Whether two texts hold the same characters.
pub fn same_text(a: &str, b: &str) -> (r: bool)
    ensures
        r == (a@ == b@),
{
    let x = chars_of(a);
    let y = chars_of(b);
    if x.len() != y.len() {
        return false;
    }
    let mut i: usize = 0;
    while i < x.len()
        invariant
            x@ == a@,
            y@ == b@,
            x.len() == y.len(),
            i <= x.len(),
            forall|j: int| 0 <= j < i ==> x@[j] == y@[j],
        decreases x.len() - i,
    {
        if x[i] != y[i] {
            return false;
        }
        i = i + 1;
    }
    proof {
        assert(x@ =~= y@);
    }
    true
}

/// The position of the first `:` in `s` from `i` on, or the length of `s`.
pub open spec fn colon_from(s: Seq<char>, i: int) -> int
    decreases s.len() - i,
{
    if 0 <= i < s.len() && s[i] != ':' {
        colon_from(s, i + 1)
    } else {
        i
    }
}

/// A tag split into its type and value: `fg:red` gives `fg` and `red`; a
/// tag without `:` has an empty type; a tag with two `:` has no split.
pub open spec fn tag_parts(s: Seq<char>) -> Option<(Seq<char>, Seq<char>)> {
    let k = colon_from(s, 0);
    if k >= s.len() {
        Some((Seq::empty(), s))
    } else if colon_from(s, k + 1) < s.len() {
        None
    } else {
        Some((s.subrange(0, k), s.subrange(k + 1, s.len() as int)))
    }
}

/// The first `:` of `chars` from `i` on, or its length.
fn find_colon(chars: &Vec<char>, i: usize) -> (r: usize)
    requires
        i <= chars.len(),
    ensures
        r == colon_from(chars@, i as int),
        i <= r <= chars.len(),
{
    let mut k: usize = i;
    while k < chars.len() && chars[k] != ':'
        invariant
            i <= k <= chars.len(),
            colon_from(chars@, i as int) == colon_from(chars@, k as int),
        decreases chars.len() - k,
    {
        k = k + 1;
    }
    k
}

/// Splits a tag into its type and value, as `tag_parts` says.
pub fn split_tag<'a>(s: &'a str) -> (r: Option<(&'a str, &'a str)>)
    ensures
        match r {
            Some((ty, value)) => tag_parts(s@) == Some((ty@, value@)),
            None => tag_parts(s@) is None,
        },
{
    let chars = chars_of(s);
    let n = chars.len();
    let k = find_colon(&chars, 0);
    if k >= n {
        let ty = s.substring_char(0, 0);
        proof {
            assert(ty@ =~= Seq::<char>::empty());
        }
        Some((ty, s))
    } else if find_colon(&chars, k + 1) < n {
        None
    } else {
        Some((s.substring_char(0, k), s.substring_char(k + 1, n)))
    }
}

} // verus!
