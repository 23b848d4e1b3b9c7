//! Text as sequences of characters: what the parsers of this crate are
//! built from.

use vstd::prelude::*;

verus! {

/// `needle` stands in `haystack` from index `at` on.
pub open spec fn occurs_at(haystack: Seq<char>, needle: Seq<char>, at: int) -> bool {
    &&& 0 <= at
    &&& at + needle.len() <= haystack.len()
    &&& haystack.subrange(at, at + needle.len()) == needle
}

/// `needle` stands somewhere in `haystack`.
pub open spec fn contains_text(haystack: Seq<char>, needle: Seq<char>) -> bool {
    exists|at: int| occurs_at(haystack, needle, at)
}

/// The characters of a string, in order.
pub(crate) fn chars_of(text: &str) -> (chars: Vec<char>)
    ensures
        chars@ == text@,
{
    let mut chars: Vec<char> = Vec::new();
    for c in it: text.chars()
        invariant
            chars@ == it.seq().take(it.index() as int),
    {
        chars.push(c);
    }
    chars
}

/// Whether `text[lo..hi]` is the text `wanted`.
pub(crate) fn equals_range(text: &Vec<char>, lo: usize, hi: usize, wanted: &Vec<char>) -> (same: bool)
    requires
        lo <= hi <= text.len(),
    ensures
        same == (text@.subrange(lo as int, hi as int) == wanted@),
{
    if hi - lo != wanted.len() {
        return false;
    }
    let ghost range = text@.subrange(lo as int, hi as int);
    let mut i: usize = 0;
    while i < wanted.len()
        invariant
            lo <= hi <= text.len(),
            hi - lo == wanted.len(),
            i <= wanted.len(),
            range == text@.subrange(lo as int, hi as int),
            forall|j: int| 0 <= j < i ==> range[j] == wanted@[j],
        decreases wanted.len() - i,
    {
        if text[lo + i] != wanted[i] {
            assert(range[i as int] != wanted@[i as int]);
            return false;
        }
        i += 1;
    }
    assert(range =~= wanted@);
    true
}

/// Whether `needle` stands somewhere in `haystack`.
pub fn contains(haystack: &str, needle: &str) -> (found: bool)
    ensures
        found == contains_text(haystack@, needle@),
{
    let hay = chars_of(haystack);
    let wanted = chars_of(needle);
    if wanted.len() > hay.len() {
        return false;
    }
    let last: usize = hay.len() - wanted.len();
    let mut at: usize = 0;
    loop
        invariant
            hay@ == haystack@,
            wanted@ == needle@,
            wanted.len() <= hay.len(),
            last == hay.len() - wanted.len(),
            at <= last,
            forall|i: int| 0 <= i < at ==> !occurs_at(hay@, wanted@, i),
        decreases last - at,
    {
        if equals_range(&hay, at, at + wanted.len(), &wanted) {
            assert(occurs_at(hay@, wanted@, at as int));
            return true;
        }
        if at == last {
            return false;
        }
        at += 1;
    }
}

} // verus!
