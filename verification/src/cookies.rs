//! Session transport: tokens travel as cookies.
//!
//! A passport is written as two `Set-Cookie` values, `act` for the access
//! token and `rft` for the refresh token. A token is read back from the
//! `Cookie` header of a request: the header is cut at each `"; "`, each piece
//! is cut at its first `=`, both halves are trimmed, and the first piece
//! whose name is the wanted one gives the value.

use vstd::prelude::*;
use crate::text::{chars_of, equals_range};

verus! {

/// Name of the cookie that carries the access token.
pub const ACCESS_COOKIE: &'static str = "act";

/// Name of the cookie that carries the refresh token.
pub const REFRESH_COOKIE: &'static str = "rft";

/// The `Set-Cookie` value that carries `value` under `name`: for every path,
/// hidden from scripts, sent along on same-site requests and on top-level
/// navigation, kept by the client for fourteen days.
pub open spec fn cookie_text(name: Seq<char>, value: Seq<char>) -> Seq<char> {
    name + "="@ + value + "; Path=/; HttpOnly; SameSite=Lax; Max-Age=1209600"@
}

/// Writes the `Set-Cookie` value that carries `value` under `name`.
pub fn session_cookie(name: &str, value: &str) -> (text: String)
    ensures
        text@ == cookie_text(name@, value@),
{
    let mut text = String::from_str(name);
    text.append("=");
    text.append(value);
    text.append("; Path=/; HttpOnly; SameSite=Lax; Max-Age=1209600");
    text
}

/// White space as Unicode defines it (the property `White_Space`).
pub open spec fn is_whitespace(c: char) -> bool {
    ||| '\u{9}' <= c <= '\u{d}'
    ||| c == ' '
    ||| c == '\u{85}'
    ||| c == '\u{a0}'
    ||| c == '\u{1680}'
    ||| '\u{2000}' <= c <= '\u{200a}'
    ||| c == '\u{2028}'
    ||| c == '\u{2029}'
    ||| c == '\u{202f}'
    ||| c == '\u{205f}'
    ||| c == '\u{3000}'
}

/// `s` without the white space it begins with.
pub open spec fn trim_start(s: Seq<char>) -> Seq<char>
    decreases s.len(),
{
    if s.len() > 0 && is_whitespace(s.first()) {
        trim_start(s.drop_first())
    } else {
        s
    }
}

/// `s` without the white space it ends with.
pub open spec fn trim_end(s: Seq<char>) -> Seq<char>
    decreases s.len(),
{
    if s.len() > 0 && is_whitespace(s.last()) {
        trim_end(s.drop_last())
    } else {
        s
    }
}

/// `s` without the white space at either end.
pub open spec fn trim(s: Seq<char>) -> Seq<char> {
    trim_end(trim_start(s))
}

/// A separator `"; "` begins at index `i` of `s`.
pub open spec fn separator_at(s: Seq<char>, i: int) -> bool {
    0 <= i && i + 1 < s.len() && s[i] == ';' && s[i + 1] == ' '
}

/// The first index at or after `from` where a separator begins, or the
/// length of `s` where there is none.
pub open spec fn next_separator(s: Seq<char>, from: int) -> int
    decreases s.len() - from,
{
    if from < 0 || from >= s.len() {
        s.len() as int
    } else if separator_at(s, from) {
        from
    } else {
        next_separator(s, from + 1)
    }
}

/// The first index at or after `from` where `s` holds `=`, or the length of
/// `s` where it holds none.
pub open spec fn next_equals(s: Seq<char>, from: int) -> int
    decreases s.len() - from,
{
    if from < 0 || from >= s.len() {
        s.len() as int
    } else if s[from] == '=' {
        from
    } else {
        next_equals(s, from + 1)
    }
}

/// The pieces that the separators cut out of `s` from index `start` on, in
/// order. Separators are found from left to right and do not overlap.
pub open spec fn pieces_from(s: Seq<char>, start: int) -> Seq<Seq<char>>
    decreases s.len() - start,
{
    let cut = next_separator(s, start);
    if 0 <= start <= cut && cut + 2 <= s.len() {
        seq![s.subrange(start, cut)] + pieces_from(s, cut + 2)
    } else {
        seq![s.subrange(start, s.len() as int)]
    }
}

/// The pieces that the separators cut out of `s`.
pub open spec fn pieces(s: Seq<char>) -> Seq<Seq<char>> {
    pieces_from(s, 0)
}

/// The name and the value in a piece: what stands before its first `=` and
/// what stands after it, both trimmed. A piece without `=` holds no pair.
pub open spec fn pair_of(piece: Seq<char>) -> Option<(Seq<char>, Seq<char>)> {
    let at = next_equals(piece, 0);
    if at < piece.len() {
        Some((trim(piece.take(at)), trim(piece.skip(at + 1))))
    } else {
        None
    }
}

/// The value that a piece gives for `key`, if its name is `key`.
pub open spec fn value_for(piece: Seq<char>, key: Seq<char>) -> Option<Seq<char>> {
    match pair_of(piece) {
        Some((name, value)) => if name == key {
            Some(value)
        } else {
            None
        },
        None => None,
    }
}

/// The value of the first of `pieces` that gives one for `key`.
pub open spec fn first_value(pieces: Seq<Seq<char>>, key: Seq<char>) -> Option<Seq<char>>
    decreases pieces.len(),
{
    if pieces.len() == 0 {
        None
    } else {
        match value_for(pieces.first(), key) {
            Some(value) => Some(value),
            None => first_value(pieces.drop_first(), key),
        }
    }
}

/// The value of the cookie `key` in a `Cookie` header.
pub open spec fn cookie_value(header: Seq<char>, key: Seq<char>) -> Option<Seq<char>> {
    first_value(pieces(header), key)
}

/// The mathematical value of an optional string.
pub open spec fn text_view(text: Option<String>) -> Option<Seq<char>> {
    match text {
        Some(s) => Some(s@),
        None => None,
    }
}

/// The next separator lies between `from` and the end, a separator begins
/// there unless it is the end, and none begins before it.
pub proof fn lemma_next_separator(s: Seq<char>, from: int)
    requires
        0 <= from <= s.len(),
    ensures
        from <= next_separator(s, from) <= s.len(),
        next_separator(s, from) < s.len() ==> separator_at(s, next_separator(s, from)),
        forall|i: int| from <= i < next_separator(s, from) ==> !separator_at(s, i),
    decreases s.len() - from,
{
    if from < s.len() && !separator_at(s, from) {
        lemma_next_separator(s, from + 1);
    }
}

/// The next `=` lies between `from` and the end, `=` stands there unless it
/// is the end, and none stands before it.
pub proof fn lemma_next_equals(s: Seq<char>, from: int)
    requires
        0 <= from <= s.len(),
    ensures
        from <= next_equals(s, from) <= s.len(),
        next_equals(s, from) < s.len() ==> s[next_equals(s, from)] == '=',
        forall|i: int| from <= i < next_equals(s, from) ==> s[i] != '=',
    decreases s.len() - from,
{
    if from < s.len() && s[from] != '=' {
        lemma_next_equals(s, from + 1);
    }
}

/// Whether `c` is white space.
pub fn char_is_whitespace(c: char) -> (yes: bool)
    ensures
        yes == is_whitespace(c),
{
    ('\u{9}' <= c && c <= '\u{d}') || c == ' ' || c == '\u{85}' || c == '\u{a0}' || c == '\u{1680}'
        || ('\u{2000}' <= c && c <= '\u{200a}') || c == '\u{2028}' || c == '\u{2029}' || c
        == '\u{202f}' || c == '\u{205f}' || c == '\u{3000}'
}

/// Finds the next separator at or after `from`.
fn find_separator(text: &Vec<char>, from: usize) -> (at: usize)
    requires
        from <= text.len(),
    ensures
        at == next_separator(text@, from as int),
        from <= at <= text.len(),
        at < text.len() ==> at + 2 <= text.len(),
{
    let n: usize = text.len();
    let mut i: usize = from;
    while i < n
        invariant
            n == text.len(),
            from <= i <= n,
            next_separator(text@, from as int) == next_separator(text@, i as int),
        decreases n - i,
    {
        if i + 1 < n && text[i] == ';' && text[i + 1] == ' ' {
            return i;
        }
        i += 1;
    }
    n
}

/// Finds the first `=` in `text[lo..hi]`.
fn find_equals(text: &Vec<char>, lo: usize, hi: usize) -> (at: usize)
    requires
        lo <= hi <= text.len(),
    ensures
        lo <= at <= hi,
        at - lo == next_equals(text@.subrange(lo as int, hi as int), 0),
{
    let ghost piece = text@.subrange(lo as int, hi as int);
    let mut i: usize = lo;
    while i < hi
        invariant
            lo <= i <= hi <= text.len(),
            piece == text@.subrange(lo as int, hi as int),
            next_equals(piece, 0) == next_equals(piece, i - lo),
        decreases hi - i,
    {
        if text[i] == '=' {
            return i;
        }
        i += 1;
    }
    hi
}

/// Trims `text[lo..hi]`: the bounds of what is left of it.
fn trim_bounds(text: &Vec<char>, lo: usize, hi: usize) -> (bounds: (usize, usize))
    requires
        lo <= hi <= text.len(),
    ensures
        lo <= bounds.0 <= bounds.1 <= hi,
        text@.subrange(bounds.0 as int, bounds.1 as int) == trim(
            text@.subrange(lo as int, hi as int),
        ),
{
    let mut first: usize = lo;
    while first < hi && char_is_whitespace(text[first])
        invariant
            lo <= first <= hi <= text.len(),
            trim_start(text@.subrange(lo as int, hi as int)) == trim_start(
                text@.subrange(first as int, hi as int),
            ),
        decreases hi - first,
    {
        assert(text@.subrange(first as int, hi as int).drop_first() == text@.subrange(
            first + 1,
            hi as int,
        ));
        first += 1;
    }
    let mut last: usize = hi;
    while first < last && char_is_whitespace(text[last - 1])
        invariant
            first <= last <= hi <= text.len(),
            trim_end(text@.subrange(first as int, hi as int)) == trim_end(
                text@.subrange(first as int, last as int),
            ),
        decreases last - first,
    {
        assert(text@.subrange(first as int, last as int).drop_last() == text@.subrange(
            first as int,
            last - 1,
        ));
        last -= 1;
    }
    (first, last)
}

/// Reads the value of the cookie `key` from a `Cookie` header.
///
/// The header is cut at each `"; "`. A piece counts where it holds `=` and
/// what stands before the first `=`, trimmed, is `key`; the value is what
/// stands after it, trimmed. The first piece that counts decides. Without
/// one there is no value.
pub fn get_cookie_value(cookie_header: &str, key: &str) -> (value: Option<String>)
    ensures
        text_view(value) == cookie_value(cookie_header@, key@),
{
    let header = chars_of(cookie_header);
    let wanted = chars_of(key);
    let n: usize = header.len();
    let mut start: usize = 0;
    loop
        invariant
            header@ == cookie_header@,
            wanted@ == key@,
            n == header.len(),
            start <= n,
            cookie_value(header@, wanted@) == first_value(
                pieces_from(header@, start as int),
                wanted@,
            ),
        decreases n - start,
    {
        let end: usize = find_separator(&header, start);
        let ghost piece = header@.subrange(start as int, end as int);
        let ghost rest = if end < n {
            pieces_from(header@, end + 2)
        } else {
            Seq::<Seq<char>>::empty()
        };
        proof {
            assert(end == n ==> piece == header@.subrange(start as int, header@.len() as int));
            assert(pieces_from(header@, start as int) == seq![piece] + rest);
            assert((seq![piece] + rest).first() == piece);
            assert((seq![piece] + rest).drop_first() == rest);
        }
        let at: usize = find_equals(&header, start, end);
        if at < end {
            let name = trim_bounds(&header, start, at);
            proof {
                assert(piece.take(at - start) == header@.subrange(start as int, at as int));
                assert(piece.skip(at - start + 1) == header@.subrange(at + 1, end as int));
            }
            if equals_range(&header, name.0, name.1, &wanted) {
                let value = trim_bounds(&header, at + 1, end);
                let text = cookie_header.substring_char(value.0, value.1);
                return Some(String::from_str(text));
            }
        }
        assert(value_for(piece, wanted@) is None);
        if end >= n {
            assert(first_value(rest, wanted@) is None);
            return None;
        }
        start = end + 2;
    }
}

} // verus!
