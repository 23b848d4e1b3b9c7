//! What is read from a `Cookie` header is what was put into it.
//!
//! A client sends its cookies back as `name=value` pairs joined by `"; "`.
//! As long as names and values are plain text, reading a name from such a
//! header gives the value of the first pair with that name.

use vstd::prelude::*;
use crate::cookies::{
    cookie_value,
    first_value,
    is_whitespace,
    lemma_next_equals,
    lemma_next_separator,
    next_equals,
    next_separator,
    pair_of,
    pieces,
    pieces_from,
    separator_at,
    trim,
    trim_end,
    trim_start,
    value_for,
};

verus! {

/// Text without white space and without `;`.
pub open spec fn is_plain(text: Seq<char>) -> bool {
    forall|i: int| 0 <= i < text.len() ==> !is_whitespace(#[trigger] text[i]) && text[i] != ';'
}

/// Plain text without `=`.
pub open spec fn is_name(text: Seq<char>) -> bool {
    is_plain(text) && forall|i: int| 0 <= i < text.len() ==> #[trigger] text[i] != '='
}

/// A pair as it stands in a header: the name, `=`, the value.
pub open spec fn pair_text(pair: (Seq<char>, Seq<char>)) -> Seq<char> {
    pair.0 + seq!['='] + pair.1
}

/// The header that carries the pairs in order, joined by `"; "`.
pub open spec fn header_of(pairs: Seq<(Seq<char>, Seq<char>)>) -> Seq<char>
    decreases pairs.len(),
{
    if pairs.len() == 0 {
        Seq::empty()
    } else if pairs.len() == 1 {
        pair_text(pairs[0])
    } else {
        pair_text(pairs[0]) + seq![';', ' '] + header_of(pairs.drop_first())
    }
}

/// The value of the first pair named `key`.
pub open spec fn lookup(pairs: Seq<(Seq<char>, Seq<char>)>, key: Seq<char>) -> Option<Seq<char>>
    decreases pairs.len(),
{
    if pairs.len() == 0 {
        None
    } else if pairs[0].0 == key {
        Some(pairs[0].1)
    } else {
        lookup(pairs.drop_first(), key)
    }
}

/// Every name is a name and every value is plain.
pub open spec fn all_plain(pairs: Seq<(Seq<char>, Seq<char>)>) -> bool {
    forall|i: int| 0 <= i < pairs.len() ==> is_name((#[trigger] pairs[i]).0) && is_plain(pairs[i].1)
}

/// Trimming leaves plain text as it is.
proof fn lemma_trim_plain(text: Seq<char>)
    requires
        is_plain(text),
    ensures
        trim(text) == text,
{
    if text.len() > 0 {
        assert(!is_whitespace(text[0]));
        assert(!is_whitespace(text[text.len() - 1]));
    }
    assert(trim_start(text) == text);
    assert(trim_end(text) == text);
}

/// A pair of a name and a plain value reads as that name and that value, and
/// holds no `;`.
proof fn lemma_pair_reads_back(name: Seq<char>, value: Seq<char>)
    requires
        is_name(name),
        is_plain(value),
    ensures
        pair_of(pair_text((name, value))) == Some((name, value)),
        forall|i: int|
            0 <= i < pair_text((name, value)).len() ==> #[trigger] pair_text((name, value))[i]
                != ';',
{
    let piece = pair_text((name, value));
    assert forall|i: int| 0 <= i < piece.len() implies #[trigger] piece[i] != ';' by {
        if i < name.len() {
            assert(piece[i] == name[i]);
        } else if i > name.len() {
            assert(piece[i] == value[i - name.len() - 1]);
        }
    }
    lemma_next_equals(piece, 0);
    let at = next_equals(piece, 0);
    assert(piece[name.len() as int] == '=');
    assert(at == name.len()) by {
        if at < name.len() {
            assert(piece[at] == name[at]);
        }
    }
    assert(piece.take(at) == name);
    assert(piece.skip(at + 1) == value);
    lemma_trim_plain(name);
    lemma_trim_plain(value);
}

/// Where a separator begins behind a prefix depends on what follows the
/// prefix alone.
proof fn lemma_next_separator_shift(prefix: Seq<char>, text: Seq<char>, from: int)
    requires
        0 <= from <= text.len(),
    ensures
        next_separator(prefix + text, prefix.len() + from) == prefix.len() + next_separator(
            text,
            from,
        ),
    decreases text.len() - from,
{
    let whole = prefix + text;
    if from < text.len() {
        assert(whole[prefix.len() + from] == text[from]);
        if from + 1 < text.len() {
            assert(whole[prefix.len() + from + 1] == text[from + 1]);
        }
        assert(separator_at(whole, prefix.len() + from) == separator_at(text, from));
        if !separator_at(text, from) {
            lemma_next_separator_shift(prefix, text, from + 1);
        }
    }
}

/// The pieces behind a prefix are the pieces of what follows the prefix.
proof fn lemma_pieces_shift(prefix: Seq<char>, text: Seq<char>, from: int)
    requires
        0 <= from <= text.len(),
    ensures
        pieces_from(prefix + text, prefix.len() + from) == pieces_from(text, from),
    decreases text.len() - from,
{
    let whole = prefix + text;
    lemma_next_separator_shift(prefix, text, from);
    lemma_next_separator(text, from);
    let cut = next_separator(text, from);
    if cut + 2 <= text.len() {
        lemma_pieces_shift(prefix, text, cut + 2);
        assert(whole.subrange(prefix.len() + from, prefix.len() + cut) == text.subrange(from, cut));
    } else {
        assert(whole.subrange(prefix.len() + from, whole.len() as int) == text.subrange(
            from,
            text.len() as int,
        ));
    }
}

/// Reading `key` from the header that carries the pairs gives the value of
/// the first pair named `key`, and nothing where no pair has that name, as
/// long as the names hold no white space, `;` or `=` and the values no white
/// space or `;`.
pub proof fn lemma_cookies_read_back(pairs: Seq<(Seq<char>, Seq<char>)>, key: Seq<char>)
    requires
        all_plain(pairs),
    ensures
        cookie_value(header_of(pairs), key) == lookup(pairs, key),
    decreases pairs.len(),
{
    let header = header_of(pairs);
    if pairs.len() == 0 {
        assert(header.subrange(0, header.len() as int) == header);
        assert(pieces(header) == seq![header]);
        assert(pair_of(header) is None);
        assert(first_value(pieces(header).drop_first(), key) is None);
    } else {
        let first = pair_text(pairs[0]);
        lemma_pair_reads_back(pairs[0].0, pairs[0].1);
        assert(value_for(first, key) == if pairs[0].0 == key {
            Some(pairs[0].1)
        } else {
            None
        });
        if pairs.len() == 1 {
            lemma_next_separator(header, 0);
            assert(header == first);
            assert(next_separator(header, 0) == header.len());
            assert(header.subrange(0, header.len() as int) == header);
            assert(pieces(header) == seq![header]);
            assert(first_value(pieces(header).drop_first(), key) is None);
            assert(lookup(pairs.drop_first(), key) is None);
        } else {
            let rest = pairs.drop_first();
            let tail = header_of(rest);
            let prefix = first + seq![';', ' '];
            assert(header == prefix + tail);
            assert(all_plain(rest)) by {
                assert forall|i: int| 0 <= i < rest.len() implies is_name((#[trigger] rest[i]).0)
                    && is_plain(rest[i].1) by {
                    assert(rest[i] == pairs[i + 1]);
                }
            }
            lemma_cookies_read_back(rest, key);
            lemma_next_separator(header, 0);
            let cut = next_separator(header, 0);
            assert(separator_at(header, first.len() as int));
            assert(cut == first.len()) by {
                if cut < first.len() {
                    assert(header[cut] == first[cut]);
                }
            }
            assert(header.subrange(0, cut) == first);
            lemma_pieces_shift(prefix, tail, 0);
            assert(pieces(header) == seq![first] + pieces(tail));
            assert(pieces(header).first() == first);
            assert(pieces(header).drop_first() == pieces(tail));
        }
    }
}

} // verus!
