//! Query-string rendering: an exact model of how key/value pairs are
//! percent-encoded and joined, and the trusted call that renders them.

use vstd::prelude::*;

use crate::dates::ascii_chars;
use crate::dates::digit_char;

verus! {

/// The characters the query-string encoder escapes: ASCII controls, space,
/// `"`, `<`, `>`, backtick, `&`, `?`, `=` and DEL.
pub open spec fn is_qs_escaped(c: char) -> bool {
    c <= '\u{1f}' || c == ' ' || c == '"' || c == '<' || c == '>' || c == '`' || c == '&' || c
        == '?' || c == '=' || c == '\u{7f}'
}

/// The uppercase hexadecimal digit for `d` in 0..16.
pub open spec fn hex_char(d: int) -> char {
    if d < 10 {
        digit_char(d)
    } else if d == 10 {
        'A'
    } else if d == 11 {
        'B'
    } else if d == 12 {
        'C'
    } else if d == 13 {
        'D'
    } else if d == 14 {
        'E'
    } else {
        'F'
    }
}

/// One ASCII character as the encoder emits it: itself, or `%XX`.
pub open spec fn qs_encode_char(c: char) -> Seq<char> {
    if is_qs_escaped(c) {
        seq!['%', hex_char(c as int / 16), hex_char(c as int % 16)]
    } else {
        seq![c]
    }
}

/// An ASCII string as the encoder emits it.
pub open spec fn qs_encode(s: Seq<char>) -> Seq<char>
    decreases s.len(),
{
    if s.len() == 0 {
        Seq::empty()
    } else {
        qs_encode_char(s[0]) + qs_encode(s.skip(1))
    }
}

/// Pairs rendered as `k=v`, joined by `&`, each side percent-encoded.
pub open spec fn qs_render_spec(pairs: Seq<(Seq<char>, Seq<char>)>) -> Seq<char>
    decreases pairs.len(),
{
    if pairs.len() == 0 {
        Seq::empty()
    } else if pairs.len() == 1 {
        qs_encode(pairs[0].0) + seq!['='] + qs_encode(pairs[0].1)
    } else {
        qs_render_spec(pairs.drop_last()) + seq!['&'] + qs_encode(pairs.last().0) + seq!['=']
            + qs_encode(pairs.last().1)
    }
}

/// The views of a list of owned pairs.
pub open spec fn pairs_view(pairs: Seq<(String, String)>) -> Seq<(Seq<char>, Seq<char>)> {
    pairs.map_values(|p: (String, String)| (p.0@, p.1@))
}

/// Every key and value of the list is ASCII.
pub open spec fn ascii_pairs(pairs: Seq<(Seq<char>, Seq<char>)>) -> bool {
    forall|i: int|
        0 <= i < pairs.len() ==> ascii_chars(#[trigger] pairs[i].0) && ascii_chars(pairs[i].1)
}

pub proof fn lemma_pairs_view_push(s: Seq<(String, String)>, p: (String, String))
    ensures
        pairs_view(s.push(p)) =~= pairs_view(s).push((p.0@, p.1@)),
{
    assert forall|j: int| 0 <= j < s.len() + 1 implies pairs_view(s.push(p))[j] == pairs_view(
        s,
    ).push((p.0@, p.1@))[j] by {
        if j < s.len() {
            assert(s.push(p)[j] == s[j]);
        } else {
            assert(s.push(p)[j] == p);
        }
    }
}

/// Relies on qstring's `QString::new` and its `Display` impl: the pairs
/// render in order as `key=value` joined by `&`, with both sides
/// percent-encoded over qstring's escape set (for ASCII text, exactly
/// `qs_render_spec`).
#[verifier::external_body]
pub fn qs_render(pairs: Vec<(String, String)>) -> (r: String)
    requires
        ascii_pairs(pairs_view(pairs@)),
    ensures
        r@ == qs_render_spec(pairs_view(pairs@)),
{
    format!("{}", qstring::QString::new(pairs))
}

} // verus!
