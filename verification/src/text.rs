//! Ordering of text: the lexicographic order of character sequences by code
//! point, and the case-folded order that record names are sorted by.

use vstd::prelude::*;
use core::cmp::Ordering;

verus! {

/// The Unicode scalar value of a character.
pub open spec fn code_point(c: char) -> int {
    c as int
}

/// Lexicographic order of two character sequences, character by character
/// by code point; a proper prefix sorts before the longer sequence.
pub open spec fn lex_order(a: Seq<char>, b: Seq<char>) -> Ordering
    decreases a.len(),
{
    if a.len() == 0 {
        if b.len() == 0 {
            Ordering::Equal
        } else {
            Ordering::Less
        }
    } else if b.len() == 0 {
        Ordering::Greater
    } else if code_point(a[0]) < code_point(b[0]) {
        Ordering::Less
    } else if code_point(a[0]) > code_point(b[0]) {
        Ordering::Greater
    } else {
        lex_order(a.skip(1), b.skip(1))
    }
}

/// The order with its sides exchanged.
pub open spec fn reversed(o: Ordering) -> Ordering {
    match o {
        Ordering::Less => Ordering::Greater,
        Ordering::Equal => Ordering::Equal,
        Ordering::Greater => Ordering::Less,
    }
}

/// The lowercase form of a text, as the standard library's Unicode
/// lowercase conversion gives it.
pub uninterp spec fn lowercase_of(s: Seq<char>) -> Seq<char>;

/// The order of two texts with case folded away.
pub open spec fn folded_order(a: Seq<char>, b: Seq<char>) -> Ordering {
    lex_order(lowercase_of(a), lowercase_of(b))
}

/// Two sequences compare equal exactly when they are the same sequence.
pub proof fn lemma_lex_equal(a: Seq<char>, b: Seq<char>)
    ensures
        (lex_order(a, b) == Ordering::Equal) <==> a == b,
    decreases a.len(),
{
    if a.len() > 0 && b.len() > 0 {
        lemma_lex_equal(a.skip(1), b.skip(1));
        if a[0] == b[0] && a.skip(1) == b.skip(1) {
            assert(a =~= seq![a[0]] + a.skip(1));
            assert(b =~= seq![b[0]] + b.skip(1));
        }
        if a == b {
            assert(a.skip(1) == b.skip(1));
        }
    } else if a.len() == 0 && b.len() == 0 {
        assert(a =~= b);
    }
}

/// Exchanging the sides reverses the result, so any two sequences compare.
pub proof fn lemma_lex_reversed(a: Seq<char>, b: Seq<char>)
    ensures
        lex_order(b, a) == reversed(lex_order(a, b)),
    decreases a.len(),
{
    if a.len() > 0 && b.len() > 0 {
        lemma_lex_reversed(a.skip(1), b.skip(1));
    }
}

/// The order composes: from `a <= b` and `b <= c` follows `a <= c`, and the
/// result is strict as soon as one of the two steps is.
pub proof fn lemma_lex_transitive(a: Seq<char>, b: Seq<char>, c: Seq<char>)
    requires
        lex_order(a, b) != Ordering::Greater,
        lex_order(b, c) != Ordering::Greater,
    ensures
        lex_order(a, c) != Ordering::Greater,
        (lex_order(a, b) == Ordering::Less || lex_order(b, c) == Ordering::Less) ==> lex_order(
            a,
            c,
        ) == Ordering::Less,
    decreases a.len(),
{
    if a.len() > 0 && b.len() > 0 && c.len() > 0 {
        if code_point(a[0]) == code_point(b[0]) && code_point(b[0]) == code_point(c[0]) {
            lemma_lex_transitive(a.skip(1), b.skip(1), c.skip(1));
        }
    }
}

/// Orders two texts lexicographically by code point.
pub fn order(a: &str, b: &str) -> (r: Ordering)
    ensures
        r == lex_order(a@, b@),
{
    compare(a, b)
}

/// Orders two texts with case folded away: both are brought to lowercase
/// and the results ordered by code point.
pub fn order_folded(a: &str, b: &str) -> (r: Ordering)
    ensures
        r == folded_order(a@, b@),
{
    let la = lowercase(a);
    let lb = lowercase(b);
    order(la.as_str(), lb.as_str())
}

/// Lowercase conversion of a text, by `str::to_lowercase`: the result is the
/// lowercase form that `lowercase_of` names.
#[verifier::external_body]
pub(crate) fn lowercase(s: &str) -> (r: String)
    ensures
        r@ == lowercase_of(s@),
{
    s.to_lowercase()
}

/// Comparison of two texts, by `str`'s `Ord::cmp`: strings are ordered
/// lexicographically by their bytes, which orders them by code point.
#[verifier::external_body]
pub(crate) fn compare(a: &str, b: &str) -> (r: Ordering)
    ensures
        r == lex_order(a@, b@),
{
    a.cmp(b)
}

/// Equality of two texts, by `str`'s `PartialEq::eq`: the same characters
/// in the same order.
#[verifier::external_body]
pub(crate) fn same_text(a: &str, b: &str) -> (r: bool)
    ensures
        r == (a@ == b@),
{
    a == b
}

} // verus!
