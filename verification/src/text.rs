//! Text attributes: strings compared by their characters.

use crate::order::reversed;
use std::cmp::Ordering;
use vstd::prelude::*;

verus! {

/// The Unicode code point of a character.
pub open spec fn code_point(c: char) -> int {
    c as int
}

/// Lexicographic order of two texts by the code points of their characters;
/// a proper prefix comes before the longer text.
pub open spec fn text_order(a: Seq<char>, b: Seq<char>) -> Ordering
    decreases a.len(),
{
    if a.len() == 0 {
        if b.len() == 0 {
            Ordering::Equal
        } else {
            Ordering::Less
        }
    } else if b.len() == 0 {
        Ordering::Greater
    } else if code_point(a[0]) < code_point(b[0]) {
        Ordering::Less
    } else if code_point(a[0]) > code_point(b[0]) {
        Ordering::Greater
    } else {
        text_order(a.drop_first(), b.drop_first())
    }
}

/// The characters of an optional text attribute; `None` where it is absent.
pub open spec fn optional_text(t: Option<&'static str>) -> Option<Seq<char>> {
    match t {
        Some(s) => Some(s@),
        None => None,
    }
}

/// Order of two optional texts: an absent text comes before every present
/// one, and two present texts are ordered by `text_order`.
pub open spec fn optional_text_order(a: Option<Seq<char>>, b: Option<Seq<char>>) -> Ordering {
    match (a, b) {
        (None, None) => Ordering::Equal,
        (None, Some(_)) => Ordering::Less,
        (Some(_), None) => Ordering::Greater,
        (Some(x), Some(y)) => text_order(x, y),
    }
}

/// Calls `==` on two `str` values. std documents string equality as equality
/// of contents, so the result says whether both hold the same characters.
#[verifier::external_body]
pub(crate) fn text_eq(a: &str, b: &str) -> (r: bool)
    ensures
        r == (a@ == b@),
{
    a == b
}

/// Calls `Ord::cmp` on two `str` values. std documents the order of strings
/// as lexicographic by byte values, which it states is the order of their
/// Unicode code points: that is `text_order` of the two character sequences.
#[verifier::external_body]
pub(crate) fn text_compare(a: &str, b: &str) -> (r: Ordering)
    ensures
        r == text_order(a@, b@),
{
    a.cmp(b)
}

/// Whether two optional text attributes are both absent, or both present
/// with the same characters.
pub fn optional_text_eq(a: Option<&'static str>, b: Option<&'static str>) -> (r: bool)
    ensures
        r == (optional_text(a) == optional_text(b)),
{
    match (a, b) {
        (None, None) => true,
        (Some(x), Some(y)) => text_eq(x, y),
        _ => false,
    }
}

/// Compares two optional text attributes by `optional_text_order`.
pub fn optional_text_compare(a: Option<&'static str>, b: Option<&'static str>) -> (r: Ordering)
    ensures
        r == optional_text_order(optional_text(a), optional_text(b)),
{
    match (a, b) {
        (None, None) => Ordering::Equal,
        (None, Some(_)) => Ordering::Less,
        (Some(_), None) => Ordering::Greater,
        (Some(x), Some(y)) => text_compare(x, y),
    }
}

/// Every text is `Equal` to itself.
pub proof fn lemma_text_order_reflexive(a: Seq<char>)
    ensures
        text_order(a, a) == Ordering::Equal,
    decreases a.len(),
{
    if a.len() > 0 {
        lemma_text_order_reflexive(a.drop_first());
    }
}

/// Two texts compare `Equal` only if they are the same text.
pub proof fn lemma_text_order_equal(a: Seq<char>, b: Seq<char>)
    requires
        text_order(a, b) == Ordering::Equal,
    ensures
        a == b,
    decreases a.len(),
{
    if a.len() > 0 {
        lemma_text_order_equal(a.drop_first(), b.drop_first());
        assert(a[0] == b[0]);
        assert(a =~= seq![a[0]] + a.drop_first());
        assert(b =~= seq![b[0]] + b.drop_first());
    } else {
        assert(a =~= b);
    }
}

/// Exchanging the two texts reverses the result.
pub proof fn lemma_text_order_reversed(a: Seq<char>, b: Seq<char>)
    ensures
        text_order(b, a) == reversed(text_order(a, b)),
    decreases a.len(),
{
    if a.len() > 0 && b.len() > 0 {
        lemma_text_order_reversed(a.drop_first(), b.drop_first());
    }
}

/// `text_order` is transitive, with `Equal` as its neutral step: if `a` is
/// not after `b` and `b` is not after `c`, then `a` is not after `c`, and
/// `a` equals `c` only if both steps were `Equal`.
pub proof fn lemma_text_order_transitive(a: Seq<char>, b: Seq<char>, c: Seq<char>)
    requires
        text_order(a, b) != Ordering::Greater,
        text_order(b, c) != Ordering::Greater,
    ensures
        text_order(a, c) != Ordering::Greater,
        text_order(a, c) == Ordering::Equal ==> text_order(a, b) == Ordering::Equal && text_order(
            b,
            c,
        ) == Ordering::Equal,
    decreases a.len(),
{
    if a.len() > 0 && b.len() > 0 && c.len() > 0 {
        if code_point(a[0]) == code_point(b[0]) && code_point(b[0]) == code_point(c[0]) {
            lemma_text_order_transitive(a.drop_first(), b.drop_first(), c.drop_first());
        }
    }
}

/// Every optional text is `Equal` to itself.
pub proof fn lemma_optional_text_order_reflexive(a: Option<Seq<char>>)
    ensures
        optional_text_order(a, a) == Ordering::Equal,
{
    if let Some(x) = a {
        lemma_text_order_reflexive(x);
    }
}

/// Two optional texts compare `Equal` only if they are the same.
pub proof fn lemma_optional_text_order_equal(a: Option<Seq<char>>, b: Option<Seq<char>>)
    requires
        optional_text_order(a, b) == Ordering::Equal,
    ensures
        a == b,
{
    if let (Some(x), Some(y)) = (a, b) {
        lemma_text_order_equal(x, y);
    }
}

/// Exchanging the two optional texts reverses the result.
pub proof fn lemma_optional_text_order_reversed(a: Option<Seq<char>>, b: Option<Seq<char>>)
    ensures
        optional_text_order(b, a) == reversed(optional_text_order(a, b)),
{
    if let (Some(x), Some(y)) = (a, b) {
        lemma_text_order_reversed(x, y);
    }
}

/// `optional_text_order` is transitive, in the form of
/// `lemma_text_order_transitive`.
pub proof fn lemma_optional_text_order_transitive(
    a: Option<Seq<char>>,
    b: Option<Seq<char>>,
    c: Option<Seq<char>>,
)
    requires
        optional_text_order(a, b) != Ordering::Greater,
        optional_text_order(b, c) != Ordering::Greater,
    ensures
        optional_text_order(a, c) != Ordering::Greater,
        optional_text_order(a, c) == Ordering::Equal ==> optional_text_order(a, b)
            == Ordering::Equal && optional_text_order(b, c) == Ordering::Equal,
{
    if let (Some(x), Some(y), Some(z)) = (a, b, c) {
        lemma_text_order_transitive(x, y, z);
    }
}

} // verus!
