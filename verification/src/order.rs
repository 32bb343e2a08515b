//! The order of texts, by which the values that are named by an open list
//! of names are ordered.

use std::cmp::Ordering;

use vstd::prelude::*;

use crate::text::char_code;

verus! {

/// The lexicographic order of two texts by the code points of their
/// characters: the first character at which the texts differ decides, and a
/// text comes before every text that it begins.
pub open spec fn text_order(a: Seq<char>, b: Seq<char>) -> Ordering
    decreases a.len(),
{
    if a.len() == 0 {
        if b.len() == 0 {
            Ordering::Equal
        } else {
            Ordering::Less
        }
    } else if b.len() == 0 {
        Ordering::Greater
    } else if char_code(a[0]) < char_code(b[0]) {
        Ordering::Less
    } else if char_code(a[0]) > char_code(b[0]) {
        Ordering::Greater
    } else {
        text_order(a.drop_first(), b.drop_first())
    }
}

/// Compares two texts.
///
/// Trusted: calls the standard library's order of `str`, which is
/// lexicographic by the bytes of the two strings and, UTF-8 keeping the
/// order of code points, lexicographic by their code points.
#[verifier::external_body]
pub(crate) fn compare_text(a: &str, b: &str) -> (order: Ordering)
    ensures
        order == text_order(a@, b@),
{
    a.cmp(b)
}

/// A text is equal to itself in the order of texts, and only to itself.
pub proof fn lemma_text_order_equal(a: Seq<char>, b: Seq<char>)
    ensures
        text_order(a, b) == Ordering::Equal <==> a == b,
    decreases a.len(),
{
    if a.len() > 0 && b.len() > 0 {
        lemma_text_order_equal(a.drop_first(), b.drop_first());
        assert(a =~= seq![a[0]] + a.drop_first());
        assert(b =~= seq![b[0]] + b.drop_first());
    } else if a.len() == 0 && b.len() == 0 {
        assert(a =~= b);
    }
}

} // verus!
