//! The topic catalog's ordering: topic names are shown sorted, so the list
//! handed in by the directory scan is put into lexicographic order.
use vstd::prelude::*;

verus! {

/// Lexicographic order on texts, by code point: the empty text comes first,
/// then the earlier first character wins, ties recurse on the rest.
pub open spec fn lex_leq(a: Seq<char>, b: Seq<char>) -> bool
    decreases a.len(),
{
    if a.len() == 0 {
        true
    } else if b.len() == 0 {
        false
    } else if (a[0] as u32) < (b[0] as u32) {
        true
    } else if (a[0] as u32) > (b[0] as u32) {
        false
    } else {
        lex_leq(a.drop_first(), b.drop_first())
    }
}

/// Each neighbouring pair of the list is in lexicographic order.
pub open spec fn sorted_by_lex(ls: Seq<Seq<char>>) -> bool {
    forall|i: int| 0 <= i < ls.len() - 1 ==> #[trigger] lex_leq(ls[i], ls[i + 1])
}

/// Relies on `slice::sort` together with `String`'s `Ord` impl: a stable
/// sort keeps exactly the same elements and leaves them in lexicographic
/// order (`String` orders by byte, which for UTF-8 is code-point order).
#[verifier::external_body]
pub(crate) fn sort_strings(v: &mut Vec<String>)
    ensures
        final(v)@.to_multiset() == old(v)@.to_multiset(),
        sorted_by_lex(final(v).deep_view()),
{
    v.sort();
}

} // verus!
