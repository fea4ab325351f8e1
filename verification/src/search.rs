//! Searching a byte text for a pattern.

use vstd::prelude::*;

verus! {

/// `pat` stands in `text` at index `i`.
pub open spec fn occurs_at(text: Seq<u8>, pat: Seq<u8>, i: int) -> bool {
    &&& 0 <= i
    &&& i + pat.len() <= text.len()
    &&& text.subrange(i, i + pat.len()) == pat
}

/// `pat` stands in `text` at index `i` and at no index before it.
pub open spec fn is_first_occurrence(text: Seq<u8>, pat: Seq<u8>, i: int) -> bool {
    &&& occurs_at(text, pat, i)
    &&& forall|j: int| 0 <= j < i ==> !occurs_at(text, pat, j)
}

/// What a search for `pat` in `text` answers: the index of the first
/// occurrence, or `None` when there is none.
pub open spec fn is_search_result(text: Seq<u8>, pat: Seq<u8>, r: Option<usize>) -> bool {
    match r {
        Some(i) => is_first_occurrence(text, pat, i as int),
        None => forall|j: int| !occurs_at(text, pat, j),
    }
}

/// Calls `subslice::bmh::find`, the Boyer-Moore-Horspool search. It is
/// trusted to return the index of the first occurrence of `pat` in `text`,
/// and `None` when `pat` does not occur. The empty pattern is left out
/// because the outside function indexes below zero on it.
#[verifier::external_body]
pub(crate) fn find(text: &[u8], pat: &[u8]) -> (r: Option<usize>)
    requires
        pat@.len() > 0,
    ensures
        is_search_result(text@, pat@, r),
{
    subslice::bmh::find(text, pat)
}

} // verus!
