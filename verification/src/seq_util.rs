//! A small addition to the sequence library: filtering only rearranges
//! membership, so each row of a filtered sequence originates in the source.

use vstd::prelude::*;

verus! {

/// Every element of a filtered sequence comes from an element of the
/// source that passes the filter.
pub proof fn lemma_filter_element_origin<A>(s: Seq<A>, pred: spec_fn(A) -> bool, j: int)
    requires
        0 <= j < s.filter(pred).len(),
    ensures
        exists|i: int| 0 <= i < s.len() && pred(s[i]) && s.filter(pred)[j] == s[i],
    decreases s.len(),
{
    reveal(Seq::filter);
    if s.len() != 0 {
        let prefix = s.drop_last();
        if pred(s.last()) && j == s.filter(pred).len() - 1 {
            assert(s.filter(pred)[j] == s[s.len() - 1]);
        } else {
            lemma_filter_element_origin(prefix, pred, j);
            let i = choose|i: int|
                0 <= i < prefix.len() && pred(prefix[i]) && prefix.filter(pred)[j] == prefix[i];
            assert(s.filter(pred)[j] == s[i]);
        }
    }
}

} // verus!
