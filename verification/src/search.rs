//! The first element of a sequence that meets a condition: how the model states a lookup
//! in a table, whose rows are kept in the order in which they were added.

use vstd::prelude::*;

verus! {

/// Whether `i` is the first position of `s` whose element meets `p`.
pub open spec fn is_first_match<T>(s: Seq<T>, p: spec_fn(T) -> bool, i: int) -> bool {
    &&& 0 <= i < s.len()
    &&& p(s[i])
    &&& forall|j: int| 0 <= j < i ==> !p(#[trigger] s[j])
}

/// Whether some element of `s` meets `p`.
pub open spec fn has_match<T>(s: Seq<T>, p: spec_fn(T) -> bool) -> bool {
    exists|i: int| 0 <= i < s.len() && p(#[trigger] s[i])
}

/// The first position of `s` whose element meets `p`, if there is one.
pub open spec fn first_index<T>(s: Seq<T>, p: spec_fn(T) -> bool) -> Option<int> {
    if has_match(s, p) {
        Some(choose|i: int| is_first_match(s, p, i))
    } else {
        None
    }
}

/// The first element of `s` that meets `p`, if there is one.
pub open spec fn first_match<T>(s: Seq<T>, p: spec_fn(T) -> bool) -> Option<T> {
    match first_index(s, p) {
        Some(i) => Some(s[i]),
        None => None,
    }
}

/// A position known to be the first match is the one that the lookup gives.
pub proof fn lemma_first_index_is<T>(s: Seq<T>, p: spec_fn(T) -> bool, i: int)
    requires
        is_first_match(s, p, i),
    ensures
        first_index(s, p) == Some(i),
        first_match(s, p) == Some(s[i]),
{
}

/// Below any position that meets `p` there is a first one.
proof fn lemma_first_match_below<T>(s: Seq<T>, p: spec_fn(T) -> bool, k: int)
    requires
        0 <= k < s.len(),
        p(s[k]),
    ensures
        exists|i: int| is_first_match(s, p, i) && i <= k,
    decreases k,
{
    if exists|j: int| 0 <= j < k && p(#[trigger] s[j]) {
        let j = choose|j: int| 0 <= j < k && p(#[trigger] s[j]);
        lemma_first_match_below(s, p, j);
    } else {
        assert(is_first_match(s, p, k));
    }
}

/// What a lookup gives: where some element meets `p`, the first such position; where
/// none does, nothing.
pub proof fn lemma_first_index<T>(s: Seq<T>, p: spec_fn(T) -> bool)
    ensures
        match first_index(s, p) {
            Some(i) => is_first_match(s, p, i) && first_match(s, p) == Some(s[i]),
            None => first_match(s, p) is None && forall|j: int|
                0 <= j < s.len() ==> !p(#[trigger] s[j]),
        },
{
    if has_match(s, p) {
        let k = choose|k: int| 0 <= k < s.len() && p(#[trigger] s[k]);
        lemma_first_match_below(s, p, k);
    }
}

} // verus!
