//! "The first element that satisfies a predicate", which is how the
//! interface picks a model, an algorithm or a parameter out of a list.

use vstd::prelude::*;

verus! {

/// `i` is the index of the first element of `s` that satisfies `p`.
pub open spec fn is_first<T>(s: Seq<T>, p: spec_fn(T) -> bool, i: int) -> bool {
    &&& 0 <= i < s.len()
    &&& p(s[i])
    &&& forall|j: int| 0 <= j < i ==> !p(#[trigger] s[j])
}

/// The index of the first element of `s` that satisfies `p`, if any does:
/// what `iter().position(p)` gives.
pub open spec fn first_index<T>(s: Seq<T>, p: spec_fn(T) -> bool) -> Option<int> {
    if exists|i: int| is_first(s, p, i) {
        Some(choose|i: int| is_first(s, p, i))
    } else {
        None
    }
}

/// The first element of `s` that satisfies `p`, if any does: what
/// `iter().find(p)` gives.
pub open spec fn first_match<T>(s: Seq<T>, p: spec_fn(T) -> bool) -> Option<T> {
    match first_index(s, p) {
        Some(i) => Some(s[i]),
        None => None,
    }
}

/// There is at most one first index.
pub proof fn lemma_first_unique<T>(s: Seq<T>, p: spec_fn(T) -> bool, i: int, j: int)
    requires
        is_first(s, p, i),
        is_first(s, p, j),
    ensures
        i == j,
{
    if i < j {
        assert(!p(s[i]));
    } else if j < i {
        assert(!p(s[j]));
    }
}

/// The first index is the one found.
pub proof fn lemma_first_index_is<T>(s: Seq<T>, p: spec_fn(T) -> bool, i: int)
    requires
        is_first(s, p, i),
    ensures
        first_index(s, p) == Some(i),
        first_match(s, p) == Some(s[i]),
{
    let k = choose|k: int| is_first(s, p, k);
    lemma_first_unique(s, p, i, k);
}

/// Where no element satisfies `p`, there is no first index.
pub proof fn lemma_first_index_none<T>(s: Seq<T>, p: spec_fn(T) -> bool)
    requires
        forall|j: int| 0 <= j < s.len() ==> !p(#[trigger] s[j]),
    ensures
        first_index(s, p) is None,
        first_match(s, p) is None,
{
}

/// Where some element satisfies `p`, a first one does.
pub proof fn lemma_first_exists<T>(s: Seq<T>, p: spec_fn(T) -> bool, k: int)
    requires
        0 <= k < s.len(),
        p(s[k]),
    ensures
        first_index(s, p) matches Some(i) && is_first(s, p, i) && i <= k,
    decreases k,
{
    if exists|j: int| 0 <= j < k && p(#[trigger] s[j]) {
        let j = choose|j: int| 0 <= j < k && p(#[trigger] s[j]);
        lemma_first_exists(s, p, j);
    } else {
        assert(is_first(s, p, k));
        lemma_first_index_is(s, p, k);
    }
}

} // verus!
