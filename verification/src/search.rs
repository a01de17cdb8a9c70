//! The position of the first element of a sequence that satisfies a
//! predicate, as `Iterator::position` and `Iterator::find` give it.
use vstd::prelude::*;

verus! {

/// The index of the first element of `s` satisfying `p`, if any.
#[verifier::opaque]
pub open spec fn first_index<A>(s: Seq<A>, p: spec_fn(A) -> bool) -> Option<int> {
    if exists|i: int| 0 <= i < s.len() && p(s[i]) {
        Some(
            choose|i: int|
                0 <= i < s.len() && p(s[i]) && forall|j: int| 0 <= j < i ==> !p(#[trigger] s[j]),
        )
    } else {
        None
    }
}

/// `i` is the first index satisfying `p` when `s[i]` does and no element
/// before it does.
pub proof fn lemma_first_index_is<A>(s: Seq<A>, p: spec_fn(A) -> bool, i: int)
    requires
        0 <= i < s.len(),
        p(s[i]),
        forall|j: int| 0 <= j < i ==> !p(#[trigger] s[j]),
    ensures
        first_index(s, p) == Some(i),
{
    reveal(first_index);
    assert(0 <= i < s.len() && p(s[i]) && forall|j: int| 0 <= j < i ==> !p(#[trigger] s[j]));
    let k = choose|k: int|
        0 <= k < s.len() && p(s[k]) && forall|j: int| 0 <= j < k ==> !p(#[trigger] s[j]);
    if k < i {
        assert(!p(s[k]));
    } else if k > i {
        assert(!p(s[i]));
    }
}

/// No index is first when no element satisfies `p`.
pub proof fn lemma_first_index_none<A>(s: Seq<A>, p: spec_fn(A) -> bool)
    requires
        forall|j: int| 0 <= j < s.len() ==> !p(#[trigger] s[j]),
    ensures
        first_index(s, p) is None,
{
    reveal(first_index);
}

/// Some index is first when some element satisfies `p`.
pub proof fn lemma_first_index_exists<A>(s: Seq<A>, p: spec_fn(A) -> bool, k: int)
    requires
        0 <= k < s.len(),
        p(s[k]),
    ensures
        first_index(s, p) is Some,
{
    reveal(first_index);
}

/// The first index, when there is one, is in bounds, satisfies `p`, and no
/// element before it does.
pub proof fn lemma_first_index_some<A>(s: Seq<A>, p: spec_fn(A) -> bool)
    requires
        first_index(s, p) is Some,
    ensures
        ({
            let i = first_index(s, p)->Some_0;
            &&& 0 <= i < s.len()
            &&& p(s[i])
            &&& forall|j: int| 0 <= j < i ==> !p(#[trigger] s[j])
        }),
{
    reveal(first_index);
    let w = choose|i: int| 0 <= i < s.len() && p(s[i]);
    lemma_least_index_exists(s, p, 0, w);
}

proof fn lemma_least_index_exists<A>(s: Seq<A>, p: spec_fn(A) -> bool, k: int, w: int)
    requires
        0 <= k <= w < s.len(),
        p(s[w]),
        forall|j: int| 0 <= j < k ==> !p(#[trigger] s[j]),
    ensures
        exists|i: int|
            0 <= i < s.len() && p(s[i]) && forall|j: int| 0 <= j < i ==> !p(#[trigger] s[j]),
    decreases w - k,
{
    if p(s[k]) {
        assert(0 <= k < s.len() && p(s[k]) && forall|j: int| 0 <= j < k ==> !p(#[trigger] s[j]));
    } else {
        lemma_least_index_exists(s, p, k + 1, w);
    }
}

} // verus!
