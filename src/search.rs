//! The first element of a sequence that meets a condition.
use vstd::prelude::*;

verus! {

/// `i` is the position of the first element of `s` that meets `p`.
pub open spec fn is_first_match<A>(s: Seq<A>, p: spec_fn(A) -> bool, i: int) -> bool {
    0 <= i < s.len() && p(s[i]) && forall|j: int| 0 <= j < i ==> !p(s[j])
}

/// The position of the first element of `s` that meets `p`, if any does.
pub open spec fn first_match<A>(s: Seq<A>, p: spec_fn(A) -> bool) -> Option<int> {
    if exists|i: int| is_first_match(s, p, i) {
        Some(choose|i: int| is_first_match(s, p, i))
    } else {
        None
    }
}

/// An element that meets `p` with none before it is the first match.
pub proof fn lemma_first_match<A>(s: Seq<A>, p: spec_fn(A) -> bool, i: int)
    requires
        0 <= i < s.len(),
        p(s[i]),
        forall|j: int| 0 <= j < i ==> !p(s[j]),
    ensures
        first_match(s, p) == Some(i),
{
    assert(is_first_match(s, p, i));
    let k = choose|k: int| is_first_match(s, p, k);
    if k < i {
        assert(!p(s[k]));
    } else if i < k {
        assert(!p(s[i]));
    }
}

/// Where no element meets `p` there is no first match.
pub proof fn lemma_no_match<A>(s: Seq<A>, p: spec_fn(A) -> bool)
    requires
        forall|j: int| 0 <= j < s.len() ==> !p(s[j]),
    ensures
        first_match(s, p) is None,
{
    if exists|i: int| is_first_match(s, p, i) {
        let k = choose|k: int| is_first_match(s, p, k);
        assert(!p(s[k]));
    }
}

} // verus!
