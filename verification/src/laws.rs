//! Laws the interface contracts give rise to, each proved once over the spec
//! functions the contracts are stated with, so that a reader sees them stated
//! rather than having to derive them.

use vstd::prelude::*;

use crate::capability::exchange;
use crate::capability::mask;

verus! {

/// A successful push appends: the length grows by exactly one, the pushed
/// element becomes the last in the container's order, and the elements
/// before it are unchanged.
pub proof fn lemma_push_appends<T>(s: Seq<T>, e: T)
    ensures
        s.push(e).len() == s.len() + 1,
        s.push(e).last() == e,
        s.push(e).take(s.len() as int) == s,
{
    assert(s.push(e).take(s.len() as int) =~= s);
}

/// An exchange of two valid positions swaps exactly those two elements: the
/// length and every other position are unchanged, and repeating the exchange
/// restores the original sequence.
pub proof fn lemma_exchange_swaps<T>(s: Seq<T>, a: int, b: int)
    requires
        0 <= a < s.len(),
        0 <= b < s.len(),
    ensures
        exchange(s, a, b).len() == s.len(),
        exchange(s, a, b)[a] == s[b],
        exchange(s, a, b)[b] == s[a],
        forall|k: int| 0 <= k < s.len() && k != a && k != b ==> exchange(s, a, b)[k] == s[k],
        exchange(exchange(s, a, b), a, b) == s,
{
    assert(exchange(exchange(s, a, b), a, b) =~= s);
}

/// When the decision sequence agrees pointwise with a predicate, the masked
/// subsequence is exactly the filter: every survivor satisfies the
/// predicate, the survivors keep their original relative order, and the
/// length is the count of original elements the predicate accepts.
pub proof fn lemma_mask_is_filter<T>(s: Seq<T>, keep: Seq<bool>, p: spec_fn(T) -> bool)
    requires
        keep.len() == s.len(),
        forall|i: int| 0 <= i < s.len() ==> keep[i] == p(s[i]),
    ensures
        mask(s, keep) == s.filter(p),
        forall|j: int| 0 <= j < mask(s, keep).len() ==> p(#[trigger] mask(s, keep)[j]),
    decreases s.len(),
{
    assert forall|j: int| 0 <= j < s.filter(p).len() implies p(#[trigger] s.filter(p)[j]) by {
        s.lemma_filter_pred(p, j);
    }
    reveal(Seq::filter);
    if s.len() == 0 {
        assert(mask(s, keep) == s.filter(p));
    } else {
        assert(forall|i: int|
            0 <= i < s.drop_last().len() ==> keep.drop_last()[i] == p(s.drop_last()[i]));
        lemma_mask_is_filter(s.drop_last(), keep.drop_last(), p);
        assert(keep.last() == p(s.last()));
        if keep.last() {
            assert(mask(s, keep) == mask(s.drop_last(), keep.drop_last()).push(s.last()));
            assert(s.filter(p) == s.drop_last().filter(p).push(s.last()));
        } else {
            assert(mask(s, keep) == mask(s.drop_last(), keep.drop_last()));
            assert(s.filter(p) == s.drop_last().filter(p));
        }
    }
}

} // verus!
