//! The capability interfaces: each trait names a single container operation
//! and pins its behavior down against a mathematical model of the container.
//!
//! A conforming type first implements [`Container`], which gives it a model
//! (the sequence of elements it currently holds, in logical order) and a
//! fixed ceiling (`Some(c)` for a container whose capacity is bounded at
//! construction, `None` for one with no fixed ceiling). Every operation
//! contract is stated over that model, so generic code written against a set
//! of these interfaces can reason about any conforming container.

use vstd::prelude::*;

verus! {

/// The model of a conforming container: the sequence of elements it holds,
/// in logical order, and its fixed capacity ceiling, if it has one.
pub trait Container {
    /// The element type carried by the container.
    type Elem;

    /// The elements currently held, in the container's logical order.
    spec fn model(&self) -> Seq<Self::Elem>;

    /// `Some(c)` if the container can never hold more than `c` elements and
    /// rejects a push when full; `None` if it has no fixed ceiling.
    spec fn fixed_ceiling(&self) -> Option<nat>;
}

/// The subsequence of `s` at the positions where `keep` is true, in order.
/// It is meaningful when `keep` has one decision per element of `s`.
pub open spec fn mask<T>(s: Seq<T>, keep: Seq<bool>) -> Seq<T>
    decreases s.len(),
{
    if s.len() == 0 {
        Seq::empty()
    } else if keep.len() == s.len() && keep.last() {
        mask(s.drop_last(), keep.drop_last()).push(s.last())
    } else {
        mask(s.drop_last(), keep.drop_last())
    }
}

/// Extending the element sequence and the decision sequence by one step
/// extends the masked subsequence by the new element exactly when the new
/// decision keeps it.
pub proof fn lemma_mask_push<T>(s: Seq<T>, keep: Seq<bool>, x: T, b: bool)
    requires
        keep.len() == s.len(),
    ensures
        b ==> mask(s.push(x), keep.push(b)) == mask(s, keep).push(x),
        !b ==> mask(s.push(x), keep.push(b)) == mask(s, keep),
{
    assert(s.push(x).drop_last() =~= s);
    assert(keep.push(b).drop_last() =~= keep);
}

/// `s` with the elements at positions `a` and `b` exchanged.
pub open spec fn exchange<T>(s: Seq<T>, a: int, b: int) -> Seq<T> {
    s.update(a, s[b]).update(b, s[a])
}

/// The predicate `f` accepts a reference to any element as its argument.
pub open spec fn accepts_any<T, F: Fn(&T) -> bool>(f: F) -> bool {
    forall|x: T| #[trigger] call_requires(f, (&x,))
}

/// `keep` records, per element of `s`, an answer the predicate `f` can give
/// for that element. When `f` is deterministic this determines `keep`.
pub open spec fn decides<T, F: Fn(&T) -> bool>(f: F, s: Seq<T>, keep: Seq<bool>) -> bool {
    keep.len() == s.len() && forall|i: int|
        0 <= i < s.len() ==> call_ensures(f, (&s[i],), #[trigger] keep[i])
}

/// The one error kind this library's own taxonomy produces: a push was
/// rejected because a fixed-ceiling container was already full.
#[derive(Clone, Copy, Debug, PartialEq, Eq, Structural)]
pub struct CapacityExceeded;

/// Capacity query: how many elements the container can currently hold
/// without reallocation or rejection.
pub trait Capacity: Container {
    /// Returns the current capacity. It is never below the current length,
    /// and for a fixed-ceiling container it is exactly the ceiling.
    fn capacity(&self) -> (r: usize)
        ensures
            self.model().len() <= r as nat,
            self.fixed_ceiling() matches Some(c) ==> r as nat == c;
}

/// Length query: how many elements the container currently holds.
pub trait Length: Container {
    /// Returns the current number of live elements.
    fn length(&self) -> (r: usize)
        ensures
            r as nat == self.model().len();
}

/// Removal of every element, leaving the container logically empty.
pub trait Clear: Container {
    /// Removes all elements. The capacity ceiling is a property of the
    /// container, not of its contents, so it is unchanged.
    fn clear(&mut self)
        ensures
            final(self).model() == Seq::<Self::Elem>::empty(),
            final(self).fixed_ceiling() == old(self).fixed_ceiling();
}

/// Appending one element at the logical end. This is the only fallible
/// operation in the set: it is rejected exactly when the container has a
/// fixed ceiling and is already full.
pub trait Push: Container {
    /// The error kind returned when a fixed-ceiling container is full. For
    /// a container with no fixed ceiling this kind is uninhabited.
    type Error;

    /// Appends `elem` at the logical end, or reports that the ceiling was
    /// reached and leaves the container unchanged.
    fn push(&mut self, elem: Self::Elem) -> (r: Result<(), Self::Error>)
        ensures
            r is Ok ==> final(self).model() == old(self).model().push(elem),
            r is Err ==> final(self).model() == old(self).model(),
            old(self).fixed_ceiling() is None ==> r is Ok,
            (old(self).fixed_ceiling() matches Some(c) && old(self).model().len() < c) ==> r is Ok,
            (old(self).fixed_ceiling() matches Some(c) && old(self).model().len() >= c) ==> r is Err,
            final(self).fixed_ceiling() == old(self).fixed_ceiling();
}

/// Exchange of the elements at two positions, given as an index pair.
/// Out-of-range indices are a precondition violation, not a reported error.
pub trait Swap: Container {
    /// Exchanges the elements at positions `input[0]` and `input[1]`.
    fn swap(&mut self, input: [usize; 2])
        requires
            input[0] < old(self).model().len(),
            input[1] < old(self).model().len(),
        ensures
            final(self).model() == exchange(
                old(self).model(),
                input[0] as int,
                input[1] as int,
            ),
            final(self).fixed_ceiling() == old(self).fixed_ceiling();
}

/// Shrinking the logical length to at most a given count, dropping trailing
/// elements. Any count is accepted; one at or above the current length
/// leaves the container unchanged.
pub trait Truncate: Container {
    /// Keeps the first `input` elements and drops the rest.
    fn truncate(&mut self, input: usize)
        ensures
            input as nat <= old(self).model().len() ==> final(self).model() == old(
                self,
            ).model().take(input as int),
            input as nat > old(self).model().len() ==> final(self).model() == old(self).model(),
            final(self).fixed_ceiling() == old(self).fixed_ceiling();
}

/// In-place filtering: only the elements accepted by a caller-supplied
/// predicate survive, in their original relative order.
pub trait Retain: Container {
    /// Applies `input` to every element in order and keeps exactly those for
    /// which it returns true. The survivors are described by a decision
    /// sequence `keep` that the predicate's contract accounts for; when the
    /// predicate is deterministic this pins the result down to a filter.
    fn retain<F: Fn(&Self::Elem) -> bool>(&mut self, input: F)
        requires
            accepts_any::<Self::Elem, F>(input),
        ensures
            exists|keep: Seq<bool>|
                #[trigger] decides(input, old(self).model(), keep) && final(self).model() == mask(
                    old(self).model(),
                    keep,
                ),
            final(self).fixed_ceiling() == old(self).fixed_ceiling();
}

} // verus!
