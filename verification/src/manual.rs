//! Manual conformance: a user-defined container that implements each
//! capability interface directly, showing that the library's adapters are
//! not the only way into the interfaces.

use vstd::prelude::*;

use crate::capability::Capacity;
use crate::capability::Clear;
use crate::capability::Container;
use crate::capability::Length;
use crate::capability::Push;
use crate::capability::Swap;
use crate::capability::Truncate;
use crate::capability::exchange;

verus! {

/// A user-defined growable container backed by a heap vector. It has no
/// fixed ceiling, so its push never fails and its error kind is uninhabited.
pub struct SomeCustomVector<I>(pub Vec<I>);

impl<I> Container for SomeCustomVector<I> {
    type Elem = I;

    open spec fn model(&self) -> Seq<I> {
        self.0@
    }

    open spec fn fixed_ceiling(&self) -> Option<nat> {
        None
    }
}

/// Relies on std's Vec::capacity: the number of elements the vector can hold
/// without reallocating, which is never below its current length.
#[verifier::external_body]
fn vec_capacity<T>(v: &Vec<T>) -> (r: usize)
    ensures
        v@.len() <= r as nat,
{
    v.capacity()
}

impl<I> Capacity for SomeCustomVector<I> {
    fn capacity(&self) -> (r: usize) {
        vec_capacity(&self.0)
    }
}

impl<I> Clear for SomeCustomVector<I> {
    fn clear(&mut self) {
        self.0.clear()
    }
}

impl<I> Length for SomeCustomVector<I> {
    fn length(&self) -> (r: usize) {
        self.0.len()
    }
}

impl<I> Push for SomeCustomVector<I> {
    type Error = core::convert::Infallible;

    fn push(&mut self, elem: I) -> (r: Result<(), Self::Error>) {
        self.0.push(elem);
        Ok(())
    }
}

/// Removing the far element first and reinserting both in place order is the
/// same as exchanging the two positions.
proof fn lemma_remove_insert_exchange<T>(s: Seq<T>, lo: int, hi: int)
    requires
        0 <= lo < hi < s.len(),
    ensures
        s.remove(hi).remove(lo).insert(lo, s[hi]).insert(hi, s[lo]) == exchange(s, lo, hi),
{
    let t = s.remove(hi).remove(lo).insert(lo, s[hi]).insert(hi, s[lo]);
    assert forall|k: int| 0 <= k < s.len() implies t[k] == exchange(s, lo, hi)[k] by {
        assert(s.remove(hi).len() == s.len() - 1);
        assert(s.remove(hi).remove(lo).len() == s.len() - 2);
    }
    assert(t =~= exchange(s, lo, hi));
}

impl<I> Swap for SomeCustomVector<I> {
    fn swap(&mut self, input: [usize; 2]) {
        let a = input[0];
        let b = input[1];
        if a != b {
            let lo: usize = if a < b {
                a
            } else {
                b
            };
            let hi: usize = if a < b {
                b
            } else {
                a
            };
            let x = self.0.remove(hi);
            let y = self.0.remove(lo);
            self.0.insert(lo, x);
            self.0.insert(hi, y);
            proof {
                lemma_remove_insert_exchange(old(self).model(), lo as int, hi as int);
                assert(exchange(old(self).model(), lo as int, hi as int) =~= exchange(
                    old(self).model(),
                    a as int,
                    b as int,
                ));
            }
        } else {
            proof {
                assert(exchange(old(self).model(), a as int, b as int) =~= old(self).model());
            }
        }
    }
}

impl<I> Truncate for SomeCustomVector<I> {
    fn truncate(&mut self, input: usize) {
        self.0.truncate(input)
    }
}

} // verus!
