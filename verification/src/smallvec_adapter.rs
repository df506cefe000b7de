//! Conformance adapter for the hybrid small-size-optimized vector of the
//! `smallvec` crate, wired in at a representative instantiation: `u64`
//! elements with four inline slots. The container can spill to the heap, so
//! it has no fixed ceiling. Verus cannot take the crate's array-trait bound
//! in a type declaration, so the container sits in a field this module keeps
//! opaque and reaches only through its trusted delegations.

use vstd::prelude::*;

use crate::capability::Container;
use crate::capability::Retain;
use crate::capability::accepts_any;
use crate::capability::decides;
use crate::capability::mask;

verus! {

/// A hybrid small-size-optimized vector of the `smallvec` crate.
#[verifier::external_body]
pub struct SmallVecAdapter {
    inner: smallvec::SmallVec<[u64; 4]>,
}

/// The elements the held `smallvec` vector currently holds, in order.
pub uninterp spec fn small_vec_elems(v: SmallVecAdapter) -> Seq<u64>;

impl SmallVecAdapter {
    /// Relies on smallvec::SmallVec::from_vec: takes over the vector's
    /// elements, in order.
    #[verifier::external_body]
    pub fn from_vec(v: Vec<u64>) -> (r: SmallVecAdapter)
        ensures
            small_vec_elems(r) == v@,
    {
        SmallVecAdapter { inner: smallvec::SmallVec::from_vec(v) }
    }

    /// Relies on std's slice to_vec, reached through smallvec's slice view:
    /// a copy of the elements held, in order.
    #[verifier::external_body]
    pub fn to_vec(&self) -> (r: Vec<u64>)
        ensures
            r@ == small_vec_elems(*self),
    {
        self.inner.to_vec()
    }
}

/// Relies on smallvec::SmallVec::retain: keeps, in order, exactly the
/// elements for which the predicate returns true.
#[verifier::external_body]
fn small_vec_retain<F: Fn(&u64) -> bool>(v: &mut SmallVecAdapter, f: F)
    requires
        accepts_any::<u64, F>(f),
    ensures
        exists|keep: Seq<bool>|
            #[trigger] decides(f, small_vec_elems(*old(v)), keep) && small_vec_elems(*final(v))
                == mask(small_vec_elems(*old(v)), keep),
{
    v.inner.retain(|x| f(x))
}

impl Container for SmallVecAdapter {
    type Elem = u64;

    open spec fn model(&self) -> Seq<u64> {
        small_vec_elems(*self)
    }

    open spec fn fixed_ceiling(&self) -> Option<nat> {
        None
    }
}

impl Retain for SmallVecAdapter {
    fn retain<F: Fn(&u64) -> bool>(&mut self, input: F) {
        small_vec_retain(self, input);
        proof {
            let keep = choose|keep: Seq<bool>|
                #[trigger] decides(input, small_vec_elems(*old(self)), keep) && small_vec_elems(
                    *self,
                ) == mask(small_vec_elems(*old(self)), keep);
            assert(decides(input, old(self).model(), keep) && self.model() == mask(
                old(self).model(),
                keep,
            ));
        }
    }
}

} // verus!
