//! Conformance adapters for the two vectors of the `tinyvec` crate, wired in
//! at a representative instantiation: `u64` elements with four slots. The
//! default-initialized fixed-capacity vector keeps everything inline under a
//! ceiling of four; the hybrid vector starts inline and moves to the heap,
//! so it has no fixed ceiling. Verus cannot take the crate's array-trait
//! bound in a type declaration, so the hybrid vector sits in a field this
//! module keeps opaque and reaches only through its trusted delegations.

use vstd::prelude::*;

use crate::capability::Container;
use crate::capability::Retain;
use crate::capability::accepts_any;
use crate::capability::decides;
use crate::capability::mask;

verus! {

#[verifier::external_type_specification]
#[verifier::external_body]
#[verifier::reject_recursive_types(A)]
pub struct ExTinyArrayVec<A>(tinyvec::ArrayVec<A>);

/// The elements a `tinyvec` inline vector currently holds, in order.
pub uninterp spec fn tiny_array_vec_elems(v: tinyvec::ArrayVec<[u64; 4]>) -> Seq<u64>;

/// Relies on tinyvec::ArrayVec::retain: keeps, in order, exactly the
/// elements for which the predicate returns true.
#[verifier::external_body]
fn tiny_array_vec_retain<F: Fn(&u64) -> bool>(v: &mut tinyvec::ArrayVec<[u64; 4]>, f: F)
    requires
        accepts_any::<u64, F>(f),
    ensures
        exists|keep: Seq<bool>|
            #[trigger] decides(f, tiny_array_vec_elems(*old(v)), keep) && tiny_array_vec_elems(
                *final(v),
            ) == mask(tiny_array_vec_elems(*old(v)), keep),
{
    v.retain(|x| f(x))
}

impl Container for tinyvec::ArrayVec<[u64; 4]> {
    type Elem = u64;

    open spec fn model(&self) -> Seq<u64> {
        tiny_array_vec_elems(*self)
    }

    open spec fn fixed_ceiling(&self) -> Option<nat> {
        Some(4nat)
    }
}

impl Retain for tinyvec::ArrayVec<[u64; 4]> {
    fn retain<F: Fn(&u64) -> bool>(&mut self, input: F) {
        tiny_array_vec_retain(self, input);
        proof {
            let keep = choose|keep: Seq<bool>|
                #[trigger] decides(input, tiny_array_vec_elems(*old(self)), keep)
                    && tiny_array_vec_elems(*self) == mask(
                    tiny_array_vec_elems(*old(self)),
                    keep,
                );
            assert(decides(input, old(self).model(), keep) && self.model() == mask(
                old(self).model(),
                keep,
            ));
        }
    }
}

/// A hybrid inline-or-heap vector of the `tinyvec` crate.
#[verifier::external_body]
pub struct TinyVecAdapter {
    inner: tinyvec::TinyVec<[u64; 4]>,
}

/// The elements the held `tinyvec` hybrid vector currently holds, in order.
pub uninterp spec fn tiny_vec_elems(v: TinyVecAdapter) -> Seq<u64>;

impl TinyVecAdapter {
    /// Relies on tinyvec::TinyVec's heap variant: it holds exactly the given
    /// vector's elements, in order.
    #[verifier::external_body]
    pub fn from_vec(v: Vec<u64>) -> (r: TinyVecAdapter)
        ensures
            tiny_vec_elems(r) == v@,
    {
        TinyVecAdapter { inner: tinyvec::TinyVec::Heap(v) }
    }

    /// Relies on std's slice to_vec, reached through tinyvec's slice view:
    /// a copy of the elements held, in order.
    #[verifier::external_body]
    pub fn to_vec(&self) -> (r: Vec<u64>)
        ensures
            r@ == tiny_vec_elems(*self),
    {
        self.inner.to_vec()
    }
}

/// Relies on tinyvec::TinyVec::retain: keeps, in order, exactly the
/// elements for which the predicate returns true.
#[verifier::external_body]
fn tiny_vec_retain<F: Fn(&u64) -> bool>(v: &mut TinyVecAdapter, f: F)
    requires
        accepts_any::<u64, F>(f),
    ensures
        exists|keep: Seq<bool>|
            #[trigger] decides(f, tiny_vec_elems(*old(v)), keep) && tiny_vec_elems(*final(v))
                == mask(tiny_vec_elems(*old(v)), keep),
{
    v.inner.retain(|x| f(x))
}

impl Container for TinyVecAdapter {
    type Elem = u64;

    open spec fn model(&self) -> Seq<u64> {
        tiny_vec_elems(*self)
    }

    open spec fn fixed_ceiling(&self) -> Option<nat> {
        None
    }
}

impl Retain for TinyVecAdapter {
    fn retain<F: Fn(&u64) -> bool>(&mut self, input: F) {
        tiny_vec_retain(self, input);
        proof {
            let keep = choose|keep: Seq<bool>|
                #[trigger] decides(input, tiny_vec_elems(*old(self)), keep) && tiny_vec_elems(
                    *self,
                ) == mask(tiny_vec_elems(*old(self)), keep);
            assert(decides(input, old(self).model(), keep) && self.model() == mask(
                old(self).model(),
                keep,
            ));
        }
    }
}

} // verus!
