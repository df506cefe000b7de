//! Conformance adapter for the fixed-capacity inline vector of the
//! `arrayvec` crate, wired in at a representative instantiation: `u64`
//! elements under a ceiling of four. The container itself belongs to that
//! crate and stays a black box; the adapter delegates each operation, and
//! every delegation's contract states what the crate's source shows.

use vstd::prelude::*;

use crate::capability::Capacity;
use crate::capability::CapacityExceeded;
use crate::capability::Container;
use crate::capability::Length;
use crate::capability::Push;
use crate::capability::Retain;
use crate::capability::accepts_any;
use crate::capability::decides;
use crate::capability::mask;

verus! {

#[verifier::external_type_specification]
#[verifier::external_body]
#[verifier::reject_recursive_types(T)]
pub struct ExArrayVec<T, const CAP: usize>(arrayvec::ArrayVec<T, CAP>);

/// The elements an `arrayvec` vector currently holds, in order.
pub uninterp spec fn array_vec_elems(v: arrayvec::ArrayVec<u64, 4>) -> Seq<u64>;

/// Relies on arrayvec::ArrayVec::len: the number of elements held.
#[verifier::external_body]
fn array_vec_len(v: &arrayvec::ArrayVec<u64, 4>) -> (r: usize)
    ensures
        r as nat == array_vec_elems(*v).len(),
{
    v.len()
}

/// Relies on arrayvec::ArrayVec::capacity: the ceiling the vector was built
/// with, which its length never exceeds.
#[verifier::external_body]
fn array_vec_capacity(v: &arrayvec::ArrayVec<u64, 4>) -> (r: usize)
    ensures
        r == 4usize,
        array_vec_elems(*v).len() <= r as nat,
{
    v.capacity()
}

/// Relies on arrayvec::ArrayVec::try_push: appends when the vector is below
/// its ceiling, and otherwise reports the capacity error and changes
/// nothing. The crate's own error value is mapped to this library's kind.
#[verifier::external_body]
fn array_vec_try_push(v: &mut arrayvec::ArrayVec<u64, 4>, elem: u64) -> (r: Result<
    (),
    CapacityExceeded,
>)
    ensures
        array_vec_elems(*old(v)).len() < 4 ==> r is Ok && array_vec_elems(*final(v)) == array_vec_elems(
            *old(v),
        ).push(elem),
        array_vec_elems(*old(v)).len() >= 4 ==> r is Err && array_vec_elems(*final(v))
            == array_vec_elems(*old(v)),
{
    match v.try_push(elem) {
        Ok(()) => Ok(()),
        Err(_) => Err(CapacityExceeded),
    }
}

/// Relies on arrayvec::ArrayVec::retain: keeps, in order, exactly the
/// elements for which the predicate returns true.
#[verifier::external_body]
fn array_vec_retain<F: Fn(&u64) -> bool>(v: &mut arrayvec::ArrayVec<u64, 4>, f: F)
    requires
        accepts_any::<u64, F>(f),
    ensures
        exists|keep: Seq<bool>|
            #[trigger] decides(f, array_vec_elems(*old(v)), keep) && array_vec_elems(*final(v)) == mask(
                array_vec_elems(*old(v)),
                keep,
            ),
{
    v.retain(|x| f(x))
}

impl Container for arrayvec::ArrayVec<u64, 4> {
    type Elem = u64;

    open spec fn model(&self) -> Seq<u64> {
        array_vec_elems(*self)
    }

    open spec fn fixed_ceiling(&self) -> Option<nat> {
        Some(4nat)
    }
}

impl Capacity for arrayvec::ArrayVec<u64, 4> {
    fn capacity(&self) -> (r: usize) {
        array_vec_capacity(self)
    }
}

impl Length for arrayvec::ArrayVec<u64, 4> {
    fn length(&self) -> (r: usize) {
        array_vec_len(self)
    }
}

impl Push for arrayvec::ArrayVec<u64, 4> {
    type Error = CapacityExceeded;

    fn push(&mut self, elem: u64) -> (r: Result<(), CapacityExceeded>) {
        array_vec_try_push(self, elem)
    }
}

impl Retain for arrayvec::ArrayVec<u64, 4> {
    fn retain<F: Fn(&u64) -> bool>(&mut self, input: F) {
        array_vec_retain(self, input);
        proof {
            let keep = choose|keep: Seq<bool>|
                #[trigger] decides(input, array_vec_elems(*old(self)), keep) && array_vec_elems(
                    *self,
                ) == mask(array_vec_elems(*old(self)), keep);
            assert(decides(input, old(self).model(), keep) && self.model() == mask(
                old(self).model(),
                keep,
            ));
        }
    }
}

} // verus!
