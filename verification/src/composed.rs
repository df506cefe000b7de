//! The composed capability set: a type is a generic vector exactly when it
//! implements capacity, clear, length, push, swap and truncate at once, with
//! the element type threaded through push. Generic algorithms are written
//! against this set alone, never against a concrete container.

use vstd::prelude::*;

use crate::capability::Capacity;
use crate::capability::Clear;
use crate::capability::Container;
use crate::capability::Length;
use crate::capability::Push;
use crate::capability::Swap;
use crate::capability::Truncate;

verus! {

/// The conjunction of the six vector-shaped capability interfaces. A type is
/// a member exactly when it implements every constituent interface with the
/// given element type; the blanket impl below makes membership automatic.
pub trait GenericVector<I>: Container<Elem = I> + Capacity + Clear + Length + Push + Swap + Truncate {

}

impl<I, T> GenericVector<I> for T where
    T: Container<Elem = I> + Capacity + Clear + Length + Push + Swap + Truncate,
 {

}

/// A generic algorithm typed only against the composed capability set: it
/// accepts any conforming container and keeps at most its first two
/// elements.
pub fn stuff<I, T: GenericVector<I>>(container: &mut T)
    ensures
        old(container).model().len() >= 2 ==> final(container).model() == old(
            container,
        ).model().take(2),
        old(container).model().len() < 2 ==> final(container).model() == old(container).model(),
        final(container).fixed_ceiling() == old(container).fixed_ceiling(),
{
    container.truncate(2);
}

} // verus!
