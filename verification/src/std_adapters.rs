//! Conformance of two std container kinds: the optional single slot
//! (`Option`) and the unbounded growable vector (`Vec`). Both implement the
//! retain interface; the vector's filtering loop is written here and
//! verified in full.

use vstd::prelude::*;

use crate::capability::Container;
use crate::capability::Retain;
use crate::capability::accepts_any;
use crate::capability::decides;
use crate::capability::lemma_mask_push;
use crate::capability::mask;

verus! {

impl<T> Container for Option<T> {
    type Elem = T;

    open spec fn model(&self) -> Seq<T> {
        match self {
            Option::Some(x) => seq![*x],
            Option::None => Seq::empty(),
        }
    }

    open spec fn fixed_ceiling(&self) -> Option<nat> {
        Some(1nat)
    }
}

impl<T> Retain for Option<T> {
    fn retain<F: Fn(&T) -> bool>(&mut self, input: F) {
        match self.as_ref() {
            Some(elem) => {
                let kept = input(elem);
                if !kept {
                    *self = None;
                }
                proof {
                    let keep = seq![kept];
                    let m = old(self).model();
                    assert(m.drop_last() =~= Seq::<T>::empty());
                    assert(keep.drop_last() =~= Seq::<bool>::empty());
                    assert(mask(Seq::<T>::empty(), Seq::<bool>::empty()) =~= Seq::<T>::empty());
                    assert(m.last() == old(self)->0);
                    if kept {
                        assert(mask(m, keep) == Seq::<T>::empty().push(m.last()));
                        assert(mask(m, keep) =~= m);
                    } else {
                        assert(mask(m, keep) =~= Seq::<T>::empty());
                    }
                    assert(mask(m, keep) == self.model());
                    assert(decides(input, m, keep));
                }
            },
            None => {
                proof {
                    let keep = Seq::<bool>::empty();
                    assert(mask(old(self).model(), keep) == self.model());
                    assert(decides(input, old(self).model(), keep));
                }
            },
        }
    }
}

impl<T> Container for Vec<T> {
    type Elem = T;

    open spec fn model(&self) -> Seq<T> {
        self@
    }

    open spec fn fixed_ceiling(&self) -> Option<nat> {
        None
    }
}

impl<T> Retain for Vec<T> {
    fn retain<F: Fn(&T) -> bool>(&mut self, input: F) {
        let ghost orig: Seq<T> = self@;
        let ghost mut keep: Seq<bool> = Seq::empty();
        let mut i: usize = 0;
        proof {
            assert(mask(orig.take(0), keep) =~= Seq::<T>::empty());
            assert(Seq::<T>::empty() + orig.skip(0) =~= orig);
        }
        while i < self.len()
            invariant
                accepts_any::<T, F>(input),
                keep.len() <= orig.len(),
                decides(input, orig.take(keep.len() as int), keep),
                self@ == mask(orig.take(keep.len() as int), keep) + orig.skip(
                    keep.len() as int,
                ),
                i == mask(orig.take(keep.len() as int), keep).len(),
            decreases orig.len() - keep.len(),
        {
            let ghost kp = keep;
            let ghost k = kp.len() as int;
            proof {
                assert(self@.len() == i + (orig.len() - k));
                assert(self@[i as int] == orig.skip(k)[0]);
                assert(orig.skip(k)[0] == orig[k]);
            }
            let kept = input(&self[i]);
            proof {
                keep = kp.push(kept);
                lemma_mask_push(orig.take(k), kp, orig[k], kept);
                assert(orig.take(k + 1) =~= orig.take(k).push(orig[k]));
                assert(call_ensures(input, (&orig[k],), kept));
                assert(decides(input, orig.take(k + 1), keep)) by {
                    assert forall|j: int| 0 <= j < k + 1 implies call_ensures(
                        input,
                        (&orig.take(k + 1)[j],),
                        #[trigger] keep[j],
                    ) by {
                        if j < k {
                            assert(orig.take(k + 1)[j] == orig.take(k)[j]);
                            assert(keep[j] == kp[j]);
                        } else {
                            assert(orig.take(k + 1)[j] == orig[k]);
                            assert(keep[j] == kept);
                        }
                    }
                }
            }
            if kept {
                i = i + 1;
                proof {
                    assert(self@ == mask(orig.take(k + 1), keep) + orig.skip(k + 1)) by {
                        assert(orig.skip(k) =~= seq![orig[k]] + orig.skip(k + 1));
                        assert(mask(orig.take(k), kp).push(orig[k]) + orig.skip(k + 1) =~= mask(
                            orig.take(k),
                            kp,
                        ) + orig.skip(k));
                    }
                }
            } else {
                let ghost pre: Seq<T> = self@;
                self.remove(i);
                proof {
                    assert(self@ == mask(orig.take(k + 1), keep) + orig.skip(k + 1)) by {
                        assert(pre.remove(i as int) =~= mask(orig.take(k), kp) + orig.skip(
                            k + 1,
                        ));
                    }
                }
            }
        }
        proof {
            assert(orig.take(keep.len() as int) =~= orig);
            assert(orig.skip(keep.len() as int) =~= Seq::<T>::empty());
            assert(self@ =~= mask(orig, keep));
            assert(decides(input, old(self).model(), keep));
        }
    }
}

} // verus!
