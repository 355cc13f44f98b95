//! Evaluating a predicate on a value derived from the input.

use std::marker::PhantomData;

use vstd::prelude::*;

use crate::predicate::Predicate;

verus! {

/// `f` can be called on every value, and its contract fixes the view of its
/// result from the view of its argument alone.
pub open spec fn maps_views<F: Fn(&T) -> U, T: View, U: View>(f: F) -> bool {
    &&& forall|t: &T| #[trigger] f.requires((t,))
    &&& forall|t1: &T, t2: &T, u1: U, u2: U|
        t1@ == t2@ && #[trigger] f.ensures((t1,), u1) && #[trigger] f.ensures((t2,), u2) ==> u1@ == u2@
}

/// A predicate that applies `transform` to its input and evaluates `inner` on
/// the result.
#[verifier::reject_recursive_types(T)]
#[verifier::reject_recursive_types(U)]
pub struct MapPredicate<P, F: Fn(&T) -> U, T: View, U: View> {
    inner: P,
    transform: F,
    _phantom: PhantomData<(T, U)>,
}

impl<P, F: Fn(&T) -> U, T: View, U: View> MapPredicate<P, F, T, U> {
    #[verifier::type_invariant]
    closed spec fn inv(&self) -> bool {
        maps_views(self.transform)
    }

    /// The predicate evaluated on the transformed input.
    pub closed spec fn inner(&self) -> P {
        self.inner
    }

    /// The transformation.
    pub closed spec fn transform(&self) -> F {
        self.transform
    }
}

impl<P: Predicate<U>, F: Fn(&T) -> U, T: View, U: View> Predicate<T> for MapPredicate<P, F, T, U> {
    open spec fn holds(&self, item: T::V) -> bool {
        exists|t: &T, u: U| t@ == item && #[trigger] self.transform().ensures((t,), u) && self.inner().holds(u@)
    }

    fn eval(&self, variable: &T) -> (r: bool) {
        proof {
            use_type_invariant(self);
        }
        let u = (self.transform)(variable);
        let r = self.inner.eval(&u);
        proof {
            if r {
                assert(self.transform().ensures((variable,), u));
            } else {
                assert forall|t: &T, w: U| t@ == variable@ && #[trigger] self.transform().ensures((t,), w)
                    implies !self.inner().holds(w@) by {
                    assert(self.transform.ensures((variable,), u));
                    assert(w@ == u@);
                }
            }
        }
        r
    }
}

/// A predicate that holds where `predicate` holds of `transform` applied to the input.
pub fn map<P: Predicate<U>, F: Fn(&T) -> U, T: View, U: View>(transform: F, predicate: P) -> (r: MapPredicate<P, F, T, U>)
    requires
        maps_views(transform),
    ensures
        r.inner() == predicate,
        r.transform() == transform,
{
    MapPredicate { inner: predicate, transform, _phantom: PhantomData }
}

} // verus!
