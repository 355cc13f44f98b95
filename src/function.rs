//! Predicates made from a function.

use std::marker::PhantomData;

use vstd::prelude::*;

use crate::predicate::Predicate;
use crate::reflection::{Child, Describe, Parameter, PredicateReflection};

verus! {

/// `f` can be called on every value, and its contract fixes its result from the
/// value's view alone: a pure function of the view.
pub open spec fn pure_on_views<F: Fn(&T) -> bool, T: View>(f: F) -> bool {
    &&& forall|t: &T| #[trigger] f.requires((t,))
    &&& forall|t1: &T, t2: &T, r1: bool, r2: bool|
        t1@ == t2@ && #[trigger] f.ensures((t1,), r1) && #[trigger] f.ensures((t2,), r2) ==> r1 == r2
}

/// A predicate that calls a function, shown under a name.
pub struct FnPredicate<F: Fn(&T) -> bool, T: View> {
    function: F,
    name: String,
    _phantom: PhantomData<T>,
}

impl<F: Fn(&T) -> bool, T: View> FnPredicate<F, T> {
    #[verifier::type_invariant]
    closed spec fn inv(&self) -> bool {
        pure_on_views(self.function)
    }

    /// The function called.
    pub closed spec fn function(&self) -> F {
        self.function
    }

    /// The name shown for the function.
    pub closed spec fn label(&self) -> Seq<char> {
        self.name@
    }

    /// The same predicate, shown under `name`.
    pub fn fn_name(self, name: &str) -> (r: Self)
        ensures
            r.function() == self.function(),
            r.label() == name@,
    {
        proof {
            use_type_invariant(&self);
        }
        FnPredicate { function: self.function, name: name.to_owned(), _phantom: PhantomData }
    }

    /// The name shown for the function.
    pub fn display_name(&self) -> (r: &str)
        ensures
            r@ == self.label(),
    {
        self.name.as_str()
    }
}

impl<F: Fn(&T) -> bool, T: View> Predicate<T> for FnPredicate<F, T> {
    open spec fn holds(&self, item: T::V) -> bool {
        exists|t: &T| t@ == item && #[trigger] self.function().ensures((t,), true)
    }

    fn eval(&self, variable: &T) -> (r: bool) {
        proof {
            use_type_invariant(self);
        }
        let r = (self.function)(variable);
        proof {
            if r {
                assert(self.function().ensures((variable,), true));
            } else {
                assert forall|t: &T| t@ == variable@ implies !#[trigger] self.function().ensures((t,), true) by {
                    if self.function().ensures((t,), true) {
                        assert(self.function.ensures((variable,), false));
                    }
                }
            }
        }
        r
    }
}

impl<F: Fn(&T) -> bool, T: View> PredicateReflection for FnPredicate<F, T> {
    open spec fn parameter_list(&self) -> Seq<(Seq<char>, Seq<char>)> {
        Seq::empty()
    }

    open spec fn child_list(&self) -> Seq<(Seq<char>, Seq<(Seq<char>, Seq<char>)>)> {
        Seq::empty()
    }

    fn parameters(&self) -> (r: Vec<Parameter>) {
        let r = Vec::new();
        proof {
            assert(r@.map_values(|p: Parameter| p@) =~= Seq::<(Seq<char>, Seq<char>)>::empty());
        }
        r
    }

    fn children(&self) -> (r: Vec<Child>) {
        let r = Vec::new();
        proof {
            assert(r@.map_values(|c: Child| c@) =~= self.child_list());
        }
        r
    }
}

/// A predicate that holds where `function` returns true; shown as `fn` until
/// renamed.
pub fn function<F: Fn(&T) -> bool, T: View>(f: F) -> (r: FnPredicate<F, T>)
    requires
        pure_on_views(f),
    ensures
        r.function() == f,
        r.label() == "fn"@,
{
    FnPredicate { function: f, name: "fn".to_owned(), _phantom: PhantomData }
}

impl<F: Fn(&T) -> bool, T: View> Describe for FnPredicate<F, T> {
    open spec fn description(&self) -> Seq<char> {
        self.label() + "(var)"@
    }

    fn describe(&self) -> (r: String) {
        let mut r = self.name.clone();
        r.append("(var)");
        r
    }
}

} // verus!
