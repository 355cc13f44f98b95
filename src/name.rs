//! Renaming a predicate for diagnostics.

use vstd::prelude::*;

use crate::predicate::Predicate;
use crate::reflection::{Child, Describe, Parameter, PredicateReflection};

verus! {

/// A predicate that evaluates as its inner one and carries a name of its own.
#[derive(Debug, Clone)]
pub struct NamePredicate<M> {
    inner: M,
    name: String,
}

impl<M> NamePredicate<M> {
    /// The wrapped predicate.
    pub closed spec fn inner(&self) -> M {
        self.inner
    }

    /// The name it carries.
    pub closed spec fn label(&self) -> Seq<char> {
        self.name@
    }

    /// Wrap `inner` under `name`.
    pub fn new(inner: M, name: &str) -> (r: Self)
        ensures
            r.inner() == inner,
            r.label() == name@,
    {
        NamePredicate { inner, name: name.to_owned() }
    }

    /// The name it carries.
    pub fn display_name(&self) -> (r: &str)
        ensures
            r@ == self.label(),
    {
        self.name.as_str()
    }
}

impl<M, Item: View + ?Sized> Predicate<Item> for NamePredicate<M> where M: Predicate<Item> {
    open spec fn holds(&self, item: Item::V) -> bool {
        self.inner().holds(item)
    }

    fn eval(&self, variable: &Item) -> (r: bool) {
        self.inner.eval(variable)
    }
}

impl<M: PredicateReflection> PredicateReflection for NamePredicate<M> {
    open spec fn parameter_list(&self) -> Seq<(Seq<char>, Seq<char>)> {
        Seq::empty()
    }

    fn parameters(&self) -> (r: Vec<Parameter>) {
        let r = Vec::new();
        proof {
            assert(r@.map_values(|p: Parameter| p@) =~= Seq::<(Seq<char>, Seq<char>)>::empty());
        }
        r
    }

    open spec fn child_list(&self) -> Seq<(Seq<char>, Seq<(Seq<char>, Seq<char>)>)> {
        seq![("predicate"@, self.inner().parameter_list())]
    }

    fn children(&self) -> (r: Vec<Child>) {
        let mut r = Vec::new();
        r.push(Child::new("predicate", self.inner.parameters()));
        proof {
            assert(r@.map_values(|c: Child| c@) =~= self.child_list());
        }
        r
    }
}

impl<M> Describe for NamePredicate<M> {
    open spec fn description(&self) -> Seq<char> {
        self.label()
    }

    fn describe(&self) -> (r: String) {
        self.name.clone()
    }
}

/// Naming, available on every predicate.
pub trait PredicateNameExt<Item: View + ?Sized>: Predicate<Item> + Sized {
    /// `self` under the name `name`.
    fn name(self, name: &str) -> (r: NamePredicate<Self>)
        ensures
            r.inner() == self,
            r.label() == name@,
    ;
}

impl<P: Predicate<Item>, Item: View + ?Sized> PredicateNameExt<Item> for P {
    fn name(self, name: &str) -> (r: NamePredicate<Self>) {
        NamePredicate::new(self, name)
    }
}

} // verus!
