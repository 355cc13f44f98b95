//! Predicates that ignore their input.

use std::marker::PhantomData;

use vstd::prelude::*;

use crate::predicate::Predicate;
use crate::reflection::{Child, Describe, Parameter, PredicateReflection};

verus! {

/// A predicate that returns the same value for every input.
#[derive(Debug)]
pub struct BooleanPredicate<Item: ?Sized> {
    retval: bool,
    _phantom: PhantomData<Item>,
}

impl<Item: ?Sized> BooleanPredicate<Item> {
    /// The value returned for every input.
    pub closed spec fn value(&self) -> bool {
        self.retval
    }
}

impl<Item: View + ?Sized> Predicate<Item> for BooleanPredicate<Item> {
    open spec fn holds(&self, item: Item::V) -> bool {
        self.value()
    }

    fn eval(&self, variable: &Item) -> (r: bool) {
        self.retval
    }
}

impl<Item: ?Sized> PredicateReflection for BooleanPredicate<Item> {
    open spec fn child_list(&self) -> Seq<(Seq<char>, Seq<(Seq<char>, Seq<char>)>)> {
        Seq::empty()
    }

    open spec fn parameter_list(&self) -> Seq<(Seq<char>, Seq<char>)> {
        seq![("value"@, if self.value() { "true"@ } else { "false"@ })]
    }

    fn parameters(&self) -> (r: Vec<Parameter>) {
        let mut r = Vec::new();
        r.push(Parameter::new("value", if self.retval { "true" } else { "false" }));
        proof {
            assert(r@.map_values(|p: Parameter| p@) =~= self.parameter_list());
        }
        r
    }

    fn children(&self) -> (r: Vec<Child>) {
        let r = Vec::new();
        proof {
            assert(r@.map_values(|c: Child| c@) =~= self.child_list());
        }
        r
    }
}

/// A predicate that holds of every value.
pub fn always<Item: ?Sized>() -> (r: BooleanPredicate<Item>)
    ensures
        r.value(),
{
    BooleanPredicate { retval: true, _phantom: PhantomData }
}

/// A predicate that holds of no value.
pub fn never<Item: ?Sized>() -> (r: BooleanPredicate<Item>)
    ensures
        !r.value(),
{
    BooleanPredicate { retval: false, _phantom: PhantomData }
}

impl<Item: ?Sized> Describe for BooleanPredicate<Item> {
    open spec fn description(&self) -> Seq<char> {
        if self.value() { "true"@ } else { "false"@ }
    }

    fn describe(&self) -> (r: String) {
        if self.retval { "true".to_owned() } else { "false".to_owned() }
    }
}

} // verus!
