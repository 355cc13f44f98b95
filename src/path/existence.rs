//! Whether a path exists.

use vstd::prelude::*;

use crate::reflection::{Child, Describe, Parameter, PredicateReflection};

verus! {

/// A predicate on whether a path exists.
#[derive(Debug, Clone, Copy, PartialEq, Eq)]
pub struct ExistencePredicate {
    exists: bool,
}

impl ExistencePredicate {
    /// Whether the path is required to exist.
    pub closed spec fn wants_existing(&self) -> bool {
        self.exists
    }

    /// The outcome for a path whose existence on disk is `found`.
    pub fn eval_found(&self, found: bool) -> (r: bool)
        ensures
            r == (found == self.wants_existing()),
    {
        found == self.exists
    }
}

impl PredicateReflection for ExistencePredicate {
    open spec fn parameter_list(&self) -> Seq<(Seq<char>, Seq<char>)> {
        Seq::empty()
    }

    open spec fn child_list(&self) -> Seq<(Seq<char>, Seq<(Seq<char>, Seq<char>)>)> {
        Seq::empty()
    }

    fn parameters(&self) -> (r: Vec<Parameter>) {
        let r = Vec::new();
        proof {
            assert(r@.map_values(|p: Parameter| p@) =~= Seq::<(Seq<char>, Seq<char>)>::empty());
        }
        r
    }

    fn children(&self) -> (r: Vec<Child>) {
        let r = Vec::new();
        proof {
            assert(r@.map_values(|c: Child| c@) =~= self.child_list());
        }
        r
    }
}

/// A predicate that holds of paths that exist.
pub fn path_exists() -> (r: ExistencePredicate)
    ensures
        r.wants_existing(),
{
    ExistencePredicate { exists: true }
}

/// A predicate that holds of paths that do not exist.
pub fn missing() -> (r: ExistencePredicate)
    ensures
        !r.wants_existing(),
{
    ExistencePredicate { exists: false }
}

impl Describe for ExistencePredicate {
    open spec fn description(&self) -> Seq<char> {
        if self.wants_existing() { "exists(var)"@ } else { "missing(var)"@ }
    }

    fn describe(&self) -> (r: String) {
        if self.exists { "exists(var)".to_owned() } else { "missing(var)".to_owned() }
    }
}

} // verus!
