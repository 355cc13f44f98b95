//! The capability that every predicate offers.

use vstd::prelude::*;

use crate::reflection::Case;

verus! {

/// The word that reports an outcome: `"PASSED"` or `"FAILED"`.
pub fn pass_fail(b: bool) -> (r: &'static str)
    ensures
        r@ == (if b { "PASSED"@ } else { "FAILED"@ }),
{
    if b {
        "PASSED"
    } else {
        "FAILED"
    }
}

/// A boolean-valued function of one argument.
///
/// `holds` says, over the item's view, which values the predicate accepts;
/// `eval` computes it.
pub trait Predicate<Item: View + ?Sized> {
    /// The values of which this predicate holds.
    spec fn holds(&self, item: Item::V) -> bool;

    /// Execute this predicate against `variable`.
    fn eval(&self, variable: &Item) -> (r: bool)
        ensures
            r == self.holds(variable@),
    ;

    /// Evaluate `variable` and explain the outcome when it is `expected`.
    fn find_case(&self, expected: bool, variable: &Item) -> (r: Option<Case>)
        ensures
            r.is_some() <==> self.holds(variable@) == expected,
            r matches Some(c) ==> c.result() == expected,
    {
        let result = self.eval(variable);
        if result == expected {
            Some(Case::new(result))
        } else {
            None
        }
    }
}

} // verus!
