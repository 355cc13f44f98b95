//! Line-ending normalisation before a string predicate.

use vstd::prelude::*;

use crate::predicate::Predicate;
use crate::reflection::{Child, Parameter, PredicateReflection};

verus! {

/// `s` with each CR LF pair and each lone CR replaced by LF.
pub open spec fn normalized_newlines(s: Seq<char>) -> Seq<char>
    decreases s.len(),
{
    if s.len() == 0 {
        Seq::empty()
    } else if s[0] == '\r' {
        if s.len() > 1 && s[1] == '\n' {
            seq!['\n'] + normalized_newlines(s.skip(2))
        } else {
            seq!['\n'] + normalized_newlines(s.skip(1))
        }
    } else {
        seq![s[0]] + normalized_newlines(s.skip(1))
    }
}

/// Relies on `normalize_line_endings::normalized`: CR LF and lone CR become LF,
/// every other character is kept in order.
#[verifier::external_body]
fn normalize_newlines(s: &str) -> (r: String)
    ensures
        r@ == normalized_newlines(s@),
{
    normalize_line_endings::normalized(s.chars()).collect()
}

/// A predicate that evaluates its inner one on the input with line endings
/// normalised to LF.
#[derive(Debug, Clone, Copy)]
pub struct NormalizedPredicate<P> {
    p: P,
}

impl<P> NormalizedPredicate<P> {
    /// Wrap `p`.
    pub fn new(p: P) -> (r: Self)
        ensures
            r.inner() == p,
    {
        NormalizedPredicate { p }
    }

    /// The predicate applied to the normalised input.
    pub closed spec fn inner(&self) -> P {
        self.p
    }
}

impl<P: Predicate<str>> Predicate<str> for NormalizedPredicate<P> {
    open spec fn holds(&self, item: Seq<char>) -> bool {
        self.inner().holds(normalized_newlines(item))
    }

    fn eval(&self, variable: &str) -> (r: bool) {
        let s = normalize_newlines(variable);
        self.p.eval(s.as_str())
    }
}

impl<P> PredicateReflection for NormalizedPredicate<P> {
    open spec fn parameter_list(&self) -> Seq<(Seq<char>, Seq<char>)> {
        Seq::empty()
    }

    open spec fn child_list(&self) -> Seq<(Seq<char>, Seq<(Seq<char>, Seq<char>)>)> {
        Seq::empty()
    }

    fn parameters(&self) -> (r: Vec<Parameter>) {
        let r = Vec::new();
        proof {
            assert(r@.map_values(|p: Parameter| p@) =~= Seq::<(Seq<char>, Seq<char>)>::empty());
        }
        r
    }

    fn children(&self) -> (r: Vec<Child>) {
        let r = Vec::new();
        proof {
            assert(r@.map_values(|c: Child| c@) =~= self.child_list());
        }
        r
    }
}

} // verus!
