//! Regular-expression predicates.

use vstd::prelude::*;

use crate::predicate::Predicate;
use crate::reflection::{Child, Describe, Parameter, PredicateReflection};
use crate::str::edits::{decimal, render_integer};

verus! {

#[verifier::external_type_specification]
#[verifier::external_body]
pub struct ExRegex(::regex::Regex);

#[verifier::external_type_specification]
#[verifier::external_body]
pub struct ExRegexError(::regex::Error);

/// Why a pattern could not be compiled.
pub type RegexError = ::regex::Error;

/// Whether the regex engine accepts `pattern`.
pub uninterp spec fn regex_compiles(pattern: Seq<char>) -> bool;

/// Whether the compiled `pattern` matches somewhere in `text`.
pub uninterp spec fn regex_finds(pattern: Seq<char>, text: Seq<char>) -> bool;

/// The number of successive non-overlapping matches of `pattern` in `text`.
pub uninterp spec fn regex_match_count(pattern: Seq<char>, text: Seq<char>) -> nat;

/// Relies on `regex::Regex::new`: it compiles `pattern`, or rejects it; which
/// depends on the pattern alone.
#[verifier::external_body]
fn compile(pattern: &str) -> (r: Result<::regex::Regex, RegexError>)
    ensures
        r.is_ok() == regex_compiles(pattern@),
{
    ::regex::Regex::new(pattern)
}

/// Relies on `regex::Regex::is_match` on a regex compiled from `p.pattern()`,
/// the only way a `RegexPredicate` is built.
#[verifier::external_body]
fn find_match(p: &RegexPredicate, text: &str) -> (r: bool)
    ensures
        r == regex_finds(p.pattern(), text@),
{
    p.re.is_match(text)
}

/// Relies on `regex::Regex::find_iter` on a regex compiled from `p.pattern()`,
/// the only way a `RegexMatchesPredicate` is built: the number of matches it
/// yields, which is positive exactly where `Regex::is_match` finds a match.
#[verifier::external_body]
fn count_matches(p: &RegexMatchesPredicate, text: &str) -> (r: usize)
    ensures
        r == regex_match_count(p.pattern(), text@),
        (r > 0) == regex_finds(p.pattern(), text@),
{
    p.re.find_iter(text).count()
}

/// A predicate that holds of strings in which a regular expression matches.
#[derive(Debug)]
pub struct RegexPredicate {
    re: ::regex::Regex,
    pattern: String,
}

impl RegexPredicate {
    /// The pattern the regex was compiled from.
    pub closed spec fn pattern(&self) -> Seq<char> {
        self.pattern@
    }

    /// Require exactly `count` matches instead of at least one.
    pub fn count(self, count: usize) -> (r: RegexMatchesPredicate)
        ensures
            r.pattern() == self.pattern(),
            r.expected() == count,
    {
        RegexMatchesPredicate { re: self.re, pattern: self.pattern, count }
    }
}

impl Predicate<str> for RegexPredicate {
    open spec fn holds(&self, item: Seq<char>) -> bool {
        regex_finds(self.pattern(), item)
    }

    fn eval(&self, variable: &str) -> (r: bool) {
        find_match(self, variable)
    }
}

impl PredicateReflection for RegexPredicate {
    open spec fn parameter_list(&self) -> Seq<(Seq<char>, Seq<char>)> {
        Seq::empty()
    }

    open spec fn child_list(&self) -> Seq<(Seq<char>, Seq<(Seq<char>, Seq<char>)>)> {
        Seq::empty()
    }

    fn parameters(&self) -> (r: Vec<Parameter>) {
        let r = Vec::new();
        proof {
            assert(r@.map_values(|p: Parameter| p@) =~= Seq::<(Seq<char>, Seq<char>)>::empty());
        }
        r
    }

    fn children(&self) -> (r: Vec<Child>) {
        let r = Vec::new();
        proof {
            assert(r@.map_values(|c: Child| c@) =~= self.child_list());
        }
        r
    }
}

/// A predicate that holds of strings with exactly a given number of matches.
#[derive(Debug)]
pub struct RegexMatchesPredicate {
    re: ::regex::Regex,
    pattern: String,
    count: usize,
}

impl RegexMatchesPredicate {
    /// The pattern the regex was compiled from.
    pub closed spec fn pattern(&self) -> Seq<char> {
        self.pattern@
    }

    /// The number of matches required.
    pub closed spec fn expected(&self) -> nat {
        self.count as nat
    }
}

impl Predicate<str> for RegexMatchesPredicate {
    open spec fn holds(&self, item: Seq<char>) -> bool {
        regex_match_count(self.pattern(), item) == self.expected()
    }

    fn eval(&self, variable: &str) -> (r: bool) {
        count_matches(self, variable) == self.count
    }
}

impl PredicateReflection for RegexMatchesPredicate {
    open spec fn parameter_list(&self) -> Seq<(Seq<char>, Seq<char>)> {
        Seq::empty()
    }

    open spec fn child_list(&self) -> Seq<(Seq<char>, Seq<(Seq<char>, Seq<char>)>)> {
        Seq::empty()
    }

    fn parameters(&self) -> (r: Vec<Parameter>) {
        let r = Vec::new();
        proof {
            assert(r@.map_values(|p: Parameter| p@) =~= Seq::<(Seq<char>, Seq<char>)>::empty());
        }
        r
    }

    fn children(&self) -> (r: Vec<Child>) {
        let r = Vec::new();
        proof {
            assert(r@.map_values(|c: Child| c@) =~= self.child_list());
        }
        r
    }
}

/// A predicate that holds where `pattern` matches; fails when the pattern does
/// not compile.
pub fn is_match(pattern: &str) -> (r: Result<RegexPredicate, RegexError>)
    ensures
        r.is_ok() == regex_compiles(pattern@),
        r matches Ok(p) ==> p.pattern() == pattern@,
{
    match compile(pattern) {
        Ok(re) => Ok(RegexPredicate { re, pattern: pattern.to_owned() }),
        Err(e) => Err(e),
    }
}

impl Describe for RegexPredicate {
    open spec fn description(&self) -> Seq<char> {
        "var.is_match("@ + self.pattern() + ")"@
    }

    fn describe(&self) -> (r: String) {
        let mut r = "var.is_match(".to_owned();
        r.append(self.pattern.as_str());
        r.append(")");
        r
    }
}

impl Describe for RegexMatchesPredicate {
    open spec fn description(&self) -> Seq<char> {
        "var.is_match("@ + self.pattern() + ").count("@ + decimal(self.expected()) + ")"@
    }

    fn describe(&self) -> (r: String) {
        let mut r = "var.is_match(".to_owned();
        r.append(self.pattern.as_str());
        r.append(").count(");
        r.append(render_integer(self.count as i128).as_str());
        r.append(")");
        proof {
            assert(r@ =~= "var.is_match("@ + self.pattern() + ").count("@ + decimal(self.expected()) + ")"@);
        }
        r
    }
}

} // verus!
