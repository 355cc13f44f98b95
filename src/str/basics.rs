//! Emptiness and substring tests.

use vstd::prelude::*;

use crate::predicate::Predicate;

verus! {

/// Relies on `str::starts_with`: whether `pattern` is a prefix of `s`.
#[verifier::external_body]
fn str_starts_with(s: &str, pattern: &str) -> (r: bool)
    ensures
        r == (pattern@.len() <= s@.len() && s@.subrange(0, pattern@.len() as int) == pattern@),
{
    s.starts_with(pattern)
}

/// Relies on `str::ends_with`: whether `pattern` is a suffix of `s`.
#[verifier::external_body]
fn str_ends_with(s: &str, pattern: &str) -> (r: bool)
    ensures
        r == (pattern@.len() <= s@.len() && s@.subrange(
            s@.len() - pattern@.len(),
            s@.len() as int,
        ) == pattern@),
{
    s.ends_with(pattern)
}

/// Whether `pattern` occurs in `s` at some position.
pub open spec fn occurs_in(pattern: Seq<char>, s: Seq<char>) -> bool {
    exists|i: int| 0 <= i <= s.len() - pattern.len() && #[trigger] s.subrange(i, i + pattern.len()) == pattern
}

/// Relies on `str::contains`: whether `pattern` occurs in `s`.
#[verifier::external_body]
fn str_contains(s: &str, pattern: &str) -> (r: bool)
    ensures
        r == occurs_in(pattern@, s@),
{
    s.contains(pattern)
}

/// A predicate that holds of the empty string.
#[derive(Debug, Clone, Copy)]
pub struct IsEmptyPredicate {}

impl Predicate<str> for IsEmptyPredicate {
    open spec fn holds(&self, item: Seq<char>) -> bool {
        item.len() == 0
    }

    fn eval(&self, variable: &str) -> (r: bool) {
        variable.is_empty()
    }
}

/// A predicate that holds of the empty string.
pub fn is_empty() -> (r: IsEmptyPredicate) {
    IsEmptyPredicate {}
}

/// Where a [`PatternPredicate`] looks for its pattern.
#[derive(Debug, Clone, Copy, PartialEq, Eq)]
pub enum PatternOp {
    StartsWith,
    EndsWith,
    Contains,
}

/// A predicate that looks for a pattern in a string.
#[derive(Debug, Clone)]
pub struct PatternPredicate {
    pattern: String,
    op: PatternOp,
}

impl PatternPredicate {
    /// The pattern looked for.
    pub closed spec fn pattern(&self) -> Seq<char> {
        self.pattern@
    }

    /// Where it is looked for.
    pub closed spec fn op(&self) -> PatternOp {
        self.op
    }
}

impl Predicate<str> for PatternPredicate {
    open spec fn holds(&self, item: Seq<char>) -> bool {
        let p = self.pattern();
        match self.op() {
            PatternOp::StartsWith => p.len() <= item.len() && item.subrange(0, p.len() as int) == p,
            PatternOp::EndsWith => p.len() <= item.len() && item.subrange(
                item.len() - p.len(),
                item.len() as int,
            ) == p,
            PatternOp::Contains => occurs_in(p, item),
        }
    }

    fn eval(&self, variable: &str) -> (r: bool) {
        match self.op {
            PatternOp::StartsWith => str_starts_with(variable, self.pattern.as_str()),
            PatternOp::EndsWith => str_ends_with(variable, self.pattern.as_str()),
            PatternOp::Contains => str_contains(variable, self.pattern.as_str()),
        }
    }
}

/// A predicate that holds of strings that begin with `pattern`.
pub fn starts_with(pattern: &str) -> (r: PatternPredicate)
    ensures
        r.pattern() == pattern@,
        r.op() == PatternOp::StartsWith,
{
    PatternPredicate { pattern: pattern.to_owned(), op: PatternOp::StartsWith }
}

/// A predicate that holds of strings that end with `pattern`.
pub fn ends_with(pattern: &str) -> (r: PatternPredicate)
    ensures
        r.pattern() == pattern@,
        r.op() == PatternOp::EndsWith,
{
    PatternPredicate { pattern: pattern.to_owned(), op: PatternOp::EndsWith }
}

/// A predicate that holds of strings in which `pattern` occurs.
pub fn contains(pattern: &str) -> (r: PatternPredicate)
    ensures
        r.pattern() == pattern@,
        r.op() == PatternOp::Contains,
{
    PatternPredicate { pattern: pattern.to_owned(), op: PatternOp::Contains }
}

} // verus!
