//! Comparison of strings with a constant string, by equality and by the
//! lexicographic order of their characters.

use std::cmp::Ordering;

use vstd::prelude::*;

use crate::ord::{ord_accepts, EqOps, OrdOps};
use crate::predicate::Predicate;

verus! {

/// The lexicographic order of `a` and `b`, character by character by code point;
/// a proper prefix comes first.
pub open spec fn lex_cmp(a: Seq<char>, b: Seq<char>) -> Ordering
    decreases a.len(),
{
    if a.len() == 0 {
        if b.len() == 0 { Ordering::Equal } else { Ordering::Less }
    } else if b.len() == 0 {
        Ordering::Greater
    } else if (a[0] as u32) < (b[0] as u32) {
        Ordering::Less
    } else if (a[0] as u32) > (b[0] as u32) {
        Ordering::Greater
    } else {
        lex_cmp(a.skip(1), b.skip(1))
    }
}

/// Compare `a` with `b` in the order of [`lex_cmp`].
pub fn compare_str(a: &str, b: &str) -> (r: Ordering)
    ensures
        r == lex_cmp(a@, b@),
{
    let n = a.unicode_len();
    let m = b.unicode_len();
    let mut i: usize = 0;
    proof {
        assert(a@.skip(0) =~= a@);
        assert(b@.skip(0) =~= b@);
    }
    while i < n && i < m
        invariant
            n == a@.len(),
            m == b@.len(),
            i <= n,
            i <= m,
            lex_cmp(a@, b@) == lex_cmp(a@.skip(i as int), b@.skip(i as int)),
        decreases n - i,
    {
        let x = a.get_char(i) as u32;
        let y = b.get_char(i) as u32;
        proof {
            assert(a@.skip(i as int)[0] == a@[i as int]);
            assert(b@.skip(i as int)[0] == b@[i as int]);
            assert(a@.skip(i as int).skip(1) =~= a@.skip(i + 1));
            assert(b@.skip(i as int).skip(1) =~= b@.skip(i + 1));
        }
        if x < y {
            return Ordering::Less;
        } else if x > y {
            return Ordering::Greater;
        }
        i = i + 1;
    }
    if i == n && i == m {
        Ordering::Equal
    } else if i == n {
        Ordering::Less
    } else {
        Ordering::Greater
    }
}

/// A predicate that compares its input string with a constant for equality.
#[derive(Debug, Clone)]
pub struct StrEqPredicate {
    constant: String,
    op: EqOps,
}

impl StrEqPredicate {
    /// The constant compared against.
    pub closed spec fn constant(&self) -> Seq<char> {
        self.constant@
    }

    /// The comparison made.
    pub closed spec fn op(&self) -> EqOps {
        self.op
    }
}

impl Predicate<str> for StrEqPredicate {
    open spec fn holds(&self, item: Seq<char>) -> bool {
        match self.op() {
            EqOps::Equal => item == self.constant(),
            EqOps::NotEqual => item != self.constant(),
        }
    }

    fn eval(&self, variable: &str) -> (r: bool) {
        let same = self.constant == variable.to_owned();
        match self.op {
            EqOps::Equal => same,
            EqOps::NotEqual => !same,
        }
    }
}

/// A predicate that holds of the string `constant`.
pub fn eq_str(constant: &str) -> (r: StrEqPredicate)
    ensures
        r.constant() == constant@,
        r.op() == EqOps::Equal,
{
    StrEqPredicate { constant: constant.to_owned(), op: EqOps::Equal }
}

/// A predicate that holds of every string but `constant`.
pub fn ne_str(constant: &str) -> (r: StrEqPredicate)
    ensures
        r.constant() == constant@,
        r.op() == EqOps::NotEqual,
{
    StrEqPredicate { constant: constant.to_owned(), op: EqOps::NotEqual }
}

/// A predicate that compares its input string with a constant in the order of
/// [`lex_cmp`].
#[derive(Debug, Clone)]
pub struct StrOrdPredicate {
    constant: String,
    op: OrdOps,
}

impl StrOrdPredicate {
    /// The constant compared against.
    pub closed spec fn constant(&self) -> Seq<char> {
        self.constant@
    }

    /// The comparison made.
    pub closed spec fn op(&self) -> OrdOps {
        self.op
    }
}

impl Predicate<str> for StrOrdPredicate {
    open spec fn holds(&self, item: Seq<char>) -> bool {
        ord_accepts(self.op(), Some(lex_cmp(item, self.constant())))
    }

    fn eval(&self, variable: &str) -> (r: bool) {
        let o = compare_str(variable, self.constant.as_str());
        match self.op {
            OrdOps::LessThan => matches!(o, Ordering::Less),
            OrdOps::LessThanOrEqual => !matches!(o, Ordering::Greater),
            OrdOps::GreaterThanOrEqual => !matches!(o, Ordering::Less),
            OrdOps::GreaterThan => matches!(o, Ordering::Greater),
        }
    }
}

/// A predicate that holds of strings before `constant`.
pub fn lt_str(constant: &str) -> (r: StrOrdPredicate)
    ensures
        r.constant() == constant@,
        r.op() == OrdOps::LessThan,
{
    StrOrdPredicate { constant: constant.to_owned(), op: OrdOps::LessThan }
}

/// A predicate that holds of strings before or equal to `constant`.
pub fn le_str(constant: &str) -> (r: StrOrdPredicate)
    ensures
        r.constant() == constant@,
        r.op() == OrdOps::LessThanOrEqual,
{
    StrOrdPredicate { constant: constant.to_owned(), op: OrdOps::LessThanOrEqual }
}

/// A predicate that holds of strings after or equal to `constant`.
pub fn ge_str(constant: &str) -> (r: StrOrdPredicate)
    ensures
        r.constant() == constant@,
        r.op() == OrdOps::GreaterThanOrEqual,
{
    StrOrdPredicate { constant: constant.to_owned(), op: OrdOps::GreaterThanOrEqual }
}

/// A predicate that holds of strings after `constant`.
pub fn gt_str(constant: &str) -> (r: StrOrdPredicate)
    ensures
        r.constant() == constant@,
        r.op() == OrdOps::GreaterThan,
{
    StrOrdPredicate { constant: constant.to_owned(), op: OrdOps::GreaterThan }
}

} // verus!
