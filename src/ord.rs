//! Comparison with a constant: equality and ordering.

use vstd::laws_eq::obeys_view_eq;
use vstd::prelude::*;
use vstd::std_specs::cmp::PartialOrdSpec;

use crate::predicate::Predicate;

verus! {

/// The comparison an [`EqPredicate`] makes.
#[derive(Debug, Clone, Copy, PartialEq, Eq)]
pub enum EqOps {
    Equal,
    NotEqual,
}

impl EqOps {
    /// The operator, as written in an expression.
    pub fn symbol(self) -> (r: &'static str)
        ensures
            r@ == (match self {
                EqOps::Equal => "=="@,
                EqOps::NotEqual => "!="@,
            }),
    {
        match self {
            EqOps::Equal => "==",
            EqOps::NotEqual => "!=",
        }
    }
}

/// A predicate that compares its input with a constant for equality.
///
/// Equality goes by the values' views.
#[derive(Debug)]
pub struct EqPredicate<T: PartialEq + View> {
    constant: T,
    op: EqOps,
}

impl<T: PartialEq + View> EqPredicate<T> {
    #[verifier::type_invariant]
    closed spec fn inv(&self) -> bool {
        obeys_view_eq::<T>()
    }

    /// The constant compared against.
    pub closed spec fn constant(&self) -> T::V {
        self.constant@
    }

    /// The comparison made.
    pub closed spec fn op(&self) -> EqOps {
        self.op
    }

    /// The constant compared against.
    pub fn constant_value(&self) -> (r: &T)
        ensures
            r@ == self.constant(),
    {
        &self.constant
    }

    /// The comparison made.
    pub fn operator(&self) -> (r: EqOps)
        ensures
            r == self.op(),
    {
        self.op
    }
}

impl<T: PartialEq + View> Predicate<T> for EqPredicate<T> {
    open spec fn holds(&self, item: T::V) -> bool {
        match self.op() {
            EqOps::Equal => item == self.constant(),
            EqOps::NotEqual => item != self.constant(),
        }
    }

    fn eval(&self, variable: &T) -> (r: bool) {
        proof {
            use_type_invariant(self);
            reveal(obeys_view_eq);
        }
        match self.op {
            EqOps::Equal => variable.eq(&self.constant),
            EqOps::NotEqual => !variable.eq(&self.constant),
        }
    }
}

/// A predicate that holds of values equal to `constant`.
pub fn eq<T: PartialEq + View>(constant: T) -> (r: EqPredicate<T>)
    requires
        obeys_view_eq::<T>(),
    ensures
        r.constant() == constant@,
        r.op() == EqOps::Equal,
{
    EqPredicate { constant, op: EqOps::Equal }
}

/// A predicate that holds of values not equal to `constant`.
pub fn ne<T: PartialEq + View>(constant: T) -> (r: EqPredicate<T>)
    requires
        obeys_view_eq::<T>(),
    ensures
        r.constant() == constant@,
        r.op() == EqOps::NotEqual,
{
    EqPredicate { constant, op: EqOps::NotEqual }
}

/// The comparison an [`OrdPredicate`] makes.
#[derive(Debug, Clone, Copy, PartialEq, Eq)]
pub enum OrdOps {
    LessThan,
    LessThanOrEqual,
    GreaterThanOrEqual,
    GreaterThan,
}

/// Whether `o`, the outcome of comparing an input with the constant, satisfies `op`.
pub open spec fn ord_accepts(op: OrdOps, o: Option<std::cmp::Ordering>) -> bool {
    match op {
        OrdOps::LessThan => o == Some(std::cmp::Ordering::Less),
        OrdOps::LessThanOrEqual => o == Some(std::cmp::Ordering::Less) || o == Some(
            std::cmp::Ordering::Equal,
        ),
        OrdOps::GreaterThanOrEqual => o == Some(std::cmp::Ordering::Greater) || o == Some(
            std::cmp::Ordering::Equal,
        ),
        OrdOps::GreaterThan => o == Some(std::cmp::Ordering::Greater),
    }
}

impl OrdOps {
    /// The operator, as written in an expression.
    pub fn symbol(self) -> (r: &'static str)
        ensures
            r@ == (match self {
                OrdOps::LessThan => "<"@,
                OrdOps::LessThanOrEqual => "<="@,
                OrdOps::GreaterThanOrEqual => ">="@,
                OrdOps::GreaterThan => ">"@,
            }),
    {
        match self {
            OrdOps::LessThan => "<",
            OrdOps::LessThanOrEqual => "<=",
            OrdOps::GreaterThanOrEqual => ">=",
            OrdOps::GreaterThan => ">",
        }
    }
}

/// `T`'s comparison follows its specification and looks at views only.
pub open spec fn ordered_by_view<T: PartialOrd + View>() -> bool {
    &&& T::obeys_partial_cmp_spec()
    &&& forall|a: T, b: T, c: T|
        a@ == b@ ==> #[trigger] a.partial_cmp_spec(&c) == #[trigger] b.partial_cmp_spec(&c)
}

/// A predicate that compares its input with a constant by order.
#[derive(Debug)]
pub struct OrdPredicate<T: PartialOrd + View> {
    constant: T,
    op: OrdOps,
}

impl<T: PartialOrd + View> OrdPredicate<T> {
    #[verifier::type_invariant]
    closed spec fn inv(&self) -> bool {
        ordered_by_view::<T>()
    }

    /// The constant compared against.
    pub closed spec fn constant(&self) -> T {
        self.constant
    }

    /// The comparison made.
    pub closed spec fn op(&self) -> OrdOps {
        self.op
    }

    /// The constant compared against.
    pub fn constant_value(&self) -> (r: &T)
        ensures
            *r == self.constant(),
    {
        &self.constant
    }

    /// The comparison made.
    pub fn operator(&self) -> (r: OrdOps)
        ensures
            r == self.op(),
    {
        self.op
    }

    fn new(constant: T, op: OrdOps) -> (r: Self)
        requires
            ordered_by_view::<T>(),
        ensures
            r.constant() == constant,
            r.op() == op,
    {
        OrdPredicate { constant, op }
    }
}

impl<T: PartialOrd + View> Predicate<T> for OrdPredicate<T> {
    open spec fn holds(&self, item: T::V) -> bool {
        exists|t: T| t@ == item && ord_accepts(self.op(), #[trigger] t.partial_cmp_spec(&self.constant()))
    }

    fn eval(&self, variable: &T) -> (r: bool) {
        proof {
            use_type_invariant(self);
        }
        let r = match self.op {
            OrdOps::LessThan => variable.lt(&self.constant),
            OrdOps::LessThanOrEqual => variable.le(&self.constant),
            OrdOps::GreaterThanOrEqual => variable.ge(&self.constant),
            OrdOps::GreaterThan => variable.gt(&self.constant),
        };
        proof {
            let c = self.constant;
            assert(r == ord_accepts(self.op, variable.partial_cmp_spec(&c)));
            if r {
                let t: T = *variable;
                assert(t@ == variable@ && ord_accepts(self.op(), t.partial_cmp_spec(&self.constant())));
            } else {
                assert forall|t: T| t@ == variable@ implies !ord_accepts(
                    self.op,
                    #[trigger] t.partial_cmp_spec(&c),
                ) by {
                    assert(t.partial_cmp_spec(&c) == variable.partial_cmp_spec(&c));
                }
            }
        }
        r
    }
}

/// A predicate that holds of values less than `constant`.
pub fn lt<T: PartialOrd + View>(constant: T) -> (r: OrdPredicate<T>)
    requires
        ordered_by_view::<T>(),
    ensures
        r.constant() == constant,
        r.op() == OrdOps::LessThan,
{
    OrdPredicate::new(constant, OrdOps::LessThan)
}

/// A predicate that holds of values less than or equal to `constant`.
pub fn le<T: PartialOrd + View>(constant: T) -> (r: OrdPredicate<T>)
    requires
        ordered_by_view::<T>(),
    ensures
        r.constant() == constant,
        r.op() == OrdOps::LessThanOrEqual,
{
    OrdPredicate::new(constant, OrdOps::LessThanOrEqual)
}

/// A predicate that holds of values greater than or equal to `constant`.
pub fn ge<T: PartialOrd + View>(constant: T) -> (r: OrdPredicate<T>)
    requires
        ordered_by_view::<T>(),
    ensures
        r.constant() == constant,
        r.op() == OrdOps::GreaterThanOrEqual,
{
    OrdPredicate::new(constant, OrdOps::GreaterThanOrEqual)
}

/// A predicate that holds of values greater than `constant`.
pub fn gt<T: PartialOrd + View>(constant: T) -> (r: OrdPredicate<T>)
    requires
        ordered_by_view::<T>(),
    ensures
        r.constant() == constant,
        r.op() == OrdOps::GreaterThan,
{
    OrdPredicate::new(constant, OrdOps::GreaterThan)
}

} // verus!
