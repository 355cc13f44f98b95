//! Boolean logic over predicates: `and`, `or` and `not`, and the laws that
//! relate them.

use vstd::prelude::*;

use crate::predicate::Predicate;
use crate::reflection::{Child, Describe, Parameter, PredicateReflection};

verus! {

/// The conjunction of two predicates; the right one is evaluated only where the
/// left one holds.
#[derive(Debug, Clone)]
pub struct AndPredicate<M1, M2> {
    a: M1,
    b: M2,
}

impl<M1, M2> AndPredicate<M1, M2> {
    /// The conjunction of `a` and `b`, as a value.
    pub closed spec fn of(a: M1, b: M2) -> Self {
        AndPredicate { a, b }
    }

    /// The left operand.
    pub closed spec fn left(&self) -> M1 {
        self.a
    }

    /// The right operand.
    pub closed spec fn right(&self) -> M2 {
        self.b
    }

    /// The left operand.
    pub fn left_operand(&self) -> (r: &M1)
        ensures
            *r == self.left(),
    {
        &self.a
    }

    /// The right operand.
    pub fn right_operand(&self) -> (r: &M2)
        ensures
            *r == self.right(),
    {
        &self.b
    }

    /// Create the conjunction of `a` and `b`.
    pub fn new(a: M1, b: M2) -> (r: Self)
        ensures
            r == Self::of(a, b),
            r.left() == a,
            r.right() == b,
    {
        AndPredicate { a, b }
    }
}

impl<M1, M2, Item: View + ?Sized> Predicate<Item> for AndPredicate<M1, M2> where
    M1: Predicate<Item>,
    M2: Predicate<Item>,
 {
    open spec fn holds(&self, item: Item::V) -> bool {
        self.left().holds(item) && self.right().holds(item)
    }

    fn eval(&self, variable: &Item) -> (r: bool) {
        self.a.eval(variable) && self.b.eval(variable)
    }
}

impl<M1: PredicateReflection, M2: PredicateReflection> PredicateReflection for AndPredicate<M1, M2> {
    open spec fn parameter_list(&self) -> Seq<(Seq<char>, Seq<char>)> {
        Seq::empty()
    }

    fn parameters(&self) -> (r: Vec<Parameter>) {
        let r = Vec::new();
        proof {
            assert(r@.map_values(|p: Parameter| p@) =~= Seq::<(Seq<char>, Seq<char>)>::empty());
        }
        r
    }

    open spec fn child_list(&self) -> Seq<(Seq<char>, Seq<(Seq<char>, Seq<char>)>)> {
        seq![("left"@, self.left().parameter_list()), ("right"@, self.right().parameter_list())]
    }

    fn children(&self) -> (r: Vec<Child>) {
        let mut r = Vec::new();
        r.push(Child::new("left", self.a.parameters()));
        r.push(Child::new("right", self.b.parameters()));
        proof {
            assert(r@.map_values(|c: Child| c@) =~= self.child_list());
        }
        r
    }
}

/// The disjunction of two predicates; the right one is evaluated only where the
/// left one fails.
#[derive(Debug, Clone)]
pub struct OrPredicate<M1, M2> {
    a: M1,
    b: M2,
}

impl<M1, M2> OrPredicate<M1, M2> {
    /// The disjunction of `a` and `b`, as a value.
    pub closed spec fn of(a: M1, b: M2) -> Self {
        OrPredicate { a, b }
    }

    /// The left operand.
    pub closed spec fn left(&self) -> M1 {
        self.a
    }

    /// The right operand.
    pub closed spec fn right(&self) -> M2 {
        self.b
    }

    /// The left operand.
    pub fn left_operand(&self) -> (r: &M1)
        ensures
            *r == self.left(),
    {
        &self.a
    }

    /// The right operand.
    pub fn right_operand(&self) -> (r: &M2)
        ensures
            *r == self.right(),
    {
        &self.b
    }

    /// Create the disjunction of `a` and `b`.
    pub fn new(a: M1, b: M2) -> (r: Self)
        ensures
            r == Self::of(a, b),
            r.left() == a,
            r.right() == b,
    {
        OrPredicate { a, b }
    }
}

impl<M1, M2, Item: View + ?Sized> Predicate<Item> for OrPredicate<M1, M2> where
    M1: Predicate<Item>,
    M2: Predicate<Item>,
 {
    open spec fn holds(&self, item: Item::V) -> bool {
        self.left().holds(item) || self.right().holds(item)
    }

    fn eval(&self, variable: &Item) -> (r: bool) {
        self.a.eval(variable) || self.b.eval(variable)
    }
}

impl<M1: PredicateReflection, M2: PredicateReflection> PredicateReflection for OrPredicate<M1, M2> {
    open spec fn parameter_list(&self) -> Seq<(Seq<char>, Seq<char>)> {
        Seq::empty()
    }

    fn parameters(&self) -> (r: Vec<Parameter>) {
        let r = Vec::new();
        proof {
            assert(r@.map_values(|p: Parameter| p@) =~= Seq::<(Seq<char>, Seq<char>)>::empty());
        }
        r
    }

    open spec fn child_list(&self) -> Seq<(Seq<char>, Seq<(Seq<char>, Seq<char>)>)> {
        seq![("left"@, self.left().parameter_list()), ("right"@, self.right().parameter_list())]
    }

    fn children(&self) -> (r: Vec<Child>) {
        let mut r = Vec::new();
        r.push(Child::new("left", self.a.parameters()));
        r.push(Child::new("right", self.b.parameters()));
        proof {
            assert(r@.map_values(|c: Child| c@) =~= self.child_list());
        }
        r
    }
}

/// The negation of a predicate.
#[derive(Debug, Clone)]
pub struct NotPredicate<M> {
    inner: M,
}

impl<M> NotPredicate<M> {
    /// The negation of `inner`, as a value.
    pub closed spec fn of(inner: M) -> Self {
        NotPredicate { inner }
    }

    /// The negated operand.
    pub closed spec fn operand(&self) -> M {
        self.inner
    }

    /// The negated operand.
    pub fn operand_ref(&self) -> (r: &M)
        ensures
            *r == self.operand(),
    {
        &self.inner
    }

    /// Create the negation of `inner`.
    pub fn new(inner: M) -> (r: Self)
        ensures
            r == Self::of(inner),
            r.operand() == inner,
    {
        NotPredicate { inner }
    }
}

impl<M, Item: View + ?Sized> Predicate<Item> for NotPredicate<M> where M: Predicate<Item> {
    open spec fn holds(&self, item: Item::V) -> bool {
        !self.operand().holds(item)
    }

    fn eval(&self, variable: &Item) -> (r: bool) {
        !self.inner.eval(variable)
    }
}

impl<M: PredicateReflection> PredicateReflection for NotPredicate<M> {
    open spec fn parameter_list(&self) -> Seq<(Seq<char>, Seq<char>)> {
        Seq::empty()
    }

    fn parameters(&self) -> (r: Vec<Parameter>) {
        let r = Vec::new();
        proof {
            assert(r@.map_values(|p: Parameter| p@) =~= Seq::<(Seq<char>, Seq<char>)>::empty());
        }
        r
    }

    open spec fn child_list(&self) -> Seq<(Seq<char>, Seq<(Seq<char>, Seq<char>)>)> {
        seq![("predicate"@, self.operand().parameter_list())]
    }

    fn children(&self) -> (r: Vec<Child>) {
        let mut r = Vec::new();
        r.push(Child::new("predicate", self.inner.parameters()));
        proof {
            assert(r@.map_values(|c: Child| c@) =~= self.child_list());
        }
        r
    }
}

impl<M1: Describe, M2: Describe> Describe for AndPredicate<M1, M2> {
    open spec fn description(&self) -> Seq<char> {
        "("@ + self.left().description() + " && "@ + self.right().description() + ")"@
    }

    fn describe(&self) -> (r: String) {
        let mut r = "(".to_owned();
        r.append(self.a.describe().as_str());
        r.append(" && ");
        r.append(self.b.describe().as_str());
        r.append(")");
        r
    }
}

impl<M1: Describe, M2: Describe> Describe for OrPredicate<M1, M2> {
    open spec fn description(&self) -> Seq<char> {
        "("@ + self.left().description() + " || "@ + self.right().description() + ")"@
    }

    fn describe(&self) -> (r: String) {
        let mut r = "(".to_owned();
        r.append(self.a.describe().as_str());
        r.append(" || ");
        r.append(self.b.describe().as_str());
        r.append(")");
        r
    }
}

impl<M: Describe> Describe for NotPredicate<M> {
    open spec fn description(&self) -> Seq<char> {
        "(! "@ + self.operand().description() + ")"@
    }

    fn describe(&self) -> (r: String) {
        let mut r = "(! ".to_owned();
        r.append(self.inner.describe().as_str());
        r.append(")");
        r
    }
}

/// Boolean combinators, available on every predicate.
pub trait PredicateBooleanExt<Item: View + ?Sized>: Predicate<Item> + Sized {
    /// The predicate that holds where both `self` and `other` hold.
    fn and<B: Predicate<Item>>(self, other: B) -> (r: AndPredicate<Self, B>)
        ensures
            r == AndPredicate::of(self, other),
            r.left() == self,
            r.right() == other,
    ;

    /// The predicate that holds where `self` or `other` holds.
    fn or<B: Predicate<Item>>(self, other: B) -> (r: OrPredicate<Self, B>)
        ensures
            r == OrPredicate::of(self, other),
            r.left() == self,
            r.right() == other,
    ;

    /// The predicate that holds where `self` does not.
    fn not(self) -> (r: NotPredicate<Self>)
        ensures
            r == NotPredicate::of(self),
            r.operand() == self,
    ;
}

impl<P: Predicate<Item>, Item: View + ?Sized> PredicateBooleanExt<Item> for P {
    fn and<B: Predicate<Item>>(self, other: B) -> (r: AndPredicate<Self, B>) {
        AndPredicate::new(self, other)
    }

    fn or<B: Predicate<Item>>(self, other: B) -> (r: OrPredicate<Self, B>) {
        OrPredicate::new(self, other)
    }

    fn not(self) -> (r: NotPredicate<Self>) {
        NotPredicate::new(self)
    }
}

/// Where `p` holds of no value, `p.and(q)` holds of no value either, whatever `q` is.
pub proof fn lemma_and_short_circuit<Item: View + ?Sized, P: Predicate<Item>, Q: Predicate<Item>>(
    p: P,
    q: Q,
    x: Item::V,
)
    requires
        forall|v: Item::V| !#[trigger] p.holds(v),
    ensures
        !AndPredicate::of(p, q).holds(x),
{
}

/// The negation of a conjunction is the disjunction of the negations.
pub proof fn lemma_de_morgan<Item: View + ?Sized, P: Predicate<Item>, Q: Predicate<Item>>(
    p: P,
    q: Q,
    x: Item::V,
)
    ensures
        NotPredicate::of(AndPredicate::of(p, q)).holds(x) == OrPredicate::of(
            NotPredicate::of(p),
            NotPredicate::of(q),
        ).holds(x),
{
}

/// De Morgan for operands that only behave alike: where `p2` holds exactly where
/// `p` does and `q2` exactly where `q` does, the negation of the conjunction of
/// `p` and `q` is the disjunction of the negations of `p2` and `q2`.
pub proof fn lemma_de_morgan_alike<
    Item: View + ?Sized,
    P: Predicate<Item>,
    Q: Predicate<Item>,
    P2: Predicate<Item>,
    Q2: Predicate<Item>,
>(p: P, q: Q, p2: P2, q2: Q2, x: Item::V)
    requires
        forall|v: Item::V| #[trigger] p.holds(v) == p2.holds(v),
        forall|v: Item::V| #[trigger] q.holds(v) == q2.holds(v),
    ensures
        NotPredicate::of(AndPredicate::of(p, q)).holds(x) == OrPredicate::of(
            NotPredicate::of(p2),
            NotPredicate::of(q2),
        ).holds(x),
{
    assert(p.holds(x) == p2.holds(x));
    assert(q.holds(x) == q2.holds(x));
}

/// Negating twice gives back the original outcome.
pub proof fn lemma_double_negation<Item: View + ?Sized, P: Predicate<Item>>(p: P, x: Item::V)
    ensures
        NotPredicate::of(NotPredicate::of(p)).holds(x) == p.holds(x),
{
}

/// Each combinator exposes exactly its operands as children, in order, and
/// evaluates through them.
pub proof fn lemma_reflection_fidelity<
    Item: View + ?Sized,
    P: Predicate<Item> + PredicateReflection,
    Q: Predicate<Item> + PredicateReflection,
>(p: P, q: Q, x: Item::V)
    ensures
        AndPredicate::of(p, q).child_list() == seq![("left"@, p.parameter_list()), ("right"@, q.parameter_list())],
        AndPredicate::of(p, q).left() == p,
        AndPredicate::of(p, q).right() == q,
        AndPredicate::of(p, q).holds(x) == (p.holds(x) && q.holds(x)),
        OrPredicate::of(p, q).child_list() == seq![("left"@, p.parameter_list()), ("right"@, q.parameter_list())],
        OrPredicate::of(p, q).left() == p,
        OrPredicate::of(p, q).right() == q,
        OrPredicate::of(p, q).holds(x) == (p.holds(x) || q.holds(x)),
        NotPredicate::of(p).child_list() == seq![("predicate"@, p.parameter_list())],
        NotPredicate::of(p).operand() == p,
        NotPredicate::of(p).holds(x) == !p.holds(x),
{
}

} // verus!
