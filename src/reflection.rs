//! Introspection of a predicate: its parameters, its nested predicates, and the
//! cases that explain an evaluation.

use vstd::prelude::*;

verus! {

/// A named parameter of a predicate, with its value rendered as text.
#[derive(Debug, Clone)]
pub struct Parameter {
    name: String,
    value: String,
}

impl View for Parameter {
    type V = (Seq<char>, Seq<char>);

    closed spec fn view(&self) -> (Seq<char>, Seq<char>) {
        (self.name@, self.value@)
    }
}

impl Parameter {
    /// Create a parameter `key` whose value renders as `value`.
    pub fn new(key: &str, value: &str) -> (r: Parameter)
        ensures
            r@ == (key@, value@),
    {
        Parameter { name: key.to_owned(), value: value.to_owned() }
    }

    /// The parameter's name.
    pub fn name(&self) -> (r: &str)
        ensures
            r@ == self@.0,
    {
        self.name.as_str()
    }

    /// The parameter's rendered value.
    pub fn value(&self) -> (r: &str)
        ensures
            r@ == self@.1,
    {
        self.value.as_str()
    }
}

/// A named nested predicate, seen through the parameters it exposes.
#[derive(Debug, Clone)]
pub struct Child {
    name: String,
    parameters: Vec<Parameter>,
}

impl View for Child {
    type V = (Seq<char>, Seq<(Seq<char>, Seq<char>)>);

    closed spec fn view(&self) -> Self::V {
        (self.name@, self.parameters@.map_values(|p: Parameter| p@))
    }
}

impl Child {
    /// Create a child `key` whose own parameters are `parameters`.
    pub fn new(key: &str, parameters: Vec<Parameter>) -> (r: Child)
        ensures
            r@ == (key@, parameters@.map_values(|p: Parameter| p@)),
    {
        Child { name: key.to_owned(), parameters }
    }

    /// The child's name.
    pub fn name(&self) -> (r: &str)
        ensures
            r@ == self@.0,
    {
        self.name.as_str()
    }

    /// The parameters of the nested predicate.
    pub fn value(&self) -> (r: &Vec<Parameter>)
        ensures
            r@.map_values(|p: Parameter| p@) == self@.1,
    {
        &self.parameters
    }
}

/// Introspect the state of a predicate.
pub trait PredicateReflection {
    /// The nested predicates, as (name, parameters) pairs in order.
    spec fn child_list(&self) -> Seq<(Seq<char>, Seq<(Seq<char>, Seq<char>)>)>;

    /// The parameters, as (name, rendered value) pairs in order.
    spec fn parameter_list(&self) -> Seq<(Seq<char>, Seq<char>)>;

    /// The parameters of this predicate.
    fn parameters(&self) -> (r: Vec<Parameter>)
        ensures
            r@.map_values(|p: Parameter| p@) == self.parameter_list(),
    ;

    /// The nested predicates of this predicate, by name.
    fn children(&self) -> (r: Vec<Child>)
        ensures
            r@.map_values(|c: Child| c@) == self.child_list(),
    ;
}

/// A predicate that can be written as a short expression.
pub trait Describe {
    /// The expression.
    spec fn description(&self) -> Seq<char>;

    /// Render the expression.
    fn describe(&self) -> (r: String)
        ensures
            r@ == self.description(),
    ;
}

/// A named artifact attached to a [`Case`], rendered as text.
#[derive(Debug, Clone)]
pub struct Product {
    name: String,
    value: String,
}

impl View for Product {
    type V = (Seq<char>, Seq<char>);

    closed spec fn view(&self) -> (Seq<char>, Seq<char>) {
        (self.name@, self.value@)
    }
}

impl Product {
    /// Create a product named `key` whose rendering is `value`.
    pub fn new(key: &str, value: String) -> (r: Product)
        ensures
            r@ == (key@, value@),
    {
        Product { name: key.to_owned(), value }
    }

    /// The product's name.
    pub fn name(&self) -> (r: &str)
        ensures
            r@ == self@.0,
    {
        self.name.as_str()
    }

    /// The product's rendering.
    pub fn value(&self) -> (r: &str)
        ensures
            r@ == self@.1,
    {
        self.value.as_str()
    }
}

/// The outcome of an explanation: the result and the products computed on the way.
#[derive(Debug, Clone)]
pub struct Case {
    result: bool,
    products: Vec<Product>,
}

/// The index of the last product in `ps` named `key`, if any.
pub open spec fn last_named(ps: Seq<(Seq<char>, Seq<char>)>, key: Seq<char>) -> Option<int>
    decreases ps.len(),
{
    if ps.len() == 0 {
        None
    } else if ps.last().0 == key {
        Some(ps.len() - 1)
    } else {
        last_named(ps.drop_last(), key)
    }
}

impl Case {
    /// The boolean outcome that this case explains.
    pub closed spec fn result(&self) -> bool {
        self.result
    }

    /// The products, in the order they were added.
    pub closed spec fn products(&self) -> Seq<(Seq<char>, Seq<char>)> {
        self.products@.map_values(|p: Product| p@)
    }

    /// A case for `result` with no products.
    pub fn new(result: bool) -> (r: Case)
        ensures
            r.result() == result,
            r.products() == Seq::<(Seq<char>, Seq<char>)>::empty(),
    {
        Case { result, products: Vec::new() }
    }

    /// The boolean outcome.
    pub fn result_value(&self) -> (r: bool)
        ensures
            r == self.result(),
    {
        self.result
    }

    /// This case with `product` added after the others.
    pub fn add_product(self, product: Product) -> (r: Case)
        ensures
            r.result() == self.result(),
            r.products() == self.products().push(product@),
    {
        let mut products = self.products;
        products.push(product);
        proof {
            assert(products@.map_values(|p: Product| p@) =~= self.products().push(product@));
        }
        Case { result: self.result, products }
    }

    /// The rendering of the product named `key`; where several have that name,
    /// the one added last.
    pub fn product_value(&self, key: &str) -> (r: Option<String>)
        ensures
            match last_named(self.products(), key@) {
                Some(i) => r matches Some(s) && s@ == self.products()[i].1,
                None => r is None,
            },
    {
        let key_s = key.to_owned();
        let mut i: usize = self.products.len();
        proof {
            assert(self.products().take(i as int) =~= self.products());
        }
        while i > 0
            invariant
                i <= self.products@.len(),
                key_s@ == key@,
                last_named(self.products(), key@) == last_named(self.products().take(i as int), key@),
            decreases i,
        {
            let p = &self.products[i - 1];
            proof {
                let t = self.products().take(i as int);
                assert(t.drop_last() =~= self.products().take(i - 1));
                assert(t.last() == p@);
            }
            if p.name == key_s {
                return Some(p.value.clone());
            }
            i = i - 1;
        }
        proof {
            assert(self.products().take(0) =~= Seq::<(Seq<char>, Seq<char>)>::empty());
        }
        None
    }
}

} // verus!
