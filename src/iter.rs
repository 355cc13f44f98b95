//! Membership in a collection of values: a linear scan, a binary search over
//! sorted values, and a hash set.

use std::cmp::Ordering;
use std::collections::HashSet;
use std::hash::Hash;

use vstd::laws_eq::obeys_view_eq;
use vstd::prelude::*;
use vstd::std_specs::cmp::OrdSpec;
use vstd::std_specs::hash::obeys_key_model;

use crate::predicate::Predicate;

verus! {

broadcast use vstd::std_specs::hash::axiom_random_state_builds_valid_hashers;

/// The views of the values in `s`.
pub open spec fn view_members<T: View>(s: Seq<T>) -> Set<T::V> {
    Set::new(|v: T::V| exists|i: int| 0 <= i < s.len() && #[trigger] s[i]@ == v)
}

proof fn lemma_view_members_push<T: View>(s: Seq<T>, x: T)
    ensures
        view_members(s.push(x)) == view_members(s).insert(x@),
{
    let t = s.push(x);
    assert forall|v: T::V| view_members(t).contains(v) <==> view_members(s).insert(x@).contains(v) by {
        if view_members(s).contains(v) {
            let i = choose|i: int| 0 <= i < s.len() && #[trigger] s[i]@ == v;
            assert(t[i]@ == v);
        }
        if view_members(t).contains(v) {
            let i = choose|i: int| 0 <= i < t.len() && #[trigger] t[i]@ == v;
            if i < s.len() {
                assert(s[i]@ == v);
            }
        }
        assert(t[s.len() as int] == x);
    }
    assert(view_members(t) =~= view_members(s).insert(x@));
}

proof fn lemma_view_members_insert<T: View>(s: Seq<T>, j: int, x: T)
    requires
        0 <= j <= s.len(),
    ensures
        view_members(s.insert(j, x)) == view_members(s).insert(x@),
{
    let t = s.insert(j, x);
    assert forall|v: T::V| view_members(t).contains(v) <==> view_members(s).insert(x@).contains(v) by {
        if view_members(s).contains(v) {
            let i = choose|i: int| 0 <= i < s.len() && #[trigger] s[i]@ == v;
            if i < j {
                assert(t[i]@ == v);
            } else {
                assert(t[i + 1]@ == v);
            }
        }
        if view_members(t).contains(v) {
            let i = choose|i: int| 0 <= i < t.len() && #[trigger] t[i]@ == v;
            if i < j {
                assert(s[i]@ == v);
            } else if i > j {
                assert(s[i - 1]@ == v);
            }
        }
        assert(t[j] == x);
    }
    assert(view_members(t) =~= view_members(s).insert(x@));
}

/// `T`'s `cmp` follows its specification, is a total order, and looks at views only.
pub open spec fn total_order_by_view<T: Ord + View>() -> bool {
    &&& T::obeys_cmp_spec()
    &&& forall|a: T, b: T| (#[trigger] a.cmp_spec(&b) == Ordering::Equal) <==> a@ == b@
    &&& forall|a: T, b: T|
        (#[trigger] a.cmp_spec(&b) == Ordering::Less) <==> (#[trigger] b.cmp_spec(&a)
            == Ordering::Greater)
    &&& forall|a: T, b: T, c: T|
        #[trigger] a.cmp_spec(&b) == Ordering::Less && #[trigger] b.cmp_spec(&c) == Ordering::Less
            ==> a.cmp_spec(&c) == Ordering::Less
    &&& forall|a: T, b: T, c: T| a@ == b@ ==> #[trigger] a.cmp_spec(&c) == #[trigger] b.cmp_spec(&c)
}

/// No two distinct values of `T` share a view.
pub open spec fn view_injective<T: View>() -> bool {
    forall|a: T, b: T| #[trigger] a@ == #[trigger] b@ ==> a == b
}

/// `s` is in ascending order.
pub open spec fn ascending<T: Ord>(s: Seq<T>) -> bool {
    forall|i: int, j: int| 0 <= i < j < s.len() ==> #[trigger] s[i].cmp_spec(&s[j]) != Ordering::Greater
}

/// A predicate that holds of the values in a list, found by a linear scan.
#[derive(Debug)]
pub struct InPredicate<T: PartialEq + View> {
    inner: Vec<T>,
}

impl<T: PartialEq + View> InPredicate<T> {
    #[verifier::type_invariant]
    closed spec fn inv(&self) -> bool {
        obeys_view_eq::<T>()
    }

    /// The views of the values held.
    pub closed spec fn members(&self) -> Set<T::V> {
        view_members(self.inner@)
    }

    /// The values held, in the order given.
    pub closed spec fn values(&self) -> Seq<T> {
        self.inner@
    }
}

impl<T: Ord + View> InPredicate<T> {
    /// The same membership, searched by bisection over the values in order.
    pub fn sort(self) -> (r: OrdInPredicate<T>)
        requires
            total_order_by_view::<T>(),
        ensures
            r.members() == self.members(),
            r.values().to_multiset() == self.values().to_multiset(),
            ascending(r.values()),
    {
        let ghost orig = self.inner@;
        let mut items = self.inner;
        let mut sorted: Vec<T> = Vec::new();
        proof {
            assert(view_members(sorted@).union(view_members(items@)) =~= view_members(orig));
            vstd::seq_lib::to_multiset_len(sorted@);
            vstd::multiset::lemma_multiset_empty_len(sorted@.to_multiset());
            assert(sorted@.to_multiset().add(items@.to_multiset()) =~= orig.to_multiset());
        }
        while items.len() > 0
            invariant
                total_order_by_view::<T>(),
                ascending(sorted@),
                view_members(sorted@).union(view_members(items@)) == view_members(orig),
                sorted@.to_multiset().add(items@.to_multiset()) == orig.to_multiset(),
            decreases items.len(),
        {
            let ghost before_items = items@;
            let x = items.pop().unwrap();
            proof {
                assert(before_items =~= items@.push(x));
            }
            let mut j: usize = 0;
            while j < sorted.len()
                invariant
                    total_order_by_view::<T>(),
                    j <= sorted.len(),
                    forall|k: int| 0 <= k < j ==> #[trigger] sorted@[k].cmp_spec(&x) != Ordering::Greater,
                ensures
                    j <= sorted.len(),
                    forall|k: int| 0 <= k < j ==> #[trigger] sorted@[k].cmp_spec(&x) != Ordering::Greater,
                    j < sorted.len() ==> sorted@[j as int].cmp_spec(&x) == Ordering::Greater,
                decreases sorted.len() - j,
            {
                match sorted[j].cmp(&x) {
                    Ordering::Greater => break,
                    _ => {
                        j = j + 1;
                    },
                }
            }
            let ghost before = sorted@;
            sorted.insert(j, x);
            proof {
                assert(sorted@ =~= before.take(j as int).push(x) + before.skip(j as int));
                assert forall|a: int, b: int| 0 <= a < b < sorted@.len() implies #[trigger] sorted@[a].cmp_spec(
                    &sorted@[b],
                ) != Ordering::Greater by {
                    if b < j {
                        assert(sorted@[a] == before[a] && sorted@[b] == before[b]);
                    } else if b == j {
                        assert(sorted@[a] == before[a]);
                    } else if a > j {
                        assert(sorted@[a] == before[a - 1] && sorted@[b] == before[b - 1]);
                    } else if a == j {
                        let sj = before[j as int];
                        let sm = before[b - 1];
                        assert(sorted@[b] == sm);
                        assert(sj.cmp_spec(&x) == Ordering::Greater);
                        assert(x.cmp_spec(&sj) == Ordering::Less);
                        if sj.cmp_spec(&sm) == Ordering::Less {
                            assert(x.cmp_spec(&sm) == Ordering::Less);
                        } else {
                            assert(sj@ == sm@);
                            assert(sm.cmp_spec(&x) == Ordering::Greater);
                        }
                    } else {
                        assert(sorted@[a] == before[a] && sorted@[b] == before[b - 1]);
                    }
                }
                lemma_view_members_insert(before, j as int, x);
                lemma_view_members_push(items@, x);
                assert(before_items == items@.push(x));
                assert(view_members(sorted@).union(view_members(items@)) =~= view_members(orig));
                vstd::seq_lib::to_multiset_insert(before, j as int, x);
                vstd::seq_lib::to_multiset_build(items@, x);
                assert(sorted@ == before.insert(j as int, x));
                assert(sorted@.to_multiset().add(items@.to_multiset()) =~= orig.to_multiset());
            }
        }
        proof {
            assert(view_members(items@) =~= Set::<T::V>::empty());
            assert(view_members(sorted@) =~= view_members(orig));
            assert(view_members(sorted@) == self.members());
            vstd::seq_lib::to_multiset_len(items@);
            vstd::multiset::lemma_multiset_empty_len(items@.to_multiset());
            assert(sorted@.to_multiset() =~= orig.to_multiset());
        }
        OrdInPredicate { inner: sorted }
    }
}

impl<T: PartialEq + View> Predicate<T> for InPredicate<T> {
    open spec fn holds(&self, item: T::V) -> bool {
        self.members().contains(item)
    }

    fn eval(&self, variable: &T) -> (r: bool) {
        proof {
            use_type_invariant(self);
            reveal(obeys_view_eq);
        }
        let mut i: usize = 0;
        while i < self.inner.len()
            invariant
                i <= self.inner@.len(),
                obeys_view_eq::<T>(),
                forall|k: int| 0 <= k < i ==> #[trigger] self.inner@[k]@ != variable@,
            decreases self.inner@.len() - i,
        {
            proof {
                reveal(obeys_view_eq);
            }
            if self.inner[i].eq(variable) {
                assert(self.inner@[i as int]@ == variable@);
                return true;
            }
            i = i + 1;
        }
        false
    }
}

/// A predicate that holds of the values in a list.
///
/// The values must implement `PartialEq`; the search is linear.
pub fn in_iter<T: PartialEq + View>(items: Vec<T>) -> (r: InPredicate<T>)
    requires
        obeys_view_eq::<T>(),
    ensures
        r.members() == view_members(items@),
        r.values() == items@,
{
    InPredicate { inner: items }
}

/// A predicate that holds of the values in an ascending list, found by bisection.
#[derive(Debug)]
pub struct OrdInPredicate<T: Ord + View> {
    inner: Vec<T>,
}

impl<T: Ord + View> OrdInPredicate<T> {
    #[verifier::type_invariant]
    closed spec fn inv(&self) -> bool {
        &&& total_order_by_view::<T>()
        &&& ascending(self.inner@)
    }

    /// The views of the values held.
    pub closed spec fn members(&self) -> Set<T::V> {
        view_members(self.inner@)
    }

    /// The values held, in ascending order.
    pub closed spec fn values(&self) -> Seq<T> {
        self.inner@
    }
}

impl<T: Ord + View> Predicate<T> for OrdInPredicate<T> {
    open spec fn holds(&self, item: T::V) -> bool {
        self.members().contains(item)
    }

    fn eval(&self, variable: &T) -> (r: bool) {
        proof {
            use_type_invariant(self);
        }
        let ghost s = self.inner@;
        let ghost x = *variable;
        let mut lo: usize = 0;
        let mut hi: usize = self.inner.len();
        while lo < hi
            invariant
                total_order_by_view::<T>(),
                ascending(s),
                s == self.inner@,
                x == *variable,
                lo <= hi <= s.len(),
                forall|k: int| 0 <= k < lo ==> #[trigger] s[k].cmp_spec(&x) == Ordering::Less,
                forall|k: int| hi <= k < s.len() ==> #[trigger] s[k].cmp_spec(&x) == Ordering::Greater,
            decreases hi - lo,
        {
            let mid = lo + (hi - lo) / 2;
            match self.inner[mid].cmp(variable) {
                Ordering::Less => {
                    assert forall|k: int| 0 <= k <= mid implies #[trigger] s[k].cmp_spec(&x)
                        == Ordering::Less by {
                        if k < mid {
                            if s[k].cmp_spec(&s[mid as int]) != Ordering::Less {
                                assert(s[k]@ == s[mid as int]@);
                            }
                        }
                    }
                    lo = mid + 1;
                },
                Ordering::Greater => {
                    assert forall|k: int| mid <= k < s.len() implies #[trigger] s[k].cmp_spec(&x)
                        == Ordering::Greater by {
                        if k > mid {
                            assert(x.cmp_spec(&s[mid as int]) == Ordering::Less);
                            if s[mid as int].cmp_spec(&s[k]) == Ordering::Less {
                                assert(x.cmp_spec(&s[k]) == Ordering::Less);
                            } else {
                                assert(s[k]@ == s[mid as int]@);
                            }
                        }
                    }
                    hi = mid;
                },
                Ordering::Equal => {
                    assert(s[mid as int]@ == variable@);
                    return true;
                },
            }
        }
        proof {
            assert forall|k: int| 0 <= k < s.len() implies #[trigger] s[k]@ != variable@ by {
                if s[k]@ == variable@ {
                    assert(s[k].cmp_spec(&x) == Ordering::Equal);
                }
            }
        }
        false
    }
}

/// A predicate that holds of the values in a hash set.
#[derive(Debug)]
pub struct HashableInPredicate<T: Hash + Eq + View> {
    inner: HashSet<T>,
}

impl<T: Hash + Eq + View> HashableInPredicate<T> {
    #[verifier::type_invariant]
    closed spec fn inv(&self) -> bool {
        &&& obeys_key_model::<T>()
        &&& view_injective::<T>()
    }

    /// The views of the values held.
    pub closed spec fn members(&self) -> Set<T::V> {
        Set::new(|v: T::V| exists|t: T| self.inner@.contains(t) && #[trigger] t@ == v)
    }
}

impl<T: Hash + Eq + View> Predicate<T> for HashableInPredicate<T> {
    open spec fn holds(&self, item: T::V) -> bool {
        self.members().contains(item)
    }

    fn eval(&self, variable: &T) -> (r: bool) {
        proof {
            use_type_invariant(self);
        }
        let r = self.inner.contains(variable);
        proof {
            if r {
                assert(self.inner@.contains(*variable));
            }
        }
        r
    }
}

/// A predicate that holds of the given values, kept in a hash set.
pub fn in_hash<T: Hash + Eq + View>(items: Vec<T>) -> (r: HashableInPredicate<T>)
    requires
        obeys_key_model::<T>(),
        view_injective::<T>(),
    ensures
        r.members() == view_members(items@),
{
    let ghost orig = items@;
    let mut items = items;
    let mut set: HashSet<T> = HashSet::new();
    while items.len() > 0
        invariant
            obeys_key_model::<T>(),
            forall|t: T|
                set@.contains(t) || items@.contains(t) <==> orig.contains(t),
        decreases items.len(),
    {
        let ghost before = items@;
        let x = items.pop().unwrap();
        proof {
            assert(before =~= items@.push(x));
            assert forall|t: T| set@.insert(x).contains(t) || items@.contains(t) <==> orig.contains(t) by {
                if before.contains(t) && t != x {
                    let i = choose|i: int| 0 <= i < before.len() && before[i] == t;
                    assert(items@[i] == t);
                }
                if items@.contains(t) {
                    let i = choose|i: int| 0 <= i < items@.len() && items@[i] == t;
                    assert(before[i] == t);
                }
                assert(before[before.len() - 1] == x);
            }
        }
        set.insert(x);
    }
    let r = HashableInPredicate { inner: set };
    proof {
        assert forall|v: T::V| r.members().contains(v) <==> view_members(orig).contains(v) by {
            if view_members(orig).contains(v) {
                let i = choose|i: int| 0 <= i < orig.len() && #[trigger] orig[i]@ == v;
                assert(orig.contains(orig[i]));
                assert(set@.contains(orig[i]));
            }
            if r.members().contains(v) {
                let t = choose|t: T| set@.contains(t) && #[trigger] t@ == v;
                assert(orig.contains(t));
                let i = choose|i: int| 0 <= i < orig.len() && orig[i] == t;
                assert(orig[i]@ == v);
            }
        }
        assert(r.members() =~= view_members(orig));
    }
    r
}

/// All three membership predicates built from the same values agree on every input.
pub proof fn lemma_membership_equivalence<T: Ord + Hash + View>(
    items: Seq<T>,
    linear: InPredicate<T>,
    sorted: OrdInPredicate<T>,
    hashed: HashableInPredicate<T>,
    x: T::V,
)
    requires
        linear.members() == view_members(items),
        sorted.members() == view_members(items),
        hashed.members() == view_members(items),
    ensures
        linear.holds(x) == sorted.holds(x),
        sorted.holds(x) == hashed.holds(x),
        linear.holds(x) == view_members(items).contains(x),
{
}

} // verus!
