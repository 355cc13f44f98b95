//! Membership constructors under their set-flavoured names.

use std::hash::Hash;

use vstd::laws_eq::obeys_view_eq;
use vstd::prelude::*;
use vstd::std_specs::hash::obeys_key_model;

use crate::iter::{
    in_hash, in_iter, total_order_by_view, view_injective, view_members, HashableInPredicate,
    InPredicate, OrdInPredicate,
};

verus! {

/// Membership by a linear scan.
pub type ContainsPredicate<T> = InPredicate<T>;

/// Membership by bisection over sorted values.
pub type OrdContainsPredicate<T> = OrdInPredicate<T>;

/// Membership in a hash set.
pub type HashableContainsPredicate<T> = HashableInPredicate<T>;

/// Membership in a hash set.
pub type SetPredicate<T> = HashableInPredicate<T>;

/// A predicate that holds of the given values, found by a linear scan.
pub fn contains<T: PartialEq + View>(items: Vec<T>) -> (r: InPredicate<T>)
    requires
        obeys_view_eq::<T>(),
    ensures
        r.members() == view_members(items@),
{
    in_iter(items)
}

/// A predicate that holds of the given values, sorted once and then found by bisection.
pub fn contains_ord<T: Ord + View>(items: Vec<T>) -> (r: OrdInPredicate<T>)
    requires
        obeys_view_eq::<T>(),
        total_order_by_view::<T>(),
    ensures
        r.members() == view_members(items@),
{
    in_iter(items).sort()
}

/// A predicate that holds of the given values, kept in a hash set.
pub fn contains_hashable<T: Hash + Eq + View>(items: Vec<T>) -> (r: HashableInPredicate<T>)
    requires
        obeys_key_model::<T>(),
        view_injective::<T>(),
    ensures
        r.members() == view_members(items@),
{
    in_hash(items)
}

/// A predicate that holds of the given values, kept in a hash set.
pub fn in_set<T: Hash + Eq + View>(items: Vec<T>) -> (r: HashableInPredicate<T>)
    requires
        obeys_key_model::<T>(),
        view_injective::<T>(),
    ensures
        r.members() == view_members(items@),
{
    in_hash(items)
}

} // verus!
