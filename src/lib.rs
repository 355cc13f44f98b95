//! Composable first-order predicates: boolean-valued functions of one argument,
//! built from leaves and combined with `and`, `or` and `not`.
//!
//! Every predicate states, as a specification over the view of its input, which
//! values it accepts; evaluation is proved to agree with that statement.

pub mod predicate;
pub mod reflection;
pub mod constant;
pub mod boolean;
pub mod name;
pub mod ord;
pub mod iter;
pub mod set;
pub mod function;
pub mod str;
pub mod path;
pub mod map;
pub mod prelude;

/// The view trait that the predicate trait's items are bounded by.
pub use vstd::view::View;
