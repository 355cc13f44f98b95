//! The extension traits and the predicate trait, for a glob import.

pub use crate::boolean::PredicateBooleanExt;
pub use crate::name::PredicateNameExt;
pub use crate::path::fc::PredicateFileContentExt;
pub use crate::predicate::Predicate;
pub use crate::reflection::{Describe, PredicateReflection};
pub use crate::str::adapters::PredicateStrExt;
