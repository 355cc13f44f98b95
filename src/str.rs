//! Predicates over strings.

pub mod basics;
pub mod adapters;
pub mod normalize;
pub mod regex;
pub mod difference;
pub mod edits;
pub mod dissimilar;
pub mod similar;
pub mod compare;
