//! Predicates over files: whether a path exists, what kind of file it names,
//! and what a file holds.
//!
//! Looking at the file system is left to the caller, who hands these predicates
//! what it found (whether the path exists, its metadata, its bytes).

pub mod existence;
pub mod ft;
pub mod fs;
pub mod fc;
