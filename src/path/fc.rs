//! A byte predicate applied to a file's content.

use vstd::prelude::*;

use crate::predicate::Predicate;
use crate::reflection::{Child, Parameter, PredicateReflection};

verus! {

/// A predicate over files that applies a byte predicate to what they hold;
/// files that cannot be read fail it.
#[derive(Debug, Clone, Copy, PartialEq, Eq)]
pub struct FileContentPredicate<P> {
    p: P,
}

impl<P> FileContentPredicate<P> {
    /// The predicate applied to the content.
    pub closed spec fn inner(&self) -> P {
        self.p
    }
}

impl<P: Predicate<[u8]>> FileContentPredicate<P> {
    /// The outcome for a file whose bytes are `read`, or that could not be
    /// read (`None`).
    pub fn eval_file(&self, read: Option<&[u8]>) -> (r: bool)
        ensures
            r == (read matches Some(b) && self.inner().holds(b@)),
    {
        match read {
            Some(b) => self.p.eval(b),
            None => false,
        }
    }
}

impl<P: PredicateReflection> PredicateReflection for FileContentPredicate<P> {
    open spec fn parameter_list(&self) -> Seq<(Seq<char>, Seq<char>)> {
        Seq::empty()
    }

    open spec fn child_list(&self) -> Seq<(Seq<char>, Seq<(Seq<char>, Seq<char>)>)> {
        seq![("predicate"@, self.inner().parameter_list())]
    }

    fn parameters(&self) -> (r: Vec<Parameter>) {
        let r = Vec::new();
        proof {
            assert(r@.map_values(|p: Parameter| p@) =~= Seq::<(Seq<char>, Seq<char>)>::empty());
        }
        r
    }

    fn children(&self) -> (r: Vec<Child>) {
        let mut r = Vec::new();
        r.push(Child::new("predicate", self.p.parameters()));
        proof {
            assert(r@.map_values(|c: Child| c@) =~= self.child_list());
        }
        r
    }
}

/// Adapting a byte predicate to files.
pub trait PredicateFileContentExt: Predicate<[u8]> + Sized {
    /// Apply `self` to the content of a file.
    fn from_file_path(self) -> (r: FileContentPredicate<Self>)
        ensures
            r.inner() == self,
    ;
}

impl<P: Predicate<[u8]>> PredicateFileContentExt for P {
    fn from_file_path(self) -> (r: FileContentPredicate<Self>) {
        FileContentPredicate { p: self }
    }
}

} // verus!
