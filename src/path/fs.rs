//! Equality with the content of a reference file, taken once.

use vstd::prelude::*;
use vstd::utf8::{decode_utf8, valid_utf8};

use crate::predicate::Predicate;
use crate::reflection::{Child, Describe, Parameter, PredicateReflection};
use crate::str::adapters::str_from_utf8;

verus! {

/// Whether `a` and `b` hold the same bytes.
pub fn bytes_equal(a: &[u8], b: &[u8]) -> (r: bool)
    ensures
        r == (a@ == b@),
{
    if a.len() != b.len() {
        return false;
    }
    let mut i: usize = 0;
    while i < a.len()
        invariant
            a@.len() == b@.len(),
            i <= a@.len(),
            forall|k: int| 0 <= k < i ==> a@[k] == b@[k],
        decreases a@.len() - i,
    {
        if a[i] != b[i] {
            return false;
        }
        i = i + 1;
    }
    proof {
        assert(a@ =~= b@);
    }
    true
}

/// A predicate that holds of bytes, or of files whose bytes, equal the content
/// of a reference file.
#[derive(Debug, Clone, PartialEq, Eq)]
pub struct BinaryFilePredicate {
    path: String,
    content: Vec<u8>,
}

impl BinaryFilePredicate {
    /// The reference content.
    pub closed spec fn content(&self) -> Seq<u8> {
        self.content@
    }

    /// The reference file's name, for display.
    pub closed spec fn path(&self) -> Seq<char> {
        self.path@
    }

    /// The outcome for a file whose bytes are `read`, or that could not be
    /// read (`None`).
    pub fn eval_file(&self, read: Option<&[u8]>) -> (r: bool)
        ensures
            r == (read matches Some(b) && b@ == self.content()),
    {
        match read {
            Some(b) => bytes_equal(self.content.as_slice(), b),
            None => false,
        }
    }

    /// The same comparison on text; `None` where the reference content is not UTF-8.
    pub fn utf8(self) -> (r: Option<StrFilePredicate>)
        ensures
            r is Some <==> valid_utf8(self.content()),
            r matches Some(p) ==> p.content() == decode_utf8(self.content()) && p.path() == self.path(),
    {
        match str_from_utf8(self.content.as_slice()) {
            Some(s) => Some(StrFilePredicate { path: self.path, content: s.to_owned() }),
            None => None,
        }
    }
}

impl Predicate<[u8]> for BinaryFilePredicate {
    open spec fn holds(&self, item: Seq<u8>) -> bool {
        item == self.content()
    }

    fn eval(&self, variable: &[u8]) -> (r: bool) {
        bytes_equal(variable, self.content.as_slice())
    }
}

/// A predicate comparing with `content`, the bytes read from the file named
/// `path`.
pub fn eq_file(path: &str, content: Vec<u8>) -> (r: BinaryFilePredicate)
    ensures
        r.content() == content@,
        r.path() == path@,
{
    BinaryFilePredicate { path: path.to_owned(), content }
}

/// A predicate that holds of text, or of files whose text, equals the content of
/// a reference file.
#[derive(Debug, Clone, PartialEq, Eq)]
pub struct StrFilePredicate {
    path: String,
    content: String,
}

impl StrFilePredicate {
    /// The reference text.
    pub closed spec fn content(&self) -> Seq<char> {
        self.content@
    }

    /// The reference file's name, for display.
    pub closed spec fn path(&self) -> Seq<char> {
        self.path@
    }

    /// The outcome for a file whose bytes are `read`, or that could not be read
    /// (`None`); bytes that are not UTF-8 fail.
    pub fn eval_file(&self, read: Option<&[u8]>) -> (r: bool)
        ensures
            r == (read matches Some(b) && valid_utf8(b@) && decode_utf8(b@) == self.content()),
    {
        match read {
            Some(b) => match str_from_utf8(b) {
                Some(s) => self.eval(s),
                None => false,
            },
            None => false,
        }
    }
}

impl PredicateReflection for StrFilePredicate {
    open spec fn child_list(&self) -> Seq<(Seq<char>, Seq<(Seq<char>, Seq<char>)>)> {
        Seq::empty()
    }

    open spec fn parameter_list(&self) -> Seq<(Seq<char>, Seq<char>)> {
        seq![("content"@, self.content())]
    }

    fn parameters(&self) -> (r: Vec<Parameter>) {
        let mut r = Vec::new();
        r.push(Parameter::new("content", self.content.as_str()));
        proof {
            assert(r@.map_values(|p: Parameter| p@) =~= self.parameter_list());
        }
        r
    }

    fn children(&self) -> (r: Vec<Child>) {
        let r = Vec::new();
        proof {
            assert(r@.map_values(|c: Child| c@) =~= self.child_list());
        }
        r
    }
}

impl Predicate<str> for StrFilePredicate {
    open spec fn holds(&self, item: Seq<char>) -> bool {
        item == self.content()
    }

    fn eval(&self, variable: &str) -> (r: bool) {
        let actual = variable.to_owned();
        self.content == actual
    }
}

impl Describe for BinaryFilePredicate {
    open spec fn description(&self) -> Seq<char> {
        "var is "@ + self.path()
    }

    fn describe(&self) -> (r: String) {
        let mut r = "var is ".to_owned();
        r.append(self.path.as_str());
        r
    }
}

impl Describe for StrFilePredicate {
    open spec fn description(&self) -> Seq<char> {
        "var is "@ + self.path()
    }

    fn describe(&self) -> (r: String) {
        let mut r = "var is ".to_owned();
        r.append(self.path.as_str());
        r
    }
}

} // verus!
