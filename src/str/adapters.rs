//! Adapters that prepare the input before a string predicate sees it.

use vstd::prelude::*;
use vstd::utf8::{decode_utf8, valid_utf8};

use crate::predicate::Predicate;
use crate::reflection::{Child, Parameter, PredicateReflection};
use crate::str::normalize::NormalizedPredicate;

verus! {

/// Whether `c` has the Unicode property White_Space.
pub open spec fn is_white_space(c: char) -> bool {
    let u = c as u32;
    ||| 0x09 <= u <= 0x0d
    ||| u == 0x20
    ||| u == 0x85
    ||| u == 0xa0
    ||| u == 0x1680
    ||| 0x2000 <= u <= 0x200a
    ||| u == 0x2028
    ||| u == 0x2029
    ||| u == 0x202f
    ||| u == 0x205f
    ||| u == 0x3000
}

/// `s` without its leading white space.
pub open spec fn trim_start(s: Seq<char>) -> Seq<char>
    decreases s.len(),
{
    if s.len() > 0 && is_white_space(s[0]) {
        trim_start(s.skip(1))
    } else {
        s
    }
}

/// `s` without its trailing white space.
pub open spec fn trim_end(s: Seq<char>) -> Seq<char>
    decreases s.len(),
{
    if s.len() > 0 && is_white_space(s.last()) {
        trim_end(s.drop_last())
    } else {
        s
    }
}

/// `s` without its leading and trailing white space.
pub open spec fn trimmed(s: Seq<char>) -> Seq<char> {
    trim_end(trim_start(s))
}

/// Relies on `str::trim`: it removes leading and trailing characters with the
/// Unicode property White_Space.
#[verifier::external_body]
fn str_trim(s: &str) -> (r: &str)
    ensures
        r@ == trimmed(s@),
{
    s.trim()
}

/// Relies on `std::str::from_utf8`: it decodes exactly the valid UTF-8 byte strings.
#[verifier::external_body]
pub(crate) fn str_from_utf8(b: &[u8]) -> (r: Option<&str>)
    ensures
        match r {
            Some(s) => valid_utf8(b@) && s@ == decode_utf8(b@),
            None => !valid_utf8(b@),
        },
{
    std::str::from_utf8(b).ok()
}

/// A predicate that evaluates its inner one on the input with surrounding white
/// space removed.
#[derive(Debug, Clone, Copy)]
pub struct TrimPredicate<P> {
    p: P,
}

impl<P> TrimPredicate<P> {
    /// The predicate applied to the trimmed input.
    pub closed spec fn inner(&self) -> P {
        self.p
    }
}

impl<P: Predicate<str>> Predicate<str> for TrimPredicate<P> {
    open spec fn holds(&self, item: Seq<char>) -> bool {
        self.inner().holds(trimmed(item))
    }

    fn eval(&self, variable: &str) -> (r: bool) {
        self.p.eval(str_trim(variable))
    }
}

impl<P> PredicateReflection for TrimPredicate<P> {
    open spec fn parameter_list(&self) -> Seq<(Seq<char>, Seq<char>)> {
        Seq::empty()
    }

    open spec fn child_list(&self) -> Seq<(Seq<char>, Seq<(Seq<char>, Seq<char>)>)> {
        Seq::empty()
    }

    fn parameters(&self) -> (r: Vec<Parameter>) {
        let r = Vec::new();
        proof {
            assert(r@.map_values(|p: Parameter| p@) =~= Seq::<(Seq<char>, Seq<char>)>::empty());
        }
        r
    }

    fn children(&self) -> (r: Vec<Child>) {
        let r = Vec::new();
        proof {
            assert(r@.map_values(|c: Child| c@) =~= self.child_list());
        }
        r
    }
}

/// A predicate over bytes that decodes them as UTF-8 and evaluates its inner
/// string predicate; bytes that are not UTF-8 fail it.
#[derive(Debug, Clone, Copy)]
pub struct Utf8Predicate<P> {
    p: P,
}

impl<P> Utf8Predicate<P> {
    /// The predicate applied to the decoded text.
    pub closed spec fn inner(&self) -> P {
        self.p
    }
}

impl<P: Predicate<str>> Predicate<[u8]> for Utf8Predicate<P> {
    open spec fn holds(&self, item: Seq<u8>) -> bool {
        valid_utf8(item) && self.inner().holds(decode_utf8(item))
    }

    fn eval(&self, variable: &[u8]) -> (r: bool) {
        match str_from_utf8(variable) {
            Some(s) => self.p.eval(s),
            None => false,
        }
    }
}

impl<P> PredicateReflection for Utf8Predicate<P> {
    open spec fn parameter_list(&self) -> Seq<(Seq<char>, Seq<char>)> {
        Seq::empty()
    }

    open spec fn child_list(&self) -> Seq<(Seq<char>, Seq<(Seq<char>, Seq<char>)>)> {
        Seq::empty()
    }

    fn parameters(&self) -> (r: Vec<Parameter>) {
        let r = Vec::new();
        proof {
            assert(r@.map_values(|p: Parameter| p@) =~= Seq::<(Seq<char>, Seq<char>)>::empty());
        }
        r
    }

    fn children(&self) -> (r: Vec<Child>) {
        let r = Vec::new();
        proof {
            assert(r@.map_values(|c: Child| c@) =~= self.child_list());
        }
        r
    }
}

/// Adapters available on every string predicate.
pub trait PredicateStrExt: Predicate<str> + Sized {
    /// Evaluate `self` on the input with surrounding white space removed.
    fn trim(self) -> (r: TrimPredicate<Self>)
        ensures
            r.inner() == self,
    ;

    /// Evaluate `self` on bytes decoded as UTF-8.
    fn from_utf8(self) -> (r: Utf8Predicate<Self>)
        ensures
            r.inner() == self,
    ;

    /// Evaluate `self` on the input with line endings normalised to LF.
    fn normalize(self) -> (r: NormalizedPredicate<Self>)
        ensures
            r.inner() == self,
    ;
}

impl<P: Predicate<str>> PredicateStrExt for P {
    fn trim(self) -> (r: TrimPredicate<Self>) {
        TrimPredicate { p: self }
    }

    fn from_utf8(self) -> (r: Utf8Predicate<Self>) {
        Utf8Predicate { p: self }
    }

    fn normalize(self) -> (r: NormalizedPredicate<Self>) {
        NormalizedPredicate::new(self)
    }
}

} // verus!
