//! Edit distance between split pieces of text.

use vstd::prelude::*;

use crate::predicate::Predicate;

verus! {

/// The edit distance that `difference::Changeset` reports between `orig` and
/// `edit`, both cut at `split`.
pub uninterp spec fn changeset_distance(orig: Seq<char>, edit: Seq<char>, split: Seq<char>) -> int;

/// Relies on `difference::Changeset::new`: its `distance` field.
#[verifier::external_body]
fn edit_distance(orig: &str, edit: &str, split: &str) -> (r: i32)
    ensures
        r as int == changeset_distance(orig@, edit@, split@),
{
    difference::Changeset::new(orig, edit, split).distance
}

/// Which side of the limit a distance must fall on.
#[derive(Debug, Clone, Copy, PartialEq, Eq)]
pub enum DistanceOp {
    /// At most the limit.
    Similar,
    /// More than the limit.
    Different,
}

impl DistanceOp {
    /// Whether `distance` satisfies `self` against `limit`.
    pub open spec fn accepts(self, limit: int, distance: int) -> bool {
        match self {
            DistanceOp::Similar => distance <= limit,
            DistanceOp::Different => limit < distance,
        }
    }

    /// Decide `distance` against `limit`.
    pub fn eval(self, limit: i32, distance: i32) -> (r: bool)
        ensures
            r == self.accepts(limit as int, distance as int),
    {
        match self {
            DistanceOp::Similar => distance <= limit,
            DistanceOp::Different => limit < distance,
        }
    }

    /// Decide a count of changes against `limit`.
    pub fn eval_count(self, limit: i32, count: usize) -> (r: bool)
        ensures
            r == self.accepts(limit as int, count as int),
    {
        let within = limit >= 0 && count <= limit as usize;
        match self {
            DistanceOp::Similar => within,
            DistanceOp::Different => !within,
        }
    }
}

/// A predicate that compares the edit distance from a reference text with a limit.
#[derive(Debug, Clone)]
pub struct DifferencePredicate {
    orig: String,
    split: String,
    distance: i32,
    op: DistanceOp,
}

impl DifferencePredicate {
    /// The reference text.
    pub closed spec fn original(&self) -> Seq<char> {
        self.orig@
    }

    /// Where the texts are cut into pieces.
    pub closed spec fn separator(&self) -> Seq<char> {
        self.split@
    }

    /// The distance limit.
    pub closed spec fn limit(&self) -> int {
        self.distance as int
    }

    /// Which side of the limit is accepted.
    pub closed spec fn op(&self) -> DistanceOp {
        self.op
    }

    /// Cut the texts at `split` (`""` for characters, `" "` for words, `"\n"` for lines).
    pub fn split(self, split: &str) -> (r: Self)
        ensures
            r.original() == self.original(),
            r.separator() == split@,
            r.limit() == self.limit(),
            r.op() == self.op(),
    {
        DifferencePredicate { split: split.to_owned(), ..self }
    }

    /// Set the distance limit.
    pub fn distance(self, distance: i32) -> (r: Self)
        ensures
            r.original() == self.original(),
            r.separator() == self.separator(),
            r.limit() == distance as int,
            r.op() == self.op(),
    {
        DifferencePredicate { distance, ..self }
    }
}

impl Predicate<str> for DifferencePredicate {
    open spec fn holds(&self, item: Seq<char>) -> bool {
        self.op().accepts(self.limit(), changeset_distance(self.original(), item, self.separator()))
    }

    fn eval(&self, variable: &str) -> (r: bool) {
        let d = edit_distance(self.orig.as_str(), variable, self.split.as_str());
        self.op.eval(self.distance, d)
    }
}

/// A predicate that holds of texts more than the limit (default `0`) away from
/// `orig`, cut into lines.
pub fn diff(orig: &str) -> (r: DifferencePredicate)
    ensures
        r.original() == orig@,
        r.separator() == "\n"@,
        r.limit() == 0,
        r.op() == DistanceOp::Different,
{
    DifferencePredicate { orig: orig.to_owned(), split: "\n".to_owned(), distance: 0, op: DistanceOp::Different }
}

/// A predicate that holds of texts at most the limit (default `0`) away from
/// `orig`, cut into lines.
pub fn similar(orig: &str) -> (r: DifferencePredicate)
    ensures
        r.original() == orig@,
        r.separator() == "\n"@,
        r.limit() == 0,
        r.op() == DistanceOp::Similar,
{
    DifferencePredicate { orig: orig.to_owned(), split: "\n".to_owned(), distance: 0, op: DistanceOp::Similar }
}

} // verus!
