//! Distance from a reference text, counted in the chunks of a character diff.

use vstd::prelude::*;

use crate::predicate::Predicate;
use crate::reflection::{Case, Child, Describe, Parameter, PredicateReflection, Product};
use crate::str::difference::DistanceOp;
use crate::str::edits::{decimal, integer_text, marked, push_marked, render_integer, EditKind};

verus! {

/// The chunks that `dissimilar::diff` cuts `a` and `b` into, in order.
pub uninterp spec fn dissimilar_chunks(a: Seq<char>, b: Seq<char>) -> Seq<(EditKind, Seq<char>)>;

/// Relies on `dissimilar::diff`: each chunk's kind and text, in order.
#[verifier::external_body]
fn diff_chunks(a: &str, b: &str) -> (r: Vec<(EditKind, String)>)
    ensures
        r@.map_values(|c: (EditKind, String)| (c.0, c.1@)) == dissimilar_chunks(a@, b@),
{
    dissimilar::diff(a, b).into_iter().map(|c| match c {
        dissimilar::Chunk::Equal(s) => (EditKind::Equal, s.to_owned()),
        dissimilar::Chunk::Delete(s) => (EditKind::Delete, s.to_owned()),
        dissimilar::Chunk::Insert(s) => (EditKind::Insert, s.to_owned()),
    }).collect()
}

/// The number of chunks in `cs` that are not unchanged text.
pub open spec fn chunk_changes(cs: Seq<(EditKind, Seq<char>)>) -> nat
    decreases cs.len(),
{
    if cs.len() == 0 {
        0
    } else {
        chunk_changes(cs.drop_last()) + if cs.last().0 == EditKind::Equal { 0nat } else { 1nat }
    }
}

/// The rendering of `cs`, chunk after chunk.
pub open spec fn render_chunks(cs: Seq<(EditKind, Seq<char>)>) -> Seq<char>
    decreases cs.len(),
{
    if cs.len() == 0 {
        Seq::empty()
    } else {
        render_chunks(cs.drop_last()) + marked(cs.last().0, cs.last().1)
    }
}

proof fn lemma_chunk_changes_bound(cs: Seq<(EditKind, Seq<char>)>)
    ensures
        chunk_changes(cs) <= cs.len(),
    decreases cs.len(),
{
    if cs.len() > 0 {
        lemma_chunk_changes_bound(cs.drop_last());
    }
}

/// The number of chunks that are not unchanged text.
pub fn distance(chunks: &Vec<(EditKind, String)>) -> (r: usize)
    ensures
        r == chunk_changes(chunks@.map_values(|c: (EditKind, String)| (c.0, c.1@))),
{
    let ghost cs = chunks@.map_values(|c: (EditKind, String)| (c.0, c.1@));
    let mut n: usize = 0;
    let mut i: usize = 0;
    while i < chunks.len()
        invariant
            i <= chunks@.len(),
            cs == chunks@.map_values(|c: (EditKind, String)| (c.0, c.1@)),
            n == chunk_changes(cs.take(i as int)),
        decreases chunks@.len() - i,
    {
        proof {
            assert(cs.take(i + 1).drop_last() =~= cs.take(i as int));
            lemma_chunk_changes_bound(cs.take(i as int));
        }
        match chunks[i].0 {
            EditKind::Equal => {},
            _ => {
                n = n + 1;
            },
        }
        i = i + 1;
    }
    proof {
        assert(cs.take(i as int) =~= cs);
    }
    n
}

/// A predicate that compares the number of changed chunks between a reference
/// text and its input with a limit.
#[derive(Debug, Clone)]
pub struct DissimilarPredicate {
    orig: String,
    distance: i32,
    op: DistanceOp,
}

impl DissimilarPredicate {
    /// The reference text.
    pub closed spec fn original(&self) -> Seq<char> {
        self.orig@
    }

    /// The limit on the number of changes.
    pub closed spec fn limit(&self) -> int {
        self.distance as int
    }

    /// Which side of the limit is accepted.
    pub closed spec fn op(&self) -> DistanceOp {
        self.op
    }

    /// The number of changed chunks between the reference and `item`.
    pub open spec fn changes(&self, item: Seq<char>) -> nat {
        chunk_changes(dissimilar_chunks(self.original(), item))
    }

    /// Set the limit on the number of changes.
    pub fn distance(self, distance: i32) -> (r: Self)
        ensures
            r.original() == self.original(),
            r.limit() == distance as int,
            r.op() == self.op(),
    {
        DissimilarPredicate { distance, ..self }
    }

    /// The chunks rendered one after the other, changes between colour markers.
    pub fn diff(&self, chunks: &Vec<(EditKind, String)>) -> (r: String)
        ensures
            r@ == render_chunks(chunks@.map_values(|c: (EditKind, String)| (c.0, c.1@))),
    {
        let ghost cs = chunks@.map_values(|c: (EditKind, String)| (c.0, c.1@));
        let mut out = String::new();
        let mut i: usize = 0;
        while i < chunks.len()
            invariant
                i <= chunks@.len(),
                cs == chunks@.map_values(|c: (EditKind, String)| (c.0, c.1@)),
                out@ == render_chunks(cs.take(i as int)),
            decreases chunks@.len() - i,
        {
            proof {
                assert(cs.take(i + 1).drop_last() =~= cs.take(i as int));
            }
            push_marked(&mut out, chunks[i].0, chunks[i].1.as_str());
            i = i + 1;
        }
        proof {
            assert(cs.take(i as int) =~= cs);
        }
        out
    }

    /// Evaluate `variable` and, where the outcome is `expected`, explain it with
    /// the number of changes (`"distance"`) and the rendered diff (`"diff"`).
    pub fn explain(&self, expected: bool, variable: &str) -> (r: Option<Case>)
        ensures
            r.is_some() <==> self.holds(variable@) == expected,
            r matches Some(c) ==> {
                &&& c.result() == expected
                &&& c.products() == seq![
                    ("distance"@, decimal(self.changes(variable@))),
                    ("diff"@, render_chunks(dissimilar_chunks(self.original(), variable@))),
                ]
            },
    {
        let chunks = diff_chunks(self.orig.as_str(), variable);
        let n = distance(&chunks);
        let result = self.op.eval_count(self.distance, n);
        if result == expected {
            let case = Case::new(result).add_product(Product::new("distance", render_integer(n as i128))).add_product(
                Product::new("diff", self.diff(&chunks)),
            );
            proof {
                assert(case.products() =~= seq![
                    ("distance"@, decimal(self.changes(variable@))),
                    ("diff"@, render_chunks(dissimilar_chunks(self.original(), variable@))),
                ]);
            }
            Some(case)
        } else {
            None
        }
    }
}

impl Predicate<str> for DissimilarPredicate {
    open spec fn holds(&self, item: Seq<char>) -> bool {
        self.op().accepts(self.limit(), self.changes(item) as int)
    }

    fn eval(&self, variable: &str) -> (r: bool) {
        let chunks = diff_chunks(self.orig.as_str(), variable);
        self.op.eval_count(self.distance, distance(&chunks))
    }

    fn find_case(&self, expected: bool, variable: &str) -> (r: Option<Case>) {
        self.explain(expected, variable)
    }
}

impl PredicateReflection for DissimilarPredicate {
    open spec fn child_list(&self) -> Seq<(Seq<char>, Seq<(Seq<char>, Seq<char>)>)> {
        Seq::empty()
    }

    open spec fn parameter_list(&self) -> Seq<(Seq<char>, Seq<char>)> {
        seq![("original"@, self.original())]
    }

    fn parameters(&self) -> (r: Vec<Parameter>) {
        let mut r = Vec::new();
        r.push(Parameter::new("original", self.orig.as_str()));
        proof {
            assert(r@.map_values(|p: Parameter| p@) =~= self.parameter_list());
        }
        r
    }

    fn children(&self) -> (r: Vec<Child>) {
        let r = Vec::new();
        proof {
            assert(r@.map_values(|c: Child| c@) =~= self.child_list());
        }
        r
    }
}

/// A predicate that holds of texts with more changed chunks than the limit
/// (default `0`) from `orig`.
pub fn diff2(orig: &str) -> (r: DissimilarPredicate)
    ensures
        r.original() == orig@,
        r.limit() == 0,
        r.op() == DistanceOp::Different,
{
    DissimilarPredicate { orig: orig.to_owned(), distance: 0, op: DistanceOp::Different }
}

/// A predicate that holds of texts with at most the limit (default `0`) of
/// changed chunks from `orig`.
pub fn similar2(orig: &str) -> (r: DissimilarPredicate)
    ensures
        r.original() == orig@,
        r.limit() == 0,
        r.op() == DistanceOp::Similar,
{
    DissimilarPredicate { orig: orig.to_owned(), distance: 0, op: DistanceOp::Similar }
}

impl Describe for DissimilarPredicate {
    open spec fn description(&self) -> Seq<char> {
        match self.op() {
            DistanceOp::Similar => "var - original <= "@ + integer_text(self.limit()),
            DistanceOp::Different => integer_text(self.limit()) + " < var - original"@,
        }
    }

    fn describe(&self) -> (r: String) {
        let limit = render_integer(self.distance as i128);
        let mut r = String::new();
        match self.op {
            DistanceOp::Similar => {
                r.append("var - original <= ");
                r.append(limit.as_str());
            },
            DistanceOp::Different => {
                r.append(limit.as_str());
                r.append(" < var - original");
            },
        }
        proof {
            assert(r@ =~= (match self.op() {
                DistanceOp::Similar => "var - original <= "@ + integer_text(self.limit()),
                DistanceOp::Different => integer_text(self.limit()) + " < var - original"@,
            }));
        }
        r
    }
}

} // verus!
