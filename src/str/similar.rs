//! Similarity to a reference text, measured on the edit operations of a
//! character diff: either the number of changes or the share of unchanged text.

use vstd::prelude::*;

use similar::Algorithm as SimilarAlgorithm;
use similar::DiffTag;

use crate::predicate::Predicate;
use crate::reflection::{Case, Child, Describe, Parameter, PredicateReflection, Product};
use crate::str::edits::{decimal, integer_text, marked, push_marked, render_integer, EditKind};

verus! {

/// The diff algorithm to run.
#[derive(Debug, Clone, Copy, PartialEq, Eq)]
pub enum Algorithm {
    /// Myers' difference algorithm.
    Myers,
    /// Patience diff.
    Patience,
    /// Longest common subsequence.
    Lcs,
}

/// One edit operation: its kind, then where it lies in the reference (start,
/// length) and in the candidate (start, length), counted in characters.
#[derive(Debug, Clone, Copy)]
pub struct DiffSpan {
    kind: EditKind,
    old_index: usize,
    old_len: usize,
    new_index: usize,
    new_len: usize,
}

impl View for DiffSpan {
    type V = (EditKind, nat, nat, nat, nat);

    closed spec fn view(&self) -> Self::V {
        (self.kind, self.old_index as nat, self.old_len as nat, self.new_index as nat, self.new_len as nat)
    }
}

/// The operations that `similar` finds between `old` and `new` with `alg`.
pub uninterp spec fn similar_ops(alg: Algorithm, old: Seq<char>, new: Seq<char>) -> Seq<(EditKind, nat, nat, nat, nat)>;

/// Relies on `similar::capture_diff_slices`: each operation's tag and ranges, in order.
#[verifier::external_body]
fn capture_ops(alg: Algorithm, old: &Vec<char>, new: &Vec<char>) -> (r: Vec<DiffSpan>)
    ensures
        r@.map_values(|s: DiffSpan| s@) == similar_ops(alg, old@, new@),
{
    let a = match alg { Algorithm::Myers => SimilarAlgorithm::Myers, Algorithm::Patience => SimilarAlgorithm::Patience, Algorithm::Lcs => SimilarAlgorithm::Lcs };
    similar::capture_diff_slices(a, old, new).iter().map(|op| {
        let (tag, o, n) = op.as_tag_tuple();
        let kind = match tag { DiffTag::Equal => EditKind::Equal, DiffTag::Delete => EditKind::Delete, DiffTag::Insert => EditKind::Insert, DiffTag::Replace => EditKind::Replace };
        DiffSpan { kind, old_index: o.start, old_len: o.len(), new_index: n.start, new_len: n.len() }
    }).collect()
}

/// The characters of `s`.
fn chars_of(s: &str) -> (r: Vec<char>)
    ensures
        r@ == s@,
{
    let n = s.unicode_len();
    let mut v: Vec<char> = Vec::new();
    let mut i: usize = 0;
    while i < n
        invariant
            n == s@.len(),
            i <= n,
            v@ == s@.take(i as int),
        decreases n - i,
    {
        v.push(s.get_char(i));
        i = i + 1;
        proof {
            assert(v@ =~= s@.take(i as int));
        }
    }
    proof {
        assert(v@ =~= s@);
    }
    v
}

/// The number of operations in `ops` that change something.
pub open spec fn op_changes(ops: Seq<(EditKind, nat, nat, nat, nat)>) -> nat
    decreases ops.len(),
{
    if ops.len() == 0 {
        0
    } else {
        op_changes(ops.drop_last()) + if ops.last().0 == EditKind::Equal { 0nat } else { 1nat }
    }
}

/// The unchanged length in `ops`, counted no further than `cap`.
pub open spec fn matched(ops: Seq<(EditKind, nat, nat, nat, nat)>, cap: nat) -> nat
    decreases ops.len(),
{
    if ops.len() == 0 {
        0
    } else {
        let m = matched(ops.drop_last(), cap) + if ops.last().0 == EditKind::Equal { ops.last().2 } else { 0nat };
        if m <= cap { m } else { cap }
    }
}

/// The similarity ratio of `ops` between texts of lengths `a` and `b`, as a
/// fraction: twice the unchanged length over the combined length, or one where
/// both texts are empty.
pub open spec fn ratio_of(ops: Seq<(EditKind, nat, nat, nat, nat)>, a: nat, b: nat) -> (nat, nat) {
    if a + b == 0 {
        (1, 1)
    } else {
        (2 * matched(ops, a), a + b)
    }
}

/// `len` characters of `s` from `start`; nothing where that runs past the end.
pub open spec fn span_text(s: Seq<char>, start: nat, len: nat) -> Seq<char> {
    if start + len <= s.len() {
        s.subrange(start as int, (start + len) as int)
    } else {
        Seq::empty()
    }
}

/// The text that an operation stands for: removed or kept text from `old`,
/// new text from `new`.
pub open spec fn op_text(op: (EditKind, nat, nat, nat, nat), old: Seq<char>, new: Seq<char>) -> Seq<char> {
    match op.0 {
        EditKind::Equal => span_text(old, op.1, op.2),
        EditKind::Delete => span_text(old, op.1, op.2),
        _ => span_text(new, op.3, op.4),
    }
}

/// The rendering of `ops` between `old` and `new`, operation after operation.
pub open spec fn render_ops(ops: Seq<(EditKind, nat, nat, nat, nat)>, old: Seq<char>, new: Seq<char>) -> Seq<char>
    decreases ops.len(),
{
    if ops.len() == 0 {
        Seq::empty()
    } else {
        render_ops(ops.drop_last(), old, new) + marked(ops.last().0, op_text(ops.last(), old, new))
    }
}

proof fn lemma_op_changes_bound(ops: Seq<(EditKind, nat, nat, nat, nat)>)
    ensures
        op_changes(ops) <= ops.len(),
    decreases ops.len(),
{
    if ops.len() > 0 {
        lemma_op_changes_bound(ops.drop_last());
    }
}

/// Whether the outcome of the measure is taken as it is or inverted.
#[derive(Debug, Clone, Copy, PartialEq, Eq)]
pub enum SimilarOp {
    /// Hold where the limit is met.
    Similar,
    /// Hold where the limit is not met.
    Different,
}

impl SimilarOp {
    /// The outcome for a measure that does (`similar`) or does not meet the limit.
    pub open spec fn apply(self, similar: bool) -> bool {
        match self {
            SimilarOp::Similar => similar,
            SimilarOp::Different => !similar,
        }
    }

    /// The outcome for a measure that does (`similar`) or does not meet the limit.
    pub fn eval(self, similar: bool) -> (r: bool)
        ensures
            r == self.apply(similar),
    {
        match self {
            SimilarOp::Similar => similar,
            SimilarOp::Different => !similar,
        }
    }
}

/// The limit a measure is held to.
#[derive(Debug, Clone, Copy, PartialEq, Eq)]
pub enum SimilarLimit {
    /// At least this share (numerator, denominator) of unchanged text.
    Ratio(u32, u32),
    /// At most this many changes.
    Changes(u32),
}

impl SimilarLimit {
    /// A ratio limit has a positive denominator.
    pub open spec fn well_formed(self) -> bool {
        self matches SimilarLimit::Ratio(_, d) ==> d > 0
    }
}

/// How a limit is written: `ratio(n/d)` or `changes(c)`.
pub open spec fn limit_text(limit: SimilarLimit) -> Seq<char> {
    match limit {
        SimilarLimit::Ratio(n, d) => "ratio("@ + decimal(n as nat) + "/"@ + decimal(d as nat) + ")"@,
        SimilarLimit::Changes(c) => "changes("@ + decimal(c as nat) + ")"@,
    }
}

/// What was measured, as the `"measure"` product renders it.
pub open spec fn measure_text(limit: SimilarLimit, ops: Seq<(EditKind, nat, nat, nat, nat)>, a: nat, b: nat) -> Seq<char> {
    match limit {
        SimilarLimit::Ratio(_, _) => "ratio("@ + decimal(ratio_of(ops, a, b).0) + "/"@ + decimal(ratio_of(ops, a, b).1) + ")"@,
        SimilarLimit::Changes(_) => "changes("@ + decimal(op_changes(ops)) + ")"@,
    }
}

/// Whether the measure of `ops` between texts of lengths `a` and `b` meets `limit`.
pub open spec fn meets(limit: SimilarLimit, ops: Seq<(EditKind, nat, nat, nat, nat)>, a: nat, b: nat) -> bool {
    match limit {
        SimilarLimit::Ratio(n, d) => ratio_of(ops, a, b).0 * d >= n * ratio_of(ops, a, b).1,
        SimilarLimit::Changes(c) => op_changes(ops) <= c,
    }
}

/// A predicate that compares a reference text with its input by the edit
/// operations between them.
#[derive(Debug)]
pub struct SimilarPredicate {
    old: String,
    algorithm: Algorithm,
    op: SimilarOp,
    limit: SimilarLimit,
}

impl SimilarPredicate {
    #[verifier::type_invariant]
    closed spec fn inv(&self) -> bool {
        self.limit.well_formed()
    }

    /// The reference text.
    pub closed spec fn original(&self) -> Seq<char> {
        self.old@
    }

    /// The diff algorithm.
    pub closed spec fn diff_algorithm(&self) -> Algorithm {
        self.algorithm
    }

    /// Whether the measure is taken as it is or inverted.
    pub closed spec fn op(&self) -> SimilarOp {
        self.op
    }

    /// The limit.
    pub closed spec fn limit(&self) -> SimilarLimit {
        self.limit
    }

    /// The operations between the reference and `item`.
    pub open spec fn ops(&self, item: Seq<char>) -> Seq<(EditKind, nat, nat, nat, nat)> {
        similar_ops(self.diff_algorithm(), self.original(), item)
    }

    fn new(old: &str, op: SimilarOp) -> (r: Self)
        ensures
            r.original() == old@,
            r.diff_algorithm() == Algorithm::Myers,
            r.op() == op,
            r.limit() == SimilarLimit::Ratio(1, 1),
    {
        SimilarPredicate { old: old.to_owned(), algorithm: Algorithm::Myers, op, limit: SimilarLimit::Ratio(1, 1) }
    }

    /// Allow at most `changes` changed operations; replaces the ratio limit.
    pub fn changes(self, changes: u32) -> (r: Self)
        ensures
            r.original() == self.original(),
            r.diff_algorithm() == self.diff_algorithm(),
            r.op() == self.op(),
            r.limit() == SimilarLimit::Changes(changes),
    {
        SimilarPredicate { old: self.old, algorithm: self.algorithm, op: self.op, limit: SimilarLimit::Changes(changes) }
    }

    /// Require at least `numerator / denominator` of unchanged text; replaces the
    /// change limit.
    pub fn ratio(self, numerator: u32, denominator: u32) -> (r: Self)
        requires
            denominator > 0,
        ensures
            r.original() == self.original(),
            r.diff_algorithm() == self.diff_algorithm(),
            r.op() == self.op(),
            r.limit() == SimilarLimit::Ratio(numerator, denominator),
    {
        SimilarPredicate {
            old: self.old,
            algorithm: self.algorithm,
            op: self.op,
            limit: SimilarLimit::Ratio(numerator, denominator),
        }
    }

    /// Use `alg` to find the operations.
    pub fn algorithm(self, alg: Algorithm) -> (r: Self)
        ensures
            r.original() == self.original(),
            r.diff_algorithm() == alg,
            r.op() == self.op(),
            r.limit() == self.limit(),
    {
        proof {
            use_type_invariant(&self);
        }
        SimilarPredicate { old: self.old, algorithm: alg, op: self.op, limit: self.limit }
    }

    /// The outcome for `new`, the operations, and the rendered measure.
    fn run(&self, new: &str) -> (r: (bool, Vec<DiffSpan>, String))
        ensures
            r.0 == self.holds(new@),
            r.1@.map_values(|s: DiffSpan| s@) == self.ops(new@),
            r.2@ == measure_text(self.limit(), self.ops(new@), self.original().len(), new@.len()),
    {
        proof {
            use_type_invariant(self);
        }
        let old_chars = chars_of(self.old.as_str());
        let new_chars = chars_of(new);
        let ops = capture_ops(self.algorithm, &old_chars, &new_chars);
        let ghost vs = ops@.map_values(|s: DiffSpan| s@);
        let a = old_chars.len();
        let b = new_chars.len();
        let mut changes: usize = 0;
        let mut m: usize = 0;
        let mut i: usize = 0;
        while i < ops.len()
            invariant
                i <= ops@.len(),
                vs == ops@.map_values(|s: DiffSpan| s@),
                changes == op_changes(vs.take(i as int)),
                m == matched(vs.take(i as int), a as nat),
                m <= a,
            decreases ops@.len() - i,
        {
            proof {
                assert(vs.take(i + 1).drop_last() =~= vs.take(i as int));
                lemma_op_changes_bound(vs.take(i as int));
            }
            let span = ops[i];
            match span.kind {
                EditKind::Equal => {
                    if span.old_len <= a - m {
                        m = m + span.old_len;
                    } else {
                        m = a;
                    }
                },
                _ => {
                    changes = changes + 1;
                },
            }
            i = i + 1;
        }
        proof {
            assert(vs.take(i as int) =~= vs);
        }
        let (met, measure) = match self.limit {
            SimilarLimit::Ratio(n, d) => {
                let total = a as u128 + b as u128;
                let (num, den) = if total == 0 { (1u128, 1u128) } else { (2 * (m as u128), total) };
                proof {
                    assert(num * d <= 0x2_0000_0000_0000_0000u128 * 0x1_0000_0000u128) by (nonlinear_arith)
                        requires num <= 0x2_0000_0000_0000_0000u128, d < 0x1_0000_0000u128;
                    assert(n * den <= 0x1_0000_0000u128 * 0x2_0000_0000_0000_0000u128) by (nonlinear_arith)
                        requires den <= 0x2_0000_0000_0000_0000u128, n < 0x1_0000_0000u128;
                }
                let mut text = String::new();
                text.append("ratio(");
                text.append(render_integer(num as i128).as_str());
                text.append("/");
                text.append(render_integer(den as i128).as_str());
                text.append(")");
                (num * (d as u128) >= (n as u128) * den, text)
            },
            SimilarLimit::Changes(c) => {
                let mut text = String::new();
                text.append("changes(");
                text.append(render_integer(changes as i128).as_str());
                text.append(")");
                (changes <= c as usize, text)
            },
        };
        proof {
            assert(measure@ =~= measure_text(self.limit(), vs, a as nat, b as nat));
        }
        let result = self.op.eval(met);
        (result, ops, measure)
    }

    /// The operations rendered one after the other, changes between colour markers.
    fn render(&self, new: &str, ops: &Vec<DiffSpan>) -> (r: String)
        ensures
            r@ == render_ops(ops@.map_values(|s: DiffSpan| s@), self.original(), new@),
    {
        let ghost vs = ops@.map_values(|s: DiffSpan| s@);
        let old = self.old.as_str();
        let old_len = old.unicode_len();
        let new_len = new.unicode_len();
        let mut out = String::new();
        let mut i: usize = 0;
        while i < ops.len()
            invariant
                i <= ops@.len(),
                vs == ops@.map_values(|s: DiffSpan| s@),
                old@ == self.original(),
                old_len == old@.len(),
                new_len == new@.len(),
                out@ == render_ops(vs.take(i as int), self.original(), new@),
            decreases ops@.len() - i,
        {
            proof {
                assert(vs.take(i + 1).drop_last() =~= vs.take(i as int));
            }
            let span = ops[i];
            let (text, start, len, whole) = match span.kind {
                EditKind::Equal => (old, span.old_index, span.old_len, old_len),
                EditKind::Delete => (old, span.old_index, span.old_len, old_len),
                _ => (new, span.new_index, span.new_len, new_len),
            };
            if start <= whole && len <= whole - start {
                push_marked(&mut out, span.kind, text.substring_char(start, start + len));
            } else {
                push_marked(&mut out, span.kind, "");
                proof {
                    assert(""@ =~= Seq::<char>::empty()) by {
                        reveal_strlit("");
                    }
                }
            }
            i = i + 1;
        }
        proof {
            assert(vs.take(i as int) =~= vs);
        }
        out
    }

    /// Evaluate `new` and, where the outcome is `expected`, explain it with the
    /// measure (`"measure"`) and the rendered diff (`"diff"`).
    pub fn explain(&self, expected: bool, new: &str) -> (r: Option<Case>)
        ensures
            r.is_some() <==> self.holds(new@) == expected,
            r matches Some(c) ==> {
                &&& c.result() == expected
                &&& c.products() == seq![
                    ("measure"@, measure_text(self.limit(), self.ops(new@), self.original().len(), new@.len())),
                    ("diff"@, render_ops(self.ops(new@), self.original(), new@)),
                ]
            },
    {
        let (result, ops, measure) = self.run(new);
        if result == expected {
            let diff = self.render(new, &ops);
            let case = Case::new(result).add_product(Product::new("measure", measure)).add_product(
                Product::new("diff", diff),
            );
            proof {
                assert(case.products() =~= seq![
                    ("measure"@, measure_text(self.limit(), self.ops(new@), self.original().len(), new@.len())),
                    ("diff"@, render_ops(self.ops(new@), self.original(), new@)),
                ]);
            }
            Some(case)
        } else {
            None
        }
    }
}

impl Predicate<str> for SimilarPredicate {
    open spec fn holds(&self, item: Seq<char>) -> bool {
        self.op().apply(meets(self.limit(), self.ops(item), self.original().len(), item.len()))
    }

    fn eval(&self, variable: &str) -> (r: bool) {
        self.run(variable).0
    }

    fn find_case(&self, expected: bool, variable: &str) -> (r: Option<Case>) {
        self.explain(expected, variable)
    }
}

impl PredicateReflection for SimilarPredicate {
    open spec fn child_list(&self) -> Seq<(Seq<char>, Seq<(Seq<char>, Seq<char>)>)> {
        Seq::empty()
    }

    open spec fn parameter_list(&self) -> Seq<(Seq<char>, Seq<char>)> {
        seq![("original"@, self.original())]
    }

    fn parameters(&self) -> (r: Vec<Parameter>) {
        let mut r = Vec::new();
        r.push(Parameter::new("original", self.old.as_str()));
        proof {
            assert(r@.map_values(|p: Parameter| p@) =~= self.parameter_list());
        }
        r
    }

    fn children(&self) -> (r: Vec<Child>) {
        let r = Vec::new();
        proof {
            assert(r@.map_values(|c: Child| c@) =~= self.child_list());
        }
        r
    }
}

/// A predicate that holds of texts that differ from `old` beyond the limit
/// (by default: anything short of identical under the ratio `1/1`).
pub fn diff3(old: &str) -> (r: SimilarPredicate)
    ensures
        r.original() == old@,
        r.diff_algorithm() == Algorithm::Myers,
        r.op() == SimilarOp::Different,
        r.limit() == SimilarLimit::Ratio(1, 1),
{
    SimilarPredicate::new(old, SimilarOp::Different)
}

/// A predicate that holds of texts within the limit of `old` (by default: the
/// ratio `1/1`, all text unchanged).
pub fn similar3(old: &str) -> (r: SimilarPredicate)
    ensures
        r.original() == old@,
        r.diff_algorithm() == Algorithm::Myers,
        r.op() == SimilarOp::Similar,
        r.limit() == SimilarLimit::Ratio(1, 1),
{
    SimilarPredicate::new(old, SimilarOp::Similar)
}

impl Describe for SimilarPredicate {
    open spec fn description(&self) -> Seq<char> {
        (match self.op() {
            SimilarOp::Similar => "original is similar to var by "@,
            SimilarOp::Different => "original differs from var by "@,
        }) + limit_text(self.limit())
    }

    fn describe(&self) -> (r: String) {
        let mut r = String::new();
        match self.op {
            SimilarOp::Similar => r.append("original is similar to var by "),
            SimilarOp::Different => r.append("original differs from var by "),
        }
        match self.limit {
            SimilarLimit::Ratio(n, d) => {
                r.append("ratio(");
                r.append(render_integer(n as i128).as_str());
                r.append("/");
                r.append(render_integer(d as i128).as_str());
                r.append(")");
            },
            SimilarLimit::Changes(c) => {
                r.append("changes(");
                r.append(render_integer(c as i128).as_str());
                r.append(")");
            },
        }
        proof {
            assert(r@ =~= (match self.op() {
                SimilarOp::Similar => "original is similar to var by "@,
                SimilarOp::Different => "original differs from var by "@,
            }) + limit_text(self.limit()));
        }
        r
    }
}

} // verus!
