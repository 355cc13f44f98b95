use std::cell::Cell;

use predicates::boolean::{AndPredicate, NotPredicate, OrPredicate, PredicateBooleanExt};
use predicates::constant::{always, never};
use predicates::name::PredicateNameExt;
use predicates::ord::{eq, ge, gt, le, lt, ne};
use predicates::predicate::{pass_fail, Predicate};
use predicates::reflection::{Describe, PredicateReflection};

struct Counting<'a> {
    calls: &'a Cell<u32>,
    answer: bool,
}

impl<'a> Predicate<i32> for Counting<'a> {
    fn holds(&self, _item: i32) -> bool {
        self.answer
    }

    fn eval(&self, _variable: &i32) -> bool {
        self.calls.set(self.calls.get() + 1);
        self.answer
    }
}

#[test]
fn constants_ignore_their_input() {
    assert_eq!(true, always().eval(&5));
    assert_eq!(false, never().eval(&5));
    assert_eq!(true, always().eval("text"));
    assert_eq!(false, never().eval("text"));
}

#[test]
fn and_short_circuits_on_false_left() {
    let calls = Cell::new(0);
    let p = never().and(Counting { calls: &calls, answer: true });
    for x in [-3, 0, 7] {
        assert_eq!(false, p.eval(&x));
    }
    assert_eq!(0, calls.get());
}

#[test]
fn or_short_circuits_on_true_left() {
    let calls = Cell::new(0);
    let p = always().or(Counting { calls: &calls, answer: false });
    assert_eq!(true, p.eval(&1));
    assert_eq!(0, calls.get());
}

#[test]
fn right_operand_runs_when_needed() {
    let calls = Cell::new(0);
    let p = always().and(Counting { calls: &calls, answer: false });
    assert_eq!(false, p.eval(&1));
    assert_eq!(1, calls.get());
}

#[test]
fn boolean_combinators() {
    assert_eq!(true, always().and(always()).eval(&4));
    assert_eq!(false, always().and(never()).eval(&4));
    assert_eq!(true, always().or(never()).eval(&4));
    assert_eq!(false, never().or(never()).eval(&4));
    assert_eq!(false, always().not().eval(&4));
    assert_eq!(true, never().not().eval(&4));
}

#[test]
fn de_morgan_on_concrete_values() {
    for x in -2..12 {
        let lhs = ge(3).and(lt(8)).not().eval(&x);
        let rhs = ge(3).not().or(lt(8).not()).eval(&x);
        assert_eq!(lhs, rhs);
        assert_eq!(lhs, !(3 <= x && x < 8));
    }
}

#[test]
fn double_negation_on_concrete_values() {
    for x in 0..10 {
        assert_eq!(eq(5).not().not().eval(&x), eq(5).eval(&x));
    }
}

#[test]
fn ordering_predicates() {
    assert_eq!(true, lt(10).eval(&9));
    assert_eq!(false, lt(10).eval(&10));
    assert_eq!(true, le(10).eval(&10));
    assert_eq!(false, le(10).eval(&11));
    assert_eq!(true, ge(5).eval(&5));
    assert_eq!(false, ge(5).eval(&4));
    assert_eq!(true, gt(5).eval(&6));
    assert_eq!(false, gt(5).eval(&5));
    assert_eq!(true, eq(5).eval(&5));
    assert_eq!(false, ne(5).eval(&5));
    assert_eq!(true, ne(5).eval(&6));
    let between = ge(5).and(le(10));
    assert_eq!(true, between.eval(&7));
    assert_eq!(false, between.eval(&11));
    assert_eq!(false, between.eval(&4));
}

#[test]
fn children_mirror_operands() {
    let and = AndPredicate::new(always::<i32>(), never::<i32>());
    let kids = PredicateReflection::children(&and);
    assert_eq!(2, kids.len());
    assert_eq!("left", kids[0].name());
    assert_eq!("right", kids[1].name());
    assert_eq!("true", kids[0].value()[0].value());
    assert_eq!("false", kids[1].value()[0].value());
    let or = OrPredicate::new(never::<i32>(), always::<i32>());
    assert_eq!(2, PredicateReflection::children(&or).len());
    let not = NotPredicate::new(always::<i32>());
    let kids = PredicateReflection::children(&not);
    assert_eq!(1, kids.len());
    assert_eq!("predicate", kids[0].name());
    assert!(PredicateReflection::parameters(&and).is_empty());
}

#[test]
fn find_case_agrees_with_eval() {
    let p = eq(5);
    for x in 3..8 {
        let outcome = p.eval(&x);
        let case = p.find_case(outcome, &x).unwrap();
        assert_eq!(outcome, case.result_value());
        assert!(p.find_case(!outcome, &x).is_none());
    }
    let q = always().and(never());
    assert!(q.find_case(true, &1).is_none());
    assert_eq!(false, q.find_case(false, &1).unwrap().result_value());
}

#[test]
fn named_predicate_keeps_evaluation() {
    let p = eq(5).not().name("not five");
    assert_eq!("not five", p.display_name());
    assert_eq!(true, p.eval(&4));
    assert_eq!(false, p.eval(&5));
}

#[test]
fn pass_fail_words() {
    assert_eq!("PASSED", pass_fail(true));
    assert_eq!("FAILED", pass_fail(false));
}

#[test]
fn operator_symbols() {
    assert_eq!("==", eq(1).operator().symbol());
    assert_eq!("!=", ne(1).operator().symbol());
    assert_eq!("<", lt(1).operator().symbol());
    assert_eq!("<=", le(1).operator().symbol());
    assert_eq!(">=", ge(1).operator().symbol());
    assert_eq!(">", gt(1).operator().symbol());
    assert_eq!(&7, gt(7).constant_value());
    assert_eq!(&7, eq(7).constant_value());
}

#[test]
fn operands_are_reachable() {
    let p = eq(1).and(lt(5));
    assert_eq!(true, p.left_operand().eval(&1));
    assert_eq!(false, p.right_operand().eval(&6));
    let q = eq(1).not();
    assert_eq!(true, q.operand_ref().eval(&1));
    assert_eq!(false, q.eval(&1));
}

#[test]
fn combinator_descriptions() {
    let p = always::<i32>().and(never::<i32>().not()).or(never::<i32>());
    assert_eq!("((true && (! false)) || false)", p.describe());
    assert_eq!("short", always::<i32>().and(never::<i32>()).name("short").describe());
}

#[test]
fn children_carry_operand_parameters() {
    let p = NotPredicate::new(always::<i32>().and(never::<i32>()));
    let kids = PredicateReflection::children(&p);
    assert_eq!(1, kids.len());
    assert!(kids[0].value().is_empty());
    let q = OrPredicate::new(never::<i32>(), always::<i32>());
    let kids = PredicateReflection::children(&q);
    assert_eq!("false", kids[0].value()[0].value());
    assert_eq!("true", kids[1].value()[0].value());
}
