use predicates::reflection::Describe;
use predicates::constant::always;
use predicates::function::function;
use predicates::iter::{in_hash, in_iter};
use predicates::ord::eq;
use predicates::predicate::Predicate;
use predicates::reflection::{Case, Child, Parameter, PredicateReflection, Product};
use predicates::set::{contains, contains_hashable, contains_ord, in_set};

#[test]
fn membership_variants_agree() {
    let source = vec![1, 3, 5, 3, 9];
    let linear = in_iter(source.clone());
    let hashed = in_hash(source.clone());
    let sorted = in_iter(source.clone()).sort();
    for x in -1..12 {
        let expected = source.contains(&x);
        assert_eq!(expected, linear.eval(&x));
        assert_eq!(expected, sorted.eval(&x));
        assert_eq!(expected, hashed.eval(&x));
    }
}

#[test]
fn sorted_membership_of_unsorted_source() {
    let p = in_iter(vec![50, 10, 40, 20, 30, 0]).sort();
    assert_eq!(true, p.eval(&0));
    assert_eq!(true, p.eval(&50));
    assert_eq!(true, p.eval(&30));
    assert_eq!(false, p.eval(&25));
    assert_eq!(false, p.eval(&60));
}

#[test]
fn empty_membership() {
    let empty: Vec<i32> = Vec::new();
    assert_eq!(false, in_iter(empty.clone()).eval(&1));
    assert_eq!(false, in_iter(empty.clone()).sort().eval(&1));
    assert_eq!(false, in_hash(empty).eval(&1));
}

#[test]
fn set_named_constructors() {
    assert_eq!(true, contains(vec![1, 2]).eval(&2));
    assert_eq!(false, contains_ord(vec![2, 1]).eval(&3));
    assert_eq!(true, contains_ord(vec![2, 1]).eval(&1));
    assert_eq!(true, contains_hashable(vec![7]).eval(&7));
    assert_eq!(false, in_set(vec![7]).eval(&8));
}

#[test]
fn function_predicate_and_its_name() {
    let bound = 5;
    let p = function(move |x: &i32| *x >= bound);
    assert_eq!("fn", p.display_name());
    assert_eq!(true, p.eval(&7));
    assert_eq!(false, p.eval(&3));
    let p = p.fn_name("at_least_five");
    assert_eq!("at_least_five", p.display_name());
    assert_eq!(true, p.eval(&5));
}

#[test]
fn map_evaluates_on_projection() {
    let p = predicates::map::map(|pair: &(i32, i32)| pair.1, eq(5));
    assert_eq!(true, p.eval(&(0, 5)));
    assert_eq!(false, p.eval(&(5, 0)));
}

#[test]
fn case_products_by_name() {
    let case = Case::new(true)
        .add_product(Product::new("distance", "2".to_string()))
        .add_product(Product::new("diff", "a".to_string()))
        .add_product(Product::new("distance", "3".to_string()));
    assert_eq!(true, case.result_value());
    assert_eq!(Some("3".to_string()), case.product_value("distance"));
    assert_eq!(Some("a".to_string()), case.product_value("diff"));
    assert_eq!(None, case.product_value("ratio"));
}

#[test]
fn parameters_and_children_accessors() {
    let param = Parameter::new("key", "10");
    assert_eq!("key", param.name());
    assert_eq!("10", param.value());
    let child = Child::new("left", vec![param.clone()]);
    assert_eq!("left", child.name());
    assert_eq!(1, child.value().len());
    let product = Product::new("distance", "4".to_string());
    assert_eq!("distance", product.name());
    assert_eq!("4", product.value());
    let params = PredicateReflection::parameters(&always::<i32>());
    assert_eq!("value", params[0].name());
    assert_eq!("true", params[0].value());
}

#[test]
fn leaf_descriptions() {
    assert_eq!("true", always::<i32>().describe());
    assert_eq!("false", predicates::constant::never::<i32>().describe());
    assert_eq!("is_small(var)", function(|x: &i32| *x < 3).fn_name("is_small").describe());
    assert_eq!("exists(var)", predicates::path::existence::path_exists().describe());
    assert_eq!("missing(var)", predicates::path::existence::missing().describe());
    let re = predicates::str::regex::is_match("a+").unwrap();
    assert_eq!("var.is_match(a+)", re.describe());
    assert_eq!("var.is_match(a+).count(12)", re.count(12).describe());
    let file = predicates::path::fs::eq_file("ref.txt", b"x".to_vec());
    assert_eq!("var is ref.txt", file.describe());
    assert_eq!("var is ref.txt", file.utf8().unwrap().describe());
}
