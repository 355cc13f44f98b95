use predicates::str::compare::{eq_str, ge_str, gt_str, le_str, lt_str, ne_str};
use predicates::reflection::Describe;
use predicates::boolean::PredicateBooleanExt;
use predicates::predicate::Predicate;
use predicates::str::adapters::PredicateStrExt;
use predicates::str::basics::{contains, ends_with, is_empty, starts_with};
use predicates::str::difference::{diff, similar};
use predicates::str::dissimilar::{diff2, similar2};
use predicates::str::regex::is_match;
use predicates::str::similar::{diff3, similar3, Algorithm};

#[test]
fn substring_predicates() {
    assert_eq!(true, starts_with("Hello").eval("Hello World"));
    assert_eq!(false, starts_with("World").eval("Hello World"));
    assert_eq!(true, ends_with("World").eval("Hello World"));
    assert_eq!(false, ends_with("Hello").eval("Hello World"));
    assert_eq!(true, contains("o W").eval("Hello World"));
    assert_eq!(false, contains("x").eval("Hello World"));
    assert_eq!(true, contains("").eval(""));
    assert_eq!(true, is_empty().eval(""));
    assert_eq!(false, is_empty().eval(" "));
}

#[test]
fn trim_adapter() {
    let p = is_empty().trim();
    assert_eq!(true, p.eval("    "));
    assert_eq!(false, p.eval("    Hello    "));
    assert_eq!(true, starts_with("Hi").trim().eval("  \tHi there"));
}

#[test]
fn utf8_adapter() {
    let p = is_empty().not().from_utf8();
    assert_eq!(true, p.eval(b"Hello" as &[u8]));
    assert_eq!(false, p.eval(b"" as &[u8]));
    assert_eq!(false, p.eval(&[0xffu8, 0xfe][..]));
}

#[test]
fn normalize_adapter() {
    let p = contains("\r").normalize();
    assert_eq!(false, p.eval("a\r\nb\rc"));
    let p = ends_with("some \n\n random\n").normalize();
    assert_eq!(true, p.eval("with \r some \n\r\n random\r"));
}

#[test]
fn regex_count_scenario() {
    let p = is_match("T[a-z]*").unwrap().count(3);
    assert_eq!(true, p.eval("One Two Three Two One"));
    assert_eq!(false, p.eval("One Two Three"));
}

#[test]
fn regex_match_and_bad_pattern() {
    let p = is_match("^[0-9]+$").unwrap();
    assert_eq!(true, p.eval("12345"));
    assert_eq!(false, p.eval("12a45"));
    assert!(is_match("(unclosed").is_err());
}

#[test]
fn difference_distance_by_characters() {
    let p = similar("Hello World!").split("").distance(1);
    assert_eq!(true, p.eval("Hello World!"));
    assert_eq!(true, p.eval("Hello World"));
    assert_eq!(false, p.eval("Hello World?"));
    assert_eq!(true, similar("Hello World").split(" ").eval("Hello World"));
    assert_eq!(false, diff("a\nb").eval("a\nb"));
    assert_eq!(true, diff("a\nb").eval("a\nc"));
}

#[test]
fn dissimilar_distance_and_case() {
    let p = similar2("Hello World!").distance(1);
    assert_eq!(true, p.eval("Hello World!"));
    assert_eq!(true, p.eval("Hello World"));
    assert_eq!(false, p.eval("Hello World?"));
    assert_eq!(true, diff2("abc").eval("abd"));
    let case = diff2("abc").find_case(true, "abd").unwrap();
    assert_eq!(Some("2".to_string()), case.product_value("distance"));
    assert_eq!(
        Some("ab\u{1b}[92mc\u{1b}[0m\u{1b}[91md\u{1b}[0m".to_string()),
        case.product_value("diff")
    );
}

#[test]
fn diff_distance_scenario() {
    assert_eq!(false, diff3("Hello World!").changes(1).eval("Hello World!"));
    assert_eq!(true, similar3("Hello World!").changes(1).eval("Hello World!"));
    assert_eq!(true, similar3("Hello World!").changes(1).eval("Hello World?"));
    assert_eq!(false, similar3("Hello World!").changes(1).eval("Hallo World?"));
    assert_eq!(true, diff3("Hello World!").changes(1).eval("Hallo World?"));
}

#[test]
fn similar_measures() {
    let s1 = "Hello World!";
    let s2 = "Hello... World?";
    assert_eq!(false, similar3(s1).eval(s2));
    assert_eq!(true, similar3(s1).changes(2).eval(s2));
    let case = similar3(s1).changes(2).find_case(true, s2).unwrap();
    assert_eq!(Some("changes(2)".to_string()), case.product_value("measure"));
    assert_eq!(true, similar3(s1).ratio(4, 5).eval(s2));
    assert_eq!(false, similar3(s1).ratio(9, 10).eval(s2));
    let case = similar3(s1).find_case(false, s2).unwrap();
    assert_eq!(Some("ratio(22/27)".to_string()), case.product_value("measure"));
    let case = similar3("").find_case(true, "").unwrap();
    assert_eq!(Some("ratio(1/1)".to_string()), case.product_value("measure"));
}

#[test]
fn similar_diff_rendering() {
    let case = similar3("Hello World!").changes(1).find_case(true, "Hello World?").unwrap();
    assert_eq!(
        Some("Hello World\u{1b}[95m?\u{1b}[0m".to_string()),
        case.product_value("diff")
    );
    let case = similar3("ab").changes(5).find_case(true, "abc").unwrap();
    assert_eq!(Some("ab\u{1b}[91mc\u{1b}[0m".to_string()), case.product_value("diff"));
    let case = similar3("abc").changes(5).find_case(true, "ab").unwrap();
    assert_eq!(Some("ab\u{1b}[92mc\u{1b}[0m".to_string()), case.product_value("diff"));
}

#[test]
fn similar_algorithms() {
    let s1 = "Hello World!";
    let s2 = "Hello... World?";
    for alg in [Algorithm::Myers, Algorithm::Patience, Algorithm::Lcs] {
        let case = similar3(s1).algorithm(alg).find_case(false, s2).unwrap();
        assert!(case.product_value("measure").unwrap().starts_with("ratio("));
    }
    assert_eq!(true, similar3(s1).algorithm(Algorithm::Lcs).eval(s1));
}

#[test]
fn limits_at_the_edges() {
    assert_eq!(false, similar2("abc").distance(-1).eval("abc"));
    assert_eq!(true, diff2("abc").distance(-1).eval("abc"));
    assert_eq!(true, similar2("abc").distance(i32::MAX).eval("xyz"));
    assert_eq!(true, similar3("abc").ratio(0, 1).eval("xyz"));
    assert_eq!(false, similar3("abc").ratio(1, 1).eval("abd"));
    assert_eq!(true, similar3("").eval(""));
    assert_eq!(false, similar3("a").changes(0).eval(""));
}

#[test]
fn descriptions() {
    assert_eq!("var - original <= 3", similar2("x").distance(3).describe());
    assert_eq!("-1 < var - original", diff2("x").distance(-1).describe());
    assert_eq!(
        "original is similar to var by changes(2)",
        similar3("x").changes(2).describe()
    );
    assert_eq!(
        "original differs from var by ratio(4/5)",
        diff3("x").ratio(4, 5).describe()
    );
    assert_eq!("original is similar to var by ratio(1/1)", similar3("x").describe());
}

#[test]
fn string_comparisons() {
    assert_eq!(true, eq_str("Hello").eval("Hello"));
    assert_eq!(false, eq_str("Hello").eval("hello"));
    assert_eq!(true, ne_str("Hello").eval("hello"));
    assert_eq!(true, lt_str("b").eval("abc"));
    assert_eq!(false, lt_str("ab").eval("abc"));
    assert_eq!(true, lt_str("abc").eval("ab"));
    assert_eq!(true, le_str("abc").eval("abc"));
    assert_eq!(true, ge_str("abc").eval("abc"));
    assert_eq!(true, gt_str("abc").eval("abd"));
    assert_eq!(false, gt_str("é").eval("z"));
    assert_eq!(false, lt_str("").eval(""));
}
