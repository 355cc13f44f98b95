use predicates::path::existence::{missing, path_exists};
use predicates::path::fc::PredicateFileContentExt;
use predicates::path::fs::eq_file;
use predicates::path::ft::{is_dir, is_file, is_symlink, FileKind};
use predicates::predicate::Predicate;
use predicates::reflection::PredicateReflection;
use predicates::str::adapters::PredicateStrExt;
use predicates::str::basics::is_empty;
use predicates::boolean::PredicateBooleanExt;

#[test]
fn file_content_scenario() {
    let p = eq_file("ref.txt", b"hello\n".to_vec());
    assert_eq!(true, p.eval_file(Some(b"hello\n")));
    assert_eq!(false, p.eval_file(Some(b"Hello\n")));
    assert_eq!(false, p.eval_file(None));
    assert_eq!(true, p.eval(b"hello\n" as &[u8]));
}

#[test]
fn file_content_as_text() {
    let p = eq_file("ref.txt", b"hello\n".to_vec()).utf8().unwrap();
    assert_eq!(true, p.eval("hello\n"));
    assert_eq!(false, p.eval("hello"));
    assert_eq!(true, p.eval_file(Some(b"hello\n")));
    assert_eq!(false, p.eval_file(Some(&[0xffu8, b'\n'][..])));
    assert_eq!(false, p.eval_file(None));
    assert!(eq_file("bin", vec![0xff, 0x00]).utf8().is_none());
}

#[test]
fn content_predicate_on_files() {
    let p = is_empty().not().from_utf8().from_file_path();
    assert_eq!(true, p.eval_file(Some(b"Hello World")));
    assert_eq!(false, p.eval_file(Some(b"")));
    assert_eq!(false, p.eval_file(None));
}

#[test]
fn existence() {
    assert_eq!(true, path_exists().eval_found(true));
    assert_eq!(false, path_exists().eval_found(false));
    assert_eq!(true, missing().eval_found(false));
    assert_eq!(false, missing().eval_found(true));
}

#[test]
fn file_types() {
    assert_eq!(true, is_file().eval_kind(Some(FileKind::File)));
    assert_eq!(false, is_file().eval_kind(Some(FileKind::Dir)));
    assert_eq!(true, is_dir().eval_kind(Some(FileKind::Dir)));
    assert_eq!(true, is_symlink().eval_kind(Some(FileKind::Symlink)));
    assert_eq!(false, is_symlink().eval_kind(Some(FileKind::Other)));
    assert_eq!(false, is_file().eval_kind(None));
    assert_eq!(false, is_symlink().follows_links());
    assert_eq!(true, is_symlink().follow_links(true).follows_links());
}

#[test]
fn content_predicate_exposes_its_child() {
    let p = eq_file("ref.txt", b"x".to_vec()).utf8().unwrap();
    let params = PredicateReflection::parameters(&p);
    assert_eq!("content", params[0].name());
    assert_eq!("x", params[0].value());
    let q = is_empty().from_utf8().from_file_path();
    let kids = PredicateReflection::children(&q);
    assert_eq!(1, kids.len());
    assert_eq!("predicate", kids[0].name());
}
