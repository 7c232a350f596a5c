use component_core::utils::{TypeHelper, TypePath};
use component_core::values::{copy_opt, copy_vec, join, same_opt, same_vec, Value};

struct Window;

impl TypeHelper for Window {
    fn get_path() -> TypePath {
        TypePath { leading_colon: false, segments: vec!["host".to_string(), "Window".to_string()] }
    }
}

fn words(items: &[&str]) -> Vec<String> {
    items.iter().map(|s| s.to_string()).collect()
}

#[test]
fn a_type_of_the_caller_gets_its_path_as_text() {
    assert_eq!(Window::get_path_string(), "host :: Window");
}

#[test]
fn joining_puts_the_separator_between_neighbours() {
    assert_eq!(join(&words(&[]), ", "), "");
    assert_eq!(join(&words(&["a"]), ", "), "a");
    assert_eq!(join(&words(&["a", "b", "c"]), ", "), "a, b, c");
    assert_eq!(join(&words(&["", ""]), "-"), "-");
    assert_eq!(join(&words(&["a", "b"]), ""), "ab");
}

#[test]
fn vectors_are_the_same_position_by_position() {
    assert!(same_vec(&words(&["a", "b"]), &words(&["a", "b"])));
    assert!(!same_vec(&words(&["a", "b"]), &words(&["b", "a"])));
    assert!(!same_vec(&words(&["a"]), &words(&["a", "a"])));
    assert!(same_vec(&words(&[]), &words(&[])));
    assert_eq!(copy_vec(&words(&["x", "y"])), words(&["x", "y"]));
}

#[test]
fn optional_values_compare_by_what_they_hold() {
    let some = Some("a".to_string());
    assert!(same_opt(&some, &Some("a".to_string())));
    assert!(!same_opt(&some, &Some("b".to_string())));
    assert!(!same_opt(&some, &None));
    assert!(same_opt::<String>(&None, &None));
    assert_eq!(copy_opt(&some), some);
    assert_eq!(copy_opt::<String>(&None), None);
    assert!("a".to_string().same(&"a".to_string()));
    assert_eq!("a".to_string().copy(), "a");
}
