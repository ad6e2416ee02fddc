use up1::precondition::{has_one_entry, InvariantViolation};
use up1::temp_name::{get_unique_temporary_name, NoBaseName};

fn names(v: &[&str]) -> Vec<String> {
    v.iter().map(|s| s.to_string()).collect()
}

#[test]
fn only_child_passes() {
    assert_eq!(has_one_entry(&names(&["bar"]), &"bar".to_string()), Ok(true));
}

#[test]
fn extra_siblings_fail_the_check() {
    assert_eq!(has_one_entry(&names(&["bar", "baz"]), &"bar".to_string()), Ok(false));
    assert_eq!(has_one_entry(&names(&["baz", "bar", "qux"]), &"bar".to_string()), Ok(false));
}

#[test]
fn empty_parent_is_an_invariant_violation() {
    assert_eq!(
        has_one_entry(&names(&[]), &"bar".to_string()),
        Err(InvariantViolation::EmptyParent)
    );
}

#[test]
fn other_single_entry_is_a_mismatch() {
    assert_eq!(
        has_one_entry(&names(&["baz"]), &"bar".to_string()),
        Err(InvariantViolation::ChildMismatch)
    );
}

#[test]
fn temp_name_skips_taken_candidates() {
    let r = get_unique_temporary_name(&names(&["_bar", "__bar", "bar"]), &"bar".to_string());
    assert_eq!(r, Ok("___bar".to_string()));
}

#[test]
fn temp_name_without_collisions_has_one_underscore() {
    let r = get_unique_temporary_name(&names(&["bar"]), &"bar".to_string());
    assert_eq!(r, Ok("_bar".to_string()));
    let r = get_unique_temporary_name(&names(&[]), &"foo".to_string());
    assert_eq!(r, Ok("_foo".to_string()));
}

#[test]
fn temp_name_takes_the_first_gap() {
    let r = get_unique_temporary_name(&names(&["__bar", "bar", "____bar"]), &"bar".to_string());
    assert_eq!(r, Ok("_bar".to_string()));
    let r = get_unique_temporary_name(&names(&["_bar", "___bar", "bar"]), &"bar".to_string());
    assert_eq!(r, Ok("__bar".to_string()));
}

#[test]
fn temp_name_ignores_unrelated_siblings() {
    let r = get_unique_temporary_name(&names(&["_baz", "bar_", "x_bar", "bar"]), &"bar".to_string());
    assert_eq!(r, Ok("_bar".to_string()));
}

#[test]
fn temp_name_needs_a_base_name() {
    let r = get_unique_temporary_name(&names(&["_", "a"]), &String::new());
    assert_eq!(r, Err(NoBaseName));
}
