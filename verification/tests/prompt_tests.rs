use scaffolder::prompt::input_data;

#[test]
fn short_required_input_gets_default_prepended() {
    let mut var = String::from("x");
    let accepted = input_data(&mut var, true, Some("foo"));
    assert!(var.starts_with("foo"));
    assert_eq!(var, "foox");
    assert!(accepted);
}

#[test]
fn empty_required_input_becomes_default() {
    let mut var = String::new();
    let accepted = input_data(&mut var, true, Some("foo"));
    assert_eq!(var, "foo");
    assert!(accepted);
}

#[test]
fn short_optional_input_without_default_is_unmodified_and_accepted() {
    let mut var = String::from("x");
    let accepted = input_data(&mut var, false, None);
    assert_eq!(var, "x");
    assert!(accepted);
}

#[test]
fn short_required_input_without_default_is_asked_again() {
    let mut var = String::from("x");
    let accepted = input_data(&mut var, true, None);
    assert_eq!(var, "x");
    assert!(!accepted);
}

#[test]
fn long_input_ignores_default() {
    let mut var = String::from("hello");
    let accepted = input_data(&mut var, true, Some("foo"));
    assert_eq!(var, "hello");
    assert!(accepted);
}

#[test]
fn short_default_can_leave_required_value_short() {
    let mut var = String::new();
    let accepted = input_data(&mut var, true, Some("ab"));
    assert_eq!(var, "ab");
    assert!(!accepted);
}
