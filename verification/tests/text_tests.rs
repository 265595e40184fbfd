use scaffolder::text::{normalize, title};

#[test]
fn title_empty_is_empty() {
    assert_eq!(title(""), "");
}

#[test]
fn title_uppercases_first_ascii_char() {
    assert_eq!(title("abc"), "Abc");
    assert_eq!(title("product"), "Product");
}

#[test]
fn title_non_ascii_is_empty() {
    assert_eq!(title("ñandú"), "");
    assert_eq!(title("日本"), "");
    assert_eq!(title("aé"), "");
}

#[test]
fn title_is_idempotent_on_samples() {
    for s in ["", "abc", "Abc", "1abc", "ñ"] {
        let once = title(s);
        assert_eq!(title(&once), once);
    }
}

#[test]
fn title_keeps_non_letter_first_char() {
    assert_eq!(title("1abc"), "1abc");
    assert_eq!(title("_x"), "_x");
}

#[test]
fn normalize_trims_and_replaces_spaces() {
    assert_eq!(normalize("  my section \n"), "my_section");
    assert_eq!(normalize("products"), "products");
    assert_eq!(normalize("a b c"), "a_b_c");
}

#[test]
fn normalize_whitespace_only_is_empty() {
    assert_eq!(normalize(" \t\r\n"), "");
    assert_eq!(normalize(""), "");
}
