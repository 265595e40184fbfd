use scaffolder::models::Property;

#[test]
fn get_vec_lists_all_kinds_in_menu_order() {
    let kinds = Property::get_vec();
    assert_eq!(
        kinds,
        vec![
            Property::String,
            Property::Number,
            Property::Date,
            Property::Related
        ]
    );
}

#[test]
fn labels_are_fixed() {
    assert_eq!(Property::String.label(), "String");
    assert_eq!(Property::Number.label(), "Number");
    assert_eq!(Property::Date.label(), "Date");
    assert_eq!(Property::Related.label(), "Related");
}
