use apitest::thing::Thing;

#[test]
fn new_keeps_both_fields() {
    let t = Thing::new("x".to_string(), "y".to_string());
    assert_eq!(t.a, "x");
    assert_eq!(t.b, "y");
}

#[test]
fn schema_lists_only_the_first_field() {
    assert_eq!(Thing::schema_field_names(), vec!["a"]);
}

#[test]
fn body_lists_both_fields() {
    assert_eq!(Thing::serialized_field_names(), vec!["a", "b"]);
}
