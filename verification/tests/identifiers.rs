use has_fields::validate_field_names;

fn names(ns: &[&str]) -> Vec<String> {
    ns.iter().map(|s| s.to_string()).collect()
}

#[test]
fn valid_identifiers_pass() {
    assert_eq!(validate_field_names(&names(&[])), None);
    assert_eq!(validate_field_names(&names(&["name"])), None);
    assert_eq!(validate_field_names(&names(&["_id", "name", "email_2"])), None);
}

#[test]
fn first_invalid_name_is_reported() {
    assert_eq!(validate_field_names(&names(&["not an ident"])), Some(0));
    assert_eq!(validate_field_names(&names(&["name", "2fast"])), Some(1));
    assert_eq!(validate_field_names(&names(&["name", ""])), Some(1));
    assert_eq!(validate_field_names(&names(&["a.b", "2fast"])), Some(0));
}

#[test]
fn keywords_are_not_identifiers() {
    assert_eq!(validate_field_names(&names(&["struct"])), Some(0));
    assert_eq!(validate_field_names(&names(&["_"])), Some(0));
    assert_eq!(validate_field_names(&names(&["name", "fn"])), Some(1));
}
