use has_fields::schema::decl_is_optional;
use has_fields::schema::optional_field_names;
use has_fields::schema::required_field_count;
use has_fields::FieldDecl;
use has_fields::FieldValue;
use has_fields::HasFields;
use has_fields::Record;

fn decl(name: &str, segments: &[&str]) -> FieldDecl {
    FieldDecl {
        name: name.to_string(),
        type_segments: segments.iter().map(|s| s.to_string()).collect(),
    }
}

fn field(name: &str, segments: &[&str], present: bool) -> FieldValue {
    FieldValue { decl: decl(name, segments), present }
}

#[test]
fn classification_is_by_last_segment() {
    assert!(decl_is_optional(&decl("name", &["Option"])));
    assert!(decl_is_optional(&decl("name", &["std", "option", "Option"])));
    assert!(decl_is_optional(&decl("name", &["core", "option", "Option"])));
    assert!(!decl_is_optional(&decl("id", &["u32"])));
    assert!(!decl_is_optional(&decl("name", &["String"])));
    assert!(!decl_is_optional(&decl("options", &["Options"])));
    assert!(!decl_is_optional(&decl("odd", &["Option", "Inner"])));
    assert!(!decl_is_optional(&decl("none", &[])));
}

#[test]
fn required_count_is_fixed_by_declarations() {
    let decls = vec![
        decl("_id", &["u32"]),
        decl("name", &["Option"]),
        decl("email", &["Option"]),
    ];
    assert_eq!(required_field_count(&decls), 1);
    assert_eq!(required_field_count(&vec![]), 0);
    let all_required = vec![decl("a", &["u8"]), decl("b", &["String"]), decl("c", &["bool"])];
    assert_eq!(required_field_count(&all_required), 3);
}

#[test]
fn optional_names_in_declaration_order() {
    let decls = vec![
        decl("_id", &["u32"]),
        decl("name", &["Option"]),
        decl("email", &["std", "option", "Option"]),
    ];
    assert_eq!(
        optional_field_names(&decls),
        vec!["name".to_string(), "email".to_string()]
    );
    assert_eq!(optional_field_names(&vec![]), Vec::<String>::new());
}

#[test]
fn count_adds_required_and_present_optional() {
    let rec = Record {
        fields: vec![
            field("a", &["u32"], true),
            field("b", &["String"], true),
            field("c", &["Option"], true),
            field("d", &["Option"], false),
            field("e", &["Option"], true),
        ],
    };
    // 2 required + 2 present optional
    assert_eq!(rec.num_fields(), 4);
}

#[test]
fn count_without_optional_fields_ignores_state() {
    let rec = Record {
        fields: vec![
            field("a", &["u32"], true),
            field("b", &["String"], true),
            field("c", &["bool"], true),
        ],
    };
    assert_eq!(rec.num_fields(), 3);
}

#[test]
fn count_of_empty_struct_is_zero() {
    let rec = Record { fields: vec![] };
    assert_eq!(rec.num_fields(), 0);
}

#[test]
fn count_of_all_absent_optionals_is_required_only() {
    let rec = Record {
        fields: vec![
            field("a", &["u32"], true),
            field("b", &["Option"], false),
            field("c", &["Option"], false),
        ],
    };
    assert_eq!(rec.num_fields(), 1);
}
