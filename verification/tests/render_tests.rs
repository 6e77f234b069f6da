use request_validation::errors::{ValidationError, ValidationErrorTree, ValidationErrorsKind};
use request_validation::render::{default_error_body, default_error_body_list, Error};

fn single_field_tree(field: &str, message: &str) -> ValidationErrorTree {
    ValidationErrorTree {
        entries: vec![(
            field.to_string(),
            ValidationErrorsKind::Leaf(vec![ValidationError::new(message.to_string())]),
        )],
    }
}

#[test]
fn tabbed_body_for_single_violation() {
    // Flat-list style: one tab-indented `path: message` line after the header.
    let t = single_field_tree("name", "length is lower than 5");
    let body = default_error_body(&t, true);
    assert_eq!(body, "Validation errors in fields:\n\tname: length is lower than 5");
}

#[test]
fn plain_body_for_single_violation() {
    // Tree style: the same line without the leading tab.
    let t = single_field_tree("name", "length is lower than 5");
    let body = default_error_body(&t, false);
    assert_eq!(body, "Validation errors in fields:\nname: length is lower than 5");
}

#[test]
fn body_for_empty_tree_is_just_the_header() {
    let t = ValidationErrorTree { entries: vec![] };
    assert_eq!(default_error_body(&t, true), "Validation errors in fields:\n");
    assert_eq!(default_error_body(&t, false), "Validation errors in fields:\n");
}

#[test]
fn body_joins_lines_with_newlines() {
    let t = ValidationErrorTree {
        entries: vec![
            (
                "name".to_string(),
                ValidationErrorsKind::Leaf(vec![
                    ValidationError::new("too short".to_string()),
                    ValidationError::new("bad characters".to_string()),
                ]),
            ),
            (
                "order".to_string(),
                ValidationErrorsKind::Nested(single_field_tree("total", "negative")),
            ),
        ],
    };
    let body = default_error_body(&t, true);
    assert_eq!(
        body,
        "Validation errors in fields:\n\tname: too short\n\tname: bad characters\n\torder.total: negative"
    );
}

#[test]
fn list_body_indents_each_message() {
    let errs = vec![ValidationError::new("name not long enough".to_string())];
    let body = default_error_body_list(&errs);
    assert_eq!(body, "Validation errors in fields:\n\tname not long enough");
}

#[test]
fn list_body_with_several_messages() {
    let errs = vec![
        ValidationError::new("first".to_string()),
        ValidationError::new("second".to_string()),
    ];
    let body = default_error_body_list(&errs);
    assert_eq!(body, "Validation errors in fields:\n\tfirst\n\tsecond");
}

#[test]
fn list_body_of_no_messages_is_just_the_header() {
    let errs: Vec<ValidationError> = vec![];
    assert_eq!(default_error_body_list(&errs), "Validation errors in fields:\n");
}

#[test]
fn error_status_code_is_400() {
    let e = Error::Validate(single_field_tree("name", "too short"));
    assert_eq!(e.status_code(), 400);
}

#[test]
fn error_body_renders_the_carried_tree() {
    let e = Error::Validate(single_field_tree("name", "too short"));
    assert_eq!(e.error_body(true), "Validation errors in fields:\n\tname: too short");
    assert_eq!(e.error_body(false), "Validation errors in fields:\nname: too short");
}

#[test]
fn error_from_wraps_the_tree() {
    let e = Error::from(single_field_tree("name", "too short"));
    assert_eq!(e, Error::Validate(single_field_tree("name", "too short")));
}
