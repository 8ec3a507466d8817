use rustio_admin::modeladmin::{parse_order_spec, FieldValidationError, ModelAdmin, SortDir};

#[test]
fn parse_order_spec_handles_leading_minus() {
    assert_eq!(parse_order_spec("-id"), ("id".to_string(), SortDir::Desc));
    assert_eq!(parse_order_spec("name"), ("name".to_string(), SortDir::Asc));
}

#[test]
fn sort_dir_sql_is_stable() {
    assert_eq!(SortDir::Asc.sql(), "ASC");
    assert_eq!(SortDir::Desc.sql(), "DESC");
}

// ---- additional cases ----

struct Course;
impl ModelAdmin for Course {}

#[test]
fn model_admin_defaults() {
    assert_eq!(Course::ordering(), &["-id"]);
    assert_eq!(Course::list_per_page(), 50);
    assert!(Course::list_display().is_empty());
    assert!(Course::validate(&Course).is_ok());
}

#[test]
fn validation_error_constructors() {
    let e = FieldValidationError::field("end_date", "is invalid.");
    assert_eq!(e.field, Some("end_date"));
    assert_eq!(e.message, "is invalid.");
    let g = FieldValidationError::global(String::from("conflict"));
    assert!(g.field.is_none());
    assert_eq!(g.message, "conflict");
    assert_eq!(parse_order_spec("--x"), ("-x".to_string(), SortDir::Desc));
    assert_eq!(parse_order_spec(""), (String::new(), SortDir::Asc));
}

#[test]
fn unhandled_bulk_action_is_a_bad_request() {
    let e = rustio_admin::modeladmin::no_bulk_handler("mark_overdue");
    assert_eq!(e.status(), 400);
    assert_eq!(
        e.client_message(),
        "bulk action `mark_overdue` has no project handler — override `ModelAdmin::execute_bulk_action` on this model"
    );
}
