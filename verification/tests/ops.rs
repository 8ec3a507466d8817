use rustio_admin::filters::{AdminField, FieldType};
use rustio_admin::modeladmin::{FieldValidationError, SortDir};
use rustio_admin::ops::{build_list_query, flatten_validation_errors, ListOpts};

const STUB_FIELDS: &[AdminField] = &[
    AdminField {
        name: "title",
        label: "Title",
        field_type: FieldType::String,
        editable: true,
        relation: None,
        choices: None,
    },
    AdminField {
        name: "end_date",
        label: "End date",
        field_type: FieldType::DateTime,
        editable: true,
        relation: None,
        choices: None,
    },
];

#[test]
fn field_attached_error_prefixes_with_field_label() {
    let errs = vec![FieldValidationError::field("end_date", "must not be before the start date.")];
    let flat = flatten_validation_errors(STUB_FIELDS, errs);
    assert_eq!(flat, vec!["End date must not be before the start date."]);
}

#[test]
fn global_error_passes_through_unchanged() {
    let errs = vec![FieldValidationError::global("This booking conflicts with another one.")];
    let flat = flatten_validation_errors(STUB_FIELDS, errs);
    assert_eq!(flat, vec!["This booking conflicts with another one."]);
}

#[test]
fn unknown_field_name_falls_through_to_banner() {
    let errs = vec![FieldValidationError::field("nonexistent", "Something went wrong.")];
    let flat = flatten_validation_errors(STUB_FIELDS, errs);
    assert_eq!(flat, vec!["Something went wrong."]);
}

#[test]
fn mixed_errors_preserve_order() {
    let errs = vec![
        FieldValidationError::field("title", "is required."),
        FieldValidationError::global("Cross-field rule fired."),
        FieldValidationError::field("end_date", "is invalid."),
    ];
    let flat = flatten_validation_errors(STUB_FIELDS, errs);
    assert_eq!(flat, vec!["Title is required.", "Cross-field rule fired.", "End date is invalid.",]);
}

fn empty_opts() -> ListOpts {
    ListOpts {
        filters: vec![],
        date_ranges: vec![],
        multi_filters: vec![],
        search: None,
        ordering: vec![],
        limit: None,
        offset: None,
    }
}

const COLS: &[&str] = &["id", "title", "status", "created_at"];

#[test]
fn list_query_without_options_orders_by_newest_id() {
    let q = build_list_query("posts", COLS, &empty_opts());
    assert_eq!(q.count_sql, "SELECT COUNT(*) FROM posts");
    assert_eq!(q.select_sql, "SELECT id, title, status, created_at FROM posts ORDER BY id DESC");
    assert!(q.bindings.is_empty());
}

#[test]
fn list_query_numbers_every_binding_in_order() {
    let mut opts = empty_opts();
    opts.filters = vec![
        ("status".to_string(), "active".to_string()),
        ("password".to_string(), "x".to_string()),
    ];
    opts.date_ranges = vec![
        ("created_at".to_string(), Some("2026-01-01".to_string()), Some("2026-02-01".to_string())),
        ("nope".to_string(), Some("2026-01-01".to_string()), None),
        ("created_at".to_string(), None, Some("2026-03-01".to_string())),
    ];
    opts.multi_filters = vec![
        ("status".to_string(), vec!["a".to_string(), "b".to_string()]),
        ("title".to_string(), vec![]),
    ];
    opts.search = Some(("  anna ".to_string(), vec!["title".to_string(), "secret".to_string(), "status".to_string()]));
    opts.ordering = vec![("title".to_string(), SortDir::Asc), ("drop".to_string(), SortDir::Desc), ("id".to_string(), SortDir::Desc)];
    opts.limit = Some(50);
    opts.offset = Some(100);
    let q = build_list_query("posts", COLS, &opts);
    let where_sql = " WHERE status::text = $1 AND created_at::date >= $2::date AND created_at::date <= $3::date AND created_at::date <= $4::date AND status::text IN ($5, $6) AND (title::text ILIKE $7 OR status::text ILIKE $7)";
    assert_eq!(q.count_sql, format!("SELECT COUNT(*) FROM posts{where_sql}"));
    assert_eq!(
        q.select_sql,
        format!("SELECT id, title, status, created_at FROM posts{where_sql} ORDER BY title ASC, id DESC LIMIT $8 OFFSET $9")
    );
    assert_eq!(q.bindings, vec!["active", "2026-01-01", "2026-02-01", "2026-03-01", "a", "b", "%anna%"]);
}

#[test]
fn list_query_skips_blank_search_and_unknown_search_columns() {
    let mut opts = empty_opts();
    opts.search = Some(("   ".to_string(), vec!["title".to_string()]));
    opts.offset = Some(10);
    let q = build_list_query("t", &["id", "title"], &opts);
    assert_eq!(q.select_sql, "SELECT id, title FROM t ORDER BY id DESC OFFSET $1");
    opts.search = Some(("x".to_string(), vec!["nope".to_string()]));
    let q = build_list_query("t", &["id", "title"], &opts);
    assert_eq!(q.count_sql, "SELECT COUNT(*) FROM t");
    assert!(q.bindings.is_empty());
}
