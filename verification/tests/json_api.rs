use rustio_admin::error::AdminError;
use rustio_admin::filters::{AdminField, FieldType};
use rustio_admin::json_api::{detail_envelope, list_envelope, page_count, typed_cell, wants_json, CellValue, ListRow};
use rustio_admin::json_response::json_error;

fn field(name: &'static str, ty: FieldType) -> AdminField {
    AdminField { name, label: name, field_type: ty, editable: true, relation: None, choices: None }
}

fn text(s: &str) -> CellValue {
    CellValue::Text(s.to_string())
}

#[test]
fn typed_cell_bool_round_trips() {
    let f = field("active", FieldType::Bool);
    assert_eq!(typed_cell(&f, "true"), CellValue::Bool(true));
    assert_eq!(typed_cell(&f, "false"), CellValue::Bool(false));
    assert_eq!(typed_cell(&f, ""), CellValue::Bool(false));
}

#[test]
fn typed_cell_integers_parse() {
    let f = field("count", FieldType::I64);
    assert_eq!(typed_cell(&f, "42"), CellValue::Int(42));
    let opt = field("count", FieldType::OptionalI64);
    assert_eq!(typed_cell(&opt, ""), CellValue::Null);
    assert_eq!(typed_cell(&opt, "7"), CellValue::Int(7));
}

#[test]
fn typed_cell_garbage_in_int_column_surfaces_as_string() {
    let f = field("count", FieldType::I64);
    assert_eq!(typed_cell(&f, "abc"), text("abc"));
}

#[test]
fn typed_cell_optional_strings_null_on_empty() {
    let f = field("subtitle", FieldType::OptionalString);
    assert_eq!(typed_cell(&f, ""), CellValue::Null);
    assert_eq!(typed_cell(&f, "set"), text("set"));
}

#[test]
fn typed_cell_required_strings_stay_string() {
    let f = field("title", FieldType::String);
    assert_eq!(typed_cell(&f, ""), text(""));
    assert_eq!(typed_cell(&f, "hi"), text("hi"));
}

#[test]
fn typed_cell_filepath_returns_string_or_null() {
    let req = field("photo_path", FieldType::FilePath);
    assert_eq!(typed_cell(&req, "abc.png"), text("abc.png"));
    let opt = field("photo_path", FieldType::OptionalFilePath);
    assert_eq!(typed_cell(&opt, ""), CellValue::Null);
    assert_eq!(typed_cell(&opt, "x.png"), text("x.png"));
}

#[test]
fn typed_cell_other_types_and_int_edges() {
    assert_eq!(typed_cell(&field("n", FieldType::I32), "-7"), CellValue::Int(-7));
    assert_eq!(typed_cell(&field("n", FieldType::I32), " 7"), text(" 7"));
    assert_eq!(typed_cell(&field("n", FieldType::OptionalI64), "x"), text("x"));
    assert_eq!(typed_cell(&field("d", FieldType::OptionalDateTime), ""), CellValue::Null);
    assert_eq!(typed_cell(&field("e", FieldType::Email), ""), text(""));
    assert_eq!(typed_cell(&field("u", FieldType::Uuid), "abc"), text("abc"));
    assert!(FieldType::OptionalString.nullable());
    assert!(!FieldType::String.nullable());
}

#[test]
fn json_error_maps_each_status_variant() {
    for (err, expected) in [
        (AdminError::BadRequest("x".into()), 400),
        (AdminError::Unauthorized("x".into()), 401),
        (AdminError::Forbidden("x".into()), 403),
        (AdminError::NotFound("x".into()), 404),
        (AdminError::MethodNotAllowed("x".into()), 405),
        (AdminError::Conflict("x".into()), 409),
        (AdminError::Internal("x".into()), 500),
    ] {
        let resp = json_error(&err);
        assert_eq!(resp.status, expected);
        let v: serde_json::Value = serde_json::from_str(&resp.body).expect("valid json");
        assert_eq!(v["status"].as_u64(), Some(expected as u64));
    }
}

#[test]
fn json_error_carries_status_code_and_content_type() {
    let resp = json_error(&AdminError::NotFound("clinics/9999".into()));
    assert_eq!(resp.status, 404);
    let ctype = resp
        .headers
        .iter()
        .find(|(k, _)| k.eq_ignore_ascii_case("content-type"))
        .map(|(_, v)| *v)
        .unwrap_or("");
    assert_eq!(ctype, "application/json");
}

#[test]
fn json_error_envelope_shape_is_error_plus_status() {
    let resp = json_error(&AdminError::NotFound("clinics/9999".into()));
    let v: serde_json::Value = serde_json::from_str(&resp.body).expect("valid json");
    assert_eq!(v["status"], 404);
    assert_eq!(v["error"], "clinics/9999");
}

#[test]
fn json_error_redacts_internal_message() {
    let resp = json_error(&AdminError::Internal("password in this string!".into()));
    assert_eq!(resp.status, 500);
    let body = resp.body.as_str();
    assert!(!body.contains("password"), "internal error detail leaked into client envelope: {body}");
    let v: serde_json::Value = serde_json::from_str(body).expect("valid json");
    assert_eq!(v["error"], "Internal Server Error");
    assert_eq!(v["status"], 500);
}

#[test]
fn internal_error_message_is_redacted() {
    let e = AdminError::Internal("password in this string!".into());
    assert_eq!(e.client_message(), "Internal Server Error");
    assert_eq!(AdminError::NotFound("clinics/9999".into()).client_message(), "clinics/9999");
}

#[test]
fn wants_json_accept_header_precedence() {
    assert!(wants_json(Some("application/json"), None));
    assert!(wants_json(Some("Application/*;q=0.5, text/html"), None));
    assert!(!wants_json(Some("text/html, application/json"), None));
    assert!(!wants_json(Some("text/html, */*"), Some("json")));
    assert!(wants_json(Some("*/*"), Some("json")));
    assert!(wants_json(Some("*/*"), None));
    assert!(wants_json(Some(" */*;q=0.8 "), None));
    assert!(!wants_json(Some("*/*, image/png"), None));
    assert!(wants_json(None, Some("json")));
    assert!(!wants_json(None, Some("JSON")));
    assert!(!wants_json(None, None));
}

#[test]
fn page_count_rounds_up_and_floors_at_one() {
    assert_eq!(page_count(0, 50), 1);
    assert_eq!(page_count(-3, 50), 1);
    assert_eq!(page_count(50, 50), 1);
    assert_eq!(page_count(51, 50), 2);
    assert_eq!(page_count(7, 0), 7);
    assert_eq!(page_count(101, 25), 5);
}

#[test]
fn detail_envelope_types_each_field_from_the_first_value() {
    let fields = [
        field("id", FieldType::I64),
        field("title", FieldType::String),
        field("count", FieldType::I64),
        field("note", FieldType::OptionalString),
    ];
    let values = vec![
        ("title".to_string(), "Hello".to_string()),
        ("count".to_string(), "3".to_string()),
        ("count".to_string(), "9".to_string()),
    ];
    let obj = detail_envelope(&fields, 7, &values);
    assert_eq!(
        obj,
        vec![
            ("id".to_string(), CellValue::Int(7)),
            ("title".to_string(), text("Hello")),
            ("count".to_string(), CellValue::Int(3)),
            ("note".to_string(), CellValue::Null),
        ]
    );
}

#[test]
fn list_envelope_types_cells_by_position_and_counts_pages() {
    let fields = [field("id", FieldType::I64), field("active", FieldType::Bool), field("n", FieldType::OptionalI64)];
    let rows = vec![
        ListRow { id: 1, cells: vec!["1".into(), "true".into(), "5".into()] },
        ListRow { id: 2, cells: vec!["2".into()] },
    ];
    let env = list_envelope(&fields, &rows, 51, 2, 25);
    assert_eq!(env.pages, 3);
    assert_eq!((env.total, env.page, env.per_page), (51, 2, 25));
    assert_eq!(env.rows[0], vec![("id".to_string(), CellValue::Int(1)), ("active".to_string(), CellValue::Bool(true)), ("n".to_string(), CellValue::Int(5))]);
    assert_eq!(env.rows[1], vec![("id".to_string(), CellValue::Int(2)), ("active".to_string(), CellValue::Bool(false)), ("n".to_string(), CellValue::Null)]);
}
