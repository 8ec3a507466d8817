use rustio_admin::filters::{
    classify_field, field_ui_metadata, field_ui_metadata_with_relation, format_relation_cell,
    humanise, infer_filters, infer_filters_with_relations, mask_pii, AdminField, FieldRole,
    FieldType, FilterKind,
};

fn field(name: &'static str, ty: FieldType) -> AdminField {
    AdminField {
        name,
        label: name,
        field_type: ty,
        editable: true,
        relation: None,
        choices: None,
    }
}

#[test]
fn classify_id_email_status_bool_timestamp() {
    assert_eq!(classify_field(&field("id", FieldType::I64)), FieldRole::Id);
    assert_eq!(classify_field(&field("email", FieldType::String)), FieldRole::Email);
    assert_eq!(classify_field(&field("status", FieldType::String)), FieldRole::Status);
    assert_eq!(classify_field(&field("order_status", FieldType::String)), FieldRole::Status);
    assert_eq!(classify_field(&field("status", FieldType::Bool)), FieldRole::Status);
    assert_eq!(classify_field(&field("sync_status", FieldType::DateTime)), FieldRole::Status);
    assert_eq!(classify_field(&field("active", FieldType::Bool)), FieldRole::Bool);
    assert_eq!(classify_field(&field("created_at", FieldType::DateTime)), FieldRole::Timestamp);
}

#[test]
fn fk_only_for_integer_id_columns() {
    assert_eq!(classify_field(&field("user_id", FieldType::I64)), FieldRole::ForeignKey);
    assert_eq!(classify_field(&field("national_id", FieldType::String)), FieldRole::PlainText);
}

#[test]
fn infer_filters_skips_id_and_picks_kinds() {
    let fields = vec![
        field("id", FieldType::I64),
        field("status", FieldType::String),
        field("active", FieldType::Bool),
        field("created_at", FieldType::DateTime),
        field("title", FieldType::String),
    ];
    let filters = infer_filters(&fields);
    assert_eq!(filters.len(), 3);
    assert!(matches!(filters[0].kind, FilterKind::DropdownText));
    assert!(matches!(filters[1].kind, FilterKind::BoolYesNo));
    assert!(matches!(filters[2].kind, FilterKind::DateRange));
}

#[test]
fn mask_pii_keeps_prefix_and_replaces_with_bullets() {
    assert_eq!(mask_pii("alice@example.com"), "alic•••••••••••••");
    assert_eq!(mask_pii(""), "");
}

#[test]
fn relation_label_overrides_role() {
    let f = field("user_id", FieldType::I64);
    let ui = field_ui_metadata_with_relation(&f, Some("User"));
    assert_eq!(ui.role, FieldRole::ForeignKey);
    assert_eq!(ui.relation_label.as_deref(), Some("User"));
    assert!(ui.hint.unwrap().contains("Foreign key to User"));
}

#[test]
fn format_relation_cell_with_and_without_target() {
    assert_eq!(format_relation_cell(42, Some("User")), "User #42");
    assert_eq!(format_relation_cell(42, None), "42");
    assert_eq!(format_relation_cell(42, Some("")), "42");
}

// ---- additional cases ----

#[test]
fn negative_and_extreme_ids_render() {
    assert_eq!(format_relation_cell(-7, None), "-7");
    assert_eq!(format_relation_cell(i64::MIN, Some("T")), "T #-9223372036854775808");
    assert_eq!(format_relation_cell(0, None), "0");
}

#[test]
fn mask_keeps_at_least_two_and_at_most_four() {
    assert_eq!(mask_pii("a"), "a");
    assert_eq!(mask_pii("ab"), "ab");
    assert_eq!(mask_pii("abc"), "ab•");
    assert_eq!(mask_pii("abcdefghijklmnopqrst"), "abcd••••••••••••••••");
    assert_eq!(mask_pii("åäöåäöåäö").chars().count(), 9);
}

#[test]
fn ui_metadata_per_role() {
    let ui = field_ui_metadata(&field("email", FieldType::String));
    assert_eq!(ui.placeholder.as_deref(), Some("name@example.com"));
    assert!(ui.sensitive);
    assert_eq!(ui.sensitivity_note.as_deref(), Some("Personal data."));
    let ui = field_ui_metadata(&field("slug", FieldType::String));
    assert_eq!(ui.placeholder.as_deref(), Some("my-post-title"));
    assert_eq!(ui.hint.as_deref(), Some("URL-friendly identifier"));
    let ui = field_ui_metadata(&field("created_at", FieldType::DateTime));
    assert_eq!(ui.label, "Created At");
    assert_eq!(ui.hint.as_deref(), Some("Interpreted as UTC."));
    assert!(!ui.sensitive);
}

#[test]
fn relation_lookup_only_upgrades_foreign_keys() {
    let fields = vec![
        field("id", FieldType::I64),
        field("user_id", FieldType::I64),
        field("group_id", FieldType::I64),
        field("count", FieldType::I32),
    ];
    let filters = infer_filters_with_relations(&fields, |f| {
        if f.name == "user_id" {
            Some("users".to_string())
        } else {
            Some(String::new())
        }
    });
    assert_eq!(filters.len(), 3);
    match &filters[0].kind {
        FilterKind::RelationSelect { target_model } => assert_eq!(target_model, "users"),
        other => panic!("unexpected {other:?}"),
    }
    assert!(matches!(filters[1].kind, FilterKind::NumericExact));
    assert!(matches!(filters[2].kind, FilterKind::NumericExact));
    assert_eq!(filters[0].label, "User Id");
}

#[test]
fn humanise_title_cases_words() {
    assert_eq!(humanise("order_status"), "Order Status");
    assert_eq!(humanise("_x"), " X");
    assert_eq!(humanise(""), "");
}

#[test]
fn relation_lookup_is_asked_only_about_foreign_keys() {
    let fields = vec![
        field("id", FieldType::I64),
        field("title", FieldType::String),
        field("author_id", FieldType::I64),
        field("published", FieldType::Bool),
    ];
    let asked = std::cell::RefCell::new(Vec::new());
    let filters = infer_filters_with_relations(&fields, |f| {
        asked.borrow_mut().push(f.name.to_string());
        None
    });
    assert_eq!(*asked.borrow(), vec!["author_id".to_string()]);
    assert_eq!(filters.len(), 2);
    assert!(matches!(filters[0].kind, FilterKind::NumericExact));
    assert!(matches!(filters[1].kind, FilterKind::BoolYesNo));
}
