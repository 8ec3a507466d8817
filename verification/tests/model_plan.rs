use rustio_admin::model_plan::{plan_model, resolve_field_kind, FieldDecl, StructOverrides};
use rustio_admin::naming::FieldKind;

fn decl(name: &str, base: FieldKind) -> FieldDecl {
    FieldDecl { name: name.to_string(), base, file: false, format: None, choices: None }
}

fn no_overrides() -> StructOverrides {
    StructOverrides { admin_name: None, display_name: None, table: None, extra_columns: vec![] }
}

#[test]
fn field_kinds_are_promoted_by_markers() {
    assert_eq!(resolve_field_kind(&decl("created_at", FieldKind::DateTime)), Ok(FieldKind::DateTimeAuto));
    assert_eq!(resolve_field_kind(&decl("starts_at", FieldKind::DateTime)), Ok(FieldKind::DateTime));
    let mut f = decl("photo", FieldKind::OptionalString);
    f.file = true;
    assert_eq!(resolve_field_kind(&f), Ok(FieldKind::OptionalFilePath));
    let mut e = decl("contact", FieldKind::String);
    e.format = Some("email".to_string());
    assert_eq!(resolve_field_kind(&e), Ok(FieldKind::Email));
    let mut c = decl("status", FieldKind::String);
    c.choices = Some(vec!["open".to_string(), "closed".to_string()]);
    assert_eq!(resolve_field_kind(&c), Ok(FieldKind::Choice));
    let mut empty = decl("status", FieldKind::String);
    empty.choices = Some(vec![]);
    assert_eq!(resolve_field_kind(&empty), Ok(FieldKind::String));
}

#[test]
fn misplaced_markers_are_refused() {
    let mut f = decl("count", FieldKind::I64);
    f.file = true;
    assert_eq!(
        resolve_field_kind(&f),
        Err("#[rustio(file)] is only valid on String or Option<String> fields; got I64 for `count`".to_string())
    );
    let mut g = decl("note", FieldKind::OptionalString);
    g.format = Some("phone".to_string());
    assert_eq!(
        resolve_field_kind(&g),
        Err("#[rustio(format = \"...\")] is only valid on String fields; got OptionalString for `note`".to_string())
    );
    let mut h = decl("doc", FieldKind::String);
    h.file = true;
    h.choices = Some(vec!["a".to_string()]);
    assert_eq!(
        resolve_field_kind(&h),
        Err("#[rustio(choices = [...])] is only valid on String fields; got FilePath for `doc`".to_string())
    );
}

#[test]
fn plan_model_derives_names_columns_and_labels() {
    let fields = vec![
        decl("id", FieldKind::I64),
        decl("title", FieldKind::String),
        decl("api_token", FieldKind::OptionalString),
        decl("created_at", FieldKind::DateTime),
    ];
    let mut o = no_overrides();
    o.extra_columns = vec!["search_vector".to_string()];
    let m = plan_model("CaseAction", &o, &fields).expect("valid model");
    assert_eq!(m.admin_name, "case_actions");
    assert_eq!(m.display_name, "Case actions");
    assert_eq!(m.singular_name, "CaseAction");
    assert_eq!(m.table, "case_actions");
    assert_eq!(m.columns, vec!["id", "title", "api_token", "created_at", "search_vector"]);
    assert_eq!(m.insert_columns, vec!["title", "api_token", "created_at"]);
    assert_eq!(m.fields[2].label, "API Token");
    assert!(!m.fields[0].editable);
    assert!(m.fields[1].editable);
    assert!(!m.fields[3].editable);
    assert_eq!(m.fields[3].kind, FieldKind::DateTimeAuto);
    assert_eq!(m.label_field, Some("title".to_string()));
}

#[test]
fn plan_model_honours_overrides_and_reports_first_refusal() {
    let o = StructOverrides {
        admin_name: Some("addr".to_string()),
        display_name: Some("Addresses".to_string()),
        table: None,
        extra_columns: vec![],
    };
    let m = plan_model("Address", &o, &[decl("id", FieldKind::I64)]).unwrap();
    assert_eq!((m.admin_name.as_str(), m.display_name.as_str(), m.table.as_str()), ("addr", "Addresses", "addr"));
    assert_eq!(m.label_field, None);
    let mut bad1 = decl("n", FieldKind::Bool);
    bad1.file = true;
    let mut bad2 = decl("m", FieldKind::I32);
    bad2.file = true;
    let e = plan_model("Thing", &no_overrides(), &[decl("id", FieldKind::I64), bad1, bad2]).unwrap_err();
    assert_eq!(e, "#[rustio(file)] is only valid on String or Option<String> fields; got Bool for `n`");
}
