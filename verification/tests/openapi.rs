use rustio_admin::api_doc::{entry_schema_tree, field_schema_tree, info_tree, operation_tree, shared_responses_tree, JsonTree};
use rustio_admin::filters::{AdminField, FieldType};
use rustio_admin::openapi::{
    api_operations, api_schemas, api_title, openapi_version, schema_for_entry, schema_for_field, schema_name_for, ApiEntry, OpKind,
};

fn f(ty: FieldType) -> AdminField {
    AdminField { name: "x", label: "x", field_type: ty, editable: true, relation: None, choices: None }
}

#[test]
fn schema_for_field_maps_field_types() {
    assert_eq!(schema_for_field(&f(FieldType::Bool)).json_type, "boolean");
    assert_eq!(schema_for_field(&f(FieldType::I32)).json_type, "integer");
    assert_eq!(schema_for_field(&f(FieldType::I32)).format, Some("int32"));
    assert_eq!(schema_for_field(&f(FieldType::I64)).json_type, "integer");
    assert_eq!(schema_for_field(&f(FieldType::I64)).format, Some("int64"));
    let opt = schema_for_field(&f(FieldType::OptionalI64));
    assert_eq!(opt.json_type, "integer");
    assert!(opt.nullable);
    let dt = schema_for_field(&f(FieldType::DateTime));
    assert_eq!(dt.json_type, "string");
    assert_eq!(dt.format, Some("date-time"));
    let opt_str = schema_for_field(&f(FieldType::OptionalString));
    assert_eq!(opt_str.json_type, "string");
    assert!(opt_str.nullable);
    let file = schema_for_field(&f(FieldType::FilePath));
    assert_eq!(file.json_type, "string");
    assert!(file.description.is_some());
}

#[test]
fn schema_for_field_other_types() {
    assert_eq!(schema_for_field(&f(FieldType::F64)).format, Some("double"));
    assert_eq!(schema_for_field(&f(FieldType::F64)).json_type, "number");
    assert_eq!(schema_for_field(&f(FieldType::Decimal)).format, Some("decimal"));
    assert_eq!(schema_for_field(&f(FieldType::Uuid)).format, Some("uuid"));
    assert_eq!(schema_for_field(&f(FieldType::Email)).format, Some("email"));
    assert_eq!(schema_for_field(&f(FieldType::Phone)).format, None);
    assert_eq!(schema_for_field(&f(FieldType::Date)).format, Some("date"));
    assert_eq!(schema_for_field(&f(FieldType::Time)).format, Some("time"));
    assert!(!schema_for_field(&f(FieldType::String)).nullable);
    assert!(schema_for_field(&f(FieldType::OptionalFilePath)).nullable);
}

#[test]
fn entry_schema_requires_non_nullable_fields() {
    let fields = [
        AdminField { name: "id", label: "Id", field_type: FieldType::I64, editable: false, relation: None, choices: None },
        AdminField { name: "note", label: "Note", field_type: FieldType::OptionalString, editable: true, relation: None, choices: None },
        AdminField { name: "title", label: "Title", field_type: FieldType::String, editable: true, relation: None, choices: None },
    ];
    let e = schema_for_entry(&fields);
    let names: Vec<&str> = e.properties.iter().map(|p| p.0).collect();
    assert_eq!(names, vec!["id", "note", "title"]);
    assert_eq!(e.required, vec!["id", "title"]);
    assert_eq!(schema_name_for("Appointment"), "Appointment");
}

#[test]
fn api_operations_document_project_models_only() {
    let users = ApiEntry { admin_name: "users", singular_name: "User", display_name: "Users", core: true };
    let clinics = ApiEntry { admin_name: "clinics", singular_name: "Clinic", display_name: "Clinics", core: false };
    assert!(api_operations(&[users]).is_empty());
    let ops = api_operations(&[users, clinics]);
    let shape: Vec<(&str, &str, OpKind)> = ops.iter().map(|o| (o.path.as_str(), o.method, o.kind)).collect();
    assert_eq!(
        shape,
        vec![
            ("/admin/clinics", "get", OpKind::List),
            ("/admin/clinics", "post", OpKind::Create),
            ("/admin/clinics/{id}", "get", OpKind::Detail),
            ("/admin/clinics/{id}/edit", "post", OpKind::Update),
            ("/admin/clinics/{id}/delete", "post", OpKind::Delete),
        ]
    );
    assert_eq!(ops[0].summary, "List Clinics rows.");
    assert_eq!(ops[1].summary, "Create a new Clinic.");
    assert_eq!(ops[2].summary, "Fetch one Clinic by id.");
    assert_eq!(ops[3].summary, "Update an existing Clinic by id.");
    assert_eq!(ops[4].summary, "Delete a Clinic by id.");
    assert_eq!(ops[0].schema_ref.as_deref(), Some("#/components/schemas/Clinic"));
    assert!(ops[4].schema_ref.is_none());
    assert!(ops.iter().all(|o| o.tag == "clinics"));
    assert_eq!(api_title("Acme"), "Acme admin API");
}

#[test]
fn component_schemas_cover_project_models_only() {
    static CLINIC_FIELDS: [AdminField; 2] = [
        AdminField { name: "id", label: "Id", field_type: FieldType::I64, editable: false, relation: None, choices: None },
        AdminField { name: "name", label: "Name", field_type: FieldType::String, editable: true, relation: None, choices: None },
    ];
    let users = ApiEntry { admin_name: "users", singular_name: "User", display_name: "Users", core: true };
    let clinics = ApiEntry { admin_name: "clinics", singular_name: "Clinic", display_name: "Clinics", core: false };
    let schemas = api_schemas(&[(users, &CLINIC_FIELDS[..]), (clinics, &CLINIC_FIELDS[..])]);
    assert_eq!(schemas.len(), 1);
    assert_eq!(schemas[0].0, "Clinic");
    assert_eq!(schemas[0].1.properties.len(), 2);
    assert_eq!(schemas[0].1.required, vec!["id", "name"]);
    assert!(api_schemas(&[]).is_empty());
    assert_eq!(openapi_version(), "3.0.3");
}

fn member<'a>(t: &'a JsonTree, key: &str) -> &'a JsonTree {
    match t {
        JsonTree::Object(m) => &m.iter().find(|(k, _)| k == key).expect(key).1,
        other => panic!("not an object: {other:?}"),
    }
}

fn keys(t: &JsonTree) -> Vec<String> {
    match t {
        JsonTree::Object(m) => m.iter().map(|(k, _)| k.clone()).collect(),
        other => panic!("not an object: {other:?}"),
    }
}

fn text_of(t: &JsonTree) -> String {
    match t {
        JsonTree::Str(s) => s.clone(),
        other => panic!("not a string: {other:?}"),
    }
}

#[test]
fn operation_layout_follows_its_kind() {
    let clinics = ApiEntry { admin_name: "clinics", singular_name: "Clinic", display_name: "Clinics", core: false };
    let ops = api_operations(&[clinics]);

    let list = operation_tree(&ops[0]);
    assert_eq!(keys(&list), vec!["summary", "tags", "parameters", "responses"]);
    assert_eq!(text_of(member(&list, "summary")), "List Clinics rows.");
    match member(&list, "parameters") {
        JsonTree::Array(ps) => {
            let names: Vec<String> = ps.iter().map(|p| text_of(member(p, "name"))).collect();
            assert_eq!(names, vec!["q", "sort", "dir", "page", "per_page"]);
        }
        other => panic!("{other:?}"),
    }
    let ok = member(member(&list, "responses"), "200");
    let schema = member(member(member(ok, "content"), "application/json"), "schema");
    let items = member(member(member(schema, "properties"), "rows"), "items");
    assert_eq!(text_of(member(items, "$ref")), "#/components/schemas/Clinic");

    let create = operation_tree(&ops[1]);
    assert_eq!(keys(&create), vec!["summary", "tags", "requestBody", "responses"]);
    assert_eq!(keys(member(&create, "responses")), vec!["201", "400", "default"]);
    let created = member(member(member(member(member(&create, "responses"), "201"), "content"), "application/json"), "schema");
    assert!(matches!(member(member(member(created, "properties"), "ok"), "example"), JsonTree::Bool(true)));

    let detail = operation_tree(&ops[2]);
    assert_eq!(keys(member(&detail, "responses")), vec!["200", "404", "default"]);
    let update = operation_tree(&ops[3]);
    assert_eq!(keys(&update), vec!["summary", "tags", "parameters", "requestBody", "responses"]);
    assert_eq!(keys(member(&update, "responses")), vec!["200", "400", "404", "default"]);
    let delete = operation_tree(&ops[4]);
    assert_eq!(keys(&delete), vec!["summary", "tags", "parameters", "responses"]);
    assert_eq!(
        text_of(member(member(member(&delete, "responses"), "404"), "$ref")),
        "#/components/responses/Error"
    );
}

#[test]
fn info_and_shared_responses_layout() {
    let info = info_tree("Acme");
    assert_eq!(keys(&info), vec!["title", "version", "description"]);
    assert_eq!(text_of(member(&info, "title")), "Acme admin API");
    assert_eq!(text_of(member(&info, "version")), "v1");
    assert!(text_of(member(&info, "description")).starts_with("Auto-generated from rustio-admin's registered models. See `Accept"));
    let shared = shared_responses_tree();
    assert_eq!(keys(&shared), vec!["ValidationError", "Error"]);
    assert_eq!(text_of(member(member(&shared, "ValidationError"), "description")), "Form validation failed.");
    let body = member(member(member(member(&shared, "ValidationError"), "content"), "application/json"), "schema");
    assert!(matches!(member(member(member(body, "properties"), "status"), "example"), JsonTree::Int(400)));
    let err = member(member(member(member(&shared, "Error"), "content"), "application/json"), "schema");
    assert_eq!(keys(member(err, "properties")), vec!["error", "status"]);
}

#[test]
fn schema_trees_carry_type_format_nullability_and_required() {
    let fields = [
        AdminField { name: "id", label: "Id", field_type: FieldType::I64, editable: false, relation: None, choices: None },
        AdminField { name: "note", label: "Note", field_type: FieldType::OptionalString, editable: true, relation: None, choices: None },
    ];
    let e = schema_for_entry(&fields);
    let t = entry_schema_tree(&e);
    assert_eq!(keys(&t), vec!["type", "properties", "required"]);
    assert_eq!(text_of(member(&t, "type")), "object");
    let props = member(&t, "properties");
    assert_eq!(keys(props), vec!["id", "note"]);
    assert_eq!(keys(member(props, "id")), vec!["type", "format"]);
    assert_eq!(text_of(member(member(props, "id"), "format")), "int64");
    assert!(matches!(member(member(props, "note"), "nullable"), JsonTree::Bool(true)));
    match member(&t, "required") {
        JsonTree::Array(v) => assert_eq!(v.iter().map(text_of).collect::<Vec<_>>(), vec!["id"]),
        other => panic!("{other:?}"),
    }
    let only_optional = schema_for_entry(&fields[1..]);
    assert_eq!(keys(&entry_schema_tree(&only_optional)), vec!["type", "properties"]);
    let f = schema_for_field(&fields[1]);
    assert_eq!(keys(&field_schema_tree(&f)), vec!["type", "nullable"]);
}
