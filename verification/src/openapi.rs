//! The generated API description: the JSON Schema of each model field
//! and model (type, format hint, nullability, required fields), and the
//! operations documented for each project model.
use vstd::prelude::*;
use crate::filters::{AdminField, FieldType};
use crate::json_api::nullable;
use crate::text::{push_str, to_owned_string};

verus! {

broadcast use vstd::string::group_string_axioms;

/// The schema fragment of one field.
#[derive(Debug, Clone, Copy)]
pub struct FieldSchema {
    /// The JSON type (`boolean`, `integer`, `number`, `string`).
    pub json_type: &'static str,
    /// The `format` hint, where one applies.
    pub format: Option<&'static str>,
    /// A free-text `description`, where one applies.
    pub description: Option<&'static str>,
    /// Marks the nullable column types.
    pub nullable: bool,
}

/// The description attached to file-path fields.
pub open spec fn file_path_note() -> Seq<char> {
    "Relative path under Admin::uploads_dir; on create / update the request body carries the upload via multipart/form-data."@
}

/// `(type, format, description)` of a column type.
pub open spec fn schema_shape(t: FieldType) -> (Seq<char>, Option<Seq<char>>, Option<Seq<char>>) {
    match t {
        FieldType::Bool => ("boolean"@, None, None),
        FieldType::I32 => ("integer"@, Some("int32"@), None),
        FieldType::I64 | FieldType::OptionalI64 => ("integer"@, Some("int64"@), None),
        FieldType::F64 => ("number"@, Some("double"@), None),
        FieldType::Decimal => ("string"@, Some("decimal"@), None),
        FieldType::Uuid => ("string"@, Some("uuid"@), None),
        FieldType::String | FieldType::OptionalString | FieldType::Phone => ("string"@, None, None),
        FieldType::Email => ("string"@, Some("email"@), None),
        FieldType::DateTime | FieldType::OptionalDateTime => ("string"@, Some("date-time"@), None),
        FieldType::Date => ("string"@, Some("date"@), None),
        FieldType::Time => ("string"@, Some("time"@), None),
        FieldType::FilePath | FieldType::OptionalFilePath => ("string"@, None, Some(file_path_note())),
    }
}

pub open spec fn opt_static(o: Option<&'static str>) -> Option<Seq<char>> {
    match o {
        Some(s) => Some(s@),
        None => None,
    }
}

pub open spec fn schema_is(s: FieldSchema, t: FieldType) -> bool {
    &&& (s.json_type@, opt_static(s.format), opt_static(s.description)) == schema_shape(t)
    &&& s.nullable == nullable(t)
}

/// Maps one field's type to its JSON Schema fragment.
pub fn schema_for_field(field: &AdminField) -> (s: FieldSchema)
    ensures
        schema_is(s, field.field_type),
{
    let (json_type, format, description): (&'static str, Option<&'static str>, Option<&'static str>) =
        match field.field_type {
        FieldType::Bool => ("boolean", None, None),
        FieldType::I32 => ("integer", Some("int32"), None),
        FieldType::I64 | FieldType::OptionalI64 => ("integer", Some("int64"), None),
        FieldType::F64 => ("number", Some("double"), None),
        FieldType::Decimal => ("string", Some("decimal"), None),
        FieldType::Uuid => ("string", Some("uuid"), None),
        FieldType::String | FieldType::OptionalString | FieldType::Phone => ("string", None, None),
        FieldType::Email => ("string", Some("email"), None),
        FieldType::DateTime | FieldType::OptionalDateTime => ("string", Some("date-time"), None),
        FieldType::Date => ("string", Some("date"), None),
        FieldType::Time => ("string", Some("time"), None),
        FieldType::FilePath | FieldType::OptionalFilePath => (
            "string",
            None,
            Some(
                "Relative path under Admin::uploads_dir; on create / update the request body carries the upload via multipart/form-data.",
            ),
        ),
    };
    FieldSchema { json_type, format, description, nullable: field.field_type.nullable() }
}

/// The object schema of a model: one property per field, in field
/// order, and the names of the non-nullable fields.
#[derive(Debug, Clone)]
pub struct EntrySchema {
    pub properties: Vec<(&'static str, FieldSchema)>,
    pub required: Vec<&'static str>,
}

/// The non-nullable fields' names, in order.
pub open spec fn required_names(fields: Seq<AdminField>) -> Seq<Seq<char>>
    decreases fields.len(),
{
    if fields.len() == 0 {
        Seq::empty()
    } else {
        let r = required_names(fields.drop_last());
        if nullable(fields.last().field_type) {
            r
        } else {
            r.push(fields.last().name@)
        }
    }
}

/// `e` is the object schema of a model with these fields: one property
/// per field, in order, each with its field's schema, and the
/// non-nullable fields as required.
pub open spec fn schema_of_fields(e: EntrySchema, fields: Seq<AdminField>) -> bool {
    &&& e.properties@.len() == fields.len()
    &&& forall|i: int|
        0 <= i < fields.len() ==> (#[trigger] e.properties@[i]).0 == fields[i].name && schema_is(
            e.properties@[i].1,
            fields[i].field_type,
        )
    &&& e.required@.map_values(|n: &str| n@) == required_names(fields)
}

/// Builds a model's object schema from its fields.
pub fn schema_for_entry(fields: &[AdminField]) -> (e: EntrySchema)
    ensures
        schema_of_fields(e, fields@),
        e.properties@.len() == fields@.len(),
        forall|i: int|
            0 <= i < fields@.len() ==> (#[trigger] e.properties@[i]).0 == fields@[i].name && schema_is(
                e.properties@[i].1,
                fields@[i].field_type,
            ),
        e.required@.map_values(|n: &str| n@) == required_names(fields@),
{
    let mut properties: Vec<(&'static str, FieldSchema)> = Vec::new();
    let mut required: Vec<&'static str> = Vec::new();
    let mut i: usize = 0;
    while i < fields.len()
        invariant
            i <= fields.len(),
            properties@.len() == i,
            forall|k: int|
                0 <= k < i ==> (#[trigger] properties@[k]).0 == fields@[k].name && schema_is(
                    properties@[k].1,
                    fields@[k].field_type,
                ),
            required@.map_values(|n: &str| n@) == required_names(fields@.take(i as int)),
        decreases fields.len() - i,
    {
        proof {
            let t = fields@.take(i + 1);
            assert(t.drop_last() =~= fields@.take(i as int));
            assert(t.last() == fields@[i as int]);
        }
        properties.push((fields[i].name, schema_for_field(&fields[i])));
        if !fields[i].field_type.nullable() {
            let ghost before = required@;
            required.push(fields[i].name);
            assert(required@.map_values(|n: &str| n@) =~= before.map_values(|n: &str| n@).push(
                fields@[i as int].name@,
            ));
        }
        i = i + 1;
    }
    assert(fields@.take(fields.len() as int) =~= fields@);
    EntrySchema { properties, required }
}

/// The component-schema name of a model: its singular name.
pub fn schema_name_for(singular_name: &str) -> (r: String)
    ensures
        r@ == singular_name@,
{
    to_owned_string(singular_name)
}

// ---------------------------------------------------------------------------
// Documented operations
// ---------------------------------------------------------------------------

/// What the API description needs of a registered model.
#[derive(Debug, Clone, Copy)]
pub struct ApiEntry {
    pub admin_name: &'static str,
    pub singular_name: &'static str,
    pub display_name: &'static str,
    /// Core models (the built-in users) have their own surface and are
    /// not documented.
    pub core: bool,
}

/// The five operations documented per model.
#[derive(Debug, Clone, Copy, PartialEq, Eq, Structural)]
pub enum OpKind {
    List,
    Create,
    Detail,
    Update,
    Delete,
}

/// One documented operation: where, how, what it is, its summary, its
/// tag, and the component schema it refers to.
#[derive(Debug, Clone)]
pub struct ApiOperation {
    pub path: String,
    pub method: &'static str,
    pub kind: OpKind,
    pub summary: String,
    pub tag: &'static str,
    pub schema_ref: Option<String>,
}

pub open spec fn op_view(o: ApiOperation) -> (Seq<char>, Seq<char>, OpKind, Seq<char>, Seq<char>, Option<Seq<char>>) {
    (
        o.path@,
        o.method@,
        o.kind,
        o.summary@,
        o.tag@,
        match o.schema_ref {
            Some(r) => Some(r@),
            None => None,
        },
    )
}

/// `#/components/schemas/<name>`.
pub open spec fn schema_ref_of(name: Seq<char>) -> Seq<char> {
    "#/components/schemas/"@ + name
}

/// The operations of one model, in document order: list and create on
/// `/admin/<name>`, fetch on `/admin/<name>/{id}`, update on
/// `…/{id}/edit`, delete on `…/{id}/delete`.
pub open spec fn entry_ops(e: ApiEntry) -> Seq<(Seq<char>, Seq<char>, OpKind, Seq<char>, Seq<char>, Option<Seq<char>>)> {
    let base = "/admin/"@ + e.admin_name@;
    let r = Some(schema_ref_of(e.singular_name@));
    seq![
        (base, "get"@, OpKind::List, "List "@ + e.display_name@ + " rows."@, e.admin_name@, r),
        (base, "post"@, OpKind::Create, "Create a new "@ + e.singular_name@ + "."@, e.admin_name@, r),
        (base + "/{id}"@, "get"@, OpKind::Detail, "Fetch one "@ + e.singular_name@ + " by id."@, e.admin_name@, r),
        (base + "/{id}/edit"@, "post"@, OpKind::Update, "Update an existing "@ + e.singular_name@ + " by id."@, e.admin_name@, r),
        (base + "/{id}/delete"@, "post"@, OpKind::Delete, "Delete a "@ + e.singular_name@ + " by id."@, e.admin_name@, None),
    ]
}

/// The operations of the first `n` models, core models skipped.
pub open spec fn api_ops_of(entries: Seq<ApiEntry>, n: int) -> Seq<(Seq<char>, Seq<char>, OpKind, Seq<char>, Seq<char>, Option<Seq<char>>)>
    decreases n,
{
    if n <= 0 {
        Seq::empty()
    } else if entries[n - 1].core {
        api_ops_of(entries, n - 1)
    } else {
        api_ops_of(entries, n - 1) + entry_ops(entries[n - 1])
    }
}

fn concat3(a: &str, b: &str, c: &str) -> (s: String)
    ensures
        s@ == a@ + b@ + c@,
{
    let mut s = to_owned_string(a);
    push_str(&mut s, b);
    push_str(&mut s, c);
    s
}

fn concat2(a: &str, b: &str) -> (s: String)
    ensures
        s@ == a@ + b@,
{
    let mut s = to_owned_string(a);
    push_str(&mut s, b);
    s
}

fn schema_ref(name: &str) -> (r: String)
    ensures
        r@ == schema_ref_of(name@),
{
    let mut r = to_owned_string("#/components/schemas/");
    push_str(&mut r, name);
    r
}

fn push_entry_ops(out: &mut Vec<ApiOperation>, e: &ApiEntry)
    ensures
        final(out)@.map_values(|o: ApiOperation| op_view(o)) == old(out)@.map_values(|o: ApiOperation| op_view(o))
            + entry_ops(*e),
{
    let ghost before = out@.map_values(|o: ApiOperation| op_view(o));
    let base = concat2("/admin/", e.admin_name);
    out.push(ApiOperation {
        path: base.clone(),
        method: "get",
        kind: OpKind::List,
        summary: concat3("List ", e.display_name, " rows."),
        tag: e.admin_name,
        schema_ref: Some(schema_ref(e.singular_name)),
    });
    out.push(ApiOperation {
        path: base,
        method: "post",
        kind: OpKind::Create,
        summary: concat3("Create a new ", e.singular_name, "."),
        tag: e.admin_name,
        schema_ref: Some(schema_ref(e.singular_name)),
    });
    out.push(ApiOperation {
        path: concat3("/admin/", e.admin_name, "/{id}"),
        method: "get",
        kind: OpKind::Detail,
        summary: concat3("Fetch one ", e.singular_name, " by id."),
        tag: e.admin_name,
        schema_ref: Some(schema_ref(e.singular_name)),
    });
    out.push(ApiOperation {
        path: concat3("/admin/", e.admin_name, "/{id}/edit"),
        method: "post",
        kind: OpKind::Update,
        summary: concat3("Update an existing ", e.singular_name, " by id."),
        tag: e.admin_name,
        schema_ref: Some(schema_ref(e.singular_name)),
    });
    out.push(ApiOperation {
        path: concat3("/admin/", e.admin_name, "/{id}/delete"),
        method: "post",
        kind: OpKind::Delete,
        summary: concat3("Delete a ", e.singular_name, " by id."),
        tag: e.admin_name,
        schema_ref: None,
    });
    assert(out@.map_values(|o: ApiOperation| op_view(o)) =~= before + entry_ops(*e));
}

/// Every documented operation, model by model in registration order,
/// core models left out (see [`api_ops_of`]).
pub fn api_operations(entries: &[ApiEntry]) -> (ops: Vec<ApiOperation>)
    ensures
        ops@.map_values(|o: ApiOperation| op_view(o)) == api_ops_of(entries@, entries@.len() as int),
{
    let mut ops: Vec<ApiOperation> = Vec::new();
    let mut i: usize = 0;
    assert(ops@.map_values(|o: ApiOperation| op_view(o)) =~= api_ops_of(entries@, 0));
    while i < entries.len()
        invariant
            i <= entries.len(),
            ops@.map_values(|o: ApiOperation| op_view(o)) == api_ops_of(entries@, i as int),
        decreases entries.len() - i,
    {
        if !entries[i].core {
            push_entry_ops(&mut ops, &entries[i]);
        }
        i = i + 1;
    }
    ops
}

/// The document's title: `<app name> admin API`.
pub fn api_title(app_name: &str) -> (t: String)
    ensures
        t@ == app_name@ + " admin API"@,
{
    concat2(app_name, " admin API")
}

/// The OpenAPI version the description declares.
pub fn openapi_version() -> (v: &'static str)
    ensures
        v@ == "3.0.3"@,
{
    "3.0.3"
}

/// The positions, among the first `n` models, of those the description
/// documents: every model but the core ones.
pub open spec fn documented_models(models: Seq<(ApiEntry, &'static [AdminField])>, n: int) -> Seq<int>
    decreases n,
{
    if n <= 0 {
        Seq::empty()
    } else if models[n - 1].0.core {
        documented_models(models, n - 1)
    } else {
        documented_models(models, n - 1).push(n - 1)
    }
}

/// The component schemas of the description: for each documented
/// model, in registration order, its singular name and its object
/// schema; core models contribute nothing.
pub fn api_schemas(models: &[(ApiEntry, &'static [AdminField])]) -> (out: Vec<(String, EntrySchema)>)
    ensures
        out@.len() == documented_models(models@, models@.len() as int).len(),
        forall|j: int|
            0 <= j < out@.len() ==> {
                let k = documented_models(models@, models@.len() as int)[j];
                &&& (#[trigger] out@[j]).0@ == models@[k].0.singular_name@
                &&& schema_of_fields(out@[j].1, models@[k].1@)
            },
{
    let mut out: Vec<(String, EntrySchema)> = Vec::new();
    let ghost mut docs: Seq<int> = Seq::empty();
    let mut i: usize = 0;
    while i < models.len()
        invariant
            i <= models.len(),
            docs == documented_models(models@, i as int),
            out@.len() == docs.len(),
            forall|j: int|
                0 <= j < out@.len() ==> 0 <= #[trigger] docs[j] < i && out@[j].0@ == models@[docs[j]].0.singular_name@
                    && schema_of_fields(out@[j].1, models@[docs[j]].1@),
        decreases models.len() - i,
    {
        let ghost o0 = out@;
        let ghost d0 = docs;
        if !models[i].0.core {
            let name = schema_name_for(models[i].0.singular_name);
            let schema = schema_for_entry(models[i].1);
            out.push((name, schema));
            proof {
                docs = d0.push(i as int);
            }
        }
        assert(docs == documented_models(models@, i + 1));
        assert forall|j: int| 0 <= j < out@.len() implies 0 <= #[trigger] docs[j] < i + 1
            && out@[j].0@ == models@[docs[j]].0.singular_name@
            && schema_of_fields(out@[j].1, models@[docs[j]].1@) by {
            if j < o0.len() {
                assert(out@[j] == o0[j]);
                assert(docs[j] == d0[j]);
            }
        }
        i = i + 1;
    }
    proof {
        assert forall|j: int| 0 <= j < out@.len() implies {
            let k = documented_models(models@, models@.len() as int)[j];
            &&& (#[trigger] out@[j]).0@ == models@[k].0.singular_name@
            &&& schema_of_fields(out@[j].1, models@[k].1@)
        } by {
            assert(docs[j] == documented_models(models@, models@.len() as int)[j]);
        }
    }
    out
}

} // verus!
