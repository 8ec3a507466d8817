//! What the `RustioAdmin` derive decides for a model struct, from the
//! facts its attribute parsing extracts: the admin slug, display and
//! table names, each field's kind (after the auto-timestamp, `file`,
//! `format` and `choices` promotions), label and editability, and the
//! SELECT / INSERT column lists. Emitting the generated code is left to
//! the macro itself.
use vstd::prelude::*;
use crate::naming::{
    auto_timestamp_name, field_label, find_label_field, first_label_field, humanise,
    humanise_field, is_auto_timestamp_name, plural_of, plural_snake, sentence_label, snake_of,
    FieldKind,
};
use crate::text::{push_str, str_eq, str_views, to_owned_string, views};

verus! {

broadcast use vstd::string::group_string_axioms;

/// One named field of the struct, as the derive's attribute parsing
/// sees it.
#[derive(Debug, Clone)]
pub struct FieldDecl {
    pub name: String,
    /// The kind its Rust type maps to.
    pub base: FieldKind,
    /// `#[rustio(file)]` is present.
    pub file: bool,
    /// `#[rustio(format = "...")]`, when present.
    pub format: Option<String>,
    /// `#[rustio(choices = [...])]`, when present.
    pub choices: Option<Vec<String>>,
}

/// The struct-level `#[rustio(...)]` overrides.
#[derive(Debug, Clone)]
pub struct StructOverrides {
    pub admin_name: Option<String>,
    pub display_name: Option<String>,
    pub table: Option<String>,
    pub extra_columns: Vec<String>,
}

/// What the derive registers for one field.
#[derive(Debug, Clone)]
pub struct FieldPlan {
    pub name: String,
    pub label: String,
    pub kind: FieldKind,
    pub editable: bool,
}

/// What the derive registers for the model.
#[derive(Debug, Clone)]
pub struct ModelPlan {
    pub admin_name: String,
    pub display_name: String,
    pub singular_name: String,
    pub table: String,
    /// Every field, then the extra (generated) columns.
    pub columns: Vec<String>,
    /// Every field but `id`.
    pub insert_columns: Vec<String>,
    pub fields: Vec<FieldPlan>,
    /// The field `object_label` shows, if any.
    pub label_field: Option<String>,
}

/// A kind's name as `{:?}` prints it.
pub open spec fn kind_name(k: FieldKind) -> Seq<char> {
    match k {
        FieldKind::I32 => "I32"@,
        FieldKind::I64 => "I64"@,
        FieldKind::F64 => "F64"@,
        FieldKind::Decimal => "Decimal"@,
        FieldKind::Bool => "Bool"@,
        FieldKind::String => "String"@,
        FieldKind::Email => "Email"@,
        FieldKind::Phone => "Phone"@,
        FieldKind::Choice => "Choice"@,
        FieldKind::DateTime => "DateTime"@,
        FieldKind::Date => "Date"@,
        FieldKind::Time => "Time"@,
        FieldKind::Uuid => "Uuid"@,
        FieldKind::DateTimeAuto => "DateTimeAuto"@,
        FieldKind::OptionalString => "OptionalString"@,
        FieldKind::OptionalI64 => "OptionalI64"@,
        FieldKind::OptionalDateTime => "OptionalDateTime"@,
        FieldKind::FilePath => "FilePath"@,
        FieldKind::OptionalFilePath => "OptionalFilePath"@,
    }
}

fn kind_debug_name(k: FieldKind) -> (s: &'static str)
    ensures
        s@ == kind_name(k),
{
    match k {
        FieldKind::I32 => "I32",
        FieldKind::I64 => "I64",
        FieldKind::F64 => "F64",
        FieldKind::Decimal => "Decimal",
        FieldKind::Bool => "Bool",
        FieldKind::String => "String",
        FieldKind::Email => "Email",
        FieldKind::Phone => "Phone",
        FieldKind::Choice => "Choice",
        FieldKind::DateTime => "DateTime",
        FieldKind::Date => "Date",
        FieldKind::Time => "Time",
        FieldKind::Uuid => "Uuid",
        FieldKind::DateTimeAuto => "DateTimeAuto",
        FieldKind::OptionalString => "OptionalString",
        FieldKind::OptionalI64 => "OptionalI64",
        FieldKind::OptionalDateTime => "OptionalDateTime",
        FieldKind::FilePath => "FilePath",
        FieldKind::OptionalFilePath => "OptionalFilePath",
    }
}

/// The refusal of an attribute on a field of the wrong kind.
pub open spec fn misplaced(attr: Seq<char>, expected: Seq<char>, k: FieldKind, name: Seq<char>) -> Seq<char> {
    attr + " is only valid on "@ + expected + " fields; got "@ + kind_name(k) + " for `"@ + name
        + "`"@
}

/// The kind after the auto-timestamp promotion and the `file` marker.
pub open spec fn after_file(d: FieldDecl) -> Result<FieldKind, Seq<char>> {
    let k = if d.base == FieldKind::DateTime && auto_timestamp_name(d.name@) {
        FieldKind::DateTimeAuto
    } else {
        d.base
    };
    if d.file {
        if k == FieldKind::String {
            Ok(FieldKind::FilePath)
        } else if k == FieldKind::OptionalString {
            Ok(FieldKind::OptionalFilePath)
        } else {
            Err(misplaced("#[rustio(file)]"@, "String or Option<String>"@, k, d.name@))
        }
    } else {
        Ok(k)
    }
}

/// The kind after the `format` promotion.
pub open spec fn after_format(d: FieldDecl) -> Result<FieldKind, Seq<char>> {
    match after_file(d) {
        Err(m) => Err(m),
        Ok(k) => match d.format {
            Some(fmt) => if k == FieldKind::String && fmt@ == "email"@ {
                Ok(FieldKind::Email)
            } else if k == FieldKind::String && fmt@ == "phone"@ {
                Ok(FieldKind::Phone)
            } else {
                Err(misplaced("#[rustio(format = \"...\")]"@, "String"@, k, d.name@))
            },
            None => Ok(k),
        },
    }
}

/// The field's final kind, or why the derive refuses it.
pub open spec fn field_kind_of(d: FieldDecl) -> Result<FieldKind, Seq<char>> {
    match after_format(d) {
        Err(m) => Err(m),
        Ok(k) => match d.choices {
            Some(values) if values@.len() > 0 => if k == FieldKind::String {
                Ok(FieldKind::Choice)
            } else {
                Err(misplaced("#[rustio(choices = [...])]"@, "String"@, k, d.name@))
            },
            _ => Ok(k),
        },
    }
}

fn misplaced_message(attr: &str, expected: &str, k: FieldKind, name: &str) -> (m: String)
    ensures
        m@ == misplaced(attr@, expected@, k, name@),
{
    let mut m = to_owned_string(attr);
    push_str(&mut m, " is only valid on ");
    push_str(&mut m, expected);
    push_str(&mut m, " fields; got ");
    push_str(&mut m, kind_debug_name(k));
    push_str(&mut m, " for `");
    push_str(&mut m, name);
    push_str(&mut m, "`");
    m
}

/// Resolves one field's kind: `created_at` / `updated_at` date-times
/// become auto timestamps; `file` makes a (optional) string a (optional)
/// file path; `format` makes a string an e-mail or phone column;
/// non-empty `choices` make a string a choice column. A marker on a
/// field of another kind is refused.
pub fn resolve_field_kind(d: &FieldDecl) -> (r: Result<FieldKind, String>)
    ensures
        match (r, field_kind_of(*d)) {
            (Ok(k), Ok(sk)) => k == sk,
            (Err(m), Err(sm)) => m@ == sm,
            _ => false,
        },
{
    let name = d.name.as_str();
    let mut k = d.base;
    if k == FieldKind::DateTime && is_auto_timestamp_name(name) {
        k = FieldKind::DateTimeAuto;
    }
    if d.file {
        if k == FieldKind::String {
            k = FieldKind::FilePath;
        } else if k == FieldKind::OptionalString {
            k = FieldKind::OptionalFilePath;
        } else {
            return Err(misplaced_message("#[rustio(file)]", "String or Option<String>", k, name));
        }
    }
    assert(after_file(*d) == Ok::<FieldKind, Seq<char>>(k));
    match &d.format {
        Some(fmt) => {
            if k == FieldKind::String && str_eq(fmt.as_str(), "email") {
                k = FieldKind::Email;
            } else if k == FieldKind::String && str_eq(fmt.as_str(), "phone") {
                k = FieldKind::Phone;
            } else {
                return Err(misplaced_message("#[rustio(format = \"...\")]", "String", k, name));
            }
        },
        None => {},
    }
    assert(after_format(*d) == Ok::<FieldKind, Seq<char>>(k));
    match &d.choices {
        Some(values) => {
            if values.len() > 0 {
                if k == FieldKind::String {
                    k = FieldKind::Choice;
                } else {
                    return Err(misplaced_message("#[rustio(choices = [...])]", "String", k, name));
                }
            }
        },
        None => {},
    }
    Ok(k)
}

/// The first refusal among the fields, in declaration order.
pub open spec fn first_refusal(fields: Seq<FieldDecl>) -> Option<Seq<char>>
    decreases fields.len(),
{
    if fields.len() == 0 {
        None
    } else {
        match field_kind_of(fields[0]) {
            Err(m) => Some(m),
            Ok(_) => first_refusal(fields.drop_first()),
        }
    }
}

/// Whether `p` is the plan of field declaration `d`.
pub open spec fn field_planned(p: FieldPlan, d: FieldDecl) -> bool {
    &&& p.name@ == d.name@
    &&& p.label@ == field_label(d.name@)
    &&& field_kind_of(d) == Ok::<FieldKind, Seq<char>>(p.kind)
    &&& p.editable == (d.name@ != "id"@ && p.kind != FieldKind::DateTimeAuto)
}

/// The field names other than `id`, in order.
pub open spec fn insert_names(fields: Seq<FieldDecl>) -> Seq<Seq<char>>
    decreases fields.len(),
{
    if fields.len() == 0 {
        Seq::empty()
    } else {
        let r = insert_names(fields.drop_last());
        if fields.last().name@ == "id"@ {
            r
        } else {
            r.push(fields.last().name@)
        }
    }
}

pub open spec fn decl_names(fields: Seq<FieldDecl>) -> Seq<Seq<char>> {
    fields.map_values(|d: FieldDecl| d.name@)
}

pub open spec fn opt_view(o: Option<String>) -> Option<Seq<char>> {
    match o {
        Some(s) => Some(s@),
        None => None,
    }
}

/// Whether `m` is the plan of a struct named `struct_name` with these
/// overrides and fields.
pub open spec fn model_planned(m: ModelPlan, struct_name: Seq<char>, o: StructOverrides, fields: Seq<FieldDecl>) -> bool {
    let slug = plural_of(snake_of(struct_name));
    &&& m.admin_name@ == (match o.admin_name {
        Some(a) => a@,
        None => slug,
    })
    &&& m.display_name@ == (match o.display_name {
        Some(d) => d@,
        None => sentence_label(slug),
    })
    &&& m.singular_name@ == struct_name
    &&& m.table@ == (match o.table {
        Some(t) => t@,
        None => m.admin_name@,
    })
    &&& views(m.columns@) == decl_names(fields) + views(o.extra_columns@)
    &&& views(m.insert_columns@) == insert_names(fields)
    &&& m.fields@.len() == fields.len()
    &&& forall|i: int| 0 <= i < fields.len() ==> field_planned(#[trigger] m.fields@[i], fields[i])
    &&& opt_view(m.label_field) == first_label_field(decl_names(fields), 0)
}

/// Plans the registration of a model struct; refuses with the first
/// field's refusal, in declaration order.
pub fn plan_model(struct_name: &str, overrides: &StructOverrides, fields: &[FieldDecl]) -> (r: Result<
    ModelPlan,
    String,
>)
    ensures
        match (r, first_refusal(fields@)) {
            (Ok(m), None) => model_planned(m, struct_name@, *overrides, fields@),
            (Err(e), Some(se)) => e@ == se,
            _ => false,
        },
{
    let slug = plural_snake(struct_name);
    let admin_name = match &overrides.admin_name {
        Some(a) => a.clone(),
        None => slug.clone(),
    };
    let display_name = match &overrides.display_name {
        Some(d) => d.clone(),
        None => humanise(slug.as_str()),
    };
    let table = match &overrides.table {
        Some(t) => t.clone(),
        None => admin_name.clone(),
    };
    let mut plans: Vec<FieldPlan> = Vec::new();
    let mut columns: Vec<String> = Vec::new();
    let mut insert_columns: Vec<String> = Vec::new();
    let mut names: Vec<&str> = Vec::new();
    let mut i: usize = 0;
    assert(fields@.skip(0) =~= fields@);
    while i < fields.len()
        invariant
            i <= fields.len(),
            first_refusal(fields@) == first_refusal(fields@.skip(i as int)),
            plans@.len() == i,
            forall|k: int| 0 <= k < i ==> field_planned(#[trigger] plans@[k], fields@[k]),
            views(columns@) == decl_names(fields@.take(i as int)),
            views(insert_columns@) == insert_names(fields@.take(i as int)),
            str_views(names@) == decl_names(fields@.take(i as int)),
        decreases fields.len() - i,
    {
        let d = &fields[i];
        assert(fields@.skip(i as int)[0] == fields@[i as int]);
        assert(fields@.skip(i as int).drop_first() =~= fields@.skip(i + 1));
        let kind = match resolve_field_kind(d) {
            Ok(k) => k,
            Err(m) => return Err(m),
        };
        let name = d.name.as_str();
        let editable = !str_eq(name, "id") && kind != FieldKind::DateTimeAuto;
        plans.push(
            FieldPlan { name: d.name.clone(), label: humanise_field(name), kind, editable },
        );
        proof {
            let t = fields@.take(i + 1);
            assert(t.drop_last() =~= fields@.take(i as int));
            assert(t.last() == fields@[i as int]);
        }
        let ghost c0 = columns@;
        columns.push(d.name.clone());
        assert(views(columns@) =~= views(c0).push(d.name@));
        assert(decl_names(fields@.take(i + 1)) =~= decl_names(fields@.take(i as int)).push(d.name@));
        if !str_eq(name, "id") {
            let ghost ic0 = insert_columns@;
            insert_columns.push(d.name.clone());
            assert(views(insert_columns@) =~= views(ic0).push(d.name@));
        }
        let ghost n0 = names@;
        names.push(name);
        assert(str_views(names@) =~= str_views(n0).push(d.name@));
        i = i + 1;
    }
    assert(fields@.take(fields.len() as int) =~= fields@);
    assert(first_refusal(fields@.skip(fields.len() as int)) is None);
    let ghost field_columns = columns@;
    let mut k: usize = 0;
    while k < overrides.extra_columns.len()
        invariant
            k <= overrides.extra_columns.len(),
            views(columns@) == views(field_columns) + views(overrides.extra_columns@.take(k as int)),
        decreases overrides.extra_columns.len() - k,
    {
        let ghost c0 = columns@;
        columns.push(overrides.extra_columns[k].clone());
        assert(views(columns@) =~= views(c0).push(overrides.extra_columns@[k as int]@));
        assert(views(overrides.extra_columns@.take(k + 1)) =~= views(
            overrides.extra_columns@.take(k as int),
        ).push(overrides.extra_columns@[k as int]@));
        k = k + 1;
    }
    assert(overrides.extra_columns@.take(overrides.extra_columns.len() as int)
        =~= overrides.extra_columns@);
    let label_field = find_label_field(names.as_slice());
    Ok(
        ModelPlan {
            admin_name,
            display_name,
            singular_name: to_owned_string(struct_name),
            table,
            columns,
            insert_columns,
            fields: plans,
            label_field,
        },
    )
}

} // verus!
