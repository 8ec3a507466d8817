//! The Django-style customisation surface of a registered model:
//! list columns, filters, ordering, fieldsets, validation errors and
//! bulk-action metadata.
use vstd::prelude::*;
use crate::text::{chars_of, sub_chars, string_from_chars};

verus! {

broadcast use vstd::string::group_string_axioms;

/// One named group of fields on the change form.
#[derive(Debug, Clone)]
pub struct Fieldset {
    pub title: &'static str,
    pub fields: &'static [&'static str],
}

/// One validation failure from a project's `validate`: attached to a
/// field (`Some(name)`) or to the whole form (`None`).
#[derive(Debug, Clone)]
pub struct FieldValidationError {
    pub field: Option<&'static str>,
    pub message: String,
}

impl FieldValidationError {
    /// An error attached to one field.
    pub fn field<M: Into<String>>(field: &'static str, message: M) -> (e: Self)
        ensures
            e.field == Some(field),
            call_ensures(M::into, (message,), e.message),
    {
        FieldValidationError { field: Some(field), message: message.into() }
    }

    /// A form-level (cross-field) error.
    pub fn global<M: Into<String>>(message: M) -> (e: Self)
        ensures
            e.field is None,
            call_ensures(M::into, (message,), e.message),
    {
        FieldValidationError { field: None, message: message.into() }
    }
}

/// One project-defined bulk action (metadata only).
#[derive(Debug, Clone, Copy)]
pub struct BulkAction {
    /// Stable URL slug.
    pub name: &'static str,
    /// Button label.
    pub label: &'static str,
    /// Rendered with destructive (red) styling.
    pub destructive: bool,
    /// Requires a confirmation page before running.
    pub confirm: bool,
}

/// Sort direction of one ordering column.
#[derive(Debug, Clone, Copy, PartialEq, Eq, Structural)]
pub enum SortDir {
    Asc,
    Desc,
}

pub open spec fn sort_dir_sql(d: SortDir) -> Seq<char> {
    match d {
        SortDir::Asc => "ASC"@,
        SortDir::Desc => "DESC"@,
    }
}

impl SortDir {
    /// Stable SQL fragment.
    pub fn sql(self) -> (s: &'static str)
        ensures
            s@ == sort_dir_sql(self),
    {
        match self {
            SortDir::Asc => "ASC",
            SortDir::Desc => "DESC",
        }
    }
}

/// `"-foo"` is `foo` descending; anything else is itself ascending.
pub open spec fn order_spec(spec: Seq<char>) -> (Seq<char>, SortDir) {
    if spec.len() > 0 && spec[0] == '-' {
        (spec.drop_first(), SortDir::Desc)
    } else {
        (spec, SortDir::Asc)
    }
}

/// Parse one `ordering()` entry: `"-foo"` → (`"foo"`, Desc),
/// `"foo"` → (`"foo"`, Asc).
pub fn parse_order_spec(spec: &str) -> (r: (String, SortDir))
    ensures
        (r.0@, r.1) == order_spec(spec@),
{
    let v = chars_of(spec);
    if v.len() > 0 && v[0] == '-' {
        let rest = sub_chars(v.as_slice(), 1, v.len());
        assert(rest@ =~= v@.drop_first());
        (string_from_chars(rest.as_slice()), SortDir::Desc)
    } else {
        (string_from_chars(v.as_slice()), SortDir::Asc)
    }
}

/// Writing a column name with a `-` prefix and parsing it back gives the
/// name, descending; a name without a leading `-` parses as itself,
/// ascending.
pub proof fn lemma_order_spec_round_trip(name: Seq<char>)
    ensures
        order_spec(seq!['-'] + name) == (name, SortDir::Desc),
        (name.len() == 0 || name[0] != '-') ==> order_spec(name) == (name, SortDir::Asc),
{
    assert((seq!['-'] + name).drop_first() =~= name);
}

/// Customisation hooks of a registered model; every method has a
/// default, so `impl ModelAdmin for M {}` accepts them all.
pub trait ModelAdmin: Sized {
    /// Columns on the list page; empty means every field.
    fn list_display() -> (r: &'static [&'static str])
        default_ensures
            r@.len() == 0,
    {
        &[]
    }

    /// Columns offered as filter chips.
    fn list_filter() -> (r: &'static [&'static str])
        default_ensures
            r@.len() == 0,
    {
        &[]
    }

    /// Columns searched by the list-page search box.
    fn search_fields() -> (r: &'static [&'static str])
        default_ensures
            r@.len() == 0,
    {
        &[]
    }

    /// Default ordering: newest first.
    fn ordering() -> (r: &'static [&'static str])
        default_ensures
            r@.len() == 1 && r@[0]@ == "-id"@,
    {
        &["-id"]
    }

    /// Rows per list page.
    fn list_per_page() -> (n: usize)
        default_ensures
            n == 50,
    {
        50
    }

    /// Fields shown disabled on the change form.
    fn readonly_fields() -> (r: &'static [&'static str])
        default_ensures
            r@.len() == 0,
    {
        &[]
    }

    /// Explicit change-form grouping; empty means the name heuristic.
    fn fieldsets() -> (r: &'static [Fieldset])
        default_ensures
            r@.len() == 0,
    {
        &[]
    }

    /// Business-rule validation before a create / update is written.
    fn validate(_model: &Self) -> (r: Result<(), Vec<FieldValidationError>>)
        default_ensures
            r is Ok,
    {
        Ok(())
    }

    /// Extra buttons in the list-view bulk bar.
    fn bulk_actions() -> (r: &'static [BulkAction])
        default_ensures
            r@.len() == 0,
    {
        &[]
    }
}

/// The error of a bulk action that the model's admin declares but does
/// not handle: the default answer of the bulk-action hook.
pub fn no_bulk_handler(action: &str) -> (e: crate::error::AdminError)
    ensures
        e matches crate::error::AdminError::BadRequest(m) && m@ == "bulk action `"@ + action@
            + "` has no project handler — override `ModelAdmin::execute_bulk_action` on this model"@,
{
    let mut m = crate::text::to_owned_string("bulk action `");
    crate::text::push_str(&mut m, action);
    crate::text::push_str(
        &mut m,
        "` has no project handler — override `ModelAdmin::execute_bulk_action` on this model",
    );
    crate::error::AdminError::BadRequest(m)
}

} // verus!
