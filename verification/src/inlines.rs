//! Inline sections of a change form: the related rows of each declared
//! inline, fetched through the target model's list query and shown with
//! their labels and edit / delete links.
use vstd::prelude::*;
use crate::handlers::{row_label, row_label_of};
use crate::json_api::ListRow;
use crate::ops::ListOpts;
use crate::text::{decimal_int, i64_string, push_str, push_string, to_owned_string};

verus! {

broadcast use vstd::string::group_string_axioms;

/// The list options an inline fetches its rows with: the rows whose
/// foreign key `fk_field` is the parent's id, at most `max_rows` of
/// them (at least one).
pub fn inline_list_opts(fk_field: &str, parent_id: i64, max_rows: usize) -> (o: ListOpts)
    requires
        max_rows <= i64::MAX,
    ensures
        o.filters@.len() == 1,
        o.filters@[0].0@ == fk_field@,
        o.filters@[0].1@ == decimal_int(parent_id as int),
        o.limit == Some(if max_rows < 1 { 1i64 } else { max_rows as i64 }),
        o.date_ranges@.len() == 0,
        o.multi_filters@.len() == 0,
        o.search is None,
        o.ordering@.len() == 0,
        o.offset is None,
{
    let cap: i64 = if max_rows < 1 { 1 } else { max_rows as i64 };
    let mut filters: Vec<(String, String)> = Vec::new();
    filters.push((to_owned_string(fk_field), i64_string(parent_id)));
    ListOpts {
        filters,
        date_ranges: Vec::new(),
        multi_filters: Vec::new(),
        search: None,
        ordering: Vec::new(),
        limit: Some(cap),
        offset: None,
    }
}

/// One related row of an inline section.
#[derive(Debug, Clone)]
pub struct InlineRow {
    pub id: i64,
    pub label: String,
    pub edit_url: String,
    pub delete_url: String,
}

/// `/admin/<admin_name>/<id>/<action>`.
pub open spec fn row_url(admin_name: Seq<char>, id: int, action: Seq<char>) -> Seq<char> {
    "/admin/"@ + admin_name + "/"@ + decimal_int(id) + "/"@ + action
}

fn row_url_of(admin_name: &str, id: i64, action: &str) -> (u: String)
    ensures
        u@ == row_url(admin_name@, id as int, action@),
{
    let mut u = to_owned_string("/admin/");
    push_str(&mut u, admin_name);
    push_str(&mut u, "/");
    push_string(&mut u, i64_string(id));
    push_str(&mut u, "/");
    push_str(&mut u, action);
    u
}

/// The inline rows of `rows` of the model `admin_name`: each labelled
/// by its display cell (or `#<id>`), with its edit and delete URLs.
pub fn inline_rows(admin_name: &str, display_idx: Option<usize>, rows: &[ListRow]) -> (out: Vec<InlineRow>)
    ensures
        out@.len() == rows@.len(),
        forall|i: int|
            0 <= i < rows@.len() ==> {
                &&& (#[trigger] out@[i]).id == rows@[i].id
                &&& out@[i].label@ == row_label_of(display_idx, rows@[i].cells@, rows@[i].id)
                &&& out@[i].edit_url@ == row_url(admin_name@, rows@[i].id as int, "edit"@)
                &&& out@[i].delete_url@ == row_url(admin_name@, rows@[i].id as int, "delete"@)
            },
{
    let mut out: Vec<InlineRow> = Vec::new();
    let mut i: usize = 0;
    while i < rows.len()
        invariant
            i <= rows.len(),
            out@.len() == i,
            forall|j: int|
                0 <= j < i ==> {
                    &&& (#[trigger] out@[j]).id == rows@[j].id
                    &&& out@[j].label@ == row_label_of(display_idx, rows@[j].cells@, rows@[j].id)
                    &&& out@[j].edit_url@ == row_url(admin_name@, rows@[j].id as int, "edit"@)
                    &&& out@[j].delete_url@ == row_url(admin_name@, rows@[j].id as int, "delete"@)
                },
        decreases rows.len() - i,
    {
        let r = &rows[i];
        out.push(InlineRow {
            id: r.id,
            label: row_label(display_idx, r.cells.as_slice(), r.id),
            edit_url: row_url_of(admin_name, r.id, "edit"),
            delete_url: row_url_of(admin_name, r.id, "delete"),
        });
        i = i + 1;
    }
    out
}

/// The link adding a row to an inline's model: `/admin/<admin_name>/new`.
pub fn inline_add_url(admin_name: &str) -> (u: String)
    ensures
        u@ == "/admin/"@ + admin_name@ + "/new"@,
{
    let mut u = to_owned_string("/admin/");
    push_str(&mut u, admin_name);
    push_str(&mut u, "/new");
    u
}

} // verus!
