//! Foreign-key hydration of a list page: which ids a relation column
//! names, the query that fetches their display labels, and the
//! substitution of the labels (with a link to the target row) into
//! the page's cells.
use vstd::prelude::*;
use crate::handlers::{parse_i64, parse_i64_chars};
use crate::text::{chars_of, push_str, to_owned_string};

verus! {

broadcast use vstd::string::group_string_axioms;

/// Where a hydrated cell links to: the target model's admin name and
/// the row id.
#[derive(Debug, Clone)]
pub struct CellLink {
    pub admin_name: String,
    pub id: i64,
}

/// The displayed cells of one list row and, per cell, the link it
/// carries (if any).
#[derive(Debug, Clone)]
pub struct FkRow {
    pub cells: Vec<String>,
    pub cell_links: Vec<Option<CellLink>>,
}

/// Some row's cell at `idx` names the id `x`.
pub open spec fn column_names_id(rows: Seq<FkRow>, idx: int, x: i64) -> bool {
    exists|r: int|
        0 <= r < rows.len() && 0 <= idx < rows[r].cells.len() && #[trigger] parse_i64(
            rows[r].cells@[idx]@,
        ) == Some(x)
}

pub open spec fn strictly_increasing(s: Seq<i64>) -> bool {
    forall|i: int, j: int| 0 <= i < j < s.len() ==> s[i] < s[j]
}

/// Inserts `x` into the strictly increasing `v`, unless it is there.
fn insert_sorted(v: &mut Vec<i64>, x: i64)
    requires
        strictly_increasing(old(v)@),
    ensures
        strictly_increasing(final(v)@),
        forall|y: i64| final(v)@.contains(y) <==> (old(v)@.contains(y) || y == x),
{
    let mut i: usize = 0;
    while i < v.len() && v[i] < x
        invariant
            i <= v.len(),
            v@ == old(v)@,
            forall|k: int| 0 <= k < i ==> v@[k] < x,
        decreases v.len() - i,
    {
        i = i + 1;
    }
    if i < v.len() && v[i] == x {
        assert(v@[i as int] == x);
        return;
    }
    let ghost before = v@;
    v.insert(i, x);
    assert forall|y: i64| v@.contains(y) <==> (before.contains(y) || y == x) by {
        if v@.contains(y) {
            let k = choose|k: int| 0 <= k < v@.len() && v@[k] == y;
            if k < i {
                assert(before[k] == y);
            } else if k > i {
                assert(before[k - 1] == y);
            }
        }
        if before.contains(y) {
            let k = choose|k: int| 0 <= k < before.len() && before[k] == y;
            if k < i {
                assert(v@[k] == y);
            } else {
                assert(v@[k + 1] == y);
            }
        }
        if y == x {
            assert(v@[i as int] == y);
        }
    }
    assert(before == old(v)@);
    assert(forall|y: i64| v@.contains(y) <==> (old(v)@.contains(y) || y == x));
}

/// The distinct ids the cells at `idx` name, ascending: empty cells,
/// cells that are not an `i64` and rows too short are skipped.
pub fn fk_ids_in_column(rows: &[FkRow], idx: usize) -> (ids: Vec<i64>)
    ensures
        strictly_increasing(ids@),
        forall|x: i64| ids@.contains(x) <==> column_names_id(rows@, idx as int, x),
{
    let mut ids: Vec<i64> = Vec::new();
    let mut r: usize = 0;
    while r < rows.len()
        invariant
            r <= rows.len(),
            strictly_increasing(ids@),
            forall|x: i64| ids@.contains(x) <==> column_names_id(rows@.take(r as int), idx as int, x),
        decreases rows.len() - r,
    {
        let ghost old_ids = ids@;
        if idx < rows[r].cells.len() {
            let cell = chars_of(rows[r].cells[idx].as_str());
            if let Some(x) = parse_i64_chars(cell.as_slice()) {
                insert_sorted(&mut ids, x);
            }
        }
        assert forall|x: i64| ids@.contains(x) <==> column_names_id(
            rows@.take(r + 1),
            idx as int,
            x,
        ) by {
            let pre = rows@.take(r as int);
            let post = rows@.take(r + 1);
            if column_names_id(post, idx as int, x) {
                let k = choose|k: int|
                    0 <= k < post.len() && 0 <= idx < post[k].cells.len() && #[trigger] parse_i64(
                        post[k].cells@[idx as int]@,
                    ) == Some(x);
                if k < r {
                    assert(pre[k] == post[k]);
                    assert(column_names_id(pre, idx as int, x));
                }
            }
            if column_names_id(pre, idx as int, x) {
                let k = choose|k: int|
                    0 <= k < pre.len() && 0 <= idx < pre[k].cells.len() && #[trigger] parse_i64(
                        pre[k].cells@[idx as int]@,
                    ) == Some(x);
                assert(pre[k] == post[k]);
                assert(column_names_id(post, idx as int, x));
            }
            if ids@.contains(x) && !old_ids.contains(x) {
                assert(post[r as int] == rows@[r as int]);
                assert(column_names_id(post, idx as int, x));
            }
        }
        r = r + 1;
    }
    assert(rows@.take(rows.len() as int) =~= rows@);
    ids
}

/// The query fetching the display labels of a relation's target rows.
pub open spec fn fk_label_sql(display_field: Seq<char>, table: Seq<char>) -> Seq<char> {
    "SELECT id, "@ + display_field + "::text AS label FROM "@ + table + " WHERE id = ANY($1)"@
}

/// The label query for a relation column (see [`fk_label_sql`]).
pub fn fk_label_query(display_field: &str, table: &str) -> (q: String)
    ensures
        q@ == fk_label_sql(display_field@, table@),
{
    let mut q = to_owned_string("SELECT id, ");
    push_str(&mut q, display_field);
    push_str(&mut q, "::text AS label FROM ");
    push_str(&mut q, table);
    push_str(&mut q, " WHERE id = ANY($1)");
    q
}

/// The label fetched for `id`; the last pair wins, as when the pairs
/// are collected into a map.
pub open spec fn label_for(labels: Seq<(i64, String)>, id: i64) -> Option<Seq<char>>
    decreases labels.len(),
{
    if labels.len() == 0 {
        None
    } else if labels.last().0 == id {
        Some(labels.last().1@)
    } else {
        label_for(labels.drop_last(), id)
    }
}

/// What a cell becomes: the label of the id it names and that id, when
/// a label was fetched for it.
pub open spec fn hydrated(cell: Seq<char>, labels: Seq<(i64, String)>) -> Option<(Seq<char>, i64)> {
    match parse_i64(cell) {
        Some(id) => match label_for(labels, id) {
            Some(l) => Some((l, id)),
            None => None,
        },
        None => None,
    }
}

fn find_label(labels: &[(i64, String)], id: i64) -> (r: Option<String>)
    ensures
        match (r, label_for(labels@, id)) {
            (Some(s), Some(l)) => s@ == l,
            (None, None) => true,
            _ => false,
        },
{
    let mut k: usize = labels.len();
    assert(labels@.take(k as int) =~= labels@);
    while k > 0
        invariant
            k <= labels.len(),
            label_for(labels@, id) == label_for(labels@.take(k as int), id),
        decreases k,
    {
        assert(labels@.take(k as int).drop_last() =~= labels@.take(k - 1));
        if labels[k - 1].0 == id {
            return Some(labels[k - 1].1.clone());
        }
        k = k - 1;
    }
    None
}

/// How one row reads after hydrating column `idx`: the cell at `idx`
/// becomes its label and its link (where the row has a link slot there)
/// points at the target row; every other cell and link is as before.
pub open spec fn row_hydrated(
    before: FkRow,
    after: FkRow,
    idx: int,
    labels: Seq<(i64, String)>,
    target: Seq<char>,
) -> bool {
    &&& after.cells.len() == before.cells.len()
    &&& after.cell_links.len() == before.cell_links.len()
    &&& forall|j: int| 0 <= j < before.cells.len() && j != idx ==> #[trigger] after.cells@[j]@ == before.cells@[j]@
    &&& forall|j: int| 0 <= j < before.cell_links.len() && j != idx ==> #[trigger] after.cell_links@[j] == before.cell_links@[j]
    &&& 0 <= idx < before.cells.len() ==> match hydrated(before.cells@[idx]@, labels) {
        Some((l, id)) => {
            &&& after.cells@[idx]@ == l
            &&& idx < before.cell_links.len() ==> (after.cell_links@[idx] matches Some(link) && link.admin_name@ == target && link.id == id)
        },
        None => {
            &&& after.cells@[idx]@ == before.cells@[idx]@
            &&& idx < before.cell_links.len() ==> after.cell_links@[idx] == before.cell_links@[idx]
        },
    }
    &&& !(0 <= idx < before.cells.len()) ==> after.cell_links@ == before.cell_links@
}

fn hydrate_row(row: FkRow, idx: usize, labels: &[(i64, String)], target_admin_name: &str) -> (out: FkRow)
    ensures
        row_hydrated(row, out, idx as int, labels@, target_admin_name@),
{
    let ghost before = row;
    let mut row = row;
    if idx < row.cells.len() {
        let cell = chars_of(row.cells[idx].as_str());
        if let Some(id) = parse_i64_chars(cell.as_slice()) {
            if let Some(label) = find_label(labels, id) {
                row.cells.set(idx, label);
                if idx < row.cell_links.len() {
                    row.cell_links.set(idx, Some(CellLink { admin_name: to_owned_string(target_admin_name), id }));
                }
            }
        }
    }
    row
}

/// Hydrates relation column `idx` of a page with the fetched
/// `(id, label)` pairs: every cell naming an id that has a label shows
/// the label and links to `target_admin_name`'s row; nothing else
/// changes.
pub fn hydrate_column(rows: Vec<FkRow>, idx: usize, labels: &[(i64, String)], target_admin_name: &str) -> (out: Vec<FkRow>)
    ensures
        out.len() == rows.len(),
        forall|r: int| 0 <= r < rows.len() ==> row_hydrated(#[trigger] rows@[r], out@[r], idx as int, labels@, target_admin_name@),
{
    let ghost all = rows@;
    let n = rows.len();
    let mut rest = rows;
    let mut out: Vec<FkRow> = Vec::new();
    let mut i: usize = 0;
    while i < n
        invariant
            i <= n,
            all.len() == n,
            rest@ == all.subrange(i as int, n as int),
            out.len() == i,
            forall|r: int| 0 <= r < i ==> row_hydrated(#[trigger] all[r], out@[r], idx as int, labels@, target_admin_name@),
        decreases n - i,
    {
        let row = rest.remove(0);
        assert(row == all[i as int]);
        let h = hydrate_row(row, idx, labels, target_admin_name);
        out.push(h);
        assert(rest@ =~= all.subrange(i + 1, n as int));
        i = i + 1;
    }
    out
}

} // verus!
