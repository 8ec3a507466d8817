//! The JSON side of the list and detail endpoints: content
//! negotiation, the native JSON value of a stored cell, and the page
//! count of a list envelope.
use vstd::prelude::*;
use crate::csv::{accept_media_type, chars_eq_ignore_case_lit};
use crate::filters::{AdminField, FieldType};
use crate::handlers::{parse_i64, parse_i64_chars};
use crate::text::{
    chars_before, chars_eq, chars_of, eq_ignore_case, split_char, split_chars, to_owned_string,
    trim, trim_chars,
};

verus! {

broadcast use vstd::string::group_string_axioms;

// ---------------------------------------------------------------------------
// Content negotiation
// ---------------------------------------------------------------------------

/// The first `Accept` entry that decides the JSON question:
/// `application/json` or `application/*` say yes, `text/html` says no
/// (any ASCII case). `None` when no entry decides.
pub open spec fn json_accept_verdict(entries: Seq<Seq<char>>) -> Option<bool>
    decreases entries.len(),
{
    if entries.len() == 0 {
        None
    } else {
        let bare = accept_media_type(trim(entries[0]));
        if eq_ignore_case(bare, "application/json"@) || eq_ignore_case(bare, "application/*"@) {
            Some(true)
        } else if eq_ignore_case(bare, "text/html"@) {
            Some(false)
        } else {
            json_accept_verdict(entries.drop_first())
        }
    }
}

/// An `Accept` header that is the wildcard `*/*` alone.
pub open spec fn lone_wildcard(entries: Seq<Seq<char>>) -> bool {
    entries.len() == 1 && accept_media_type(trim(entries[0])) == "*/*"@
}

/// Whether a request with this `Accept` header and `?format=` value
/// wants JSON: a lone `*/*` says yes; otherwise the header decides when
/// one of its entries does, else `format=json`.
pub open spec fn wants_json_of(accept: Option<Seq<char>>, format: Option<Seq<char>>) -> bool {
    let by_header = match accept {
        Some(a) => if lone_wildcard(split_char(a, ',')) {
            Some(true)
        } else {
            json_accept_verdict(split_char(a, ','))
        },
        None => None,
    };
    match by_header {
        Some(b) => b,
        None => format == Some("json"@),
    }
}

/// `true` when the client wants a JSON response (see [`wants_json_of`]).
pub fn wants_json(accept: Option<&str>, format: Option<&str>) -> (b: bool)
    ensures
        b == wants_json_of(
            match accept {
                Some(a) => Some(a@),
                None => None,
            },
            match format {
                Some(f) => Some(f@),
                None => None,
            },
        ),
{
    if let Some(a) = accept {
        let entries = split_chars(chars_of(a).as_slice(), ',');
        let ghost all = entries@.map_values(|p: Vec<char>| p@);
        assert(all.skip(0) =~= all);
        if entries.len() == 1 {
            let mt0 = trim_chars(entries[0].as_slice());
            let bare0 = trim_chars(chars_before(mt0.as_slice(), ';').as_slice());
            assert(all[0] == entries@[0]@);
            assert(bare0@ == accept_media_type(trim(all[0])));
            let star = chars_of("*/*");
            if crate::text::chars_eq(bare0.as_slice(), star.as_slice()) {
                return true;
            }
        }
        assert(!lone_wildcard(all));
        let mut i: usize = 0;
        while i < entries.len()
            invariant
                i <= entries.len(),
                all == entries@.map_values(|p: Vec<char>| p@),
                all == split_char(a@, ','),
                accept == Some(a),
                !lone_wildcard(all),
                json_accept_verdict(all) == json_accept_verdict(all.skip(i as int)),
            decreases entries.len() - i,
        {
            let mt = trim_chars(entries[i].as_slice());
            let bare = trim_chars(chars_before(mt.as_slice(), ';').as_slice());
            assert(all.skip(i as int)[0] == entries@[i as int]@);
            assert(all.skip(i as int).drop_first() =~= all.skip(i + 1));
            assert(bare@ == accept_media_type(trim(all.skip(i as int)[0])));
            if chars_eq_ignore_case_lit(bare.as_slice(), "application/json")
                || chars_eq_ignore_case_lit(bare.as_slice(), "application/*") {
                return true;
            }
            if chars_eq_ignore_case_lit(bare.as_slice(), "text/html") {
                return false;
            }
            i = i + 1;
        }
    }
    match format {
        Some(f) => {
            let fv = chars_of(f);
            let lit = chars_of("json");
            chars_eq(fv.as_slice(), lit.as_slice())
        },
        None => false,
    }
}

// ---------------------------------------------------------------------------
// Typed cells
// ---------------------------------------------------------------------------

/// The JSON value of one cell.
#[derive(Debug, Clone, PartialEq)]
pub enum CellValue {
    Null,
    Bool(bool),
    Int(i64),
    Text(String),
}

/// The mathematical shape of a [`CellValue`].
pub enum CellSpec {
    Null,
    Bool(bool),
    Int(i64),
    Text(Seq<char>),
}

pub open spec fn cell_spec(c: CellValue) -> CellSpec {
    match c {
        CellValue::Null => CellSpec::Null,
        CellValue::Bool(b) => CellSpec::Bool(b),
        CellValue::Int(n) => CellSpec::Int(n),
        CellValue::Text(s) => CellSpec::Text(s@),
    }
}

/// The nullable column types.
pub open spec fn nullable(t: FieldType) -> bool {
    t == FieldType::OptionalString || t == FieldType::OptionalI64 || t
        == FieldType::OptionalDateTime || t == FieldType::OptionalFilePath
}

/// A number when the text reads as an `i64`, else the raw text.
pub open spec fn int_or_text(cell: Seq<char>) -> CellSpec {
    match parse_i64(cell) {
        Some(n) => CellSpec::Int(n),
        None => CellSpec::Text(cell),
    }
}

/// The native JSON value of a stored cell: booleans are `true` only for
/// the text `true`; integer columns give numbers when the text parses
/// and the raw text otherwise; nullable columns give `null` for empty
/// text; everything else is a string.
pub open spec fn typed_cell_of(t: FieldType, cell: Seq<char>) -> CellSpec {
    if t == FieldType::Bool {
        CellSpec::Bool(cell == "true"@)
    } else if t == FieldType::I32 || t == FieldType::I64 {
        int_or_text(cell)
    } else if nullable(t) && cell.len() == 0 {
        CellSpec::Null
    } else if t == FieldType::OptionalI64 {
        int_or_text(cell)
    } else {
        CellSpec::Text(cell)
    }
}

impl FieldType {
    /// Whether the column may hold no value.
    pub fn nullable(self) -> (b: bool)
        ensures
            b == nullable(self),
    {
        matches!(
            self,
            FieldType::OptionalString | FieldType::OptionalI64 | FieldType::OptionalDateTime
                | FieldType::OptionalFilePath
        )
    }
}

fn int_or_text_cell(v: &[char], cell: &str) -> (r: CellValue)
    requires
        v@ == cell@,
    ensures
        cell_spec(r) == int_or_text(cell@),
{
    match parse_i64_chars(v) {
        Some(n) => CellValue::Int(n),
        None => CellValue::Text(to_owned_string(cell)),
    }
}

/// Maps a stringified cell to its JSON value by the field's type.
pub fn typed_cell(field: &AdminField, cell: &str) -> (r: CellValue)
    ensures
        cell_spec(r) == typed_cell_of(field.field_type, cell@),
{
    let v = chars_of(cell);
    match field.field_type {
        FieldType::Bool => {
            let t = chars_of("true");
            CellValue::Bool(chars_eq(v.as_slice(), t.as_slice()))
        },
        FieldType::I32 | FieldType::I64 => int_or_text_cell(v.as_slice(), cell),
        FieldType::OptionalI64 => {
            if v.len() == 0 {
                CellValue::Null
            } else {
                int_or_text_cell(v.as_slice(), cell)
            }
        },
        FieldType::OptionalString | FieldType::OptionalDateTime | FieldType::OptionalFilePath => {
            if v.len() == 0 {
                CellValue::Null
            } else {
                CellValue::Text(to_owned_string(cell))
            }
        },
        _ => CellValue::Text(to_owned_string(cell)),
    }
}

// ---------------------------------------------------------------------------
// Page count
// ---------------------------------------------------------------------------

/// Pages a list of `total` rows fills at `per_page` rows a page: at
/// least one page, with both counts read as at least one.
pub open spec fn page_count_of(total: int, per_page: int) -> int {
    let t = if total < 1 {
        1
    } else {
        total
    };
    let p = if per_page < 1 {
        1
    } else {
        per_page
    };
    (t + p - 1) / p
}

/// The `pages` field of a list envelope.
pub fn page_count(total: i64, per_page: usize) -> (r: usize)
    requires
        total <= usize::MAX,
    ensures
        r == page_count_of(total as int, per_page as int),
{
    let t: usize = if total < 1 {
        1
    } else {
        total as usize
    };
    let p: usize = if per_page < 1 {
        1
    } else {
        per_page
    };
    let q = t / p;
    if t % p == 0 {
        assert((t + p - 1) / (p as int) == q) by (nonlinear_arith)
            requires
                p >= 1,
                t % p == 0,
                q == t / p,
        ;
        q
    } else {
        assert((t + p - 1) / (p as int) == q + 1) by (nonlinear_arith)
            requires
                p >= 1,
                t % p != 0,
                q == t / p,
        ;
        assert(q < usize::MAX) by (nonlinear_arith)
            requires
                p >= 1,
                t % p != 0,
                q == t / p,
                t <= usize::MAX,
        ;
        q + 1
    }
}

/// The page count is the least number of pages that hold every row:
/// `pages` pages of `per_page` rows hold them, `pages - 1` do not (both
/// counts read as at least one).
pub proof fn lemma_page_count_is_least(total: int, per_page: int)
    ensures
        ({
            let t = if total < 1 {
                1
            } else {
                total
            };
            let p = if per_page < 1 {
                1
            } else {
                per_page
            };
            let n = page_count_of(total, per_page);
            &&& n >= 1
            &&& n * p >= t
            &&& (n - 1) * p < t
        }),
{
    let t = if total < 1 {
        1
    } else {
        total
    };
    let p = if per_page < 1 {
        1
    } else {
        per_page
    };
    let n = (t + p - 1) / p;
    assert(n >= 1 && n * p >= t && (n - 1) * p < t) by (nonlinear_arith)
        requires
            t >= 1,
            p >= 1,
            n == (t + p - 1) / p,
    ;
}

// ---------------------------------------------------------------------------
// Envelopes
// ---------------------------------------------------------------------------

/// One row of a list page: its id and the displayed cells, parallel to
/// the model's fields.
#[derive(Debug, Clone)]
pub struct ListRow {
    pub id: i64,
    pub cells: Vec<String>,
}

/// The JSON body of a list page: each row as `(key, value)` members,
/// plus the paging numbers.
#[derive(Debug, Clone)]
pub struct ListEnvelope {
    pub rows: Vec<Vec<(String, CellValue)>>,
    pub total: i64,
    pub page: usize,
    pub per_page: usize,
    pub pages: usize,
}

pub open spec fn members_view(m: Seq<(String, CellValue)>) -> Seq<(Seq<char>, CellSpec)> {
    m.map_values(|p: (String, CellValue)| (p.0@, cell_spec(p.1)))
}

/// The value of column `name` in an edit snapshot: the first pair
/// with that column, empty when none.
pub open spec fn first_value(values: Seq<(String, String)>, name: Seq<char>) -> Seq<char>
    decreases values.len(),
{
    if values.len() == 0 {
        Seq::empty()
    } else if values[0].0@ == name {
        values[0].1@
    } else {
        first_value(values.drop_first(), name)
    }
}

/// The members of a detail object after `id`: every field but `id`,
/// typed from the snapshot.
pub open spec fn detail_members(fields: Seq<AdminField>, values: Seq<(String, String)>) -> Seq<
    (Seq<char>, CellSpec),
>
    decreases fields.len(),
{
    if fields.len() == 0 {
        Seq::empty()
    } else {
        let r = detail_members(fields.drop_last(), values);
        let f = fields.last();
        if f.name@ == "id"@ {
            r
        } else {
            r.push((f.name@, typed_cell_of(f.field_type, first_value(values, f.name@))))
        }
    }
}

/// The `i`-th displayed cell, empty past the end.
pub open spec fn cell_at(cells: Seq<String>, i: int) -> Seq<char> {
    if 0 <= i < cells.len() {
        cells[i]@
    } else {
        Seq::empty()
    }
}

/// The members of a list row after `id`: every field but `id`, typed
/// from the cell at the field's position.
pub open spec fn list_members(fields: Seq<AdminField>, cells: Seq<String>) -> Seq<(Seq<char>, CellSpec)>
    decreases fields.len(),
{
    if fields.len() == 0 {
        Seq::empty()
    } else {
        let r = list_members(fields.drop_last(), cells);
        let f = fields.last();
        if f.name@ == "id"@ {
            r
        } else {
            r.push((f.name@, typed_cell_of(f.field_type, cell_at(cells, fields.len() - 1))))
        }
    }
}

fn first_value_of(values: &[(String, String)], name: &str) -> (r: String)
    ensures
        r@ == first_value(values@, name@),
{
    let mut i: usize = 0;
    assert(values@.skip(0) =~= values@);
    while i < values.len()
        invariant
            i <= values.len(),
            first_value(values@, name@) == first_value(values@.skip(i as int), name@),
        decreases values.len() - i,
    {
        assert(values@.skip(i as int)[0] == values@[i as int]);
        assert(values@.skip(i as int).drop_first() =~= values@.skip(i + 1));
        if crate::text::str_eq(values[i].0.as_str(), name) {
            return values[i].1.clone();
        }
        i = i + 1;
    }
    String::new()
}

fn id_member(id: i64) -> (m: (String, CellValue))
    ensures
        m.0@ == "id"@,
        cell_spec(m.1) == CellSpec::Int(id),
{
    (to_owned_string("id"), CellValue::Int(id))
}

/// The JSON object of one row for the detail endpoint: `id`, then every
/// other field typed from the snapshot.
pub fn detail_envelope(fields: &[AdminField], id: i64, values: &[(String, String)]) -> (r: Vec<
    (String, CellValue),
>)
    ensures
        members_view(r@) == seq![("id"@, CellSpec::Int(id))] + detail_members(fields@, values@),
{
    let mut out: Vec<(String, CellValue)> = Vec::new();
    out.push(id_member(id));
    let mut i: usize = 0;
    while i < fields.len()
        invariant
            i <= fields.len(),
            members_view(out@) == seq![("id"@, CellSpec::Int(id))] + detail_members(
                fields@.take(i as int),
                values@,
            ),
        decreases fields.len() - i,
    {
        proof {
            let t = fields@.take(i + 1);
            assert(t.drop_last() =~= fields@.take(i as int));
            assert(t.last() == fields@[i as int]);
        }
        let f = &fields[i];
        if !crate::text::str_eq(f.name, "id") {
            let cell = first_value_of(values, f.name);
            let v = typed_cell(f, cell.as_str());
            let ghost before = out@;
            out.push((to_owned_string(f.name), v));
            assert(members_view(out@) =~= members_view(before).push((f.name@, cell_spec(v))));
        }
        i = i + 1;
    }
    assert(fields@.take(fields.len() as int) =~= fields@);
    out
}

fn list_row_members(fields: &[AdminField], row: &ListRow) -> (r: Vec<(String, CellValue)>)
    ensures
        members_view(r@) == seq![("id"@, CellSpec::Int(row.id))] + list_members(fields@, row.cells@),
{
    let mut out: Vec<(String, CellValue)> = Vec::new();
    out.push(id_member(row.id));
    let mut i: usize = 0;
    while i < fields.len()
        invariant
            i <= fields.len(),
            members_view(out@) == seq![("id"@, CellSpec::Int(row.id))] + list_members(
                fields@.take(i as int),
                row.cells@,
            ),
        decreases fields.len() - i,
    {
        proof {
            let t = fields@.take(i + 1);
            assert(t.drop_last() =~= fields@.take(i as int));
            assert(t.last() == fields@[i as int]);
        }
        let f = &fields[i];
        if !crate::text::str_eq(f.name, "id") {
            proof {
                reveal_strlit("");
            }
            let v = if i < row.cells.len() {
                let c = row.cells[i].as_str();
                assert(c@ == cell_at(row.cells@, i as int));
                typed_cell(f, c)
            } else {
                let e = "";
                assert(e@ =~= cell_at(row.cells@, i as int));
                typed_cell(f, e)
            };
            assert(cell_spec(v) == typed_cell_of(f.field_type, cell_at(row.cells@, i as int)));
            let ghost before = out@;
            out.push((to_owned_string(f.name), v));
            assert(members_view(out@) =~= members_view(before).push((f.name@, cell_spec(v))));
        }
        i = i + 1;
    }
    assert(fields@.take(fields.len() as int) =~= fields@);
    out
}

/// The JSON body of a list page: every row as an object (`id`, then
/// each other field typed from its cell), the paging numbers, and the
/// page count.
pub fn list_envelope(fields: &[AdminField], rows: &[ListRow], total: i64, page: usize, per_page: usize) -> (r:
    ListEnvelope)
    requires
        total <= usize::MAX,
    ensures
        r.rows@.len() == rows@.len(),
        forall|k: int|
            0 <= k < rows@.len() ==> members_view((#[trigger] r.rows@[k])@) == seq![
                ("id"@, CellSpec::Int(rows@[k].id)),
            ] + list_members(fields@, rows@[k].cells@),
        r.total == total,
        r.page == page,
        r.per_page == per_page,
        r.pages == page_count_of(total as int, per_page as int),
{
    let mut out: Vec<Vec<(String, CellValue)>> = Vec::new();
    let mut k: usize = 0;
    while k < rows.len()
        invariant
            k <= rows.len(),
            out@.len() == k,
            forall|x: int|
                0 <= x < k ==> members_view((#[trigger] out@[x])@) == seq![
                    ("id"@, CellSpec::Int(rows@[x].id)),
                ] + list_members(fields@, rows@[x].cells@),
        decreases rows.len() - k,
    {
        out.push(list_row_members(fields, &rows[k]));
        k = k + 1;
    }
    ListEnvelope { rows: out, total, page, per_page, pages: page_count(total, per_page) }
}

} // verus!
