//! The model runtime's pure parts: flattening a project's validation
//! errors into form messages, and the SQL text and bindings of a list
//! query (filters, date ranges, multi-selects, search, ordering and
//! paging), every column checked against the model's own columns.
use vstd::prelude::*;
use crate::filters::AdminField;
use crate::modeladmin::{FieldValidationError, SortDir, sort_dir_sql};
use crate::text::{
    chars_of, decimal, join, push_str, str_eq, str_views, string_from_chars, to_owned_string, trim,
    trim_str, usize_string, views,
};

verus! {

broadcast use vstd::string::group_string_axioms;

// ---------------------------------------------------------------------------
// Validation errors
// ---------------------------------------------------------------------------

/// The label of the first field named `name`.
pub open spec fn label_of_field(fields: Seq<AdminField>, name: Seq<char>) -> Option<Seq<char>>
    decreases fields.len(),
{
    if fields.len() == 0 {
        None
    } else if fields[0].name@ == name {
        Some(fields[0].label@)
    } else {
        label_of_field(fields.drop_first(), name)
    }
}

/// The form message of one validation error: a field-attached error is
/// prefixed with its field's label; a global error, or one naming no
/// field of the model, is its message alone.
pub open spec fn flat_message(fields: Seq<AdminField>, e: FieldValidationError) -> Seq<char> {
    match e.field {
        Some(name) => match label_of_field(fields, name@) {
            Some(label) => label + " "@ + e.message@,
            None => e.message@,
        },
        None => e.message@,
    }
}

fn find_label(fields: &[AdminField], name: &str) -> (r: Option<&'static str>)
    ensures
        match r {
            Some(l) => label_of_field(fields@, name@) == Some(l@),
            None => label_of_field(fields@, name@) is None,
        },
{
    let mut i: usize = 0;
    assert(fields@.skip(0) =~= fields@);
    while i < fields.len()
        invariant
            i <= fields.len(),
            label_of_field(fields@, name@) == label_of_field(fields@.skip(i as int), name@),
        decreases fields.len() - i,
    {
        assert(fields@.skip(i as int)[0] == fields@[i as int]);
        assert(fields@.skip(i as int).drop_first() =~= fields@.skip(i + 1));
        if str_eq(fields[i].name, name) {
            return Some(fields[i].label);
        }
        i = i + 1;
    }
    None
}

/// Converts a project's validation errors into the flat messages the
/// form renderer buckets by label, in order.
pub fn flatten_validation_errors(fields: &[AdminField], errs: Vec<FieldValidationError>) -> (r: Vec<
    String,
>)
    ensures
        r@.len() == errs@.len(),
        forall|i: int| 0 <= i < errs@.len() ==> #[trigger] r@[i]@ == flat_message(fields@, errs@[i]),
{
    let mut out: Vec<String> = Vec::new();
    let mut i: usize = 0;
    while i < errs.len()
        invariant
            i <= errs.len(),
            out@.len() == i,
            forall|k: int| 0 <= k < i ==> #[trigger] out@[k]@ == flat_message(fields@, errs@[k]),
        decreases errs.len() - i,
    {
        let e = &errs[i];
        let msg = match e.field {
            Some(name) => match find_label(fields, name) {
                Some(label) => {
                    let mut s = to_owned_string(label);
                    push_str(&mut s, " ");
                    push_str(&mut s, e.message.as_str());
                    s
                },
                None => e.message.clone(),
            },
            None => e.message.clone(),
        };
        out.push(msg);
        i = i + 1;
    }
    out
}

// ---------------------------------------------------------------------------
// List queries
// ---------------------------------------------------------------------------

/// What the list page asks of a model's rows.
#[derive(Debug, Clone)]
pub struct ListOpts {
    /// `column::text = value` matches.
    pub filters: Vec<(String, String)>,
    /// Inclusive `YYYY-MM-DD` bounds on a column, either side open.
    pub date_ranges: Vec<(String, Option<String>, Option<String>)>,
    /// `column::text IN (values)` matches.
    pub multi_filters: Vec<(String, Vec<String>)>,
    /// A search term and the columns it is matched against.
    pub search: Option<(String, Vec<String>)>,
    /// Sort columns with their directions, most significant first.
    pub ordering: Vec<(String, SortDir)>,
    pub limit: Option<i64>,
    pub offset: Option<i64>,
}

/// The statements of one list request: the row count, the page
/// select, and the values bound to `$1`, `$2`, … in order (the limit
/// and offset, when set, take the two slots after them).
#[derive(Debug, Clone)]
pub struct ListQuery {
    pub count_sql: String,
    pub select_sql: String,
    pub bindings: Vec<String>,
}

/// The WHERE clauses gathered so far and the values they bind.
#[verifier::ext_equal]
pub struct WhereParts {
    pub clauses: Seq<Seq<char>>,
    pub bindings: Seq<Seq<char>>,
}

pub open spec fn parts_of(clauses: Seq<String>, bindings: Seq<String>) -> WhereParts {
    WhereParts { clauses: views(clauses), bindings: views(bindings) }
}

/// The placeholder number of the next bound value.
pub open spec fn next_slot(w: WhereParts) -> nat {
    (w.bindings.len() + 1) as nat
}

/// `$<p>`.
pub open spec fn slot(p: nat) -> Seq<char> {
    seq!['$'] + decimal(p)
}

/// Whether the model has a column named `c`.
pub open spec fn is_column(columns: Seq<&str>, c: Seq<char>) -> bool {
    exists|i: int| 0 <= i < columns.len() && (#[trigger] columns[i])@ == c
}

pub open spec fn add_clause(w: WhereParts, clause: Seq<char>, binding: Seq<char>) -> WhereParts {
    WhereParts { clauses: w.clauses.push(clause), bindings: w.bindings.push(binding) }
}

/// Equality filters on known columns: `col::text = $n`.
pub open spec fn with_filters(columns: Seq<&str>, fs: Seq<(String, String)>, w: WhereParts) -> WhereParts
    decreases fs.len(),
{
    if fs.len() == 0 {
        w
    } else {
        let a = with_filters(columns, fs.drop_last(), w);
        let f = fs.last();
        if is_column(columns, f.0@) {
            add_clause(a, f.0@ + "::text = "@ + slot(next_slot(a)), f.1@)
        } else {
            a
        }
    }
}

/// One side of a date range, when set: `col::date <op> $n::date`.
pub open spec fn with_bound(w: WhereParts, col: Seq<char>, op: Seq<char>, bound: Option<String>) -> WhereParts {
    match bound {
        Some(v) => add_clause(w, col + op + slot(next_slot(w)) + "::date"@, v@),
        None => w,
    }
}

/// Date ranges on known columns: lower bound, then upper bound.
pub open spec fn with_date_ranges(
    columns: Seq<&str>,
    ds: Seq<(String, Option<String>, Option<String>)>,
    w: WhereParts,
) -> WhereParts
    decreases ds.len(),
{
    if ds.len() == 0 {
        w
    } else {
        let a = with_date_ranges(columns, ds.drop_last(), w);
        let d = ds.last();
        if is_column(columns, d.0@) {
            with_bound(with_bound(a, d.0@, "::date >= "@, d.1), d.0@, "::date <= "@, d.2)
        } else {
            a
        }
    }
}

/// `k` placeholders numbered from `p`.
pub open spec fn slots_from(p: nat, k: nat) -> Seq<Seq<char>> {
    Seq::new(k, |j: int| slot((p + j) as nat))
}

/// Multi-select filters on known columns with at least one value:
/// `col::text IN ($n, $n+1, …)`, one binding per value.
pub open spec fn with_multi(columns: Seq<&str>, ms: Seq<(String, Vec<String>)>, w: WhereParts) -> WhereParts
    decreases ms.len(),
{
    if ms.len() == 0 {
        w
    } else {
        let a = with_multi(columns, ms.drop_last(), w);
        let m = ms.last();
        if is_column(columns, m.0@) && m.1@.len() > 0 {
            WhereParts {
                clauses: a.clauses.push(
                    m.0@ + "::text IN ("@ + join(slots_from(next_slot(a), m.1@.len()), ", "@) + ")"@,
                ),
                bindings: a.bindings + views(m.1@),
            }
        } else {
            a
        }
    }
}

/// The search columns the model has, in order.
pub open spec fn known_columns(columns: Seq<&str>, cs: Seq<String>) -> Seq<Seq<char>>
    decreases cs.len(),
{
    if cs.len() == 0 {
        Seq::empty()
    } else {
        let r = known_columns(columns, cs.drop_last());
        if is_column(columns, cs.last()@) {
            r.push(cs.last()@)
        } else {
            r
        }
    }
}

/// `col::text ILIKE $n` for one search column.
pub open spec fn ilike(col: Seq<char>, p: Seq<char>) -> Seq<char> {
    col + "::text ILIKE "@ + p
}

/// The search clause: a non-blank term over at least one known column,
/// `(c1::text ILIKE $n OR …)`, binding `%term%` once.
pub open spec fn with_search(columns: Seq<&str>, search: Option<(String, Vec<String>)>, w: WhereParts) -> WhereParts {
    match search {
        None => w,
        Some(s) => {
            let t = trim(s.0@);
            let cols = known_columns(columns, s.1@);
            if t.len() == 0 || cols.len() == 0 {
                w
            } else {
                let p = slot(next_slot(w));
                add_clause(
                    w,
                    "("@ + join(cols.map_values(|c: Seq<char>| ilike(c, p)), " OR "@) + ")"@,
                    seq!['%'] + t + seq!['%'],
                )
            }
        },
    }
}

/// Every WHERE clause of a list request, in order: filters, date
/// ranges, multi-selects, search.
pub open spec fn where_parts(columns: Seq<&str>, opts: ListOpts) -> WhereParts {
    with_search(
        columns,
        opts.search,
        with_multi(
            columns,
            opts.multi_filters@,
            with_date_ranges(
                columns,
                opts.date_ranges@,
                with_filters(
                    columns,
                    opts.filters@,
                    WhereParts { clauses: Seq::empty(), bindings: Seq::empty() },
                ),
            ),
        ),
    )
}

pub open spec fn where_sql(w: WhereParts) -> Seq<char> {
    if w.clauses.len() == 0 {
        Seq::empty()
    } else {
        " WHERE "@ + join(w.clauses, " AND "@)
    }
}

/// `col DIR` for each ordering column the model has.
pub open spec fn order_parts(columns: Seq<&str>, ordering: Seq<(String, SortDir)>) -> Seq<Seq<char>>
    decreases ordering.len(),
{
    if ordering.len() == 0 {
        Seq::empty()
    } else {
        let r = order_parts(columns, ordering.drop_last());
        let o = ordering.last();
        if is_column(columns, o.0@) {
            r.push(o.0@ + " "@ + sort_dir_sql(o.1))
        } else {
            r
        }
    }
}

/// The ORDER BY list; newest id first when nothing usable was asked.
pub open spec fn order_clause(parts: Seq<Seq<char>>) -> Seq<char> {
    if parts.len() == 0 {
        "id DESC"@
    } else {
        join(parts, ", "@)
    }
}

pub open spec fn count_sql_of(table: Seq<char>, columns: Seq<&str>, opts: ListOpts) -> Seq<char> {
    "SELECT COUNT(*) FROM "@ + table + where_sql(where_parts(columns, opts))
}

pub open spec fn select_sql_of(table: Seq<char>, columns: Seq<&str>, opts: ListOpts) -> Seq<char> {
    let w = where_parts(columns, opts);
    let n = next_slot(w);
    let offset_slot = if opts.limit is Some {
        n + 1
    } else {
        n
    };
    "SELECT "@ + join(str_views(columns), ", "@) + " FROM "@ + table + where_sql(w) + " ORDER BY "@
        + order_clause(order_parts(columns, opts.ordering@)) + (if opts.limit is Some {
        " LIMIT "@ + slot(n)
    } else {
        Seq::empty()
    }) + (if opts.offset is Some {
        " OFFSET "@ + slot(offset_slot as nat)
    } else {
        Seq::empty()
    })
}

/// The values bound by multi-select filters, all together.
pub open spec fn multi_values(ms: Seq<(String, Vec<String>)>) -> nat
    decreases ms.len(),
{
    if ms.len() == 0 {
        0
    } else {
        multi_values(ms.drop_last()) + ms.last().1@.len()
    }
}

/// An upper bound on the placeholders a request can number.
pub open spec fn slot_budget(opts: ListOpts) -> nat {
    opts.filters@.len() + 2 * opts.date_ranges@.len() + multi_values(opts.multi_filters@) + 3
}

fn column_known(columns: &[&str], c: &str) -> (b: bool)
    ensures
        b == is_column(columns@, c@),
{
    let mut i: usize = 0;
    while i < columns.len()
        invariant
            i <= columns.len(),
            forall|k: int| 0 <= k < i ==> (#[trigger] columns@[k])@ != c@,
        decreases columns.len() - i,
    {
        if str_eq(columns[i], c) {
            return true;
        }
        i = i + 1;
    }
    false
}

fn push_slot(s: &mut String, p: usize)
    ensures
        final(s)@ == old(s)@ + slot(p as nat),
{
    proof {
        reveal_strlit("$");
    }
    push_str(s, "$");
    let d = usize_string(p);
    push_str(s, d.as_str());
    assert(final(s)@ =~= old(s)@ + slot(p as nat));
}

fn push_filters(
    columns: &[&str],
    fs: &[(String, String)],
    clauses: &mut Vec<String>,
    bindings: &mut Vec<String>,
)
    requires
        old(bindings)@.len() + fs@.len() < usize::MAX,
    ensures
        parts_of(final(clauses)@, final(bindings)@) == with_filters(
            columns@,
            fs@,
            parts_of(old(clauses)@, old(bindings)@),
        ),
        final(bindings)@.len() <= old(bindings)@.len() + fs@.len(),
{
    let ghost w0 = parts_of(clauses@, bindings@);
    let ghost b0 = bindings@.len();
    let mut i: usize = 0;
    while i < fs.len()
        invariant
            i <= fs.len(),
            b0 + fs@.len() < usize::MAX,
            parts_of(clauses@, bindings@) == with_filters(columns@, fs@.take(i as int), w0),
            bindings@.len() <= b0 + i,
        decreases fs.len() - i,
    {
        let ghost a = parts_of(clauses@, bindings@);
        proof {
            let t = fs@.take(i + 1);
            assert(t.drop_last() =~= fs@.take(i as int));
            assert(t.last() == fs@[i as int]);
        }
        if column_known(columns, fs[i].0.as_str()) {
            let p = bindings.len() + 1;
            let mut c = fs[i].0.clone();
            push_str(&mut c, "::text = ");
            push_slot(&mut c, p);
            clauses.push(c);
            bindings.push(fs[i].1.clone());
            assert(parts_of(clauses@, bindings@) =~= add_clause(
                a,
                fs@[i as int].0@ + "::text = "@ + slot(next_slot(a)),
                fs@[i as int].1@,
            ));
        }
        i = i + 1;
    }
    assert(fs@.take(fs.len() as int) =~= fs@);
}

fn push_bound(
    col: &String,
    op: &str,
    bound: &Option<String>,
    clauses: &mut Vec<String>,
    bindings: &mut Vec<String>,
)
    requires
        old(bindings)@.len() + 1 < usize::MAX,
    ensures
        parts_of(final(clauses)@, final(bindings)@) == with_bound(
            parts_of(old(clauses)@, old(bindings)@),
            col@,
            op@,
            *bound,
        ),
        final(bindings)@.len() <= old(bindings)@.len() + 1,
{
    let ghost a = parts_of(clauses@, bindings@);
    match bound {
        Some(v) => {
            let p = bindings.len() + 1;
            let mut c = col.clone();
            push_str(&mut c, op);
            push_slot(&mut c, p);
            push_str(&mut c, "::date");
            clauses.push(c);
            bindings.push(v.clone());
            assert(parts_of(clauses@, bindings@) =~= add_clause(
                a,
                col@ + op@ + slot(next_slot(a)) + "::date"@,
                v@,
            ));
        },
        None => {},
    }
}

fn push_date_ranges(
    columns: &[&str],
    ds: &[(String, Option<String>, Option<String>)],
    clauses: &mut Vec<String>,
    bindings: &mut Vec<String>,
)
    requires
        old(bindings)@.len() + 2 * ds@.len() < usize::MAX,
    ensures
        parts_of(final(clauses)@, final(bindings)@) == with_date_ranges(
            columns@,
            ds@,
            parts_of(old(clauses)@, old(bindings)@),
        ),
        final(bindings)@.len() <= old(bindings)@.len() + 2 * ds@.len(),
{
    let ghost w0 = parts_of(clauses@, bindings@);
    let ghost b0 = bindings@.len();
    let mut i: usize = 0;
    while i < ds.len()
        invariant
            i <= ds.len(),
            b0 + 2 * ds@.len() < usize::MAX,
            parts_of(clauses@, bindings@) == with_date_ranges(columns@, ds@.take(i as int), w0),
            bindings@.len() <= b0 + 2 * i,
        decreases ds.len() - i,
    {
        proof {
            let t = ds@.take(i + 1);
            assert(t.drop_last() =~= ds@.take(i as int));
            assert(t.last() == ds@[i as int]);
        }
        if column_known(columns, ds[i].0.as_str()) {
            push_bound(&ds[i].0, "::date >= ", &ds[i].1, clauses, bindings);
            push_bound(&ds[i].0, "::date <= ", &ds[i].2, clauses, bindings);
        }
        i = i + 1;
    }
    assert(ds@.take(ds.len() as int) =~= ds@);
}

proof fn lemma_multi_values_prefix(ms: Seq<(String, Vec<String>)>, i: int)
    requires
        0 <= i < ms.len(),
    ensures
        multi_values(ms.take(i)) + ms[i].1@.len() == multi_values(ms.take(i + 1)),
        multi_values(ms.take(i + 1)) <= multi_values(ms),
    decreases ms.len() - i,
{
    let t = ms.take(i + 1);
    assert(t.drop_last() =~= ms.take(i));
    if i + 1 < ms.len() {
        lemma_multi_values_prefix(ms, i + 1);
    } else {
        assert(t =~= ms);
    }
}

fn push_multi(
    columns: &[&str],
    ms: &[(String, Vec<String>)],
    clauses: &mut Vec<String>,
    bindings: &mut Vec<String>,
)
    requires
        old(bindings)@.len() + multi_values(ms@) < usize::MAX,
    ensures
        parts_of(final(clauses)@, final(bindings)@) == with_multi(
            columns@,
            ms@,
            parts_of(old(clauses)@, old(bindings)@),
        ),
        final(bindings)@.len() <= old(bindings)@.len() + multi_values(ms@),
{
    let ghost w0 = parts_of(clauses@, bindings@);
    let ghost b0 = bindings@.len();
    assert(ms@.take(0) =~= Seq::<(String, Vec<String>)>::empty());
    let mut i: usize = 0;
    while i < ms.len()
        invariant
            i <= ms.len(),
            b0 + multi_values(ms@) < usize::MAX,
            parts_of(clauses@, bindings@) == with_multi(columns@, ms@.take(i as int), w0),
            bindings@.len() <= b0 + multi_values(ms@.take(i as int)),
            multi_values(ms@.take(i as int)) <= multi_values(ms@),
        decreases ms.len() - i,
    {
        let ghost a = parts_of(clauses@, bindings@);
        proof {
            let t = ms@.take(i + 1);
            assert(t.drop_last() =~= ms@.take(i as int));
            assert(t.last() == ms@[i as int]);
            lemma_multi_values_prefix(ms@, i as int);
        }
        let values = &ms[i].1;
        if column_known(columns, ms[i].0.as_str()) && values.len() > 0 {
            let p0 = bindings.len() + 1;
            let ghost bb = bindings@;
            let mut c = ms[i].0.clone();
            push_str(&mut c, "::text IN (");
            let ghost head = c@;
            let mut j: usize = 0;
            while j < values.len()
                invariant
                    j <= values.len(),
                    values == &ms@[i as int].1,
                    p0 == bb.len() + 1,
                    bb.len() + values@.len() < usize::MAX,
                    c@ == head + join(slots_from(p0 as nat, j as nat), ", "@),
                    bindings@ == bb + values@.take(j as int),
                decreases values.len() - j,
            {
                let ghost before = c@;
                if j > 0 {
                    push_str(&mut c, ", ");
                }
                push_slot(&mut c, p0 + j);
                bindings.push(values[j].clone());
                proof {
                    let s = slots_from(p0 as nat, (j + 1) as nat);
                    assert(s.drop_last() =~= slots_from(p0 as nat, j as nat));
                    assert(s.last() == slot((p0 + j) as nat));
                    if j == 0 {
                        assert(s.len() == 1);
                    }
                    assert(values@.take(j + 1) =~= values@.take(j as int).push(values@[j as int]));
                }
                j = j + 1;
            }
            push_str(&mut c, ")");
            clauses.push(c);
            proof {
                assert(values@.take(values@.len() as int) =~= values@);
                assert(views(bindings@) =~= views(bb) + views(values@));
                assert(parts_of(clauses@, bindings@) =~= WhereParts {
                    clauses: a.clauses.push(
                        ms@[i as int].0@ + "::text IN ("@ + join(
                            slots_from(next_slot(a), values@.len()),
                            ", "@,
                        ) + ")"@,
                    ),
                    bindings: a.bindings + views(values@),
                });
            }
        }
        i = i + 1;
    }
    assert(ms@.take(ms.len() as int) =~= ms@);
}

fn push_search(
    columns: &[&str],
    search: &Option<(String, Vec<String>)>,
    clauses: &mut Vec<String>,
    bindings: &mut Vec<String>,
)
    requires
        old(bindings)@.len() + 1 < usize::MAX,
    ensures
        parts_of(final(clauses)@, final(bindings)@) == with_search(
            columns@,
            *search,
            parts_of(old(clauses)@, old(bindings)@),
        ),
        final(bindings)@.len() <= old(bindings)@.len() + 1,
{
    let (term, cols) = match search {
        Some(s) => (&s.0, &s.1),
        None => return,
    };
    let t = trim_str(term.as_str());
    if t.len() == 0 {
        return;
    }
    let p = bindings.len() + 1;
    let mut sl = String::new();
    push_slot(&mut sl, p);
    let mut inner = String::new();
    let mut count: usize = 0;
    let mut k: usize = 0;
    while k < cols.len()
        invariant
            k <= cols.len(),
            sl@ == slot(p as nat),
            count == known_columns(columns@, cols@.take(k as int)).len(),
            count <= k,
            inner@ == join(
                known_columns(columns@, cols@.take(k as int)).map_values(
                    |c: Seq<char>| ilike(c, sl@),
                ),
                " OR "@,
            ),
        decreases cols.len() - k,
    {
        let ghost before = known_columns(columns@, cols@.take(k as int));
        proof {
            let tk = cols@.take(k + 1);
            assert(tk.drop_last() =~= cols@.take(k as int));
            assert(tk.last() == cols@[k as int]);
        }
        if column_known(columns, cols[k].as_str()) {
            if count > 0 {
                push_str(&mut inner, " OR ");
            }
            push_str(&mut inner, cols[k].as_str());
            push_str(&mut inner, "::text ILIKE ");
            push_str(&mut inner, sl.as_str());
            proof {
                let after = known_columns(columns@, cols@.take(k + 1));
                assert(after =~= before.push(cols@[k as int]@));
                let m = after.map_values(|c: Seq<char>| ilike(c, sl@));
                assert(m.drop_last() =~= before.map_values(|c: Seq<char>| ilike(c, sl@)));
                if count == 0 {
                    assert(m.len() == 1);
                }
            }
            count = count + 1;
        }
        k = k + 1;
    }
    assert(cols@.take(cols.len() as int) =~= cols@);
    if count == 0 {
        return;
    }
    let ghost a = parts_of(clauses@, bindings@);
    let mut c = to_owned_string("(");
    push_str(&mut c, inner.as_str());
    push_str(&mut c, ")");
    clauses.push(c);
    proof {
        reveal_strlit("%");
    }
    let mut b = to_owned_string("%");
    let tv = string_from_chars(t.as_slice());
    push_str(&mut b, tv.as_str());
    push_str(&mut b, "%");
    assert(b@ =~= seq!['%'] + t@ + seq!['%']);
    bindings.push(b);
    assert(parts_of(clauses@, bindings@) =~= add_clause(
        a,
        "("@ + inner@ + ")"@,
        seq!['%'] + t@ + seq!['%'],
    ));
}

fn join_into(s: &mut String, parts: &[String], sep: &str)
    ensures
        final(s)@ == old(s)@ + join(views(parts@), sep@),
{
    let ghost s0 = s@;
    let mut i: usize = 0;
    while i < parts.len()
        invariant
            i <= parts.len(),
            s@ == s0 + join(views(parts@.take(i as int)), sep@),
        decreases parts.len() - i,
    {
        if i > 0 {
            push_str(s, sep);
        }
        push_str(s, parts[i].as_str());
        proof {
            let t = views(parts@.take(i + 1));
            assert(t.drop_last() =~= views(parts@.take(i as int)));
            assert(t.last() == parts@[i as int]@);
            if i == 0 {
                assert(t.len() == 1);
            }
        }
        i = i + 1;
    }
    assert(parts@.take(parts.len() as int) =~= parts@);
}

fn join_strs_into(s: &mut String, parts: &[&str], sep: &str)
    ensures
        final(s)@ == old(s)@ + join(str_views(parts@), sep@),
{
    let ghost s0 = s@;
    let mut i: usize = 0;
    while i < parts.len()
        invariant
            i <= parts.len(),
            s@ == s0 + join(str_views(parts@.take(i as int)), sep@),
        decreases parts.len() - i,
    {
        if i > 0 {
            push_str(s, sep);
        }
        push_str(s, parts[i]);
        proof {
            let t = str_views(parts@.take(i + 1));
            assert(t.drop_last() =~= str_views(parts@.take(i as int)));
            assert(t.last() == parts@[i as int]@);
            if i == 0 {
                assert(t.len() == 1);
            }
        }
        i = i + 1;
    }
    assert(parts@.take(parts.len() as int) =~= parts@);
}

fn order_list(columns: &[&str], ordering: &[(String, SortDir)]) -> (r: Vec<String>)
    ensures
        views(r@) == order_parts(columns@, ordering@),
{
    let mut out: Vec<String> = Vec::new();
    let mut i: usize = 0;
    while i < ordering.len()
        invariant
            i <= ordering.len(),
            views(out@) == order_parts(columns@, ordering@.take(i as int)),
        decreases ordering.len() - i,
    {
        proof {
            let t = ordering@.take(i + 1);
            assert(t.drop_last() =~= ordering@.take(i as int));
            assert(t.last() == ordering@[i as int]);
        }
        if column_known(columns, ordering[i].0.as_str()) {
            let mut s = ordering[i].0.clone();
            push_str(&mut s, " ");
            push_str(&mut s, ordering[i].1.sql());
            let ghost before = out@;
            out.push(s);
            assert(views(out@) =~= views(before).push(s@));
        }
        i = i + 1;
    }
    assert(ordering@.take(ordering.len() as int) =~= ordering@);
    out
}

/// Builds the count and page statements of a list request; every
/// column name that reaches the SQL is one of the model's `columns`,
/// and every value is bound, never interpolated.
pub fn build_list_query(table: &str, columns: &[&str], opts: &ListOpts) -> (q: ListQuery)
    requires
        slot_budget(*opts) < usize::MAX,
    ensures
        q.count_sql@ == count_sql_of(table@, columns@, *opts),
        q.select_sql@ == select_sql_of(table@, columns@, *opts),
        views(q.bindings@) == where_parts(columns@, *opts).bindings,
{
    let mut clauses: Vec<String> = Vec::new();
    let mut bindings: Vec<String> = Vec::new();
    assert(parts_of(clauses@, bindings@) =~= WhereParts {
        clauses: Seq::empty(),
        bindings: Seq::empty(),
    });
    push_filters(columns, opts.filters.as_slice(), &mut clauses, &mut bindings);
    push_date_ranges(columns, opts.date_ranges.as_slice(), &mut clauses, &mut bindings);
    push_multi(columns, opts.multi_filters.as_slice(), &mut clauses, &mut bindings);
    push_search(columns, &opts.search, &mut clauses, &mut bindings);
    let ghost w = parts_of(clauses@, bindings@);
    assert(w == where_parts(columns@, *opts));
    let mut where_text = String::new();
    if clauses.len() > 0 {
        push_str(&mut where_text, " WHERE ");
        join_into(&mut where_text, clauses.as_slice(), " AND ");
    }
    assert(where_text@ == where_sql(w));
    let mut count_sql = to_owned_string("SELECT COUNT(*) FROM ");
    push_str(&mut count_sql, table);
    push_str(&mut count_sql, where_text.as_str());
    let order = order_list(columns, opts.ordering.as_slice());
    let mut select_sql = to_owned_string("SELECT ");
    join_strs_into(&mut select_sql, columns, ", ");
    push_str(&mut select_sql, " FROM ");
    push_str(&mut select_sql, table);
    push_str(&mut select_sql, where_text.as_str());
    push_str(&mut select_sql, " ORDER BY ");
    if order.len() == 0 {
        push_str(&mut select_sql, "id DESC");
    } else {
        join_into(&mut select_sql, order.as_slice(), ", ");
    }
    let n = bindings.len() + 1;
    let ghost before_paging = select_sql@;
    if opts.limit.is_some() {
        push_str(&mut select_sql, " LIMIT ");
        push_slot(&mut select_sql, n);
    }
    let ghost after_limit = select_sql@;
    if opts.offset.is_some() {
        let o = if opts.limit.is_some() {
            n + 1
        } else {
            n
        };
        push_str(&mut select_sql, " OFFSET ");
        push_slot(&mut select_sql, o);
    }
    assert(select_sql@ =~= select_sql_of(table@, columns@, *opts));
    ListQuery { count_sql, select_sql, bindings }
}

// ---------------------------------------------------------------------------
// Page assembly
// ---------------------------------------------------------------------------

/// One row of a list page: its id, its displayed cells, and per cell
/// the link a foreign-key label carries (none until hydrated).
#[derive(Debug, Clone)]
pub struct PageRow {
    pub id: i64,
    pub cells: Vec<String>,
    pub cell_links: Vec<Option<crate::fk_cells::CellLink>>,
}

/// One page of a list: its rows and the row count under the same
/// filters.
#[derive(Debug, Clone)]
pub struct ListPage {
    pub rows: Vec<PageRow>,
    pub total: i64,
}

/// The values of `(column, value)` display pairs, in order.
pub open spec fn display_cells(pairs: Seq<(String, String)>) -> Seq<Seq<char>> {
    pairs.map_values(|p: (String, String)| p.1@)
}

/// `row` is the page row of a fetched model with this id and these
/// display pairs: the values as cells, and one empty link per cell.
pub open spec fn page_row_of(row: PageRow, id: i64, pairs: Seq<(String, String)>) -> bool {
    &&& row.id == id
    &&& views(row.cells@) == display_cells(pairs)
    &&& row.cell_links@.len() == row.cells@.len()
    &&& forall|j: int| 0 <= j < row.cell_links@.len() ==> (#[trigger] row.cell_links@[j]) is None
}

fn page_row(id: i64, pairs: &[(String, String)]) -> (row: PageRow)
    ensures
        page_row_of(row, id, pairs@),
{
    let mut cells: Vec<String> = Vec::new();
    let mut links: Vec<Option<crate::fk_cells::CellLink>> = Vec::new();
    let mut j: usize = 0;
    while j < pairs.len()
        invariant
            j <= pairs.len(),
            views(cells@) == display_cells(pairs@.take(j as int)),
            links@.len() == j,
            forall|x: int| 0 <= x < links@.len() ==> (#[trigger] links@[x]) is None,
        decreases pairs.len() - j,
    {
        cells.push(pairs[j].1.clone());
        links.push(None);
        assert(display_cells(pairs@.take(j + 1)) =~= display_cells(pairs@.take(j as int)).push(pairs@[j as int].1@));
        assert(views(cells@) =~= views(cells@.drop_last()).push(cells@.last()@));
        j = j + 1;
    }
    assert(pairs@.take(pairs.len() as int) =~= pairs@);
    PageRow { id, cells, cell_links: links }
}

/// Assembles a list page from the fetched models, each given by its id
/// and its `(column, value)` display pairs, and the row count: every
/// row shows its values as cells, with one empty link slot per cell for
/// foreign-key hydration to fill.
pub fn assemble_page(fetched: &[(i64, Vec<(String, String)>)], total: i64) -> (page: ListPage)
    ensures
        page.total == total,
        page.rows@.len() == fetched@.len(),
        forall|i: int|
            0 <= i < fetched@.len() ==> page_row_of(#[trigger] page.rows@[i], fetched@[i].0, fetched@[i].1@),
{
    let mut rows: Vec<PageRow> = Vec::new();
    let mut i: usize = 0;
    while i < fetched.len()
        invariant
            i <= fetched.len(),
            rows@.len() == i,
            forall|x: int| 0 <= x < i ==> page_row_of(#[trigger] rows@[x], fetched@[x].0, fetched@[x].1@),
        decreases fetched.len() - i,
    {
        rows.push(page_row(fetched[i].0, fetched[i].1.as_slice()));
        i = i + 1;
    }
    ListPage { rows, total }
}

} // verus!
