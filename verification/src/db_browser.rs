//! The schema explorer's assembly step: from the catalogue's tables,
//! columns and foreign keys, one card per table with its columns, the
//! keys it owns and the keys pointing at it, plus schema-wide totals.
use vstd::prelude::*;
use crate::csv::chars_eq_ignore_case_lit;
use crate::text::{chars_of, str_eq};

verus! {

broadcast use vstd::string::group_string_axioms;

/// One column as the catalogue reports it.
#[derive(Debug, Clone)]
pub struct ColumnRow {
    pub table_name: String,
    pub column_name: String,
    pub data_type: String,
    /// `YES` / `NO`, as `information_schema` spells it.
    pub is_nullable: String,
    pub column_default: String,
}

/// One column on a table card.
#[derive(Debug, Clone)]
pub struct ColumnInfo {
    pub name: String,
    pub data_type: String,
    pub is_nullable: bool,
    pub default_expr: String,
}

/// One foreign key, `source_table.source_column → target_table.target_column`.
#[derive(Debug, Clone)]
pub struct ForeignKey {
    pub source_table: String,
    pub source_column: String,
    pub target_table: String,
    pub target_column: String,
}

/// One table card.
#[derive(Debug, Clone)]
pub struct TableSummary {
    pub name: String,
    pub row_estimate: i64,
    pub columns: Vec<ColumnInfo>,
    pub outgoing_fks: Vec<ForeignKey>,
    pub incoming_fks: Vec<ForeignKey>,
    pub column_count: i64,
}

/// The whole page: the cards in catalogue order and the totals.
#[derive(Debug, Clone)]
pub struct SchemaOverview {
    pub tables: Vec<TableSummary>,
    pub total_columns: i64,
    pub total_row_estimate: i64,
}

/// The card a table name attaches to: the last table of that name.
pub open spec fn card_of(tables: Seq<(String, i64)>, name: Seq<char>) -> Option<int>
    decreases tables.len(),
{
    if tables.len() == 0 {
        None
    } else if tables.last().0@ == name {
        Some(tables.len() - 1)
    } else {
        card_of(tables.drop_last(), name)
    }
}

/// A column row as shown on its card: nullable when the catalogue says
/// `YES` in any ASCII case.
pub open spec fn column_view(c: ColumnRow) -> (Seq<char>, Seq<char>, bool, Seq<char>) {
    (c.column_name@, c.data_type@, crate::text::eq_ignore_case(c.is_nullable@, "YES"@), c.column_default@)
}

pub open spec fn info_view(c: ColumnInfo) -> (Seq<char>, Seq<char>, bool, Seq<char>) {
    (c.name@, c.data_type@, c.is_nullable, c.default_expr@)
}

pub open spec fn fk_view(f: ForeignKey) -> (Seq<char>, Seq<char>, Seq<char>, Seq<char>) {
    (f.source_table@, f.source_column@, f.target_table@, f.target_column@)
}

/// The columns attached to card `i`, in catalogue order.
pub open spec fn card_columns(tables: Seq<(String, i64)>, cols: Seq<ColumnRow>, i: int) -> Seq<
    (Seq<char>, Seq<char>, bool, Seq<char>),
>
    decreases cols.len(),
{
    if cols.len() == 0 {
        Seq::empty()
    } else {
        let r = card_columns(tables, cols.drop_last(), i);
        if card_of(tables, cols.last().table_name@) == Some(i) {
            r.push(column_view(cols.last()))
        } else {
            r
        }
    }
}

/// The keys whose source (`outgoing`) or target table is card `i`.
pub open spec fn card_fks(tables: Seq<(String, i64)>, fks: Seq<ForeignKey>, i: int, outgoing: bool) -> Seq<
    (Seq<char>, Seq<char>, Seq<char>, Seq<char>),
>
    decreases fks.len(),
{
    if fks.len() == 0 {
        Seq::empty()
    } else {
        let r = card_fks(tables, fks.drop_last(), i, outgoing);
        let f = fks.last();
        let end = if outgoing {
            f.source_table@
        } else {
            f.target_table@
        };
        if card_of(tables, end) == Some(i) {
            r.push(fk_view(f))
        } else {
            r
        }
    }
}

/// Row estimates are shown as at least zero.
pub open spec fn shown_estimate(e: i64) -> int {
    if e < 0 {
        0
    } else {
        e as int
    }
}

/// The sum of the shown estimates.
pub open spec fn estimate_total(tables: Seq<(String, i64)>) -> int
    decreases tables.len(),
{
    if tables.len() == 0 {
        0
    } else {
        estimate_total(tables.drop_last()) + shown_estimate(tables.last().1)
    }
}

/// Whether a table card is the assembly of table `i`.
pub open spec fn card_is(
    t: TableSummary,
    tables: Seq<(String, i64)>,
    cols: Seq<ColumnRow>,
    fks: Seq<ForeignKey>,
    i: int,
) -> bool {
    &&& t.name@ == tables[i].0@
    &&& t.row_estimate == shown_estimate(tables[i].1)
    &&& t.columns@.map_values(|c: ColumnInfo| info_view(c)) == card_columns(tables, cols, i)
    &&& t.outgoing_fks@.map_values(|f: ForeignKey| fk_view(f)) == card_fks(tables, fks, i, true)
    &&& t.incoming_fks@.map_values(|f: ForeignKey| fk_view(f)) == card_fks(tables, fks, i, false)
    &&& t.column_count == t.columns@.len()
}

fn find_card(tables: &[(String, i64)], name: &str) -> (r: Option<usize>)
    ensures
        match r {
            Some(k) => card_of(tables@, name@) == Some(k as int),
            None => card_of(tables@, name@) is None,
        },
{
    let mut j: usize = tables.len();
    assert(tables@.take(j as int) =~= tables@);
    while j > 0
        invariant
            j <= tables.len(),
            card_of(tables@, name@) == card_of(tables@.take(j as int), name@),
        decreases j,
    {
        let ghost t = tables@.take(j as int);
        assert(t.drop_last() =~= tables@.take(j - 1));
        assert(t.last() == tables@[j - 1]);
        if str_eq(tables[j - 1].0.as_str(), name) {
            return Some(j - 1);
        }
        j = j - 1;
    }
    None
}

fn card_column_list(tables: &[(String, i64)], cols: &[ColumnRow], i: usize) -> (r: Vec<ColumnInfo>)
    ensures
        r@.map_values(|c: ColumnInfo| info_view(c)) == card_columns(tables@, cols@, i as int),
{
    let mut out: Vec<ColumnInfo> = Vec::new();
    let mut k: usize = 0;
    while k < cols.len()
        invariant
            k <= cols.len(),
            out@.map_values(|c: ColumnInfo| info_view(c)) == card_columns(
                tables@,
                cols@.take(k as int),
                i as int,
            ),
        decreases cols.len() - k,
    {
        proof {
            let t = cols@.take(k + 1);
            assert(t.drop_last() =~= cols@.take(k as int));
            assert(t.last() == cols@[k as int]);
        }
        let c = &cols[k];
        match find_card(tables, c.table_name.as_str()) {
            Some(idx) => {
                if idx == i {
                    let nullable = chars_eq_ignore_case_lit(chars_of(c.is_nullable.as_str()).as_slice(), "YES");
                    let info = ColumnInfo {
                        name: c.column_name.clone(),
                        data_type: c.data_type.clone(),
                        is_nullable: nullable,
                        default_expr: c.column_default.clone(),
                    };
                    let ghost before = out@;
                    out.push(info);
                    assert(out@.map_values(|c: ColumnInfo| info_view(c)) =~= before.map_values(
                        |c: ColumnInfo| info_view(c),
                    ).push(column_view(cols@[k as int])));
                }
            },
            None => {},
        }
        k = k + 1;
    }
    assert(cols@.take(cols.len() as int) =~= cols@);
    out
}

fn card_fk_list(tables: &[(String, i64)], fks: &[ForeignKey], i: usize, outgoing: bool) -> (r: Vec<
    ForeignKey,
>)
    ensures
        r@.map_values(|f: ForeignKey| fk_view(f)) == card_fks(tables@, fks@, i as int, outgoing),
{
    let mut out: Vec<ForeignKey> = Vec::new();
    let mut k: usize = 0;
    while k < fks.len()
        invariant
            k <= fks.len(),
            out@.map_values(|f: ForeignKey| fk_view(f)) == card_fks(
                tables@,
                fks@.take(k as int),
                i as int,
                outgoing,
            ),
        decreases fks.len() - k,
    {
        proof {
            let t = fks@.take(k + 1);
            assert(t.drop_last() =~= fks@.take(k as int));
            assert(t.last() == fks@[k as int]);
        }
        let f = &fks[k];
        let end = if outgoing {
            f.source_table.as_str()
        } else {
            f.target_table.as_str()
        };
        match find_card(tables, end) {
            Some(idx) => {
                if idx == i {
                    let copy = ForeignKey {
                        source_table: f.source_table.clone(),
                        source_column: f.source_column.clone(),
                        target_table: f.target_table.clone(),
                        target_column: f.target_column.clone(),
                    };
                    let ghost before = out@;
                    out.push(copy);
                    assert(out@.map_values(|f: ForeignKey| fk_view(f)) =~= before.map_values(
                        |f: ForeignKey| fk_view(f),
                    ).push(fk_view(fks@[k as int])));
                }
            },
            None => {},
        }
        k = k + 1;
    }
    assert(fks@.take(fks.len() as int) =~= fks@);
    out
}

/// How many column rows attach to one of the first `n` cards.
pub open spec fn columns_below(tables: Seq<(String, i64)>, cols: Seq<ColumnRow>, n: int) -> int
    decreases cols.len(),
{
    if cols.len() == 0 {
        0
    } else {
        columns_below(tables, cols.drop_last(), n) + (if card_of(tables, cols.last().table_name@) matches Some(
            k,
        ) && k < n {
            1int
        } else {
            0int
        })
    }
}

proof fn lemma_columns_below_step(tables: Seq<(String, i64)>, cols: Seq<ColumnRow>, i: int)
    requires
        0 <= i,
    ensures
        columns_below(tables, cols, i) + card_columns(tables, cols, i).len() == columns_below(
            tables,
            cols,
            i + 1,
        ),
        columns_below(tables, cols, i) <= cols.len(),
        0 <= columns_below(tables, cols, i),
    decreases cols.len(),
{
    if cols.len() > 0 {
        lemma_columns_below_step(tables, cols.drop_last(), i);
    }
}

proof fn lemma_card_of_bound(tables: Seq<(String, i64)>, name: Seq<char>)
    ensures
        card_of(tables, name) matches Some(k) ==> 0 <= k < tables.len(),
    decreases tables.len(),
{
    if tables.len() > 0 {
        lemma_card_of_bound(tables.drop_last(), name);
    }
}

proof fn lemma_columns_below_zero(tables: Seq<(String, i64)>, cols: Seq<ColumnRow>)
    ensures
        columns_below(tables, cols, 0) == 0,
    decreases cols.len(),
{
    if cols.len() > 0 {
        lemma_columns_below_zero(tables, cols.drop_last());
        lemma_card_of_bound(tables, cols.last().table_name@);
    }
}

proof fn lemma_estimate_prefix(tables: Seq<(String, i64)>, i: int)
    requires
        0 <= i <= tables.len(),
    ensures
        estimate_total(tables.take(i)) <= estimate_total(tables),
        0 <= estimate_total(tables.take(i)),
    decreases tables.len() - i,
{
    if i < tables.len() {
        lemma_estimate_prefix(tables, i + 1);
        let t = tables.take(i + 1);
        assert(t.drop_last() =~= tables.take(i));
    } else {
        assert(tables.take(i) =~= tables);
    }
    if i > 0 {
        lemma_estimate_prefix_nonneg(tables.take(i));
    }
}

proof fn lemma_estimate_prefix_nonneg(tables: Seq<(String, i64)>)
    ensures
        0 <= estimate_total(tables),
    decreases tables.len(),
{
    if tables.len() > 0 {
        lemma_estimate_prefix_nonneg(tables.drop_last());
    }
}

/// Assembles the explorer's cards and totals from the catalogue's
/// result sets.
pub fn assemble_schema(tables: &[(String, i64)], cols: &[ColumnRow], fks: &[ForeignKey]) -> (r:
    SchemaOverview)
    requires
        estimate_total(tables@) <= i64::MAX,
        cols@.len() <= i64::MAX,
    ensures
        r.tables@.len() == tables@.len(),
        forall|i: int|
            0 <= i < tables@.len() ==> card_is(#[trigger] r.tables@[i], tables@, cols@, fks@, i),
        r.total_row_estimate == estimate_total(tables@),
        r.total_columns == columns_below(tables@, cols@, tables@.len() as int),
{
    let mut out: Vec<TableSummary> = Vec::new();
    let mut total_columns: i64 = 0;
    let mut total_row_estimate: i64 = 0;
    let mut i: usize = 0;
    assert(tables@.take(0) =~= Seq::<(String, i64)>::empty());
    proof {
        lemma_columns_below_zero(tables@, cols@);
    }
    while i < tables.len()
        invariant
            i <= tables.len(),
            out@.len() == i,
            estimate_total(tables@) <= i64::MAX,
            cols@.len() <= i64::MAX,
            forall|j: int| 0 <= j < i ==> card_is(#[trigger] out@[j], tables@, cols@, fks@, j),
            total_row_estimate == estimate_total(tables@.take(i as int)),
            total_columns == columns_below(tables@, cols@, i as int),
        decreases tables.len() - i,
    {
        let columns = card_column_list(tables, cols, i);
        let outgoing = card_fk_list(tables, fks, i, true);
        let incoming = card_fk_list(tables, fks, i, false);
        let est = if tables[i].1 < 0 {
            0
        } else {
            tables[i].1
        };
        proof {
            lemma_columns_below_step(tables@, cols@, i as int);
            lemma_columns_below_step(tables@, cols@, i + 1);
            lemma_estimate_prefix(tables@, i + 1);
            let t = tables@.take(i + 1);
            assert(t.drop_last() =~= tables@.take(i as int));
            assert(t.last() == tables@[i as int]);
            assert(columns@.map_values(|c: ColumnInfo| info_view(c)).len() == columns@.len());
        }
        let column_count = columns.len() as i64;
        let card = TableSummary {
            name: tables[i].0.clone(),
            row_estimate: est,
            columns,
            outgoing_fks: outgoing,
            incoming_fks: incoming,
            column_count,
        };
        total_columns = total_columns + column_count;
        total_row_estimate = total_row_estimate + est;
        out.push(card);
        i = i + 1;
    }
    assert(tables@.take(tables.len() as int) =~= tables@);
    SchemaOverview { tables: out, total_columns, total_row_estimate }
}

} // verus!
