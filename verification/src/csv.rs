//! RFC 4180 CSV: the cell / row writer used by the list-page export
//! and the state-machine reader used by the import.
use vstd::prelude::*;
use crate::text::{
    before_char, chars_before, chars_eq_ignore_case, eq_ignore_case, split_char, split_chars, trim_chars,
    chars_contains, chars_of, decimal, join, join_strings, push_char, push_chars, push_str,
    push_string, str_views, string_from_chars, to_owned_string, trim, trim_str, usize_string, views,
};
use vstd::utf8::{decode_utf8, encode_utf8, encode_utf8_decode_utf8, encode_utf8_valid_utf8, valid_utf8};
use crate::filters::AdminField;
use vstd::string::StringSliceAdditionalSpecFns;

verus! {

broadcast use vstd::string::group_string_axioms;

/// Maximum data rows accepted in one upload.
pub const CSV_IMPORT_MAX_ROWS: usize = 10_000;

/// Maximum CSV body size accepted by [`parse_csv`], in bytes.
pub const CSV_IMPORT_MAX_BYTES: usize = 8388608;

// ---------------------------------------------------------------------------
// Writing
// ---------------------------------------------------------------------------

/// A cell must be quoted when it holds `,`, `"`, `\n` or `\r`.
pub open spec fn needs_quoting(s: Seq<char>) -> bool {
    s.contains(',') || s.contains('"') || s.contains('\n') || s.contains('\r')
}

/// The inside of a quoted cell: every `"` doubled.
pub open spec fn quote_body(s: Seq<char>) -> Seq<char>
    decreases s.len(),
{
    if s.len() == 0 {
        Seq::empty()
    } else if s.last() == '"' {
        quote_body(s.drop_last()) + seq!['"', '"']
    } else {
        quote_body(s.drop_last()).push(s.last())
    }
}

/// One cell as RFC 4180 writes it.
pub open spec fn escape_cell(s: Seq<char>) -> Seq<char> {
    if needs_quoting(s) {
        seq!['"'] + quote_body(s) + seq!['"']
    } else {
        s
    }
}

/// The escaped cells separated by `,` (no terminator).
pub open spec fn join_cells(cells: Seq<Seq<char>>) -> Seq<char>
    decreases cells.len(),
{
    if cells.len() == 0 {
        Seq::empty()
    } else if cells.len() == 1 {
        escape_cell(cells[0])
    } else {
        join_cells(cells.drop_last()).push(',') + escape_cell(cells.last())
    }
}

/// One CSV record: the joined cells and a CRLF terminator.
pub open spec fn row_text(cells: Seq<Seq<char>>) -> Seq<char> {
    join_cells(cells) + seq!['\r', '\n']
}

fn needs_quoting_exec(v: &[char]) -> (r: bool)
    ensures
        r == needs_quoting(v@),
{
    chars_contains(v, ',') || chars_contains(v, '"') || chars_contains(v, '\n') || chars_contains(
        v,
        '\r',
    )
}

/// Appends `cell` to `out`, quoted when it needs quoting.
pub fn write_cell(out: &mut String, cell: &str)
    ensures
        final(out)@ == old(out)@ + escape_cell(cell@),
{
    let v = chars_of(cell);
    if !needs_quoting_exec(v.as_slice()) {
        push_chars(out, v.as_slice());
        return;
    }
    push_char(out, '"');
    let mut i: usize = 0;
    while i < v.len()
        invariant
            i <= v.len(),
            v@ == cell@,
            out@ == old(out)@ + seq!['"'] + quote_body(v@.take(i as int)),
        decreases v.len() - i,
    {
        let c = v[i];
        if c == '"' {
            push_char(out, '"');
            push_char(out, '"');
        } else {
            push_char(out, c);
        }
        proof {
            let t = v@.take(i + 1);
            assert(t.drop_last() == v@.take(i as int));
            assert(t.last() == c);
        }
        i = i + 1;
    }
    push_char(out, '"');
    assert(v@.take(v.len() as int) == v@);
}

/// Appends one record: the cells separated by `,`, then CRLF.
pub fn write_row(out: &mut String, cells: &[&str])
    ensures
        final(out)@ == old(out)@ + row_text(str_views(cells@)),
{
    let mut i: usize = 0;
    while i < cells.len()
        invariant
            i <= cells.len(),
            out@ == old(out)@ + join_cells(str_views(cells@.take(i as int))),
        decreases cells.len() - i,
    {
        if i > 0 {
            push_char(out, ',');
        }
        write_cell(out, cells[i]);
        proof {
            let t = str_views(cells@.take(i + 1));
            assert(t.drop_last() =~= str_views(cells@.take(i as int)));
            assert(t.last() == cells@[i as int]@);
        }
        i = i + 1;
    }
    push_char(out, '\r');
    push_char(out, '\n');
    assert(cells@.take(cells.len() as int) == cells@);
}

/// RFC 4180 field escape, returning the escaped cell.
pub fn csv_escape_field(s: &str) -> (r: String)
    ensures
        r@ == escape_cell(s@),
{
    let mut out = String::new();
    write_cell(&mut out, s);
    out
}

// ---------------------------------------------------------------------------
// Reading
// ---------------------------------------------------------------------------

/// The reader's state between two characters: finished records, the
/// record being built, the field being built, and the two quote flags.
pub struct CsvState {
    pub rows: Seq<Seq<Seq<char>>>,
    pub row: Seq<Seq<char>>,
    pub field: Seq<char>,
    pub in_quotes: bool,
    pub just_closed_quote: bool,
}

pub open spec fn csv_start() -> CsvState {
    CsvState {
        rows: Seq::empty(),
        row: Seq::empty(),
        field: Seq::empty(),
        in_quotes: false,
        just_closed_quote: false,
    }
}

/// The field is finished; it joins the record.
pub open spec fn end_field(st: CsvState) -> CsvState {
    CsvState { row: st.row.push(st.field), field: Seq::empty(), just_closed_quote: false, ..st }
}

/// The field and the record are finished.
pub open spec fn end_record(st: CsvState) -> CsvState {
    CsvState {
        rows: st.rows.push(st.row.push(st.field)),
        row: Seq::empty(),
        field: Seq::empty(),
        just_closed_quote: false,
        ..st
    }
}

pub open spec fn add_char(st: CsvState, c: char) -> CsvState {
    CsvState { field: st.field.push(c), ..st }
}

/// Runs the reader over `t[i..]` from state `st`.
pub open spec fn csv_run(st: CsvState, t: Seq<char>, i: int) -> CsvState
    decreases t.len() - i,
{
    if i < 0 || i >= t.len() {
        st
    } else {
        let c = t[i];
        if st.in_quotes {
            if c == '"' {
                if i + 1 < t.len() && t[i + 1] == '"' {
                    csv_run(add_char(st, '"'), t, i + 2)
                } else {
                    csv_run(CsvState { in_quotes: false, just_closed_quote: true, ..st }, t, i + 1)
                }
            } else {
                csv_run(add_char(st, c), t, i + 1)
            }
        } else if c == ',' {
            csv_run(end_field(st), t, i + 1)
        } else if c == '\n' {
            csv_run(end_record(st), t, i + 1)
        } else if c == '\r' {
            if i + 1 < t.len() && t[i + 1] == '\n' {
                csv_run(st, t, i + 1)
            } else {
                csv_run(end_record(st), t, i + 1)
            }
        } else if c == '"' && st.field.len() == 0 && !st.just_closed_quote {
            csv_run(CsvState { in_quotes: true, ..st }, t, i + 1)
        } else {
            csv_run(add_char(st, c), t, i + 1)
        }
    }
}

/// A record whose every field is empty.
pub open spec fn blank_row(r: Seq<Seq<char>>) -> bool {
    forall|k: int| 0 <= k < r.len() ==> #[trigger] r[k].len() == 0
}

/// Drops blank records from the end.
pub open spec fn drop_blank_tail(rows: Seq<Seq<Seq<char>>>) -> Seq<Seq<Seq<char>>>
    decreases rows.len(),
{
    if rows.len() > 0 && blank_row(rows.last()) {
        drop_blank_tail(rows.drop_last())
    } else {
        rows
    }
}

/// What the reader returns once the input is exhausted: an
/// unterminated last record is kept, then trailing blank records go.
pub open spec fn csv_finish(st: CsvState) -> Seq<Seq<Seq<char>>> {
    if st.field.len() > 0 || st.row.len() > 0 {
        drop_blank_tail(st.rows.push(st.row.push(st.field)))
    } else {
        drop_blank_tail(st.rows)
    }
}

/// The records of the CSV text `t`.
pub open spec fn csv_records(t: Seq<char>) -> Seq<Seq<Seq<char>>> {
    csv_finish(csv_run(csv_start(), t, 0))
}

/// The views of a record.
pub open spec fn row_view(r: Vec<String>) -> Seq<Seq<char>> {
    r@.map_values(|f: String| f@)
}

/// The views of a list of records.
pub open spec fn rows_view(rows: Seq<Vec<String>>) -> Seq<Seq<Seq<char>>> {
    rows.map_values(|r: Vec<String>| row_view(r))
}

/// Reads the characters of a CSV text into records.
fn parse_csv_chars(text: &[char]) -> (out: Vec<Vec<String>>)
    ensures
        rows_view(out@) == csv_records(text@),
{
    let mut rows: Vec<Vec<String>> = Vec::new();
    let mut row: Vec<String> = Vec::new();
    let mut field: Vec<char> = Vec::new();
    let mut in_quotes = false;
    let mut just_closed_quote = false;
    let n = text.len();
    let mut i: usize = 0;
    proof {
        assert(rows_view(rows@) =~= Seq::<Seq<Seq<char>>>::empty());
        assert(row_view(row) =~= Seq::<Seq<char>>::empty());
        assert(field@ =~= Seq::<char>::empty());
    }
    while i < n
        invariant
            n == text@.len(),
            i <= n,
            csv_run(
                CsvState {
                    rows: rows_view(rows@),
                    row: row_view(row),
                    field: field@,
                    in_quotes,
                    just_closed_quote,
                },
                text@,
                i as int,
            ) == csv_run(csv_start(), text@, 0),
        decreases n - i,
    {
        let ghost st = CsvState {
            rows: rows_view(rows@),
            row: row_view(row),
            field: field@,
            in_quotes,
            just_closed_quote,
        };
        let c = text[i];
        if in_quotes {
            if c == '"' {
                if i + 1 < n && text[i + 1] == '"' {
                    field.push('"');
                    i = i + 2;
                } else {
                    in_quotes = false;
                    just_closed_quote = true;
                    i = i + 1;
                }
            } else {
                field.push(c);
                i = i + 1;
            }
        } else if c == ',' {
            let f = string_from_chars(field.as_slice());
            row.push(f);
            field = Vec::new();
            just_closed_quote = false;
            proof {
                assert(row_view(row) =~= st.row.push(st.field));
            }
            i = i + 1;
        } else if c == '\n' {
            let f = string_from_chars(field.as_slice());
            row.push(f);
            proof {
                assert(row_view(row) =~= st.row.push(st.field));
            }
            rows.push(row);
            proof {
                assert(rows_view(rows@) =~= st.rows.push(st.row.push(st.field)));
            }
            row = Vec::new();
            field = Vec::new();
            just_closed_quote = false;
            proof {
                assert(row_view(row) =~= Seq::<Seq<char>>::empty());
            }
            i = i + 1;
        } else if c == '\r' {
            if i + 1 < n && text[i + 1] == '\n' {
                i = i + 1;
            } else {
                let f = string_from_chars(field.as_slice());
                row.push(f);
                proof {
                    assert(row_view(row) =~= st.row.push(st.field));
                }
                rows.push(row);
                proof {
                    assert(rows_view(rows@) =~= st.rows.push(st.row.push(st.field)));
                }
                row = Vec::new();
                field = Vec::new();
                just_closed_quote = false;
                proof {
                    assert(row_view(row) =~= Seq::<Seq<char>>::empty());
                }
                i = i + 1;
            }
        } else if c == '"' && field.len() == 0 && !just_closed_quote {
            in_quotes = true;
            i = i + 1;
        } else {
            field.push(c);
            i = i + 1;
        }
    }
    let ghost st = CsvState {
        rows: rows_view(rows@),
        row: row_view(row),
        field: field@,
        in_quotes,
        just_closed_quote,
    };
    if field.len() > 0 || row.len() > 0 {
        let f = string_from_chars(field.as_slice());
        row.push(f);
        proof {
            assert(row_view(row) =~= st.row.push(st.field));
        }
        rows.push(row);
        proof {
            assert(rows_view(rows@) =~= st.rows.push(st.row.push(st.field)));
        }
    }
    let ghost pre = rows_view(rows@);
    assert(csv_run(st, text@, n as int) == st);
    assert(csv_finish(st) == drop_blank_tail(pre));
    loop
        invariant
            drop_blank_tail(rows_view(rows@)) == drop_blank_tail(pre),
        ensures
            drop_blank_tail(rows_view(rows@)) == rows_view(rows@),
        decreases rows.len(),
    {
        if rows.len() == 0 {
            break;
        }
        let last = rows.len() - 1;
        let blank = row_is_blank(&rows[last]);
        if !blank {
            assert(rows_view(rows@).last() == row_view(rows@[last as int]));
            break;
        }
        let ghost before = rows_view(rows@);
        rows.pop();
        proof {
            assert(rows_view(rows@) =~= before.drop_last());
        }
    }
    rows
}

fn row_is_blank(r: &Vec<String>) -> (b: bool)
    ensures
        b == blank_row(row_view(*r)),
{
    let mut k: usize = 0;
    while k < r.len()
        invariant
            k <= r.len(),
            forall|j: int| 0 <= j < k ==> #[trigger] r@[j]@.len() == 0,
        decreases r.len() - k,
    {
        if r[k].as_str().is_empty() == false {
            assert(row_view(*r)[k as int].len() != 0);
            return false;
        }
        k = k + 1;
    }
    assert forall|j: int| 0 <= j < row_view(*r).len() implies #[trigger] row_view(*r)[j].len() == 0 by {
        assert(row_view(*r)[j] == r@[j]@);
    }
    true
}

/// Reads CSV text into records, character by character. Quoted
/// fields, doubled quotes, and `\r\n` / `\n` / bare `\r` line ends
/// are handled; trailing blank records are dropped. Records may differ
/// in length.
pub fn parse_csv_text(text: &str) -> (out: Vec<Vec<String>>)
    ensures
        rows_view(out@) == csv_records(text@),
{
    let v = chars_of(text);
    parse_csv_chars(v.as_slice())
}

/// Errors raised before any row is attempted.
#[derive(Debug)]
pub enum ParseError {
    Empty,
    TooLarge { size: usize, cap: usize },
    TooManyRows { rows: usize, cap: usize },
    HeaderMissing,
    HeaderEmptyColumn,
    UnknownColumns { columns: Vec<String> },
}

/// The operator-facing text of each [`ParseError`].
pub open spec fn parse_error_message(e: ParseError) -> Seq<char> {
    match e {
        ParseError::Empty => "CSV body is empty."@,
        ParseError::TooLarge { size, cap } => "CSV body ("@ + decimal(size as nat) + " bytes) exceeds the "@
            + decimal(cap as nat) + "-byte cap."@,
        ParseError::TooManyRows { rows, cap } => "CSV has "@ + decimal(rows as nat) + " rows; cap is "@
            + decimal(cap as nat) + ". Split the file and retry."@,
        ParseError::HeaderMissing => "First row must be a header."@,
        ParseError::HeaderEmptyColumn => "Header has an empty column name."@,
        ParseError::UnknownColumns { columns } => "Header includes columns the model doesn't declare: "@
            + join(views(columns@), ", "@) + "."@,
    }
}

impl ParseError {
    pub fn message(&self) -> (m: String)
        ensures
            m@ == parse_error_message(*self),
    {
        match self {
            ParseError::Empty => to_owned_string("CSV body is empty."),
            ParseError::TooLarge { size, cap } => {
                let mut m = to_owned_string("CSV body (");
                push_string(&mut m, usize_string(*size));
                push_str(&mut m, " bytes) exceeds the ");
                push_string(&mut m, usize_string(*cap));
                push_str(&mut m, "-byte cap.");
                m
            },
            ParseError::TooManyRows { rows, cap } => {
                let mut m = to_owned_string("CSV has ");
                push_string(&mut m, usize_string(*rows));
                push_str(&mut m, " rows; cap is ");
                push_string(&mut m, usize_string(*cap));
                push_str(&mut m, ". Split the file and retry.");
                m
            },
            ParseError::HeaderMissing => to_owned_string("First row must be a header."),
            ParseError::HeaderEmptyColumn => to_owned_string("Header has an empty column name."),
            ParseError::UnknownColumns { columns } => {
                let mut m = to_owned_string("Header includes columns the model doesn't declare: ");
                push_string(&mut m, join_strings(columns.as_slice(), ", "));
                push_str(&mut m, ".");
                m
            },
        }
    }
}

/// `std::str::from_utf8`: the text of `body` when it is valid UTF-8.
#[verifier::external_body]
fn utf8_text(body: &[u8]) -> (r: Option<&str>)
    ensures
        r is Some <==> valid_utf8(body@),
        r matches Some(t) ==> t.spec_bytes() == body@,
{
    std::str::from_utf8(body).ok()
}

/// A header cell that is empty once trimmed.
pub open spec fn header_has_empty_column(h: Seq<Seq<char>>) -> bool {
    exists|k: int| 0 <= k < h.len() && #[trigger] trim(h[k]).len() == 0
}

/// A data record brought to the header's width `n`: cells past `n`
/// dropped, missing cells empty.
pub open spec fn fit_row(r: Seq<Seq<char>>, n: nat) -> Seq<Seq<char>> {
    Seq::new(n, |k: int| if k < r.len() { r[k] } else { Seq::empty() })
}

/// What [`parse_csv`] returns for `body`.
pub open spec fn parse_csv_result(body: Seq<u8>) -> Result<
    (Seq<Seq<char>>, Seq<Seq<Seq<char>>>),
    ParseError,
> {
    if body.len() == 0 {
        Err(ParseError::Empty)
    } else if body.len() > CSV_IMPORT_MAX_BYTES {
        Err(ParseError::TooLarge { size: body.len() as usize, cap: CSV_IMPORT_MAX_BYTES })
    } else if !valid_utf8(body) {
        Err(ParseError::Empty)
    } else {
        let records = csv_records(decode_utf8(body));
        if records.len() == 0 {
            Err(ParseError::HeaderMissing)
        } else if header_has_empty_column(records[0]) {
            Err(ParseError::HeaderEmptyColumn)
        } else {
            Ok(
                (
                    records[0],
                    records.drop_first().map_values(
                        |r: Seq<Seq<char>>| fit_row(r, records[0].len()),
                    ),
                ),
            )
        }
    }
}

/// A record brought to `n` cells (see [`fit_row`]).
fn fit_record(r: &Vec<String>, n: usize) -> (out: Vec<String>)
    ensures
        row_view(out) == fit_row(row_view(*r), n as nat),
{
    let mut out: Vec<String> = Vec::new();
    let mut k: usize = 0;
    while k < n
        invariant
            k <= n,
            out@.len() == k,
            forall|j: int| 0 <= j < k ==> #[trigger] out@[j]@ == fit_row(row_view(*r), n as nat)[j],
        decreases n - k,
    {
        if k < r.len() {
            out.push(r[k].clone());
        } else {
            out.push(String::new());
        }
        k = k + 1;
    }
    assert(row_view(out) =~= fit_row(row_view(*r), n as nat));
    out
}

/// Parse one CSV body into `(header, rows)`: refuses an empty body,
/// one over [`CSV_IMPORT_MAX_BYTES`], non-UTF-8 input, a body with no
/// record, and a header with an empty (or all-whitespace) column. The
/// body is decoded as UTF-8 and read character by character; every
/// data row comes back as long as the header (extra cells dropped,
/// missing cells empty).
pub fn parse_csv(body: &[u8]) -> (r: Result<(Vec<String>, Vec<Vec<String>>), ParseError>)
    ensures
        match (r, parse_csv_result(body@)) {
            (Ok((h, rows)), Ok((sh, srows))) => row_view(h) == sh && rows_view(rows@) == srows,
            (Err(e), Err(se)) => e == se,
            _ => false,
        },
        r matches Ok((h, rows)) ==> forall|k: int|
            0 <= k < rows@.len() ==> (#[trigger] rows@[k]).len() == h.len(),
{
    if body.len() == 0 {
        return Err(ParseError::Empty);
    }
    if body.len() > CSV_IMPORT_MAX_BYTES {
        return Err(ParseError::TooLarge { size: body.len(), cap: CSV_IMPORT_MAX_BYTES });
    }
    let text = match utf8_text(body) {
        Some(t) => t,
        None => return Err(ParseError::Empty),
    };
    proof {
        encode_utf8_decode_utf8(text@);
        assert(decode_utf8(body@) == text@);
    }
    let mut records = parse_csv_text(text);
    if records.len() == 0 {
        return Err(ParseError::HeaderMissing);
    }
    let ghost all = rows_view(records@);
    assert(all == csv_records(decode_utf8(body@)));
    assert(all.len() > 0);
    let header = records.remove(0);
    proof {
        assert(rows_view(records@) =~= all.drop_first());
        assert(row_view(header) == all[0]);
    }
    let mut k: usize = 0;
    while k < header.len()
        invariant
            k <= header.len(),
            all.len() > 0,
            all == csv_records(decode_utf8(body@)),
            0 < body@.len() <= CSV_IMPORT_MAX_BYTES,
            valid_utf8(body@),
            row_view(header) == all[0],
            forall|j: int| 0 <= j < k ==> #[trigger] trim(all[0][j]).len() != 0,
        decreases header.len() - k,
    {
        let t = trim_str(header[k].as_str());
        assert(all[0][k as int] == header@[k as int]@);
        if t.len() == 0 {
            assert(trim(all[0][k as int]).len() == 0);
            assert(header_has_empty_column(all[0]));
            return Err(ParseError::HeaderEmptyColumn);
        }
        k = k + 1;
    }
    let width = header.len();
    let ghost data = all.drop_first();
    let ghost want = data.map_values(|r: Seq<Seq<char>>| fit_row(r, all[0].len()));
    let mut rows: Vec<Vec<String>> = Vec::new();
    let mut i: usize = 0;
    while i < records.len()
        invariant
            i <= records.len(),
            all.len() > 0,
            width == all[0].len(),
            rows_view(records@) == data,
            want == data.map_values(|r: Seq<Seq<char>>| fit_row(r, all[0].len())),
            rows@.len() == i,
            forall|j: int| 0 <= j < i ==> #[trigger] row_view(rows@[j]) == want[j],
            forall|j: int| 0 <= j < i ==> #[trigger] rows@[j]@.len() == width,
        decreases records.len() - i,
    {
        let fitted = fit_record(&records[i], width);
        assert(row_view(records@[i as int]) == data[i as int]);
        assert(fitted@.len() == row_view(fitted).len());
        rows.push(fitted);
        i = i + 1;
    }
    assert(rows_view(rows@) =~= want);
    assert(header@.len() == all[0].len());
    Ok((header, rows))
}

// ---------------------------------------------------------------------------
// Content negotiation
// ---------------------------------------------------------------------------

/// The media type of one `Accept` entry: the text before its first `;`,
/// trimmed.
pub open spec fn accept_media_type(raw: Seq<char>) -> Seq<char> {
    trim(before_char(raw, ';'))
}

/// The first `Accept` entry that decides the CSV question: `text/csv`
/// says yes; `text/html`, `application/json` and `application/*` say
/// no (any ASCII case). `None` when no entry decides.
pub open spec fn csv_accept_verdict(entries: Seq<Seq<char>>) -> Option<bool>
    decreases entries.len(),
{
    if entries.len() == 0 {
        None
    } else {
        let bare = accept_media_type(entries[0]);
        if eq_ignore_case(bare, "text/csv"@) {
            Some(true)
        } else if eq_ignore_case(bare, "text/html"@) || eq_ignore_case(bare, "application/json"@)
            || eq_ignore_case(bare, "application/*"@) {
            Some(false)
        } else {
            csv_accept_verdict(entries.drop_first())
        }
    }
}

/// Whether a request with this `Accept` header and `?format=` value
/// wants CSV: the header decides when one of its entries does, else
/// `format=csv`.
pub open spec fn wants_csv_of(accept: Option<Seq<char>>, format: Option<Seq<char>>) -> bool {
    let by_header = match accept {
        Some(a) => csv_accept_verdict(split_char(a, ',')),
        None => None,
    };
    match by_header {
        Some(b) => b,
        None => format == Some("csv"@),
    }
}

/// Case-insensitive comparison with a literal.
pub fn chars_eq_ignore_case_lit(v: &[char], lit: &str) -> (b: bool)
    ensures
        b == eq_ignore_case(v@, lit@),
{
    let l = chars_of(lit);
    chars_eq_ignore_case(v, l.as_slice())
}

/// `true` when the client wants a CSV response (see [`wants_csv_of`]).
pub fn wants_csv(accept: Option<&str>, format: Option<&str>) -> (b: bool)
    ensures
        b == wants_csv_of(
            match accept {
                Some(a) => Some(a@),
                None => None,
            },
            match format {
                Some(f) => Some(f@),
                None => None,
            },
        ),
{
    if let Some(a) = accept {
        let entries = split_chars(chars_of(a).as_slice(), ',');
        let ghost all = entries@.map_values(|p: Vec<char>| p@);
        assert(all.skip(0) =~= all);
        let mut i: usize = 0;
        while i < entries.len()
            invariant
                i <= entries.len(),
                all == entries@.map_values(|p: Vec<char>| p@),
                all == split_char(a@, ','),
                accept == Some(a),
                csv_accept_verdict(all) == csv_accept_verdict(all.skip(i as int)),
            decreases entries.len() - i,
        {
            let bare = trim_chars(chars_before(entries[i].as_slice(), ';').as_slice());
            assert(all.skip(i as int)[0] == entries@[i as int]@);
            assert(all.skip(i as int).drop_first() =~= all.skip(i + 1));
            assert(bare@ == accept_media_type(all.skip(i as int)[0]));
            if chars_eq_ignore_case_lit(bare.as_slice(), "text/csv") {
                return true;
            }
            if chars_eq_ignore_case_lit(bare.as_slice(), "text/html") || chars_eq_ignore_case_lit(
                bare.as_slice(),
                "application/json",
            ) || chars_eq_ignore_case_lit(bare.as_slice(), "application/*") {
                return false;
            }
            i = i + 1;
        }
    }
    match format {
        Some(f) => {
            let fv = chars_of(f);
            let lit = chars_of("csv");
            crate::text::chars_eq(fv.as_slice(), lit.as_slice())
        },
        None => false,
    }
}

// ---------------------------------------------------------------------------
// Import bookkeeping
// ---------------------------------------------------------------------------

/// What became of one imported data row (rows are numbered from 2, the
/// header being row 1).
#[derive(Debug, Clone)]
pub enum RowOutcome {
    Inserted { row_number: usize, id: i64 },
    Failed { row_number: usize, errors: Vec<String> },
}

/// The summary of a CSV import.
#[derive(Debug, Clone)]
pub struct ImportReport {
    pub total: usize,
    pub inserted: usize,
    pub failed: usize,
    pub outcomes: Vec<RowOutcome>,
}

/// Whether the model declares a field named `name`.
pub open spec fn declares(fields: Seq<AdminField>, name: Seq<char>) -> bool {
    exists|i: int| 0 <= i < fields.len() && (#[trigger] fields[i]).name@ == name
}

/// The form pairs of one data row: each cell under a header column the
/// model declares, in column order; cells past the header are dropped.
pub open spec fn row_pairs(fields: Seq<AdminField>, header: Seq<String>, row: Seq<String>) -> Seq<
    (Seq<char>, Seq<char>),
>
    decreases row.len(),
{
    if row.len() == 0 {
        Seq::empty()
    } else {
        let r = row_pairs(fields, header, row.drop_last());
        let k = row.len() - 1;
        if k < header.len() && declares(fields, header[k]@) {
            r.push((header[k]@, row.last()@))
        } else {
            r
        }
    }
}

fn field_declared(fields: &[AdminField], name: &str) -> (b: bool)
    ensures
        b == declares(fields@, name@),
{
    let mut i: usize = 0;
    while i < fields.len()
        invariant
            i <= fields.len(),
            forall|j: int| 0 <= j < i ==> (#[trigger] fields@[j]).name@ != name@,
        decreases fields.len() - i,
    {
        if crate::text::str_eq(fields[i].name, name) {
            return true;
        }
        i = i + 1;
    }
    false
}

/// The form one data row submits to the model's create path.
pub fn import_row_form(fields: &[AdminField], header: &[String], row: &[String]) -> (r: Vec<
    (String, String),
>)
    ensures
        r@.map_values(|p: (String, String)| (p.0@, p.1@)) == row_pairs(fields@, header@, row@),
{
    let mut out: Vec<(String, String)> = Vec::new();
    let mut k: usize = 0;
    while k < row.len()
        invariant
            k <= row.len(),
            out@.map_values(|p: (String, String)| (p.0@, p.1@)) == row_pairs(
                fields@,
                header@,
                row@.take(k as int),
            ),
        decreases row.len() - k,
    {
        proof {
            let t = row@.take(k + 1);
            assert(t.drop_last() =~= row@.take(k as int));
            assert(t.last() == row@[k as int]);
        }
        if k < header.len() && field_declared(fields, header[k].as_str()) {
            let ghost before = out@;
            out.push((header[k].clone(), row[k].clone()));
            assert(out@.map_values(|p: (String, String)| (p.0@, p.1@)) =~= before.map_values(
                |p: (String, String)| (p.0@, p.1@),
            ).push((header@[k as int]@, row@[k as int]@)));
        }
        k = k + 1;
    }
    assert(row@.take(row.len() as int) =~= row@);
    out
}

/// Every outcome is counted once, as inserted or failed.
pub open spec fn report_consistent(r: ImportReport) -> bool {
    r.inserted + r.failed == r.outcomes@.len()
}

impl ImportReport {
    /// An empty report for `total` data rows.
    pub fn new(total: usize) -> (r: Self)
        ensures
            r.total == total,
            r.inserted == 0,
            r.failed == 0,
            r.outcomes@.len() == 0,
    {
        ImportReport { total, inserted: 0, failed: 0, outcomes: Vec::new() }
    }

    /// Records the data row at index `idx` (0-based) as inserted with `id`.
    pub fn record_inserted(&mut self, idx: usize, id: i64)
        requires
            report_consistent(*old(self)),
            old(self).outcomes@.len() < usize::MAX,
            idx + 2 <= usize::MAX,
        ensures
            report_consistent(*final(self)),
            final(self).total == old(self).total,
            final(self).inserted == old(self).inserted + 1,
            final(self).failed == old(self).failed,
            final(self).outcomes@ == old(self).outcomes@.push(
                RowOutcome::Inserted { row_number: (idx + 2) as usize, id },
            ),
    {
        self.inserted = self.inserted + 1;
        self.outcomes.push(RowOutcome::Inserted { row_number: idx + 2, id });
    }

    /// Records the data row at index `idx` (0-based) as failed with
    /// `errors`.
    pub fn record_failed(&mut self, idx: usize, errors: Vec<String>)
        requires
            report_consistent(*old(self)),
            old(self).outcomes@.len() < usize::MAX,
            idx + 2 <= usize::MAX,
        ensures
            report_consistent(*final(self)),
            final(self).total == old(self).total,
            final(self).inserted == old(self).inserted,
            final(self).failed == old(self).failed + 1,
            final(self).outcomes@.len() == old(self).outcomes@.len() + 1,
            final(self).outcomes@.drop_last() == old(self).outcomes@,
            final(self).outcomes@.last() matches RowOutcome::Failed { row_number, errors: e }
                && row_number == idx + 2 && e@ == errors@,
    {
        self.failed = self.failed + 1;
        self.outcomes.push(RowOutcome::Failed { row_number: idx + 2, errors });
    }
}

// ---------------------------------------------------------------------------
// Reading back what was written
// ---------------------------------------------------------------------------

/// Records written one after another, each with its CRLF.
pub open spec fn csv_text(rows: Seq<Seq<Seq<char>>>) -> Seq<char>
    decreases rows.len(),
{
    if rows.len() == 0 {
        Seq::empty()
    } else {
        csv_text(rows.drop_last()) + row_text(rows.last())
    }
}

/// The text from `i` on spells `t`.
pub open spec fn spells_at(b: Seq<char>, i: int, t: Seq<char>) -> bool {
    &&& 0 <= i
    &&& i + t.len() <= b.len()
    &&& forall|j: int| 0 <= j < t.len() ==> #[trigger] b[i + j] == t[j]
}

/// A reader state at a field boundary: nothing half-read.
pub open spec fn fresh(rows: Seq<Seq<Seq<char>>>, row: Seq<Seq<char>>) -> CsvState {
    CsvState { rows, row, field: Seq::empty(), in_quotes: false, just_closed_quote: false }
}

proof fn lemma_spells_split(b: Seq<char>, i: int, x: Seq<char>, y: Seq<char>)
    requires
        spells_at(b, i, x + y),
    ensures
        spells_at(b, i, x),
        spells_at(b, i + x.len(), y),
{
    assert forall|j: int| 0 <= j < x.len() implies #[trigger] b[i + j] == x[j] by {
        assert((x + y)[j] == x[j]);
    }
    assert forall|j: int| 0 <= j < y.len() implies #[trigger] b[(i + x.len()) + j] == y[j] by {
        assert((x + y)[x.len() + j] == y[j]);
        assert(i + (x.len() + j) == (i + x.len()) + j);
    }
}

/// Unquoted text free of `,`, `"`, `\n`, `\r` is read into the field as is.
proof fn lemma_read_plain(st: CsvState, b: Seq<char>, i: int, s: Seq<char>)
    requires
        !st.in_quotes,
        spells_at(b, i, s),
        !needs_quoting(s),
    ensures
        csv_run(st, b, i) == csv_run(CsvState { field: st.field + s, ..st }, b, i + s.len()),
    decreases s.len(),
{
    if s.len() == 0 {
        assert(st.field + s =~= st.field);
        assert(CsvState { field: st.field + s, ..st } == st);
    } else {
        let d = s.drop_last();
        assert(s =~= d + seq![s.last()]);
        lemma_spells_split(b, i, d, seq![s.last()]);
        assert(!d.contains(',') && !d.contains('"') && !d.contains('\n') && !d.contains('\r')) by {
            if d.contains(',') {
                let w = choose|w: int| 0 <= w < d.len() && d[w] == ',';
                assert(s[w] == ',');
            }
            if d.contains('"') {
                let w = choose|w: int| 0 <= w < d.len() && d[w] == '"';
                assert(s[w] == '"');
            }
            if d.contains('\n') {
                let w = choose|w: int| 0 <= w < d.len() && d[w] == '\n';
                assert(s[w] == '\n');
            }
            if d.contains('\r') {
                let w = choose|w: int| 0 <= w < d.len() && d[w] == '\r';
                assert(s[w] == '\r');
            }
        }
        lemma_read_plain(st, b, i, d);
        let p = i + d.len();
        let mid = CsvState { field: st.field + d, ..st };
        let c = s.last();
        assert(b[p + 0] == c);
        assert(s[s.len() - 1] == c);
        assert(c != ',' && c != '"' && c != '\n' && c != '\r');
        assert(add_char(mid, b[p]).field =~= st.field + s);
    }
}

/// Inside quotes, the body of a quoted cell (quotes doubled) is read
/// back into the field as the cell's text.
proof fn lemma_read_quoted_body(st: CsvState, b: Seq<char>, i: int, s: Seq<char>)
    requires
        st.in_quotes,
        spells_at(b, i, quote_body(s)),
    ensures
        csv_run(st, b, i) == csv_run(
            CsvState { field: st.field + s, ..st },
            b,
            i + quote_body(s).len(),
        ),
    decreases s.len(),
{
    if s.len() == 0 {
        assert(st.field + s =~= st.field);
        assert(CsvState { field: st.field + s, ..st } == st);
    } else {
        let d = s.drop_last();
        let c = s.last();
        let tail = if c == '"' {
            seq!['"', '"']
        } else {
            seq![c]
        };
        assert(quote_body(s) =~= quote_body(d) + tail);
        lemma_spells_split(b, i, quote_body(d), tail);
        lemma_read_quoted_body(st, b, i, d);
        let p = i + quote_body(d).len();
        let mid = CsvState { field: st.field + d, ..st };
        assert(b[p + 0] == tail[0]);
        if c == '"' {
            assert(b[p + 1] == tail[1]);
            assert(add_char(mid, '"').field =~= st.field + s);
        } else {
            assert(add_char(mid, b[p]).field =~= st.field + s);
        }
    }
}

/// One written cell, followed by `,` or `\r`, is read back whole.
proof fn lemma_read_cell(st: CsvState, b: Seq<char>, i: int, cell: Seq<char>)
    requires
        st.field.len() == 0,
        !st.in_quotes,
        !st.just_closed_quote,
        spells_at(b, i, escape_cell(cell)),
        i + escape_cell(cell).len() < b.len(),
        b[i + escape_cell(cell).len()] == ',' || b[i + escape_cell(cell).len()] == '\r',
    ensures
        csv_run(st, b, i) == csv_run(
            CsvState { field: cell, just_closed_quote: needs_quoting(cell), ..st },
            b,
            i + escape_cell(cell).len(),
        ),
{
    if needs_quoting(cell) {
        let e = escape_cell(cell);
        assert(e =~= seq!['"'] + (quote_body(cell) + seq!['"']));
        lemma_spells_split(b, i, seq!['"'], quote_body(cell) + seq!['"']);
        lemma_spells_split(b, i + 1, quote_body(cell), seq!['"']);
        assert(b[i + 0] == '"');
        let opened = CsvState { in_quotes: true, ..st };
        lemma_read_quoted_body(opened, b, i + 1, cell);
        let q = i + 1 + quote_body(cell).len();
        assert(b[q + 0] == '"');
        assert(q + 1 == i + e.len());
        assert(opened.field + cell =~= cell);
    } else {
        lemma_read_plain(st, b, i, cell);
        assert(st.field + cell =~= cell);
    }
}

/// The cells of one written record, followed by `,` or `\r`, leave the
/// reader holding all but the last cell in the record and the last in
/// the field.
proof fn lemma_read_cells(rows: Seq<Seq<Seq<char>>>, row: Seq<Seq<char>>, b: Seq<char>, i: int, cells: Seq<Seq<char>>)
    requires
        cells.len() >= 1,
        spells_at(b, i, join_cells(cells)),
        i + join_cells(cells).len() < b.len(),
        b[i + join_cells(cells).len()] == ',' || b[i + join_cells(cells).len()] == '\r',
    ensures
        csv_run(fresh(rows, row), b, i) == csv_run(
            CsvState {
                rows,
                row: row + cells.drop_last(),
                field: cells.last(),
                in_quotes: false,
                just_closed_quote: needs_quoting(cells.last()),
            },
            b,
            i + join_cells(cells).len(),
        ),
    decreases cells.len(),
{
    if cells.len() == 1 {
        assert(join_cells(cells) == escape_cell(cells[0]));
        lemma_read_cell(fresh(rows, row), b, i, cells[0]);
        assert(row + cells.drop_last() =~= row);
    } else {
        let d = cells.drop_last();
        let last = cells.last();
        assert(join_cells(cells) =~= join_cells(d) + (seq![','] + escape_cell(last)));
        lemma_spells_split(b, i, join_cells(d), seq![','] + escape_cell(last));
        lemma_spells_split(b, i + join_cells(d).len(), seq![','], escape_cell(last));
        let p = i + join_cells(d).len();
        assert(b[p + 0] == ',');
        lemma_read_cells(rows, row, b, i, d);
        let mid = CsvState {
            rows,
            row: row + d.drop_last(),
            field: d.last(),
            in_quotes: false,
            just_closed_quote: needs_quoting(d.last()),
        };
        let next = fresh(rows, row + d);
        assert(end_field(mid).row =~= next.row);
        assert(end_field(mid) == next);
        lemma_read_cell(next, b, p + 1, last);
        assert(p + 1 + escape_cell(last).len() == i + join_cells(cells).len());
    }
}

/// One written record is read back as one record.
proof fn lemma_read_record(rows: Seq<Seq<Seq<char>>>, b: Seq<char>, i: int, cells: Seq<Seq<char>>)
    requires
        cells.len() >= 1,
        spells_at(b, i, row_text(cells)),
    ensures
        csv_run(fresh(rows, Seq::empty()), b, i) == csv_run(
            fresh(rows.push(cells), Seq::empty()),
            b,
            i + row_text(cells).len(),
        ),
{
    lemma_spells_split(b, i, join_cells(cells), seq!['\r', '\n']);
    let p = i + join_cells(cells).len();
    assert(b[p + 0] == '\r');
    assert(b[p + 1] == '\n');
    lemma_read_cells(rows, Seq::empty(), b, i, cells);
    let mid = CsvState {
        rows,
        row: Seq::<Seq<char>>::empty() + cells.drop_last(),
        field: cells.last(),
        in_quotes: false,
        just_closed_quote: needs_quoting(cells.last()),
    };
    assert(mid.row.push(mid.field) =~= cells);
    assert(end_record(mid) == fresh(rows.push(cells), Seq::empty()));
    assert(b[p] == '\r');
    assert(b[p + 1] == '\n');
    assert(csv_run(mid, b, p) == csv_run(mid, b, p + 1));
    assert(csv_run(mid, b, p + 1) == csv_run(end_record(mid), b, p + 2));
    assert(p + 2 == i + row_text(cells).len());
}

proof fn lemma_read_text(b: Seq<char>, rows: Seq<Seq<Seq<char>>>)
    requires
        forall|k: int| 0 <= k < rows.len() ==> (#[trigger] rows[k]).len() >= 1,
        spells_at(b, 0, csv_text(rows)),
    ensures
        csv_run(csv_start(), b, 0) == csv_run(
            fresh(rows, Seq::empty()),
            b,
            csv_text(rows).len() as int,
        ),
    decreases rows.len(),
{
    if rows.len() == 0 {
        assert(rows =~= Seq::<Seq<Seq<char>>>::empty());
        assert(csv_start() == fresh(rows, Seq::empty()));
    } else {
        let d = rows.drop_last();
        lemma_spells_split(b, 0, csv_text(d), row_text(rows.last()));
        assert forall|k: int| 0 <= k < d.len() implies (#[trigger] d[k]).len() >= 1 by {
            assert(d[k] == rows[k]);
        }
        lemma_read_text(b, d);
        assert(rows.last() == rows[rows.len() - 1]);
        lemma_read_record(d, b, csv_text(d).len() as int, rows.last());
        assert(d.push(rows.last()) =~= rows);
    }
}

/// What the exporter writes, the importer reads back: records written
/// one after another (each with at least one cell, the last not
/// entirely empty) are read back as the same records.
pub proof fn lemma_csv_round_trip(rows: Seq<Seq<Seq<char>>>)
    requires
        forall|k: int| 0 <= k < rows.len() ==> (#[trigger] rows[k]).len() >= 1,
        rows.len() == 0 || !blank_row(rows.last()),
    ensures
        csv_records(csv_text(rows)) == rows,
{
    let b = csv_text(rows);
    assert forall|j: int| 0 <= j < b.len() implies #[trigger] b[0 + j] == b[j] by {}
    lemma_read_text(b, rows);
    let end = fresh(rows, Seq::empty());
    assert(csv_run(end, b, b.len() as int) == end);
    if rows.len() > 0 {
        assert(drop_blank_tail(rows) == rows);
    }
}


/// A CSV the exporter writes (a header with no empty column name, then
/// data rows as wide as the header, the last not entirely empty), once
/// encoded as UTF-8 and within the size cap, is imported as the same
/// header and rows.
pub proof fn lemma_export_import_round_trip(header: Seq<Seq<char>>, rows: Seq<Seq<Seq<char>>>)
    requires
        header.len() >= 1,
        !header_has_empty_column(header),
        forall|k: int| 0 <= k < rows.len() ==> (#[trigger] rows[k]).len() == header.len(),
        rows.len() == 0 || !blank_row(rows.last()),
        encode_utf8(csv_text(seq![header] + rows)).len() <= CSV_IMPORT_MAX_BYTES,
    ensures
        parse_csv_result(encode_utf8(csv_text(seq![header] + rows))) == Ok::<
            (Seq<Seq<char>>, Seq<Seq<Seq<char>>>),
            ParseError,
        >((header, rows)),
{
    let all = seq![header] + rows;
    let body = encode_utf8(csv_text(all));
    assert forall|k: int| 0 <= k < all.len() implies (#[trigger] all[k]).len() >= 1 by {
        if k > 0 {
            assert(all[k] == rows[k - 1]);
        }
    }
    if rows.len() == 0 {
        assert(all.last() == header);
        if blank_row(header) {
            assert(header[0] =~= Seq::<char>::empty());
            assert(trim(header[0]).len() == 0);
        }
    } else {
        assert(all.last() == rows.last());
    }
    lemma_csv_round_trip(all);
    encode_utf8_valid_utf8(csv_text(all));
    encode_utf8_decode_utf8(csv_text(all));
    let records = csv_records(decode_utf8(body));
    assert(records == all);
    assert(records[0] == header);
    assert(records.drop_first() =~= rows);
    assert(body.len() > 0) by {
        assert(csv_text(all) == csv_text(all.drop_last()) + row_text(all.last()));
        assert(row_text(all.last()).len() >= 2);
        if body.len() == 0 {
            assert(body =~= Seq::<u8>::empty());
            assert(decode_utf8(body) =~= Seq::<char>::empty());
        }
    }
    let fitted = rows.map_values(|r: Seq<Seq<char>>| fit_row(r, header.len()));
    assert forall|k: int| 0 <= k < rows.len() implies #[trigger] fitted[k] == rows[k] by {
        assert(fit_row(rows[k], header.len()) =~= rows[k]);
    }
    assert(fitted =~= rows);
}

} // verus!
