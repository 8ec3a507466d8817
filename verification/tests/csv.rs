use rustio_admin::csv::{import_row_form, ImportReport, RowOutcome};
use rustio_admin::filters::{AdminField, FieldType};
use rustio_admin::csv::{
    wants_csv,
    csv_escape_field, parse_csv, parse_csv_text, write_cell, write_row, ParseError,
    CSV_IMPORT_MAX_BYTES,
};

fn render_row(cells: &[&str]) -> String {
    let mut out = String::new();
    write_row(&mut out, cells);
    out
}

fn cell_only(s: &str) -> String {
    let mut out = String::new();
    write_cell(&mut out, s);
    out
}

#[test]
fn simple_cells_are_unquoted() {
    assert_eq!(cell_only("abc"), "abc");
    assert_eq!(cell_only("123"), "123");
    assert_eq!(cell_only(""), "");
}

#[test]
fn cells_with_comma_are_quoted() {
    assert_eq!(cell_only("a,b"), "\"a,b\"");
}

#[test]
fn cells_with_double_quote_double_the_quote() {
    assert_eq!(cell_only(r#"she said "hi""#), r#""she said ""hi""""#);
}

#[test]
fn cells_with_newlines_are_quoted() {
    assert_eq!(cell_only("line1\nline2"), "\"line1\nline2\"");
    assert_eq!(cell_only("line1\r\nline2"), "\"line1\r\nline2\"");
}

#[test]
fn row_uses_crlf_and_comma() {
    assert_eq!(render_row(&["a", "b", "c"]), "a,b,c\r\n");
    assert_eq!(render_row(&["a", "", "c"]), "a,,c\r\n");
}

#[test]
fn row_quotes_only_offending_cells() {
    assert_eq!(
        render_row(&["plain", "has,comma", "plain again"]),
        "plain,\"has,comma\",plain again\r\n",
    );
}

#[test]
fn parses_simple_header_and_two_rows() {
    let csv = "name,published\nFoo,true\nBar,false\n";
    let (header, rows) = parse_csv(csv.as_bytes()).unwrap();
    assert_eq!(header, vec!["name", "published"]);
    assert_eq!(rows.len(), 2);
    assert_eq!(rows[0], vec!["Foo", "true"]);
    assert_eq!(rows[1], vec!["Bar", "false"]);
}

#[test]
fn handles_quoted_fields_with_commas_and_doubled_quotes() {
    let csv = "title,body\n\"Hello, world\",\"She said \"\"hi\"\".\"\n";
    let (_, rows) = parse_csv(csv.as_bytes()).unwrap();
    assert_eq!(rows[0][0], "Hello, world");
    assert_eq!(rows[0][1], "She said \"hi\".");
}

#[test]
fn handles_crlf_line_endings() {
    let csv = "a,b\r\n1,2\r\n3,4\r\n";
    let (_, rows) = parse_csv(csv.as_bytes()).unwrap();
    assert_eq!(rows.len(), 2);
    assert_eq!(rows[0], vec!["1", "2"]);
}

#[test]
fn empty_body_errors() {
    assert!(matches!(parse_csv(b"").unwrap_err(), ParseError::Empty));
}

#[test]
fn oversized_body_errors() {
    let big = vec![b'a'; CSV_IMPORT_MAX_BYTES + 1];
    assert!(matches!(
        parse_csv(&big).unwrap_err(),
        ParseError::TooLarge { .. }
    ));
}

#[test]
fn empty_header_column_errors() {
    let csv = "name,\nFoo,Bar\n";
    assert!(matches!(
        parse_csv(csv.as_bytes()).unwrap_err(),
        ParseError::HeaderEmptyColumn
    ));
}

#[test]
fn trailing_blank_line_is_dropped() {
    let csv = "a\n1\n\n";
    let (_, rows) = parse_csv(csv.as_bytes()).unwrap();
    assert_eq!(rows, vec![vec!["1".to_string()]]);
}

#[test]
fn plain_text_passes_through_unquoted() {
    assert_eq!(csv_escape_field("hello"), "hello");
    assert_eq!(csv_escape_field("42"), "42");
    assert_eq!(csv_escape_field("anna.lindqvist"), "anna.lindqvist");
    assert_eq!(csv_escape_field(""), "");
}

#[test]
fn comma_triggers_quoting() {
    assert_eq!(csv_escape_field("a,b"), "\"a,b\"");
}

#[test]
fn embedded_quote_is_doubled_inside_quoted_field() {
    assert_eq!(csv_escape_field("say \"hi\""), "\"say \"\"hi\"\"\"");
}

#[test]
fn newline_triggers_quoting() {
    assert_eq!(csv_escape_field("line1\nline2"), "\"line1\nline2\"");
    assert_eq!(csv_escape_field("crlf\r\nhere"), "\"crlf\r\nhere\"");
}

#[test]
fn no_quote_added_when_only_safe_punctuation() {
    assert_eq!(csv_escape_field("a.b-c:d;e"), "a.b-c:d;e");
}

#[test]
fn unicode_passes_through_unchanged_when_no_special_chars() {
    assert_eq!(csv_escape_field("Anna Wåhlin"), "Anna Wåhlin");
    assert_eq!(csv_escape_field("日本語"), "日本語");
}

// ---- additional cases ----

#[test]
fn exported_row_reads_back_as_the_same_cells() {
    let cells = ["plain", "has,comma", "say \"hi\"", "two\nlines", ""];
    let text = render_row(&cells);
    let rows = parse_csv_text(&text);
    assert_eq!(rows, vec![cells.iter().map(|s| s.to_string()).collect::<Vec<_>>()]);
}

#[test]
fn bare_carriage_return_ends_a_record() {
    let rows = parse_csv_text("a,b\rc,d");
    assert_eq!(rows, vec![vec!["a", "b"], vec!["c", "d"]]);
}

#[test]
fn missing_header_and_non_utf8_errors() {
    assert!(matches!(parse_csv(b"\n\n").unwrap_err(), ParseError::HeaderMissing));
    assert!(matches!(parse_csv(&[0xff, 0xfe]).unwrap_err(), ParseError::Empty));
}

#[test]
fn whitespace_only_header_column_errors() {
    assert!(matches!(
        parse_csv(b"name,  \nx,y\n").unwrap_err(),
        ParseError::HeaderEmptyColumn
    ));
}

#[test]
fn parse_error_messages_are_exact() {
    assert_eq!(ParseError::Empty.message(), "CSV body is empty.");
    assert_eq!(
        ParseError::TooLarge { size: 9000000, cap: 8388608 }.message(),
        "CSV body (9000000 bytes) exceeds the 8388608-byte cap."
    );
    assert_eq!(
        ParseError::TooManyRows { rows: 10001, cap: 10000 }.message(),
        "CSV has 10001 rows; cap is 10000. Split the file and retry."
    );
    assert_eq!(ParseError::HeaderMissing.message(), "First row must be a header.");
    assert_eq!(
        ParseError::HeaderEmptyColumn.message(),
        "Header has an empty column name."
    );
    assert_eq!(
        ParseError::UnknownColumns { columns: vec!["x".into(), "y".into()] }.message(),
        "Header includes columns the model doesn't declare: x, y."
    );
}

#[test]
fn wants_csv_accept_header_precedence() {
    fn pick(accept: &str) -> bool {
        wants_csv(Some(accept), None)
    }
    assert!(pick("text/csv"));
    assert!(pick("text/csv, text/html"));
    assert!(pick("text/csv;q=0.9, */*;q=0.1"));
    assert!(!pick("text/html, text/csv"));
    assert!(!pick("application/json, text/csv"));
    assert!(!pick("text/html"));
    assert!(!pick("*/*"));
}

#[test]
fn wants_csv_falls_back_to_format_query() {
    assert!(wants_csv(None, Some("csv")));
    assert!(!wants_csv(None, Some("CSV")));
    assert!(!wants_csv(None, None));
    assert!(wants_csv(Some("*/*"), Some("csv")));
    assert!(!wants_csv(Some("text/html"), Some("csv")));
    assert!(wants_csv(Some(" TEXT/CSV ; charset=utf-8"), None));
    assert!(!wants_csv(Some("Application/*"), Some("csv")));
}

#[test]
fn import_row_form_keeps_only_declared_columns() {
    let fields = [
        AdminField { name: "title", label: "Title", field_type: FieldType::String, editable: true, relation: None, choices: None },
        AdminField { name: "body", label: "Body", field_type: FieldType::String, editable: true, relation: None, choices: None },
    ];
    let header: Vec<String> = vec!["title".into(), "junk".into(), "body".into()];
    let row: Vec<String> = vec!["T".into(), "x".into(), "B".into(), "extra".into()];
    let form = import_row_form(&fields, &header, &row);
    assert_eq!(form, vec![("title".to_string(), "T".to_string()), ("body".to_string(), "B".to_string())]);
    let short: Vec<String> = vec!["only".into()];
    assert_eq!(import_row_form(&fields, &header, &short), vec![("title".to_string(), "only".to_string())]);
}

#[test]
fn import_report_counts_each_outcome_once() {
    let mut r = ImportReport::new(3);
    r.record_inserted(0, 41);
    r.record_failed(1, vec!["Title is required.".to_string()]);
    r.record_inserted(2, 42);
    assert_eq!((r.total, r.inserted, r.failed), (3, 2, 1));
    assert!(matches!(r.outcomes[0], RowOutcome::Inserted { row_number: 2, id: 41 }));
    assert!(matches!(&r.outcomes[1], RowOutcome::Failed { row_number: 3, errors } if errors == &vec!["Title is required.".to_string()]));
    assert!(matches!(r.outcomes[2], RowOutcome::Inserted { row_number: 4, id: 42 }));
}

#[test]
fn non_ascii_cells_are_read_as_characters() {
    let rows = parse_csv_text("name\nJosé\n");
    assert_eq!(rows, vec![vec!["name"], vec!["José"]]);
    let (header, rows) = parse_csv("name,city\n\"Wåhlin, Anna\",東京\n".as_bytes()).unwrap();
    assert_eq!(header, vec!["name", "city"]);
    assert_eq!(rows, vec![vec!["Wåhlin, Anna", "東京"]]);
}

#[test]
fn exported_non_ascii_rows_read_back_unchanged() {
    let mut text = String::new();
    write_row(&mut text, &["título", "ü \"q\""]);
    write_row(&mut text, &["日本語", "a,ß"]);
    let rows = parse_csv_text(&text);
    assert_eq!(rows, vec![vec!["título", "ü \"q\""], vec!["日本語", "a,ß"]]);
}

#[test]
fn data_rows_take_the_header_width() {
    let (header, rows) = parse_csv(b"a,b\n1\n2,3,4\n5,6\n").unwrap();
    assert_eq!(header, vec!["a", "b"]);
    assert_eq!(rows, vec![vec!["1", ""], vec!["2", "3"], vec!["5", "6"]]);
}

#[test]
fn exported_table_imports_as_the_same_header_and_rows() {
    let mut text = String::new();
    write_row(&mut text, &["name", "note"]);
    write_row(&mut text, &["Zoë", "a \"b\", c"]);
    write_row(&mut text, &["", "line\nbreak"]);
    let (header, rows) = parse_csv(text.as_bytes()).unwrap();
    assert_eq!(header, vec!["name", "note"]);
    assert_eq!(rows, vec![vec!["Zoë", "a \"b\", c"], vec!["", "line\nbreak"]]);
}
