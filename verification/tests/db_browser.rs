use rustio_admin::db_browser::{assemble_schema, ColumnRow, ForeignKey};

fn col(table: &str, name: &str, ty: &str, nullable: &str, default: &str) -> ColumnRow {
    ColumnRow {
        table_name: table.into(),
        column_name: name.into(),
        data_type: ty.into(),
        is_nullable: nullable.into(),
        column_default: default.into(),
    }
}

fn fk(st: &str, sc: &str, tt: &str, tc: &str) -> ForeignKey {
    ForeignKey {
        source_table: st.into(),
        source_column: sc.into(),
        target_table: tt.into(),
        target_column: tc.into(),
    }
}

#[test]
fn assemble_schema_attaches_columns_and_keys_per_table() {
    let tables = vec![("authors".to_string(), 10), ("posts".to_string(), -1)];
    let cols = vec![
        col("authors", "id", "bigint", "NO", "nextval('a')"),
        col("posts", "id", "bigint", "NO", ""),
        col("posts", "author_id", "bigint", "yes", ""),
        col("ghost", "x", "text", "YES", ""),
    ];
    let fks = vec![fk("posts", "author_id", "authors", "id"), fk("ghost", "a", "posts", "id")];
    let s = assemble_schema(&tables, &cols, &fks);
    assert_eq!(s.tables.len(), 2);
    let a = &s.tables[0];
    assert_eq!(a.name, "authors");
    assert_eq!(a.row_estimate, 10);
    assert_eq!(a.column_count, 1);
    assert_eq!(a.columns[0].default_expr, "nextval('a')");
    assert!(a.outgoing_fks.is_empty());
    assert_eq!(a.incoming_fks.len(), 1);
    let p = &s.tables[1];
    assert_eq!(p.row_estimate, 0);
    assert_eq!(p.column_count, 2);
    assert!(!p.columns[0].is_nullable);
    assert!(p.columns[1].is_nullable);
    assert_eq!(p.outgoing_fks[0].target_table, "authors");
    assert_eq!(p.incoming_fks[0].source_table, "ghost");
    assert_eq!(s.total_columns, 3);
    assert_eq!(s.total_row_estimate, 10);
}

#[test]
fn assemble_schema_of_empty_catalogue() {
    let s = assemble_schema(&[], &[col("t", "c", "text", "NO", "")], &[]);
    assert!(s.tables.is_empty());
    assert_eq!(s.total_columns, 0);
    assert_eq!(s.total_row_estimate, 0);
}
