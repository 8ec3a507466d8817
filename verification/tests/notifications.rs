use rustio_admin::notifications::{CREATE_INDEX_SQL, CREATE_TABLE_SQL};

#[test]
fn create_table_sql_is_idempotent_shape() {
    assert!(CREATE_TABLE_SQL.contains("IF NOT EXISTS"));
    assert!(CREATE_INDEX_SQL.contains("IF NOT EXISTS"));
}
