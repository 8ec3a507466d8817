use rustio_admin::dashboard::{counts_new_rows, new_this_week_query, spark_points};
use rustio_admin::filters::{AdminField, FieldType};

#[test]
fn sparkline_covers_the_week_ending_today() {
    let rows = vec![((2024, 2, 29), 4), ((2024, 3, 2), -3), ((2024, 2, 26), 1), ((2024, 2, 26), 9)];
    let pts = spark_points((2024, 3, 2), &rows);
    let dates: Vec<&str> = pts.iter().map(|p| p.date_iso.as_str()).collect();
    assert_eq!(
        dates,
        vec!["2024-02-25", "2024-02-26", "2024-02-27", "2024-02-28", "2024-02-29", "2024-03-01", "2024-03-02"]
    );
    let labels: Vec<&str> = pts.iter().map(|p| p.label).collect();
    assert_eq!(labels, vec!["Sun", "Mon", "Tue", "Wed", "Thu", "Fri", "Sat"]);
    let counts: Vec<i64> = pts.iter().map(|p| p.count).collect();
    assert_eq!(counts, vec![0, 9, 0, 0, 4, 0, 0]);
}

#[test]
fn sparkline_of_an_impossible_date_is_empty() {
    assert!(spark_points((2023, 2, 30), &[]).is_empty());
}

#[test]
fn new_rows_are_counted_for_project_models_with_created_at() {
    let f = |name: &'static str, t: FieldType| AdminField {
        name,
        label: name,
        field_type: t,
        editable: true,
        relation: None,
        choices: None,
    };
    let with = [f("id", FieldType::I64), f("created_at", FieldType::DateTime)];
    let without = [f("id", FieldType::I64), f("title", FieldType::String)];
    assert!(counts_new_rows(false, &with));
    assert!(!counts_new_rows(true, &with));
    assert!(!counts_new_rows(false, &without));
    assert_eq!(
        new_this_week_query("posts"),
        "SELECT COUNT(*) FROM posts WHERE created_at > NOW() - INTERVAL '7 days'"
    );
}
