use rustio_admin::crud::{created_summary, deleted_summary, fill_readonly_fields, updated_summary};
use rustio_admin::handlers::EditRow;

fn pairs(p: &[(&str, &str)]) -> Vec<(String, String)> {
    p.iter().map(|(k, v)| (k.to_string(), v.to_string())).collect()
}

#[test]
fn readonly_columns_are_filled_from_the_stored_row() {
    let stored = EditRow { id: 3, values: pairs(&[("id", "3"), ("created_at", "2024-01-01"), ("slug", "a"), ("slug", "b")]) };
    let mut form = pairs(&[("title", "New"), ("slug", "mine")]);
    fill_readonly_fields(&mut form, &["created_at", "slug", "missing"], Some(&stored));
    assert_eq!(form, pairs(&[("title", "New"), ("slug", "mine"), ("created_at", "2024-01-01")]));

    let mut form = pairs(&[("title", "New")]);
    fill_readonly_fields(&mut form, &["slug", "slug"], Some(&stored));
    assert_eq!(form, pairs(&[("title", "New"), ("slug", "a")]));

    let mut form = pairs(&[("title", "New")]);
    fill_readonly_fields(&mut form, &["created_at"], None);
    assert_eq!(form, pairs(&[("title", "New")]));
}

#[test]
fn crud_audit_summaries() {
    assert_eq!(created_summary("Patient", "Ada"), "Created Patient: Ada");
    assert_eq!(deleted_summary("Patient", "Ada"), "Deleted Patient: Ada");
    assert_eq!(updated_summary("Patient", 7, 0), "Updated Patient #7 (no field changes)");
    assert_eq!(updated_summary("Patient", 7, 1), "Updated Patient #7 (1 field changed)");
    assert_eq!(updated_summary("Patient", -2, 3), "Updated Patient #-2 (3 fields changed)");
}
