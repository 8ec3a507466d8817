use rustio_admin::inlines::{inline_add_url, inline_list_opts, inline_rows};
use rustio_admin::json_api::ListRow;

#[test]
fn inline_fetches_children_of_the_parent() {
    let o = inline_list_opts("patient_id", 42, 0);
    assert_eq!(o.filters, vec![("patient_id".to_string(), "42".to_string())]);
    assert_eq!(o.limit, Some(1));
    assert!(o.offset.is_none() && o.search.is_none() && o.ordering.is_empty());
    assert_eq!(inline_list_opts("patient_id", 42, 10).limit, Some(10));
}

#[test]
fn inline_rows_carry_labels_and_links() {
    let rows = vec![
        ListRow { id: 5, cells: vec!["5".into(), "Checkup".into()] },
        ListRow { id: 6, cells: vec!["6".into(), "".into()] },
    ];
    let out = inline_rows("appointments", Some(1), &rows);
    assert_eq!(out.len(), 2);
    assert_eq!(out[0].label, "Checkup");
    assert_eq!(out[1].label, "#6");
    assert_eq!(out[0].edit_url, "/admin/appointments/5/edit");
    assert_eq!(out[1].delete_url, "/admin/appointments/6/delete");
    assert_eq!(inline_add_url("appointments"), "/admin/appointments/new");
}
