use rustio_admin::fk_cells::{fk_ids_in_column, fk_label_query, hydrate_column, CellLink, FkRow};

fn row(cells: &[&str]) -> FkRow {
    FkRow {
        cells: cells.iter().map(|c| c.to_string()).collect(),
        cell_links: cells.iter().map(|_| None).collect(),
    }
}

#[test]
fn fk_ids_are_distinct_sorted_and_skip_blank_or_garbage() {
    let rows = vec![
        row(&["1", "7"]),
        row(&["2", ""]),
        row(&["3", "3"]),
        row(&["4", "7"]),
        row(&["5", "abc"]),
        row(&["6"]),
        row(&["7", "-2"]),
    ];
    assert_eq!(fk_ids_in_column(&rows, 1), vec![-2, 3, 7]);
    assert_eq!(fk_ids_in_column(&rows, 0), vec![1, 2, 3, 4, 5, 6, 7]);
    assert!(fk_ids_in_column(&rows, 5).is_empty());
    assert!(fk_ids_in_column(&[], 0).is_empty());
}

#[test]
fn fk_label_query_selects_display_column_as_text() {
    assert_eq!(
        fk_label_query("name", "patients"),
        "SELECT id, name::text AS label FROM patients WHERE id = ANY($1)"
    );
}

#[test]
fn hydrate_column_substitutes_labels_and_links() {
    let rows = vec![row(&["1", "7", "x"]), row(&["2", "9", "y"]), row(&["3", "", "z"]), row(&["4"])];
    let labels = vec![(7, "Ada".to_string()), (8, "Bob".to_string()), (7, "Ada L.".to_string())];
    let out = hydrate_column(rows, 1, &labels, "patients");
    assert_eq!(out.len(), 4);
    assert_eq!(out[0].cells, vec!["1", "Ada L.", "x"]);
    match &out[0].cell_links[1] {
        Some(CellLink { admin_name, id }) => {
            assert_eq!(admin_name, "patients");
            assert_eq!(*id, 7);
        }
        None => panic!("hydrated cell must link"),
    }
    assert!(out[0].cell_links[0].is_none() && out[0].cell_links[2].is_none());
    assert_eq!(out[1].cells, vec!["2", "9", "y"]);
    assert!(out[1].cell_links[1].is_none());
    assert_eq!(out[2].cells, vec!["3", "", "z"]);
    assert_eq!(out[3].cells, vec!["4"]);
}
