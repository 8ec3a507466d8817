use rustio_admin::ops::assemble_page;
use rustio_admin::paging::{clamp_page, page_offset, page_size, per_page_override, requested_page};

#[test]
fn per_page_is_allow_listed() {
    assert_eq!(per_page_override(Some("25")), Some(25));
    assert_eq!(per_page_override(Some("200")), Some(200));
    assert_eq!(per_page_override(Some("30")), None);
    assert_eq!(per_page_override(Some("abc")), None);
    assert_eq!(per_page_override(None), None);
    assert_eq!(page_size(Some(100), 50), 100);
    assert_eq!(page_size(None, 50), 50);
    assert_eq!(page_size(None, 0), 1);
}

#[test]
fn requested_page_defaults_and_floors_at_one() {
    assert_eq!(requested_page(Some("3")), 3);
    assert_eq!(requested_page(Some("0")), 1);
    assert_eq!(requested_page(Some("-4")), 1);
    assert_eq!(requested_page(Some("x")), 1);
    assert_eq!(requested_page(None), 1);
    assert_eq!(page_offset(3, 50), 100);
}

#[test]
fn stale_page_is_clamped_to_the_last() {
    assert_eq!(clamp_page(120, 50, 9), (3, 3, true));
    assert_eq!(clamp_page(120, 50, 2), (2, 3, false));
    assert_eq!(clamp_page(0, 50, 4), (1, 1, false));
}

#[test]
fn page_rows_carry_one_empty_link_per_cell() {
    let fetched = vec![
        (7, vec![("id".to_string(), "7".to_string()), ("name".to_string(), "Ada".to_string())]),
        (8, vec![]),
    ];
    let page = assemble_page(&fetched, 42);
    assert_eq!(page.total, 42);
    assert_eq!(page.rows.len(), 2);
    assert_eq!(page.rows[0].id, 7);
    assert_eq!(page.rows[0].cells, vec!["7", "Ada"]);
    assert_eq!(page.rows[0].cell_links.len(), 2);
    assert!(page.rows[0].cell_links.iter().all(|l| l.is_none()));
    assert!(page.rows[1].cells.is_empty() && page.rows[1].cell_links.is_empty());
}
