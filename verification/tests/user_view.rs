use rustio_admin::user_view::{activity_paging, display_name, tab_name, user_tab, UserTab};

#[test]
fn user_tab_defaults_to_overview() {
    assert_eq!(user_tab(Some("activity")), UserTab::Activity);
    assert_eq!(user_tab(Some("permissions")), UserTab::Permissions);
    assert_eq!(user_tab(Some("sessions")), UserTab::Sessions);
    assert_eq!(user_tab(Some("Sessions")), UserTab::Overview);
    assert_eq!(user_tab(None), UserTab::Overview);
    assert_eq!(tab_name(UserTab::Activity), "activity");
}

#[test]
fn activity_paging_clamps_the_page() {
    assert_eq!(activity_paging(0, 1), (1, 1, 0));
    assert_eq!(activity_paging(50, 2), (1, 1, 0));
    assert_eq!(activity_paging(51, 2), (2, 2, 50));
    assert_eq!(activity_paging(120, 9), (3, 3, 100));
    assert_eq!(activity_paging(120, -4), (1, 3, 0));
}

#[test]
fn display_name_prefers_a_non_blank_full_name() {
    assert_eq!(display_name(Some("Ada Lovelace"), "ada@example.com"), "Ada Lovelace");
    assert_eq!(display_name(Some("   "), "ada.lovelace@example.com"), "Ada Lovelace");
    assert_eq!(display_name(None, "ada.lovelace@example.com"), "Ada Lovelace");
}
