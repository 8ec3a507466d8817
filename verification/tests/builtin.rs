use rustio_admin::builtin::{build_permission_matrix, client_ip, html_escape, humanise_table, humanize_email, looks_like_email, PermRow};

#[test]
fn looks_like_email_accepts_simple() {
    assert!(looks_like_email("alice@example.com"));
    assert!(looks_like_email("a.b+c@example.io"));
}

#[test]
fn looks_like_email_rejects_malformed() {
    assert!(!looks_like_email(""));
    assert!(!looks_like_email("alice"));
    assert!(!looks_like_email("alice@"));
    assert!(!looks_like_email("@example.com"));
    assert!(!looks_like_email("alice@example"));
    assert!(!looks_like_email("alice@.com"));
}

#[test]
fn humanize_email_capitalises_local_part() {
    assert_eq!(humanize_email("alice.smith@example.com"), "Alice Smith");
    assert_eq!(humanize_email("bob_jones@x.com"), "Bob Jones");
    assert_eq!(humanize_email("anna-may@x.com"), "Anna May");
}

#[test]
fn humanize_email_falls_back_to_full_string() {
    assert_eq!(humanize_email("alice"), "Alice");
    assert_eq!(humanize_email(""), "");
}

#[test]
fn html_escape_handles_each_entity() {
    assert_eq!(html_escape("<b>&\"</b>"), "&lt;b&gt;&amp;&quot;&lt;/b&gt;");
    assert_eq!(html_escape("plain"), "plain");
}

#[test]
fn looks_like_email_trims_and_splits_at_last_dot() {
    assert!(looks_like_email("  alice@mail.example.com \n"));
    assert!(!looks_like_email("alice@example."));
    assert!(looks_like_email("a@b@c.d"));
}

#[test]
fn humanize_email_drops_empty_pieces_and_uses_unicode_upper() {
    assert_eq!(humanize_email("..__@x.com"), "..__@x.com");
    assert_eq!(humanize_email("a..b@x"), "A B");
    assert_eq!(humanize_email("ärla@x.se"), "Ärla");
    assert_eq!(humanize_email("ßen@x.de"), "SSen");
}

#[test]
fn humanise_table_title_cases_snake_case() {
    assert_eq!(humanise_table("rustio_users"), "Rustio Users");
    assert_eq!(humanise_table(""), "");
    assert_eq!(humanise_table("a__b"), "A  B");
}

#[test]
fn client_ip_prefers_first_forwarded_entry() {
    assert_eq!(client_ip(Some(" 10.0.0.1 , 10.0.0.2"), Some("9.9.9.9")), Some("10.0.0.1".to_string()));
    assert_eq!(client_ip(Some("10.0.0.3"), None), Some("10.0.0.3".to_string()));
    assert_eq!(client_ip(None, Some("9.9.9.9")), Some("9.9.9.9".to_string()));
    assert_eq!(client_ip(None, None), None);
}

fn perm(id: i64, name: &str) -> PermRow {
    PermRow { id, name: name.to_string() }
}

#[test]
fn permission_matrix_groups_by_table_in_order() {
    let all = vec![
        perm(1, "posts.view_post"),
        perm(2, "posts.add_post"),
        perm(3, "authors.delete_author"),
        perm(4, "reports.export"),
        perm(5, "cashiers.change_cashier"),
        perm(6, "plain"),
        perm(7, "posts.view_post_again"),
        perm(8, "blog_posts.view_blog_post"),
    ];
    let m = build_permission_matrix(&all, &[2, 5, 99]);
    assert_eq!(m.columns, ["view", "add", "change", "delete"]);
    let labels: Vec<&str> = m.rows.iter().map(|r| r.label.as_str()).collect();
    assert_eq!(labels, vec!["Authors", "Blog Posts", "Cashiers", "Posts"]);
    let posts = &m.rows[3];
    assert_eq!(posts.cells.len(), 4);
    let view = posts.cells[0].as_ref().unwrap();
    assert_eq!((view.id, view.name.as_str(), view.checked), (1, "posts.view_post", false));
    let add = posts.cells[1].as_ref().unwrap();
    assert_eq!((add.id, add.checked), (2, true));
    assert!(posts.cells[2].is_none() && posts.cells[3].is_none());
    assert!(m.rows[2].cells[2].as_ref().unwrap().checked);
    let extras: Vec<i64> = m.extras.iter().map(|c| c.id).collect();
    assert_eq!(extras, vec![4, 6, 7]);
    let cells = m.rows.iter().flat_map(|r| r.cells.iter().flatten()).count();
    assert_eq!(cells + m.extras.len(), all.len(), "no permission is dropped");
}

#[test]
fn permission_matrix_of_nothing_is_empty() {
    let m = build_permission_matrix(&[], &[]);
    assert!(m.rows.is_empty());
    assert!(m.extras.is_empty());
    let m = build_permission_matrix(&[perm(1, "Z.view_x"), perm(2, "a.view_x"), perm(3, "_.add_x")], &[]);
    let labels: Vec<&str> = m.rows.iter().map(|r| r.label.as_str()).collect();
    assert_eq!(labels, vec!["Z", " ", "A"]);
}

#[test]
fn escaped_html_is_inert() {
    let out = html_escape("<a href=\"x\">&</a>");
    assert!(!out.contains('<') && !out.contains('>') && !out.contains('"'));
    assert_eq!(out, "&lt;a href=&quot;x&quot;&gt;&amp;&lt;/a&gt;");
}
