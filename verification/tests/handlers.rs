use rustio_admin::error::AdminError;
use rustio_admin::filters::{AdminField, FieldType};
use rustio_admin::handlers::{
    compute_row_diff, format_ymd, guess_content_type, login_flash_for_query, parse_active_sort,
    parse_bulk_ids, parse_date_yyyy_mm_dd, parse_i64_chars, redirect_after_save,
    revoke_session_verdict, sanitise_upload_filename, short_weekday, submit_intent,
    weekday_short_name, EditRow, SubmitIntent, forwarded_ip, revocation_summary,
    bulk_action_commits, bulk_action_summary, bulk_audit_action, resolve_bulk_action,
    add_search_hits, change_permission, export_csv_body, lookup_limit, row_label, search_term,
    SearchResult, SEARCH_TOTAL_LIMIT,
};
use rustio_admin::json_api::ListRow;
use rustio_admin::audit::ActionType;
use rustio_admin::bulk::{BulkActionFailure, BulkActionResult};
use rustio_admin::modeladmin::BulkAction;
use rustio_admin::modeladmin::SortDir;

// ---- login flash ----

#[test]
fn no_query_params_produces_no_flash() {
    assert!(login_flash_for_query(false, None).is_none());
}

#[test]
fn logout_flag_produces_signed_out_flash() {
    let f = login_flash_for_query(true, None).expect("logout produces flash");
    assert_eq!(f.kind, "success");
    assert!(
        f.message.contains("signed out"),
        "logout flash missing expected wording: {}",
        f.message
    );
}

#[test]
fn password_reset_success_produces_locked_flash_copy() {
    let f = login_flash_for_query(false, Some("success")).expect("reset success → flash");
    assert_eq!(f.kind, "success");
    assert_eq!(
        f.message,
        "Your password has been updated. Sign in with your new password."
    );
}

#[test]
fn unknown_password_reset_value_falls_through_silently() {
    assert!(login_flash_for_query(false, Some("garbage")).is_none());
    assert!(login_flash_for_query(false, Some("")).is_none());
    assert!(login_flash_for_query(false, Some("Success")).is_none());
}

#[test]
fn logout_takes_precedence_over_password_reset_when_both_present() {
    let f = login_flash_for_query(true, Some("success")).expect("flash present");
    assert!(
        f.message.contains("signed out"),
        "expected logout wording when both flags present: {}",
        f.message
    );
}

// ---- session revoke guard ----

#[test]
fn blocks_revoking_current_session() {
    let r = revoke_session_verdict(42, Some(42));
    assert!(matches!(r, Err(AdminError::BadRequest(_))));
}

#[test]
fn allows_revoking_different_session() {
    assert!(revoke_session_verdict(42, Some(99)).is_ok());
}

#[test]
fn allows_when_no_current_session_resolved() {
    assert!(revoke_session_verdict(42, None).is_ok());
}

#[test]
fn error_message_directs_user_to_revoke_all() {
    let err = revoke_session_verdict(42, Some(42)).unwrap_err();
    let msg = err.client_message();
    assert!(
        msg.contains("Sign out everywhere"),
        "error must direct user to the right action: {msg}"
    );
}

// ---- date filter values ----

#[test]
fn accepts_canonical_form() {
    assert_eq!(parse_date_yyyy_mm_dd("2026-05-19"), Some("2026-05-19".to_string()),);
}

#[test]
fn trims_whitespace() {
    assert_eq!(parse_date_yyyy_mm_dd("  2026-01-01\t"), Some("2026-01-01".to_string()),);
}

#[test]
fn rejects_empty_and_garbage() {
    assert_eq!(parse_date_yyyy_mm_dd(""), None);
    assert_eq!(parse_date_yyyy_mm_dd("   "), None);
    assert_eq!(parse_date_yyyy_mm_dd("not-a-date"), None);
    assert_eq!(parse_date_yyyy_mm_dd("2026/05/19"), None);
    assert_eq!(parse_date_yyyy_mm_dd("2026-02-30"), None);
    assert_eq!(parse_date_yyyy_mm_dd("2026-01-01' OR '1'='1"), None);
}

#[test]
fn normalises_unpadded_input_to_canonical_form() {
    assert_eq!(parse_date_yyyy_mm_dd("2026-1-1"), Some("2026-01-01".to_string()),);
}

#[test]
fn format_ymd_pads_and_signs_years() {
    assert_eq!(format_ymd(2026, 5, 9), "2026-05-09");
    assert_eq!(format_ymd(987, 12, 31), "0987-12-31");
    assert_eq!(format_ymd(0, 1, 1), "0000-01-01");
    assert_eq!(format_ymd(-5, 3, 14), "-0005-03-14");
    assert_eq!(format_ymd(12345, 1, 2), "+12345-01-02");
}

// ---- update diff ----

fn field(name: &'static str, label: &'static str, field_type: FieldType, editable: bool) -> AdminField {
    AdminField { name, label, field_type, editable, relation: None, choices: None }
}

fn row(values: &[(&str, &str)]) -> EditRow {
    EditRow {
        id: 1,
        values: values.iter().map(|(k, v)| (k.to_string(), v.to_string())).collect(),
    }
}

#[test]
fn diff_reports_changed_fields_only() {
    let fields = [
        field("title", "Title", FieldType::String, true),
        field("body", "Body", FieldType::String, true),
        field("slug", "Slug", FieldType::String, true),
    ];
    let before = row(&[("title", "Old"), ("body", "Same"), ("slug", "alpha")]);
    let after = row(&[("title", "New"), ("body", "Same"), ("slug", "beta")]);
    let diff = compute_row_diff(&fields, &before, &after);
    let names: Vec<&str> = diff.iter().map(|c| c.field.as_str()).collect();
    assert_eq!(names, vec!["title", "slug"]);
    assert_eq!(diff[0].label, "Title");
    assert_eq!(diff[0].from, "Old");
    assert_eq!(diff[0].to, "New");
}

#[test]
fn diff_skips_non_editable_fields() {
    let fields = [
        field("title", "Title", FieldType::String, true),
        field("updated_at", "Updated at", FieldType::DateTime, false),
    ];
    let before = row(&[("title", "A"), ("updated_at", "2026-01-01T00:00:00Z")]);
    let after = row(&[("title", "B"), ("updated_at", "2026-05-19T12:34:56Z")]);
    let diff = compute_row_diff(&fields, &before, &after);
    let names: Vec<&str> = diff.iter().map(|c| c.field.as_str()).collect();
    assert_eq!(names, vec!["title"]);
}

#[test]
fn diff_handles_unset_to_set_transition() {
    let fields = [field("subtitle", "Subtitle", FieldType::OptionalString, true)];
    let before = row(&[("subtitle", "")]);
    let after = row(&[("subtitle", "Now set")]);
    let diff = compute_row_diff(&fields, &before, &after);
    assert_eq!(diff.len(), 1);
    assert_eq!(diff[0].from, "");
    assert_eq!(diff[0].to, "Now set");
}

#[test]
fn diff_empty_when_nothing_changed() {
    let fields = [field("title", "Title", FieldType::String, true)];
    let before = row(&[("title", "Same")]);
    let after = row(&[("title", "Same")]);
    let diff = compute_row_diff(&fields, &before, &after);
    assert!(diff.is_empty());
}

#[test]
fn diff_reads_missing_column_as_empty_and_last_duplicate_wins() {
    let fields = [field("note", "Note", FieldType::String, true)];
    let before = row(&[]);
    let after = row(&[("note", "x"), ("note", "")]);
    assert!(compute_row_diff(&fields, &before, &after).is_empty());
    let after2 = row(&[("note", ""), ("note", "y")]);
    let diff = compute_row_diff(&fields, &before, &after2);
    assert_eq!(diff.len(), 1);
    assert_eq!(diff[0].to, "y");
}

// ---- upload filenames ----

#[test]
fn plain_ascii_name_passes_through() {
    assert_eq!(sanitise_upload_filename("photo.png"), "photo.png");
    assert_eq!(sanitise_upload_filename("Report-2026_v2.pdf"), "Report-2026_v2.pdf");
}

#[test]
fn strips_unix_and_windows_path_components() {
    assert_eq!(sanitise_upload_filename("/etc/passwd"), "passwd");
    assert_eq!(sanitise_upload_filename("../../escape.png"), "escape.png");
    assert_eq!(sanitise_upload_filename("C:\\Users\\admin\\evil.exe"), "evil.exe");
}

#[test]
fn replaces_unsafe_chars_with_underscore() {
    assert_eq!(sanitise_upload_filename("hello world.png"), "hello_world.png");
    assert_eq!(sanitise_upload_filename("a;b&c.txt"), "a_b_c.txt");
    assert_eq!(sanitise_upload_filename("résumé.pdf"), "r_sum_.pdf");
}

#[test]
fn trims_leading_dots() {
    assert_eq!(sanitise_upload_filename(".htaccess"), "htaccess");
    assert_eq!(sanitise_upload_filename(" .htaccess"), "htaccess");
    assert_eq!(sanitise_upload_filename("  ..env  "), "env");
    assert_eq!(sanitise_upload_filename("...secret"), "secret");
}

#[test]
fn caps_length() {
    let long = "a".repeat(500);
    let out = sanitise_upload_filename(&long);
    assert_eq!(out.chars().count(), 120);
}

#[test]
fn empty_or_pathological_falls_back_to_file() {
    assert_eq!(sanitise_upload_filename(""), "file");
    assert_eq!(sanitise_upload_filename("///"), "file");
    assert_eq!(sanitise_upload_filename("..."), "file");
}

#[test]
fn sanitise_trims_whitespace_after_dots() {
    assert_eq!(sanitise_upload_filename(". .x "), "_.x");
    assert_eq!(sanitise_upload_filename(".. report .pdf"), "_report_.pdf");
    assert_eq!(sanitise_upload_filename("  . .x"), "_.x");
}

// ---- content types ----

#[test]
fn guess_content_type_maps_known_extensions() {
    assert_eq!(guess_content_type("photo.PNG"), "image/png");
    assert_eq!(guess_content_type("a.b.JpEg"), "image/jpeg");
    assert_eq!(guess_content_type("notes.log"), "text/plain; charset=utf-8");
    assert_eq!(guess_content_type("export.csv"), "text/csv; charset=utf-8");
    assert_eq!(guess_content_type("pdf"), "application/pdf");
    assert_eq!(guess_content_type("archive.tar.gz"), "application/octet-stream");
    assert_eq!(guess_content_type("noext."), "application/octet-stream");
}

// ---- save routing ----

fn form(keys: &[&str]) -> Vec<(String, String)> {
    keys.iter().map(|k| (k.to_string(), String::new())).collect()
}

#[test]
fn submit_intent_prefers_continue_then_add_another() {
    assert_eq!(submit_intent(&form(&["_save"])), SubmitIntent::Save);
    assert_eq!(submit_intent(&form(&["_addanother"])), SubmitIntent::AddAnother);
    assert_eq!(submit_intent(&form(&["_addanother", "_continue"])), SubmitIntent::Continue);
    assert_eq!(submit_intent(&form(&[])), SubmitIntent::Save);
}

#[test]
fn redirect_after_save_targets() {
    assert_eq!(redirect_after_save(SubmitIntent::Save, "posts", 7), "/admin/posts");
    assert_eq!(redirect_after_save(SubmitIntent::Continue, "posts", 7), "/admin/posts/7/edit");
    assert_eq!(redirect_after_save(SubmitIntent::AddAnother, "posts", 7), "/admin/posts/new");
}

// ---- bulk ids ----

#[test]
fn parse_bulk_ids_skips_garbage_and_non_positive() {
    assert_eq!(parse_bulk_ids("1, 2,abc,,-3,0, +4 ,5"), vec![1, 2, 4, 5]);
    assert_eq!(parse_bulk_ids(""), Vec::<i64>::new());
    assert_eq!(parse_bulk_ids("9223372036854775807,9223372036854775808"), vec![i64::MAX]);
}

#[test]
fn parse_bulk_ids_caps_at_one_thousand() {
    let raw: Vec<String> = (1..=1500).map(|n: i64| n.to_string()).collect();
    let ids = parse_bulk_ids(&raw.join(","));
    assert_eq!(ids.len(), 1000);
    assert_eq!(ids[0], 1);
    assert_eq!(ids[999], 1000);
}

#[test]
fn parse_i64_chars_matches_from_str() {
    for s in ["0", "-0", "+7", "-9223372036854775808", "9223372036854775807", "-", "+", "", "1a", " 1", "9223372036854775808", "-9223372036854775809"] {
        let v: Vec<char> = s.chars().collect();
        assert_eq!(parse_i64_chars(&v), s.parse::<i64>().ok(), "{s:?}");
    }
}

// ---- list sorting ----

#[test]
fn parse_active_sort_validates_column_and_direction() {
    let fields = [
        field("title", "Title", FieldType::String, true),
        field("created_at", "Created", FieldType::DateTime, false),
    ];
    assert_eq!(parse_active_sort(&fields, None, Some("desc")), None);
    assert_eq!(parse_active_sort(&fields, Some("  "), None), None);
    assert_eq!(parse_active_sort(&fields, Some("password"), None), None);
    assert_eq!(
        parse_active_sort(&fields, Some(" title "), Some("DESC")),
        Some(("title".to_string(), SortDir::Desc))
    );
    assert_eq!(
        parse_active_sort(&fields, Some("created_at"), Some("asc")),
        Some(("created_at".to_string(), SortDir::Asc))
    );
    assert_eq!(
        parse_active_sort(&fields, Some("created_at"), Some("down")),
        Some(("created_at".to_string(), SortDir::Desc))
    );
    assert_eq!(
        parse_active_sort(&fields, Some("title"), None),
        Some(("title".to_string(), SortDir::Asc))
    );
}

// ---- weekday labels ----

#[test]
fn weekday_labels_are_three_letters_from_monday() {
    assert_eq!(weekday_short_name(0), "Mon");
    assert_eq!(weekday_short_name(6), "Sun");
    assert_eq!(short_weekday(chrono::Weekday::Mon), "Mon");
    assert_eq!(short_weekday(chrono::Weekday::Wed), "Wed");
    assert_eq!(short_weekday(chrono::Weekday::Sun), "Sun");
}

#[test]
fn revocation_audit_helpers() {
    assert_eq!(revocation_summary(17, "revoke_one"), "session 17 revoked by user (via revoke_one)");
    assert_eq!(forwarded_ip(Some(" 1.2.3.4 , 5.6.7.8")), Some("1.2.3.4".to_string()));
    assert_eq!(forwarded_ip(Some("  ,1.1.1.1")), None);
    assert_eq!(forwarded_ip(None), None);
}

#[test]
fn sanitised_names_only_hold_safe_characters() {
    for raw in ["../../etc/pass wd", "C:\\x\\ä.exe", "", "...", "a/b\\c d.txt"] {
        let out = sanitise_upload_filename(raw);
        assert!(!out.is_empty() && out.chars().count() <= 120);
        assert!(out.chars().all(|c| c.is_ascii_alphanumeric() || c == '.' || c == '_' || c == '-'), "{out}");
    }
}

#[test]
fn bulk_ids_are_positive_and_bounded() {
    let ids = parse_bulk_ids("0,-1,5,x,7");
    assert_eq!(ids, vec![5, 7]);
    assert!(ids.iter().all(|n| *n > 0));
}

const ACTIONS: &[BulkAction] = &[
    BulkAction { name: "archive", label: "Archive", destructive: false, confirm: true },
    BulkAction { name: "purge", label: "Purge", destructive: true, confirm: false },
];

#[test]
fn resolve_bulk_action_reserves_delete_and_finds_registered() {
    let e = resolve_bulk_action("posts", "delete", ACTIONS).unwrap_err();
    assert!(matches!(&e, AdminError::BadRequest(m) if m == "the action name `delete` is reserved — use POST /admin/:model/bulk_delete"));
    let e = resolve_bulk_action("posts", "nope", ACTIONS).unwrap_err();
    assert!(matches!(&e, AdminError::NotFound(m) if m == "bulk action `nope` is not registered on `posts`"));
    assert_eq!(resolve_bulk_action("posts", "purge", ACTIONS).unwrap().label, "Purge");
}

#[test]
fn bulk_action_commit_summary_and_audit_kind() {
    assert!(!bulk_action_commits(&ACTIONS[0], false));
    assert!(bulk_action_commits(&ACTIONS[0], true));
    assert!(bulk_action_commits(&ACTIONS[1], false));
    let r = BulkActionResult::partial(3, vec![BulkActionFailure::new(9, "locked")]);
    assert_eq!(bulk_action_summary("archive", "posts", &r), "bulk action `archive` on posts: 3 succeeded, 1 failed");
    let r = BulkActionResult::ok(2).with_message("Archived two posts.");
    assert_eq!(bulk_action_summary("archive", "posts", &r), "Archived two posts.");
    assert_eq!(bulk_audit_action(&ACTIONS[0]), ActionType::Update);
    assert_eq!(bulk_audit_action(&ACTIONS[1]), ActionType::Delete);
}

#[test]
fn export_csv_body_writes_header_then_rows() {
    let rows = vec![
        vec!["1".to_string(), "a,b".to_string()],
        vec!["2".to_string(), "say \"x\"".to_string()],
    ];
    assert_eq!(export_csv_body(&["Id", "Title"], &rows), "Id,Title\n1,\"a,b\"\n2,\"say \"\"x\"\"\"\n");
    assert_eq!(export_csv_body(&[], &[]), "\n");
}

#[test]
fn lookup_limit_defaults_and_clamps() {
    assert_eq!(lookup_limit(None), 20);
    assert_eq!(lookup_limit(Some("abc")), 20);
    assert_eq!(lookup_limit(Some("0")), 1);
    assert_eq!(lookup_limit(Some("-4")), 1);
    assert_eq!(lookup_limit(Some("7")), 7);
    assert_eq!(lookup_limit(Some("500")), 50);
}

#[test]
fn row_label_falls_back_to_id() {
    let cells = vec!["1".to_string(), "".to_string(), "Anna".to_string()];
    assert_eq!(row_label(Some(2), &cells, 1), "Anna");
    assert_eq!(row_label(Some(1), &cells, 1), "#1");
    assert_eq!(row_label(Some(9), &cells, 3), "#3");
    assert_eq!(row_label(None, &cells, -2), "#-2");
}

#[test]
fn palette_term_and_permission() {
    assert_eq!(search_term(Some("  a ")), None);
    assert_eq!(search_term(None), None);
    assert_eq!(search_term(Some(" ab ")), Some("ab".to_string()));
    assert_eq!(search_term(Some("åä")), Some("åä".to_string()));
    assert_eq!(change_permission("blog_posts", "BlogPost"), "blog_posts.change_blogpost");
}

#[test]
fn search_hits_stop_at_the_palette_limit() {
    let mut results: Vec<SearchResult> = Vec::new();
    let rows: Vec<ListRow> = (1..=15).map(|i| ListRow { id: i, cells: vec![format!("row {i}")] }).collect();
    add_search_hits(&mut results, "posts", "Posts", Some(0), &rows);
    assert_eq!(results.len(), 15);
    assert_eq!(results[0].url, "/admin/posts/1/edit");
    assert_eq!(results[0].label, "row 1");
    add_search_hits(&mut results, "tags", "Tags", None, &rows);
    assert_eq!(results.len(), SEARCH_TOTAL_LIMIT);
    assert_eq!(results[15].label, "#1");
    assert_eq!(results[19].model_label, "Tags");
    add_search_hits(&mut results, "more", "More", None, &rows);
    assert_eq!(results.len(), SEARCH_TOTAL_LIMIT);
}
