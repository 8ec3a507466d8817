use rustio_admin::auth::Role;
use rustio_admin::cli::{
    build_summary, should_run, choose_db_name, choose_project_name, choose_project_type, project_type_hint,
    effective_ttl_minutes, inactive_target_refusal, sole_administrator_refusal, vanished_message, EmergencyOp,
    user_list_header, user_list_line, validate_db_name, validate_project_name, CliRole, PROJECT_TYPES,
};

#[test]
fn summary_short_reason_pass_through() {
    let s = build_summary("reset-password", "lost MFA device");
    assert_eq!(s, "reset-password: lost MFA device");
}

#[test]
fn summary_truncates_at_200_chars_with_ellipsis() {
    let long = "x".repeat(250);
    let s = build_summary("reset-password", &long);
    assert!(s.ends_with('…'));
    let body = s.trim_start_matches("reset-password: ");
    let body = body.trim_end_matches('…');
    assert_eq!(body.chars().count(), 200);
}

#[test]
fn summary_handles_unicode() {
    let reason = "räddade en ångbåt".to_string();
    let s = build_summary("reset-password", &reason);
    assert_eq!(s, format!("reset-password: {reason}"));
}

#[test]
fn validate_db_name_accepts_typical_names() {
    for n in &["clinic_dev", "school_2026", "inventory", "a_b_c", "x1"] {
        assert!(validate_db_name(n).is_ok(), "should accept {n}");
    }
}

#[test]
fn validate_db_name_rejects_bad_names() {
    for n in &[
        "",
        "1clinic",
        "clinic-dev",
        "clinic.dev",
        "clinic dev",
        "postgres",
        "TEMPLATE0",
        "Template1",
    ] {
        assert!(validate_db_name(n).is_err(), "should reject {n:?}");
    }
}

#[test]
fn validate_db_name_enforces_63_byte_limit() {
    let ok = "a".repeat(63);
    let too_long = "a".repeat(64);
    assert!(validate_db_name(&ok).is_ok(), "63 chars must be accepted");
    assert!(validate_db_name(&too_long).is_err(), "64 chars must be rejected");
}

#[test]
fn validate_project_name_mirrors_scaffold_semantics() {
    for ok in &["my-app", "my_app", "MyApp", "app1"] {
        assert!(validate_project_name(ok).is_ok(), "should accept {ok}");
    }
    for bad in &["", "1app", "my app", "my/app"] {
        assert!(validate_project_name(bad).is_err(), "should reject {bad:?}");
    }
}

#[test]
fn project_types_list_starts_with_custom() {
    assert_eq!(PROJECT_TYPES.first(), Some(&"custom"));
}

// ---- additional cases ----

#[test]
fn reserved_name_message_quotes_the_name() {
    assert_eq!(
        validate_db_name("Postgres").unwrap_err(),
        "'Postgres' is reserved by PostgreSQL -- pick a different name"
    );
    assert_eq!(
        validate_project_name("1x").unwrap_err(),
        "project name may not start with a digit"
    );
}

#[test]
fn wizard_project_type_answers() {
    assert_eq!(choose_project_type(""), Some("custom"));
    assert_eq!(choose_project_type("3"), Some("clinic"));
    assert_eq!(choose_project_type("+4"), Some("blog"));
    assert_eq!(choose_project_type("5"), None);
    assert_eq!(choose_project_type("0"), None);
    assert_eq!(choose_project_type("BLOG"), Some("blog"));
    assert_eq!(choose_project_type("Translation-Agency"), Some("translation-agency"));
    assert_eq!(choose_project_type("wiki"), None);
    assert_eq!(project_type_hint("clinic"), "example models — patients, appointments");
    assert_eq!(project_type_hint("custom"), "clean slate (no models yet)");
}

#[test]
fn wizard_name_and_database_answers() {
    assert_eq!(choose_project_name("", Some("clinic")).unwrap(), "clinic");
    assert_eq!(choose_project_name("", None).unwrap_err(), "Project name is required.");
    assert!(choose_project_name("my app", None).is_err());
    assert_eq!(choose_db_name("", "clinic").unwrap(), "clinic_dev");
    assert!(choose_db_name("", "my-app").is_err());
    assert_eq!(choose_db_name("prod_db", "x").unwrap(), "prod_db");
}

#[test]
fn cli_role_converts_to_role() {
    assert_eq!(Role::from(CliRole::Administrator), Role::Administrator);
    assert_eq!(Role::from(CliRole::User).as_str(), "user");
}

#[test]
fn should_run_respects_no_interactive_flag() {
    assert!(!should_run(true, false, true, true), "--no-interactive must always bypass");
    assert!(!should_run(false, true, true, true));
    assert!(!should_run(false, false, false, true));
    assert!(!should_run(false, false, true, false));
    assert!(should_run(false, false, true, true));
}

#[test]
fn user_list_table_lines_are_padded() {
    assert_eq!(
        user_list_header(),
        format!("{:>4}  {:<32}  {:<14}  {:<6}  CREATED", "ID", "EMAIL", "ROLE", "ACTIVE")
    );
    assert_eq!(
        user_list_line(7, "ada@example.com", "administrator", true, "2024-01-02 03:04 UTC"),
        format!(
            "{:>4}  {:<32}  {:<14}  {:<6}  {}",
            7, "ada@example.com", "administrator", "yes", "2024-01-02 03:04 UTC"
        )
    );
    assert_eq!(
        user_list_line(123456, "élodie@example.com", "staff", false, "x"),
        format!("{:>4}  {:<32}  {:<14}  {:<6}  {}", 123456, "élodie@example.com", "staff", "no", "x")
    );
}

#[test]
fn emergency_refusals_name_the_operation() {
    assert_eq!(
        vanished_message(EmergencyOp::ResetPassword, "a@b.c"),
        "User vanished between lookup and reset; no rows changed (email=a@b.c)"
    );
    assert_eq!(
        vanished_message(EmergencyOp::DisableMfa, "a@b.c"),
        "User vanished between lookup and disable_mfa; no rows changed (email=a@b.c)"
    );
    assert_eq!(
        vanished_message(EmergencyOp::EmergencyAccess, "a@b.c"),
        "User vanished between lookup and emergency_access; no token issued (email=a@b.c)"
    );
    assert!(sole_administrator_refusal("a@b.c").starts_with("Refused: a@b.c is the sole active administrator;"));
    assert!(inactive_target_refusal("a@b.c").starts_with("Refused: a@b.c is deactivated."));
    assert_eq!(effective_ttl_minutes(15), 15);
    assert_eq!(effective_ttl_minutes(0), 1);
    assert_eq!(effective_ttl_minutes(-5), 1);
    assert_eq!(effective_ttl_minutes(600), 60);
}
