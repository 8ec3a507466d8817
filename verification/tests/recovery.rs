use rustio_admin::recovery::{
    parse_lock_duration, reauth_redirect_for, reauth_redirect_for_path, redirect_after_reauth,
    validate_return_to, LockDuration, forgot_password_form_sections, reset_password_form_sections,
    AdminResetPasswordCtx,
};

#[test]
fn valid_internal_admin_paths_are_accepted() {
    for path in [
        "/admin",
        "/admin/",
        "/admin/users",
        "/admin/users/42/reset-password",
        "/admin/users/42/lock",
        "/admin?ok=1",
        "/admin/users?role=admin&page=2",
    ] {
        assert_eq!(validate_return_to(path), Some(path.to_string()), "expected accept for {path:?}");
    }
}

#[test]
fn external_urls_are_rejected() {
    for raw in [
        "https://evil.com/admin",
        "http://evil.com/admin",
        "//evil.com/admin",
        "//evil.com",
        r"\\evil.com\admin",
        "javascript:alert(1)",
        "data:text/html,<script>alert(1)</script>",
        "ftp://evil.com/admin",
    ] {
        assert!(validate_return_to(raw).is_none(), "expected reject for {raw:?}");
    }
}

#[test]
fn paths_outside_admin_surface_are_rejected() {
    for raw in [
        "/",
        "/login",
        "/admin-evil",
        "/admin\u{0000}/x",
        "/static/admin.css",
        "/api/users",
        "  /admin/users",
        "/Admin/users",
    ] {
        assert!(validate_return_to(raw).is_none(), "expected reject for {raw:?}");
    }
}

#[test]
fn path_traversal_is_rejected() {
    for raw in [
        "/admin/../etc/passwd",
        "/admin/users/..",
        "/admin/..//evil.com",
        "/admin/../../",
    ] {
        assert!(validate_return_to(raw).is_none(), "expected reject for {raw:?}");
    }
}

#[test]
fn malformed_inputs_are_rejected() {
    assert!(validate_return_to("").is_none());
    assert!(validate_return_to("/admin\r\nLocation: /evil").is_none());
    assert!(validate_return_to("/admin\n").is_none());
    assert!(validate_return_to("/admin\t").is_none());
    assert!(validate_return_to("/admin\x7f/").is_none());
}

#[test]
fn redirect_collapses_invalid_to_admin_dashboard() {
    assert_eq!(redirect_after_reauth(None), "/admin");
    assert_eq!(redirect_after_reauth(Some("")), "/admin");
    assert_eq!(redirect_after_reauth(Some("https://evil.com")), "/admin");
    assert_eq!(redirect_after_reauth(Some("//evil.com")), "/admin");
    assert_eq!(redirect_after_reauth(Some("/login")), "/admin");
}

#[test]
fn redirect_passes_valid_internal_paths() {
    assert_eq!(
        redirect_after_reauth(Some("/admin/users/42/reset-password")),
        "/admin/users/42/reset-password"
    );
    assert_eq!(redirect_after_reauth(Some("/admin")), "/admin");
    assert_eq!(redirect_after_reauth(Some("/admin?next=1")), "/admin?next=1");
}

#[test]
fn parse_lock_duration_accepts_locked_presets() {
    assert!(matches!(parse_lock_duration("15min", ""), Ok(LockDuration::FifteenMinutes)));
    assert!(matches!(parse_lock_duration("1h", ""), Ok(LockDuration::OneHour)));
    assert!(matches!(parse_lock_duration("24h", ""), Ok(LockDuration::TwentyFourHours)));
    assert!(matches!(parse_lock_duration("7d", ""), Ok(LockDuration::SevenDays)));
    assert!(matches!(parse_lock_duration("indefinite", ""), Ok(LockDuration::Indefinite)));
}

#[test]
fn parse_lock_duration_freeform_accepts_positive_minutes() {
    assert!(matches!(parse_lock_duration("freeform", "30"), Ok(LockDuration::Minutes(30))));
    assert!(matches!(parse_lock_duration("freeform", "  120  "), Ok(LockDuration::Minutes(120))));
}

#[test]
fn parse_lock_duration_freeform_rejects_zero_negative_garbage() {
    assert!(parse_lock_duration("freeform", "0").is_err());
    assert!(parse_lock_duration("freeform", "").is_err());
    assert!(parse_lock_duration("freeform", "abc").is_err());
    assert!(parse_lock_duration("freeform", "-1").is_err());
    assert!(parse_lock_duration("freeform", "1.5").is_err());
}

#[test]
fn parse_lock_duration_rejects_unknown_preset() {
    assert!(parse_lock_duration("forever", "").is_err());
    assert!(parse_lock_duration("", "").is_err());
    assert!(parse_lock_duration("1H", "").is_err());
}

#[test]
fn parse_lock_duration_freeform_overflow_rejected() {
    let very_big = "4294967296";
    assert!(parse_lock_duration("freeform", very_big).is_err());
}

// ---- additional cases ----

#[test]
fn lock_duration_error_texts() {
    assert_eq!(
        parse_lock_duration("freeform", "0").unwrap_err(),
        "Freeform duration must be at least 1 minute."
    );
    assert_eq!(
        parse_lock_duration("freeform", "x").unwrap_err(),
        "Enter a whole number of minutes."
    );
    assert_eq!(
        parse_lock_duration("forever", "").unwrap_err(),
        "Unknown duration: \"forever\"."
    );
    assert!(matches!(
        parse_lock_duration("freeform", "+4294967295"),
        Ok(LockDuration::Minutes(4294967295))
    ));
}

#[test]
fn reauth_bounce_percent_encodes_the_path() {
    assert_eq!(
        reauth_redirect_for(42),
        "/admin/reauth?return_to=%2Fadmin%2Fusers%2F42%2Freset-password"
    );
    assert_eq!(
        reauth_redirect_for_path("/admin/x y?é"),
        "/admin/reauth?return_to=%2Fadmin%2Fx%20y%3F%C3%A9"
    );
}

#[test]
fn reset_password_form_renders_live_policy_minimum() {
    let sections = reset_password_form_sections(10, &[]);
    assert_eq!(sections.len(), 1);
    let section = &sections[0];
    assert_eq!(section.fields.len(), 2);
    let pw1 = &section.fields[0];
    assert_eq!(pw1.name, "new_password1");
    assert_eq!(
        pw1.hint.as_deref(),
        Some("At least 10 characters."),
        "hint must reflect the live policy minimum"
    );
    let sections = reset_password_form_sections(16, &[]);
    assert_eq!(sections[0].fields[0].hint.as_deref(), Some("At least 16 characters."),);
}

#[test]
fn reset_password_form_routes_field_errors_to_named_field() {
    let sections = reset_password_form_sections(
        10,
        &[("new_password1", "policy err".into()), ("new_password2", "match err".into())],
    );
    assert_eq!(sections[0].fields[0].errors, vec!["policy err"]);
    assert_eq!(sections[0].fields[1].errors, vec!["match err"]);
}

#[test]
fn forgot_password_form_has_only_email_field() {
    let sections = forgot_password_form_sections("");
    assert_eq!(sections.len(), 1);
    assert_eq!(sections[0].fields.len(), 1);
    assert_eq!(sections[0].fields[0].name, "email");
    assert_eq!(sections[0].fields[0].input_type, "email");
    assert!(sections[0].fields[0].autofocus);
}

#[test]
fn recovery_forms_keep_order_and_prefill() {
    let s = forgot_password_form_sections("a@b.c");
    assert_eq!(s[0].fields[0].value, "a@b.c");
    assert_eq!(s[0].fields[0].autocomplete, Some("username"));
    let s = reset_password_form_sections(
        12,
        &[("new_password2", "b".into()), ("other", "x".into()), ("new_password2", "c".into())],
    );
    assert!(s[0].fields[0].errors.is_empty());
    assert_eq!(s[0].fields[1].errors, vec!["b", "c"]);
    assert!(!s[0].fields[1].autofocus);
    assert_eq!(s[0].fields[1].label, "Confirm");
}

#[test]
fn admin_reset_password_form_state() {
    let c = AdminResetPasswordCtx::form(
        7,
        "ann@x.io".to_string(),
        "lost device".to_string(),
        "email".to_string(),
        vec!["bad".to_string()],
        vec![("reason".to_string(), vec!["too short".to_string()])],
    );
    assert_eq!(c.page_title, "Reset password — ann@x.io");
    assert_eq!(c.target_user_id, 7);
    assert!(!c.success);
    assert_eq!(c.errors, vec!["bad"]);
    assert_eq!(c.field_errors[0].1, vec!["too short"]);
    assert_eq!(c.mode, "email");
    assert!(c.temp_password.is_empty() && c.success_mode.is_empty() && c.email_status.is_empty());
    assert_eq!(c.revoked_session_count, 0);
}
