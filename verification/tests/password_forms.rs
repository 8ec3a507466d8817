use rustio_admin::password_forms::{
    admin_reset_check, must_change_password_account_check, must_change_password_check,
    password_change_check, session_target, trimmed_form_value, SessionTarget,
};

#[test]
fn rotation_reports_the_first_problem_only() {
    let c = must_change_password_check("", "", Some("too short"));
    assert_eq!(c.errors, vec!["Enter a new password.".to_string()]);
    assert_eq!(c.field_errors, vec![("new_password1", "Enter a new password.".to_string())]);
    let c = must_change_password_check("abc", "abd", None);
    assert_eq!(c.field_errors, vec![("new_password2", "Passwords do not match.".to_string())]);
    let c = must_change_password_check("abc", "abc", Some("Password must be at least 10 characters."));
    assert_eq!(
        c.field_errors,
        vec![("new_password1", "Password must be at least 10 characters.".to_string())]
    );
    let c = must_change_password_check("correct horse", "correct horse", None);
    assert!(c.errors.is_empty() && c.field_errors.is_empty());
}

#[test]
fn rotation_account_check_refuses_reuse_and_missing_account() {
    let c = must_change_password_account_check(false, true);
    assert_eq!(c.errors, vec!["Could not load your account. Please sign in again.".to_string()]);
    assert!(c.field_errors.is_empty());
    let c = must_change_password_account_check(true, true);
    assert_eq!(
        c.field_errors,
        vec![(
            "new_password1",
            "New password must be different from your current password.".to_string()
        )]
    );
    assert!(must_change_password_account_check(true, false).errors.is_empty());
}

#[test]
fn password_change_collects_every_problem_in_order() {
    let c = password_change_check(false, "a", "b", Some("weak"));
    assert_eq!(
        c.errors,
        vec![
            "Your old password was entered incorrectly. Please enter it again.".to_string(),
            "The two password fields didn't match.".to_string(),
            "weak".to_string(),
        ]
    );
    assert_eq!(c.field_errors[0].0, "old_password");
    assert_eq!(c.field_errors[1].0, "new_password2");
    assert_eq!(c.field_errors[2].0, "new_password1");
    let c = password_change_check(true, "same", "same", None);
    assert!(c.errors.is_empty());
}

#[test]
fn admin_reset_validates_reason_mode_and_target() {
    let c = admin_reset_check("short", "sms", "ada@example.com", false);
    assert_eq!(
        c.errors,
        vec![
            "Reason must be at least 8 characters.".to_string(),
            "Unknown mode: \"sms\".".to_string(),
            "ada@example.com is currently disabled. Re-enable the account before resetting."
                .to_string(),
        ]
    );
    assert_eq!(c.field_errors, vec![("reason", "Reason must be at least 8 characters.".to_string())]);
    let ok = admin_reset_check("locked out of MFA", "temp_pw", "ada@example.com", true);
    assert!(ok.errors.is_empty() && ok.field_errors.is_empty());
    assert!(admin_reset_check("12345678", "email", "x", true).errors.is_empty());
    assert_eq!(admin_reset_check("1234567", "email", "x", true).errors.len(), 1);
    assert_eq!(admin_reset_check("ééééééé", "email", "x", true).errors.len(), 1);
}

#[test]
fn form_values_default_and_trim() {
    assert_eq!(trimmed_form_value(None, "email"), "email");
    assert_eq!(trimmed_form_value(Some("  temp_pw \n"), "email"), "temp_pw");
    assert_eq!(trimmed_form_value(Some(""), "email"), "");
}

#[test]
fn session_target_spares_the_current_device_when_known() {
    assert_eq!(
        session_target(7, Some(42)),
        SessionTarget::UserExceptCurrent { user_id: 7, current_session_id: 42 }
    );
    assert_eq!(session_target(7, None), SessionTarget::User { user_id: 7 });
}
