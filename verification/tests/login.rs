use rustio_admin::login::{
    invalid_credentials, login_audit_text, login_step, throttle_lock_audit, LoginAction, LoginEvent,
};

#[test]
fn login_refuses_unknown_inactive_locked_and_wrong_password() {
    assert_eq!(
        login_step(LoginEvent::UserLookedUp { found: false, is_active: true }),
        LoginAction::Reject { audit_reason: None }
    );
    assert_eq!(
        login_step(LoginEvent::UserLookedUp { found: true, is_active: false }),
        LoginAction::Reject { audit_reason: Some("inactive") }
    );
    assert_eq!(
        login_step(LoginEvent::UserLookedUp { found: true, is_active: true }),
        LoginAction::CheckLock
    );
    assert_eq!(
        login_step(LoginEvent::LockChecked { locked: true }),
        LoginAction::Reject { audit_reason: Some("locked") }
    );
    assert_eq!(login_step(LoginEvent::LockChecked { locked: false }), LoginAction::VerifyPassword);
    assert_eq!(
        login_step(LoginEvent::PasswordChecked { ok: false, mfa_enabled: true }),
        LoginAction::Reject { audit_reason: Some("wrong_password") }
    );
    assert_eq!(invalid_credentials(), "Invalid email or password.");
}

#[test]
fn login_success_redirects_to_mfa_when_enrolled() {
    assert_eq!(
        login_step(LoginEvent::PasswordChecked { ok: true, mfa_enabled: true }),
        LoginAction::SignIn { redirect_to: "/admin/mfa/verify" }
    );
    assert_eq!(
        login_step(LoginEvent::PasswordChecked { ok: true, mfa_enabled: false }),
        LoginAction::SignIn { redirect_to: "/admin" }
    );
}

#[test]
fn login_audit_summaries() {
    assert_eq!(login_audit_text(true, None, "a@b.c"), "signed in: a@b.c");
    assert_eq!(login_audit_text(false, Some("locked"), "a@b.c"), "failed sign-in (locked): a@b.c");
    assert_eq!(login_audit_text(false, None, "a@b.c"), "failed sign-in: a@b.c");
    let (summary, reason) = throttle_lock_audit("a@b.c", 5, 15);
    assert_eq!(summary, "auto-throttle locked user a@b.c after 5 failed logins");
    assert_eq!(reason, "auto-throttle: 5 failed logins within 15 minutes");
}
