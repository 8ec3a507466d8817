use rustio_admin::error::AdminError;
use rustio_admin::recovery::LockDuration;
use rustio_admin::user_actions::{
    action_page_title, action_path_suffix, action_texts, lock_form_check, reason_check,
    revoke_one_session_check, user_action_path, ActionKind,
};

#[test]
fn confirm_action_urls_and_texts() {
    assert_eq!(action_path_suffix(ActionKind::Unlock), "unlock");
    assert_eq!(action_path_suffix(ActionKind::Revoke), "revoke-sessions");
    assert_eq!(user_action_path(42, action_path_suffix(ActionKind::Revoke)), "/admin/users/42/revoke-sessions");
    assert_eq!(user_action_path(42, "lock"), "/admin/users/42/lock");
    let (title, _, submit) = action_texts(ActionKind::Unlock);
    assert_eq!(title, "Unlock account");
    assert_eq!(submit, "Unlock account");
    assert_eq!(action_texts(ActionKind::Revoke).0, "Revoke all sessions");
    assert_eq!(action_page_title("Lock account", "a@b.c"), "Lock account — a@b.c");
}

#[test]
fn reason_needs_eight_characters() {
    assert_eq!(reason_check("short").errors, vec!["Reason must be at least 8 characters.".to_string()]);
    assert_eq!(reason_check("short").field_errors[0].0, "reason");
    assert!(reason_check("phished!").errors.is_empty());
    assert!(reason_check("éééééééé").errors.is_empty());
}

#[test]
fn lock_form_collects_reason_and_duration_errors() {
    let (c, d) = lock_form_check("short", "forever", "");
    assert_eq!(c.errors.len(), 2);
    assert_eq!(c.errors[1], "Unknown duration: \"forever\".");
    assert_eq!(c.field_errors[1].0, "duration");
    assert!(d.is_none());
    let (c, d) = lock_form_check("suspicious logins", "freeform", "90");
    assert!(c.errors.is_empty());
    assert_eq!(d, Some(LockDuration::Minutes(90)));
    let (c, d) = lock_form_check("tiny", "1h", "");
    assert_eq!(c.errors.len(), 1);
    assert_eq!(d, Some(LockDuration::OneHour));
}

#[test]
fn revoking_one_session_checks_owner_and_own_session() {
    assert!(revoke_one_session_check(7, 99, Some(7), Some(12)).is_ok());
    assert!(revoke_one_session_check(7, 99, Some(7), None).is_ok());
    match revoke_one_session_check(7, 99, Some(8), None) {
        Err(e @ AdminError::NotFound(_)) => {
            assert_eq!(e.client_message(), "session #99 for user #7");
            assert_eq!(e.status(), 404);
        }
        other => panic!("expected not found, got {other:?}"),
    }
    assert!(matches!(revoke_one_session_check(7, 99, None, None), Err(AdminError::NotFound(_))));
    match revoke_one_session_check(7, 99, Some(7), Some(99)) {
        Err(e @ AdminError::BadRequest(_)) => assert_eq!(e.status(), 400),
        other => panic!("expected bad request, got {other:?}"),
    }
}
