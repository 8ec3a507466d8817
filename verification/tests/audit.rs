use rustio_admin::audit::{check_entry, ActionType, AuditEvent, LogEntry};
use rustio_admin::error::AdminError;

const ALL_AUDIT_EVENTS: &[AuditEvent] = &[
    AuditEvent::UserCreated,
    AuditEvent::UserUpdated,
    AuditEvent::UserDeleted,
    AuditEvent::GroupCreated,
    AuditEvent::GroupUpdated,
    AuditEvent::GroupDeleted,
    AuditEvent::PasswordChangedSelf,
    AuditEvent::PasswordResetSelfRequest,
    AuditEvent::PasswordResetSelfConsume,
    AuditEvent::PasswordResetByOther,
    AuditEvent::AccountLocked,
    AuditEvent::AccountUnlocked,
    AuditEvent::MfaEnabled,
    AuditEvent::MfaDisabled,
    AuditEvent::MfaResetByOther,
    AuditEvent::SessionsRevokedSelf,
    AuditEvent::SessionsRevokedByOther,
    AuditEvent::SessionLogout,
    AuditEvent::EmergencyRecovery,
];

#[test]
fn audit_event_strings_are_unique() {
    let mut set = std::collections::HashSet::new();
    for &e in ALL_AUDIT_EVENTS {
        assert!(set.insert(e.as_str()), "duplicate as_str() for {e:?}");
    }
    assert_eq!(set.len(), ALL_AUDIT_EVENTS.len());
}

#[test]
fn audit_event_strings_are_snake_case() {
    for &e in ALL_AUDIT_EVENTS {
        let s = e.as_str();
        assert!(!s.is_empty(), "{e:?} as_str is empty");
        assert!(
            s.chars()
                .all(|c| c.is_ascii_lowercase() || c.is_ascii_digit() || c == '_'),
            "{e:?}.as_str() = {s:?} is not snake_case"
        );
    }
}

#[test]
fn audit_event_password_changed_self_maps_correctly() {
    assert_eq!(AuditEvent::PasswordChangedSelf.as_str(), "password_changed_self");
}

#[test]
fn audit_event_existing_variants_have_stable_strings() {
    assert_eq!(AuditEvent::UserCreated.as_str(), "user_created");
    assert_eq!(AuditEvent::UserUpdated.as_str(), "user_updated");
    assert_eq!(AuditEvent::UserDeleted.as_str(), "user_deleted");
    assert_eq!(AuditEvent::GroupCreated.as_str(), "group_created");
    assert_eq!(AuditEvent::GroupUpdated.as_str(), "group_updated");
    assert_eq!(AuditEvent::GroupDeleted.as_str(), "group_deleted");
    assert_eq!(AuditEvent::PasswordChangedSelf.as_str(), "password_changed_self");
    assert_eq!(AuditEvent::PasswordResetSelfRequest.as_str(), "password_reset_self_request");
    assert_eq!(AuditEvent::PasswordResetSelfConsume.as_str(), "password_reset_self_consume");
    assert_eq!(AuditEvent::PasswordResetByOther.as_str(), "password_reset_by_other");
    assert_eq!(AuditEvent::AccountLocked.as_str(), "account_locked");
    assert_eq!(AuditEvent::AccountUnlocked.as_str(), "account_unlocked");
    assert_eq!(AuditEvent::MfaEnabled.as_str(), "mfa_enabled");
    assert_eq!(AuditEvent::MfaDisabled.as_str(), "mfa_disabled");
    assert_eq!(AuditEvent::MfaResetByOther.as_str(), "mfa_reset_by_other");
    assert_eq!(AuditEvent::SessionsRevokedSelf.as_str(), "sessions_revoked_self");
    assert_eq!(AuditEvent::SessionsRevokedByOther.as_str(), "sessions_revoked_by_other");
    assert_eq!(AuditEvent::SessionLogout.as_str(), "session_logout");
    assert_eq!(AuditEvent::EmergencyRecovery.as_str(), "emergency_recovery");
}

#[test]
fn action_type_and_audit_event_vocabularies_dont_collide() {
    let action_type_strs = [
        ActionType::Create.as_str(),
        ActionType::Update.as_str(),
        ActionType::Delete.as_str(),
    ];
    let mut set = std::collections::HashSet::new();
    for s in action_type_strs {
        assert!(set.insert(s), "duplicate ActionType string {s:?}");
    }
    for &e in ALL_AUDIT_EVENTS {
        assert!(
            set.insert(e.as_str()),
            "AuditEvent::{:?} ({:?}) collides with ActionType",
            e,
            e.as_str()
        );
    }
    assert_eq!(set.len(), action_type_strs.len() + ALL_AUDIT_EVENTS.len());
}

#[test]
fn log_entry_with_event_overrides_action_type_persistence() {
    let entry = LogEntry::new(1, ActionType::Update, "user", 1);
    assert_eq!(entry.resolved_action_type(), "update");
    let entry = LogEntry::new(1, ActionType::Update, "user", 1)
        .with_event(AuditEvent::PasswordChangedSelf);
    assert_eq!(entry.resolved_action_type(), "password_changed_self");
    let entry = LogEntry::new(1, ActionType::Update, "user", 1)
        .with_event(AuditEvent::PasswordResetSelfRequest);
    assert_eq!(entry.resolved_action_type(), "password_reset_self_request");
    let entry = LogEntry::new(1, ActionType::Update, "user", 1)
        .with_event(AuditEvent::PasswordResetSelfConsume);
    assert_eq!(entry.resolved_action_type(), "password_reset_self_consume");
}

#[test]
fn log_entry_default_event_is_none() {
    let entry = LogEntry::new(1, ActionType::Create, "post", 99);
    assert!(entry.event.is_none());
    assert_eq!(entry.resolved_action_type(), "create");
}

#[test]
fn legacy_action_type_parser_returns_none_on_unknown_strings() {
    assert_eq!(ActionType::parse("create"), Some(ActionType::Create));
    assert_eq!(ActionType::parse("update"), Some(ActionType::Update));
    assert_eq!(ActionType::parse("delete"), Some(ActionType::Delete));
    for &e in ALL_AUDIT_EVENTS {
        assert!(
            ActionType::parse(e.as_str()).is_none(),
            "ActionType::parse should not recognise AuditEvent string {:?}",
            e.as_str()
        );
    }
    assert!(ActionType::parse("garbage").is_none());
    assert!(ActionType::parse("").is_none());
    assert!(ActionType::parse("CREATE").is_none());
}

// ---- additional cases ----

#[test]
fn action_type_labels_and_pills() {
    assert_eq!(ActionType::Create.label(), "Created");
    assert_eq!(ActionType::Update.label(), "Updated");
    assert_eq!(ActionType::Delete.label(), "Deleted");
    assert_eq!(ActionType::Create.pill_class(), "badge-success");
    assert_eq!(ActionType::Update.pill_class(), "badge-neutral");
    assert_eq!(ActionType::Delete.pill_class(), "badge-danger");
}

#[test]
fn entry_integrity_check_names_the_missing_part() {
    let ok = LogEntry::new(1, ActionType::Create, "post", 1);
    assert!(check_entry(&ok).is_ok());
    let e = check_entry(&LogEntry::new(0, ActionType::Create, "post", 1)).unwrap_err();
    assert!(matches!(e, AdminError::Internal(m) if m == "admin audit: missing user_id"));
    let e = check_entry(&LogEntry::new(1, ActionType::Create, "  ", 1)).unwrap_err();
    assert!(matches!(e, AdminError::Internal(m) if m == "admin audit: missing model_name"));
    let e = check_entry(&LogEntry::new(1, ActionType::Create, "post", -3)).unwrap_err();
    assert!(matches!(e, AdminError::Internal(m) if m == "admin audit: missing object_id"));
}
