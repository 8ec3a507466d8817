//! The admin action log: the two vocabularies of persisted
//! `action_type` strings (generic CRUD and the framework's own
//! authority / identity / recovery events), the entry written per
//! action, and the integrity check run before an entry is written.
use vstd::prelude::*;
use crate::error::AdminError;
use crate::text::{chars_of, chars_eq, to_owned_string, trim_str, trim};

verus! {

broadcast use vstd::string::group_string_axioms;

/// Structured metadata attached to an entry (a JSON document).
#[verifier::external_type_specification]
#[verifier::external_body]
pub struct ExJsonValue(serde_json::Value);

/// Generic CRUD action on a project-registered model.
#[derive(Debug, Clone, Copy, PartialEq, Eq, Structural)]
pub enum ActionType {
    Create,
    Update,
    Delete,
}

pub open spec fn action_type_str(a: ActionType) -> Seq<char> {
    match a {
        ActionType::Create => "create"@,
        ActionType::Update => "update"@,
        ActionType::Delete => "delete"@,
    }
}

pub open spec fn action_type_label(a: ActionType) -> Seq<char> {
    match a {
        ActionType::Create => "Created"@,
        ActionType::Update => "Updated"@,
        ActionType::Delete => "Deleted"@,
    }
}

pub open spec fn action_type_pill(a: ActionType) -> Seq<char> {
    match a {
        ActionType::Create => "badge-success"@,
        ActionType::Update => "badge-neutral"@,
        ActionType::Delete => "badge-danger"@,
    }
}

/// The action whose string is `s`, if any (case-sensitive).
pub open spec fn parse_action_type(s: Seq<char>) -> Option<ActionType> {
    if s == "create"@ {
        Some(ActionType::Create)
    } else if s == "update"@ {
        Some(ActionType::Update)
    } else if s == "delete"@ {
        Some(ActionType::Delete)
    } else {
        None
    }
}

fn is_lit(v: &Vec<char>, lit: &str) -> (b: bool)
    ensures
        b == (v@ == lit@),
{
    let l = chars_of(lit);
    chars_eq(v.as_slice(), l.as_slice())
}

impl ActionType {
    /// The persisted lowercase string.
    pub fn as_str(self) -> (s: &'static str)
        ensures
            s@ == action_type_str(self),
    {
        match self {
            ActionType::Create => "create",
            ActionType::Update => "update",
            ActionType::Delete => "delete",
        }
    }

    /// Parses one of the three persisted strings; anything else
    /// (including every [`AuditEvent`] string) is `None`.
    pub fn parse(s: &str) -> (r: Option<Self>)
        ensures
            r == parse_action_type(s@),
    {
        let v = chars_of(s);
        if is_lit(&v, "create") {
            Some(ActionType::Create)
        } else if is_lit(&v, "update") {
            Some(ActionType::Update)
        } else if is_lit(&v, "delete") {
            Some(ActionType::Delete)
        } else {
            None
        }
    }

    /// Past-tense label for the history page.
    pub fn label(self) -> (s: &'static str)
        ensures
            s@ == action_type_label(self),
    {
        match self {
            ActionType::Create => "Created",
            ActionType::Update => "Updated",
            ActionType::Delete => "Deleted",
        }
    }

    /// Badge class for the history page.
    pub fn pill_class(self) -> (s: &'static str)
        ensures
            s@ == action_type_pill(self),
    {
        match self {
            ActionType::Create => "badge-success",
            ActionType::Update => "badge-neutral",
            ActionType::Delete => "badge-danger",
        }
    }
}

/// Every authority, identity and recovery event the framework records.
#[derive(Debug, Clone, Copy, PartialEq, Eq, Structural, Hash)]
#[non_exhaustive]
pub enum AuditEvent {
    UserCreated,
    UserUpdated,
    UserDeleted,
    GroupCreated,
    GroupUpdated,
    GroupDeleted,
    PasswordChangedSelf,
    PasswordResetSelfRequest,
    PasswordResetSelfConsume,
    PasswordResetByOther,
    AccountLocked,
    AccountUnlocked,
    MfaEnabled,
    MfaDisabled,
    MfaResetByOther,
    SessionsRevokedSelf,
    SessionsRevokedByOther,
    SessionLogout,
    EmergencyRecovery,
}

pub open spec fn audit_event_str(e: AuditEvent) -> Seq<char> {
    match e {
        AuditEvent::UserCreated => "user_created"@,
        AuditEvent::UserUpdated => "user_updated"@,
        AuditEvent::UserDeleted => "user_deleted"@,
        AuditEvent::GroupCreated => "group_created"@,
        AuditEvent::GroupUpdated => "group_updated"@,
        AuditEvent::GroupDeleted => "group_deleted"@,
        AuditEvent::PasswordChangedSelf => "password_changed_self"@,
        AuditEvent::PasswordResetSelfRequest => "password_reset_self_request"@,
        AuditEvent::PasswordResetSelfConsume => "password_reset_self_consume"@,
        AuditEvent::PasswordResetByOther => "password_reset_by_other"@,
        AuditEvent::AccountLocked => "account_locked"@,
        AuditEvent::AccountUnlocked => "account_unlocked"@,
        AuditEvent::MfaEnabled => "mfa_enabled"@,
        AuditEvent::MfaDisabled => "mfa_disabled"@,
        AuditEvent::MfaResetByOther => "mfa_reset_by_other"@,
        AuditEvent::SessionsRevokedSelf => "sessions_revoked_self"@,
        AuditEvent::SessionsRevokedByOther => "sessions_revoked_by_other"@,
        AuditEvent::SessionLogout => "session_logout"@,
        AuditEvent::EmergencyRecovery => "emergency_recovery"@,
    }
}

impl AuditEvent {
    /// Stable lowercase identifier persisted as the entry's action type.
    pub fn as_str(self) -> (s: &'static str)
        ensures
            s@ == audit_event_str(self),
    {
        match self {
            AuditEvent::UserCreated => "user_created",
            AuditEvent::UserUpdated => "user_updated",
            AuditEvent::UserDeleted => "user_deleted",
            AuditEvent::GroupCreated => "group_created",
            AuditEvent::GroupUpdated => "group_updated",
            AuditEvent::GroupDeleted => "group_deleted",
            AuditEvent::PasswordChangedSelf => "password_changed_self",
            AuditEvent::PasswordResetSelfRequest => "password_reset_self_request",
            AuditEvent::PasswordResetSelfConsume => "password_reset_self_consume",
            AuditEvent::PasswordResetByOther => "password_reset_by_other",
            AuditEvent::AccountLocked => "account_locked",
            AuditEvent::AccountUnlocked => "account_unlocked",
            AuditEvent::MfaEnabled => "mfa_enabled",
            AuditEvent::MfaDisabled => "mfa_disabled",
            AuditEvent::MfaResetByOther => "mfa_reset_by_other",
            AuditEvent::SessionsRevokedSelf => "sessions_revoked_self",
            AuditEvent::SessionsRevokedByOther => "sessions_revoked_by_other",
            AuditEvent::SessionLogout => "session_logout",
            AuditEvent::EmergencyRecovery => "emergency_recovery",
        }
    }
}

/// One row for the action log.
pub struct LogEntry<'a> {
    pub user_id: i64,
    pub action_type: ActionType,
    pub model_name: &'a str,
    pub object_id: i64,
    pub ip_address: Option<&'a str>,
    pub summary: String,
    /// Per-request id shared by every row written under one request.
    pub correlation_id: Option<&'a str>,
    /// The session that performed the action, when applicable.
    pub session_id: Option<i64>,
    /// Structured before/after / extra metadata.
    pub metadata: Option<serde_json::Value>,
    /// When set, persisted in place of `action_type`'s string.
    pub event: Option<AuditEvent>,
}

/// The action-type string an entry is persisted with: the event's
/// when one is set, else the CRUD action's.
pub open spec fn resolved_action(event: Option<AuditEvent>, action: ActionType) -> Seq<char> {
    match event {
        Some(e) => audit_event_str(e),
        None => action_type_str(action),
    }
}

impl<'a> LogEntry<'a> {
    /// An entry with every optional field unset and an empty summary.
    pub fn new(user_id: i64, action_type: ActionType, model_name: &'a str, object_id: i64) -> (e: Self)
        ensures
            e.user_id == user_id,
            e.action_type == action_type,
            e.model_name == model_name,
            e.object_id == object_id,
            e.ip_address is None,
            e.summary@.len() == 0,
            e.correlation_id is None,
            e.session_id is None,
            e.metadata is None,
            e.event is None,
    {
        LogEntry {
            user_id,
            action_type,
            model_name,
            object_id,
            ip_address: None,
            summary: String::new(),
            correlation_id: None,
            session_id: None,
            metadata: None,
            event: None,
        }
    }

    /// Persist this entry under `event`'s string instead of the CRUD one.
    pub fn with_event(self, event: AuditEvent) -> (e: Self)
        ensures
            e.event == Some(event),
            e.user_id == self.user_id,
            e.action_type == self.action_type,
            e.model_name == self.model_name,
            e.object_id == self.object_id,
            e.ip_address == self.ip_address,
            e.summary == self.summary,
            e.correlation_id == self.correlation_id,
            e.session_id == self.session_id,
            e.metadata == self.metadata,
    {
        let mut s = self;
        s.event = Some(event);
        s
    }

    /// The persisted action-type string (see [`resolved_action`]).
    pub fn resolved_action_type(&self) -> (s: &'static str)
        ensures
            s@ == resolved_action(self.event, self.action_type),
    {
        match self.event {
            Some(e) => e.as_str(),
            None => self.action_type.as_str(),
        }
    }
}

/// Why [`check_entry`] refuses an entry, if it does: a non-positive
/// user id, a blank model name, or a non-positive object id, checked
/// in that order.
pub open spec fn entry_problem(user_id: int, model_name: Seq<char>, object_id: int) -> Option<Seq<char>> {
    if user_id <= 0 {
        Some("admin audit: missing user_id"@)
    } else if trim(model_name).len() == 0 {
        Some("admin audit: missing model_name"@)
    } else if object_id <= 0 {
        Some("admin audit: missing object_id"@)
    } else {
        None
    }
}

/// The integrity check run before an entry is written: an entry
/// missing its user, model or object fails with an internal error so
/// a broken audit pipeline is loud.
pub fn check_entry(entry: &LogEntry) -> (r: Result<(), AdminError>)
    ensures
        match entry_problem(entry.user_id as int, entry.model_name@, entry.object_id as int) {
            Some(msg) => r matches Err(AdminError::Internal(m)) && m@ == msg,
            None => r is Ok,
        },
{
    if entry.user_id <= 0 {
        return Err(AdminError::Internal(to_owned_string("admin audit: missing user_id")));
    }
    let t = trim_str(entry.model_name);
    if t.len() == 0 {
        return Err(AdminError::Internal(to_owned_string("admin audit: missing model_name")));
    }
    if entry.object_id <= 0 {
        return Err(AdminError::Internal(to_owned_string("admin audit: missing object_id")));
    }
    Ok(())
}

// ---------------------------------------------------------------------------
// Laws of the two vocabularies
// ---------------------------------------------------------------------------

/// Parsing the string of a CRUD action gives the action back.
pub proof fn lemma_action_type_round_trip(a: ActionType)
    ensures
        parse_action_type(action_type_str(a)) == Some(a),
{
    reveal_strlit("create");
    reveal_strlit("update");
    reveal_strlit("delete");
    assert("create"@[0] != "update"@[0]);
    assert("create"@[0] != "delete"@[0]);
    assert("update"@[0] != "delete"@[0]);
}

/// The event whose string is `s`, if any.
pub open spec fn audit_event_of(s: Seq<char>) -> Option<AuditEvent> {
    if s == "user_created"@ {
        Some(AuditEvent::UserCreated)
    } else if s == "user_updated"@ {
        Some(AuditEvent::UserUpdated)
    } else if s == "user_deleted"@ {
        Some(AuditEvent::UserDeleted)
    } else if s == "group_created"@ {
        Some(AuditEvent::GroupCreated)
    } else if s == "group_updated"@ {
        Some(AuditEvent::GroupUpdated)
    } else if s == "group_deleted"@ {
        Some(AuditEvent::GroupDeleted)
    } else if s == "password_changed_self"@ {
        Some(AuditEvent::PasswordChangedSelf)
    } else if s == "password_reset_self_request"@ {
        Some(AuditEvent::PasswordResetSelfRequest)
    } else if s == "password_reset_self_consume"@ {
        Some(AuditEvent::PasswordResetSelfConsume)
    } else if s == "password_reset_by_other"@ {
        Some(AuditEvent::PasswordResetByOther)
    } else if s == "account_locked"@ {
        Some(AuditEvent::AccountLocked)
    } else if s == "account_unlocked"@ {
        Some(AuditEvent::AccountUnlocked)
    } else if s == "mfa_enabled"@ {
        Some(AuditEvent::MfaEnabled)
    } else if s == "mfa_disabled"@ {
        Some(AuditEvent::MfaDisabled)
    } else if s == "mfa_reset_by_other"@ {
        Some(AuditEvent::MfaResetByOther)
    } else if s == "sessions_revoked_self"@ {
        Some(AuditEvent::SessionsRevokedSelf)
    } else if s == "sessions_revoked_by_other"@ {
        Some(AuditEvent::SessionsRevokedByOther)
    } else if s == "session_logout"@ {
        Some(AuditEvent::SessionLogout)
    } else if s == "emergency_recovery"@ {
        Some(AuditEvent::EmergencyRecovery)
    } else {
        None
    }
}

/// Each event's string identifies it: reading the string back gives
/// the event.
pub proof fn lemma_audit_event_decodes(e: AuditEvent)
    ensures
        audit_event_of(audit_event_str(e)) == Some(e),
{
    reveal_strlit("user_created");
    reveal_strlit("user_updated");
    reveal_strlit("user_deleted");
    reveal_strlit("group_created");
    reveal_strlit("group_updated");
    reveal_strlit("group_deleted");
    reveal_strlit("password_changed_self");
    reveal_strlit("password_reset_self_request");
    reveal_strlit("password_reset_self_consume");
    reveal_strlit("password_reset_by_other");
    reveal_strlit("account_locked");
    reveal_strlit("account_unlocked");
    reveal_strlit("mfa_enabled");
    reveal_strlit("mfa_disabled");
    reveal_strlit("mfa_reset_by_other");
    reveal_strlit("sessions_revoked_self");
    reveal_strlit("sessions_revoked_by_other");
    reveal_strlit("session_logout");
    reveal_strlit("emergency_recovery");
    reveal_strlit("create");
    reveal_strlit("update");
    reveal_strlit("delete");
    match e {
        AuditEvent::UserCreated => {

        },
        AuditEvent::UserUpdated => {
            assert("user_updated"@[5] != "user_created"@[5]);
        },
        AuditEvent::UserDeleted => {
            assert("user_deleted"@[5] != "user_created"@[5]);
            assert("user_deleted"@[5] != "user_updated"@[5]);
        },
        AuditEvent::GroupCreated => {
            assert("group_created"@.len() != "user_created"@.len());
            assert("group_created"@.len() != "user_updated"@.len());
            assert("group_created"@.len() != "user_deleted"@.len());
        },
        AuditEvent::GroupUpdated => {
            assert("group_updated"@.len() != "user_created"@.len());
            assert("group_updated"@.len() != "user_updated"@.len());
            assert("group_updated"@.len() != "user_deleted"@.len());
            assert("group_updated"@[6] != "group_created"@[6]);
        },
        AuditEvent::GroupDeleted => {
            assert("group_deleted"@.len() != "user_created"@.len());
            assert("group_deleted"@.len() != "user_updated"@.len());
            assert("group_deleted"@.len() != "user_deleted"@.len());
            assert("group_deleted"@[6] != "group_created"@[6]);
            assert("group_deleted"@[6] != "group_updated"@[6]);
        },
        AuditEvent::PasswordChangedSelf => {
            assert("password_changed_self"@.len() != "user_created"@.len());
            assert("password_changed_self"@.len() != "user_updated"@.len());
            assert("password_changed_self"@.len() != "user_deleted"@.len());
            assert("password_changed_self"@.len() != "group_created"@.len());
            assert("password_changed_self"@.len() != "group_updated"@.len());
            assert("password_changed_self"@.len() != "group_deleted"@.len());
        },
        AuditEvent::PasswordResetSelfRequest => {
            assert("password_reset_self_request"@.len() != "user_created"@.len());
            assert("password_reset_self_request"@.len() != "user_updated"@.len());
            assert("password_reset_self_request"@.len() != "user_deleted"@.len());
            assert("password_reset_self_request"@.len() != "group_created"@.len());
            assert("password_reset_self_request"@.len() != "group_updated"@.len());
            assert("password_reset_self_request"@.len() != "group_deleted"@.len());
            assert("password_reset_self_request"@.len() != "password_changed_self"@.len());
        },
        AuditEvent::PasswordResetSelfConsume => {
            assert("password_reset_self_consume"@.len() != "user_created"@.len());
            assert("password_reset_self_consume"@.len() != "user_updated"@.len());
            assert("password_reset_self_consume"@.len() != "user_deleted"@.len());
            assert("password_reset_self_consume"@.len() != "group_created"@.len());
            assert("password_reset_self_consume"@.len() != "group_updated"@.len());
            assert("password_reset_self_consume"@.len() != "group_deleted"@.len());
            assert("password_reset_self_consume"@.len() != "password_changed_self"@.len());
            assert("password_reset_self_consume"@[20] != "password_reset_self_request"@[20]);
        },
        AuditEvent::PasswordResetByOther => {
            assert("password_reset_by_other"@.len() != "user_created"@.len());
            assert("password_reset_by_other"@.len() != "user_updated"@.len());
            assert("password_reset_by_other"@.len() != "user_deleted"@.len());
            assert("password_reset_by_other"@.len() != "group_created"@.len());
            assert("password_reset_by_other"@.len() != "group_updated"@.len());
            assert("password_reset_by_other"@.len() != "group_deleted"@.len());
            assert("password_reset_by_other"@.len() != "password_changed_self"@.len());
            assert("password_reset_by_other"@.len() != "password_reset_self_request"@.len());
            assert("password_reset_by_other"@.len() != "password_reset_self_consume"@.len());
        },
        AuditEvent::AccountLocked => {
            assert("account_locked"@.len() != "user_created"@.len());
            assert("account_locked"@.len() != "user_updated"@.len());
            assert("account_locked"@.len() != "user_deleted"@.len());
            assert("account_locked"@.len() != "group_created"@.len());
            assert("account_locked"@.len() != "group_updated"@.len());
            assert("account_locked"@.len() != "group_deleted"@.len());
            assert("account_locked"@.len() != "password_changed_self"@.len());
            assert("account_locked"@.len() != "password_reset_self_request"@.len());
            assert("account_locked"@.len() != "password_reset_self_consume"@.len());
            assert("account_locked"@.len() != "password_reset_by_other"@.len());
        },
        AuditEvent::AccountUnlocked => {
            assert("account_unlocked"@.len() != "user_created"@.len());
            assert("account_unlocked"@.len() != "user_updated"@.len());
            assert("account_unlocked"@.len() != "user_deleted"@.len());
            assert("account_unlocked"@.len() != "group_created"@.len());
            assert("account_unlocked"@.len() != "group_updated"@.len());
            assert("account_unlocked"@.len() != "group_deleted"@.len());
            assert("account_unlocked"@.len() != "password_changed_self"@.len());
            assert("account_unlocked"@.len() != "password_reset_self_request"@.len());
            assert("account_unlocked"@.len() != "password_reset_self_consume"@.len());
            assert("account_unlocked"@.len() != "password_reset_by_other"@.len());
            assert("account_unlocked"@.len() != "account_locked"@.len());
        },
        AuditEvent::MfaEnabled => {
            assert("mfa_enabled"@.len() != "user_created"@.len());
            assert("mfa_enabled"@.len() != "user_updated"@.len());
            assert("mfa_enabled"@.len() != "user_deleted"@.len());
            assert("mfa_enabled"@.len() != "group_created"@.len());
            assert("mfa_enabled"@.len() != "group_updated"@.len());
            assert("mfa_enabled"@.len() != "group_deleted"@.len());
            assert("mfa_enabled"@.len() != "password_changed_self"@.len());
            assert("mfa_enabled"@.len() != "password_reset_self_request"@.len());
            assert("mfa_enabled"@.len() != "password_reset_self_consume"@.len());
            assert("mfa_enabled"@.len() != "password_reset_by_other"@.len());
            assert("mfa_enabled"@.len() != "account_locked"@.len());
            assert("mfa_enabled"@.len() != "account_unlocked"@.len());
        },
        AuditEvent::MfaDisabled => {
            assert("mfa_disabled"@[0] != "user_created"@[0]);
            assert("mfa_disabled"@[0] != "user_updated"@[0]);
            assert("mfa_disabled"@[0] != "user_deleted"@[0]);
            assert("mfa_disabled"@.len() != "group_created"@.len());
            assert("mfa_disabled"@.len() != "group_updated"@.len());
            assert("mfa_disabled"@.len() != "group_deleted"@.len());
            assert("mfa_disabled"@.len() != "password_changed_self"@.len());
            assert("mfa_disabled"@.len() != "password_reset_self_request"@.len());
            assert("mfa_disabled"@.len() != "password_reset_self_consume"@.len());
            assert("mfa_disabled"@.len() != "password_reset_by_other"@.len());
            assert("mfa_disabled"@.len() != "account_locked"@.len());
            assert("mfa_disabled"@.len() != "account_unlocked"@.len());
            assert("mfa_disabled"@.len() != "mfa_enabled"@.len());
        },
        AuditEvent::MfaResetByOther => {
            assert("mfa_reset_by_other"@.len() != "user_created"@.len());
            assert("mfa_reset_by_other"@.len() != "user_updated"@.len());
            assert("mfa_reset_by_other"@.len() != "user_deleted"@.len());
            assert("mfa_reset_by_other"@.len() != "group_created"@.len());
            assert("mfa_reset_by_other"@.len() != "group_updated"@.len());
            assert("mfa_reset_by_other"@.len() != "group_deleted"@.len());
            assert("mfa_reset_by_other"@.len() != "password_changed_self"@.len());
            assert("mfa_reset_by_other"@.len() != "password_reset_self_request"@.len());
            assert("mfa_reset_by_other"@.len() != "password_reset_self_consume"@.len());
            assert("mfa_reset_by_other"@.len() != "password_reset_by_other"@.len());
            assert("mfa_reset_by_other"@.len() != "account_locked"@.len());
            assert("mfa_reset_by_other"@.len() != "account_unlocked"@.len());
            assert("mfa_reset_by_other"@.len() != "mfa_enabled"@.len());
            assert("mfa_reset_by_other"@.len() != "mfa_disabled"@.len());
        },
        AuditEvent::SessionsRevokedSelf => {
            assert("sessions_revoked_self"@.len() != "user_created"@.len());
            assert("sessions_revoked_self"@.len() != "user_updated"@.len());
            assert("sessions_revoked_self"@.len() != "user_deleted"@.len());
            assert("sessions_revoked_self"@.len() != "group_created"@.len());
            assert("sessions_revoked_self"@.len() != "group_updated"@.len());
            assert("sessions_revoked_self"@.len() != "group_deleted"@.len());
            assert("sessions_revoked_self"@[0] != "password_changed_self"@[0]);
            assert("sessions_revoked_self"@.len() != "password_reset_self_request"@.len());
            assert("sessions_revoked_self"@.len() != "password_reset_self_consume"@.len());
            assert("sessions_revoked_self"@.len() != "password_reset_by_other"@.len());
            assert("sessions_revoked_self"@.len() != "account_locked"@.len());
            assert("sessions_revoked_self"@.len() != "account_unlocked"@.len());
            assert("sessions_revoked_self"@.len() != "mfa_enabled"@.len());
            assert("sessions_revoked_self"@.len() != "mfa_disabled"@.len());
            assert("sessions_revoked_self"@.len() != "mfa_reset_by_other"@.len());
        },
        AuditEvent::SessionsRevokedByOther => {
            assert("sessions_revoked_by_other"@.len() != "user_created"@.len());
            assert("sessions_revoked_by_other"@.len() != "user_updated"@.len());
            assert("sessions_revoked_by_other"@.len() != "user_deleted"@.len());
            assert("sessions_revoked_by_other"@.len() != "group_created"@.len());
            assert("sessions_revoked_by_other"@.len() != "group_updated"@.len());
            assert("sessions_revoked_by_other"@.len() != "group_deleted"@.len());
            assert("sessions_revoked_by_other"@.len() != "password_changed_self"@.len());
            assert("sessions_revoked_by_other"@.len() != "password_reset_self_request"@.len());
            assert("sessions_revoked_by_other"@.len() != "password_reset_self_consume"@.len());
            assert("sessions_revoked_by_other"@.len() != "password_reset_by_other"@.len());
            assert("sessions_revoked_by_other"@.len() != "account_locked"@.len());
            assert("sessions_revoked_by_other"@.len() != "account_unlocked"@.len());
            assert("sessions_revoked_by_other"@.len() != "mfa_enabled"@.len());
            assert("sessions_revoked_by_other"@.len() != "mfa_disabled"@.len());
            assert("sessions_revoked_by_other"@.len() != "mfa_reset_by_other"@.len());
            assert("sessions_revoked_by_other"@.len() != "sessions_revoked_self"@.len());
        },
        AuditEvent::SessionLogout => {
            assert("session_logout"@.len() != "user_created"@.len());
            assert("session_logout"@.len() != "user_updated"@.len());
            assert("session_logout"@.len() != "user_deleted"@.len());
            assert("session_logout"@.len() != "group_created"@.len());
            assert("session_logout"@.len() != "group_updated"@.len());
            assert("session_logout"@.len() != "group_deleted"@.len());
            assert("session_logout"@.len() != "password_changed_self"@.len());
            assert("session_logout"@.len() != "password_reset_self_request"@.len());
            assert("session_logout"@.len() != "password_reset_self_consume"@.len());
            assert("session_logout"@.len() != "password_reset_by_other"@.len());
            assert("session_logout"@[0] != "account_locked"@[0]);
            assert("session_logout"@.len() != "account_unlocked"@.len());
            assert("session_logout"@.len() != "mfa_enabled"@.len());
            assert("session_logout"@.len() != "mfa_disabled"@.len());
            assert("session_logout"@.len() != "mfa_reset_by_other"@.len());
            assert("session_logout"@.len() != "sessions_revoked_self"@.len());
            assert("session_logout"@.len() != "sessions_revoked_by_other"@.len());
        },
        AuditEvent::EmergencyRecovery => {
            assert("emergency_recovery"@.len() != "user_created"@.len());
            assert("emergency_recovery"@.len() != "user_updated"@.len());
            assert("emergency_recovery"@.len() != "user_deleted"@.len());
            assert("emergency_recovery"@.len() != "group_created"@.len());
            assert("emergency_recovery"@.len() != "group_updated"@.len());
            assert("emergency_recovery"@.len() != "group_deleted"@.len());
            assert("emergency_recovery"@.len() != "password_changed_self"@.len());
            assert("emergency_recovery"@.len() != "password_reset_self_request"@.len());
            assert("emergency_recovery"@.len() != "password_reset_self_consume"@.len());
            assert("emergency_recovery"@.len() != "password_reset_by_other"@.len());
            assert("emergency_recovery"@.len() != "account_locked"@.len());
            assert("emergency_recovery"@.len() != "account_unlocked"@.len());
            assert("emergency_recovery"@.len() != "mfa_enabled"@.len());
            assert("emergency_recovery"@.len() != "mfa_disabled"@.len());
            assert("emergency_recovery"@[0] != "mfa_reset_by_other"@[0]);
            assert("emergency_recovery"@.len() != "sessions_revoked_self"@.len());
            assert("emergency_recovery"@.len() != "sessions_revoked_by_other"@.len());
            assert("emergency_recovery"@.len() != "session_logout"@.len());
        },
    }
}

/// Distinct events are persisted as distinct strings.
pub proof fn lemma_audit_event_str_injective(a: AuditEvent, b: AuditEvent)
    ensures
        audit_event_str(a) == audit_event_str(b) ==> a == b,
{
    lemma_audit_event_decodes(a);
    lemma_audit_event_decodes(b);
}

/// The two vocabularies are disjoint: no CRUD action string is an
/// event string, so the legacy parser recognises no event string.
pub proof fn lemma_vocabularies_disjoint(a: ActionType, e: AuditEvent)
    ensures
        action_type_str(a) != audit_event_str(e),
        parse_action_type(audit_event_str(e)) is None,
{
    reveal_strlit("user_created");
    reveal_strlit("user_updated");
    reveal_strlit("user_deleted");
    reveal_strlit("group_created");
    reveal_strlit("group_updated");
    reveal_strlit("group_deleted");
    reveal_strlit("password_changed_self");
    reveal_strlit("password_reset_self_request");
    reveal_strlit("password_reset_self_consume");
    reveal_strlit("password_reset_by_other");
    reveal_strlit("account_locked");
    reveal_strlit("account_unlocked");
    reveal_strlit("mfa_enabled");
    reveal_strlit("mfa_disabled");
    reveal_strlit("mfa_reset_by_other");
    reveal_strlit("sessions_revoked_self");
    reveal_strlit("sessions_revoked_by_other");
    reveal_strlit("session_logout");
    reveal_strlit("emergency_recovery");
    reveal_strlit("create");
    reveal_strlit("update");
    reveal_strlit("delete");
    match e {
        AuditEvent::UserCreated => {
            assert("user_created"@.len() != "create"@.len());
            assert("user_created"@.len() != "update"@.len());
            assert("user_created"@.len() != "delete"@.len());
        },
        AuditEvent::UserUpdated => {
            assert("user_updated"@.len() != "create"@.len());
            assert("user_updated"@.len() != "update"@.len());
            assert("user_updated"@.len() != "delete"@.len());
        },
        AuditEvent::UserDeleted => {
            assert("user_deleted"@.len() != "create"@.len());
            assert("user_deleted"@.len() != "update"@.len());
            assert("user_deleted"@.len() != "delete"@.len());
        },
        AuditEvent::GroupCreated => {
            assert("group_created"@.len() != "create"@.len());
            assert("group_created"@.len() != "update"@.len());
            assert("group_created"@.len() != "delete"@.len());
        },
        AuditEvent::GroupUpdated => {
            assert("group_updated"@.len() != "create"@.len());
            assert("group_updated"@.len() != "update"@.len());
            assert("group_updated"@.len() != "delete"@.len());
        },
        AuditEvent::GroupDeleted => {
            assert("group_deleted"@.len() != "create"@.len());
            assert("group_deleted"@.len() != "update"@.len());
            assert("group_deleted"@.len() != "delete"@.len());
        },
        AuditEvent::PasswordChangedSelf => {
            assert("password_changed_self"@.len() != "create"@.len());
            assert("password_changed_self"@.len() != "update"@.len());
            assert("password_changed_self"@.len() != "delete"@.len());
        },
        AuditEvent::PasswordResetSelfRequest => {
            assert("password_reset_self_request"@.len() != "create"@.len());
            assert("password_reset_self_request"@.len() != "update"@.len());
            assert("password_reset_self_request"@.len() != "delete"@.len());
        },
        AuditEvent::PasswordResetSelfConsume => {
            assert("password_reset_self_consume"@.len() != "create"@.len());
            assert("password_reset_self_consume"@.len() != "update"@.len());
            assert("password_reset_self_consume"@.len() != "delete"@.len());
        },
        AuditEvent::PasswordResetByOther => {
            assert("password_reset_by_other"@.len() != "create"@.len());
            assert("password_reset_by_other"@.len() != "update"@.len());
            assert("password_reset_by_other"@.len() != "delete"@.len());
        },
        AuditEvent::AccountLocked => {
            assert("account_locked"@.len() != "create"@.len());
            assert("account_locked"@.len() != "update"@.len());
            assert("account_locked"@.len() != "delete"@.len());
        },
        AuditEvent::AccountUnlocked => {
            assert("account_unlocked"@.len() != "create"@.len());
            assert("account_unlocked"@.len() != "update"@.len());
            assert("account_unlocked"@.len() != "delete"@.len());
        },
        AuditEvent::MfaEnabled => {
            assert("mfa_enabled"@.len() != "create"@.len());
            assert("mfa_enabled"@.len() != "update"@.len());
            assert("mfa_enabled"@.len() != "delete"@.len());
        },
        AuditEvent::MfaDisabled => {
            assert("mfa_disabled"@.len() != "create"@.len());
            assert("mfa_disabled"@.len() != "update"@.len());
            assert("mfa_disabled"@.len() != "delete"@.len());
        },
        AuditEvent::MfaResetByOther => {
            assert("mfa_reset_by_other"@.len() != "create"@.len());
            assert("mfa_reset_by_other"@.len() != "update"@.len());
            assert("mfa_reset_by_other"@.len() != "delete"@.len());
        },
        AuditEvent::SessionsRevokedSelf => {
            assert("sessions_revoked_self"@.len() != "create"@.len());
            assert("sessions_revoked_self"@.len() != "update"@.len());
            assert("sessions_revoked_self"@.len() != "delete"@.len());
        },
        AuditEvent::SessionsRevokedByOther => {
            assert("sessions_revoked_by_other"@.len() != "create"@.len());
            assert("sessions_revoked_by_other"@.len() != "update"@.len());
            assert("sessions_revoked_by_other"@.len() != "delete"@.len());
        },
        AuditEvent::SessionLogout => {
            assert("session_logout"@.len() != "create"@.len());
            assert("session_logout"@.len() != "update"@.len());
            assert("session_logout"@.len() != "delete"@.len());
        },
        AuditEvent::EmergencyRecovery => {
            assert("emergency_recovery"@.len() != "create"@.len());
            assert("emergency_recovery"@.len() != "update"@.len());
            assert("emergency_recovery"@.len() != "delete"@.len());
        },
    }
}

/// A snake_case identifier: non-empty, ASCII lowercase letters,
/// digits and `_` only.
pub open spec fn is_snake_case(s: Seq<char>) -> bool {
    s.len() > 0 && forall|i: int| 0 <= i < s.len() ==> snake_char(#[trigger] s[i])
}

pub open spec fn snake_char(c: char) -> bool {
    ('a' <= c && c <= 'z') || ('0' <= c && c <= '9') || c == '_'
}

/// Every event string is snake_case.
pub proof fn lemma_audit_event_snake_case(e: AuditEvent)
    ensures
        is_snake_case(audit_event_str(e)),
{
    reveal_strlit("user_created");
    reveal_strlit("user_updated");
    reveal_strlit("user_deleted");
    reveal_strlit("group_created");
    reveal_strlit("group_updated");
    reveal_strlit("group_deleted");
    reveal_strlit("password_changed_self");
    reveal_strlit("password_reset_self_request");
    reveal_strlit("password_reset_self_consume");
    reveal_strlit("password_reset_by_other");
    reveal_strlit("account_locked");
    reveal_strlit("account_unlocked");
    reveal_strlit("mfa_enabled");
    reveal_strlit("mfa_disabled");
    reveal_strlit("mfa_reset_by_other");
    reveal_strlit("sessions_revoked_self");
    reveal_strlit("sessions_revoked_by_other");
    reveal_strlit("session_logout");
    reveal_strlit("emergency_recovery");
    match e {
        AuditEvent::UserCreated => {
            let s = "user_created"@;
            assert forall|i: int| 0 <= i < s.len() implies snake_char(#[trigger] s[i]) by {
                if i == 0 {
                } else if i == 1 {
                } else if i == 2 {
                } else if i == 3 {
                } else if i == 4 {
                } else if i == 5 {
                } else if i == 6 {
                } else if i == 7 {
                } else if i == 8 {
                } else if i == 9 {
                } else if i == 10 {
                } else if i == 11 {
                }
            }
        },
        AuditEvent::UserUpdated => {
            let s = "user_updated"@;
            assert forall|i: int| 0 <= i < s.len() implies snake_char(#[trigger] s[i]) by {
                if i == 0 {
                } else if i == 1 {
                } else if i == 2 {
                } else if i == 3 {
                } else if i == 4 {
                } else if i == 5 {
                } else if i == 6 {
                } else if i == 7 {
                } else if i == 8 {
                } else if i == 9 {
                } else if i == 10 {
                } else if i == 11 {
                }
            }
        },
        AuditEvent::UserDeleted => {
            let s = "user_deleted"@;
            assert forall|i: int| 0 <= i < s.len() implies snake_char(#[trigger] s[i]) by {
                if i == 0 {
                } else if i == 1 {
                } else if i == 2 {
                } else if i == 3 {
                } else if i == 4 {
                } else if i == 5 {
                } else if i == 6 {
                } else if i == 7 {
                } else if i == 8 {
                } else if i == 9 {
                } else if i == 10 {
                } else if i == 11 {
                }
            }
        },
        AuditEvent::GroupCreated => {
            let s = "group_created"@;
            assert forall|i: int| 0 <= i < s.len() implies snake_char(#[trigger] s[i]) by {
                if i == 0 {
                } else if i == 1 {
                } else if i == 2 {
                } else if i == 3 {
                } else if i == 4 {
                } else if i == 5 {
                } else if i == 6 {
                } else if i == 7 {
                } else if i == 8 {
                } else if i == 9 {
                } else if i == 10 {
                } else if i == 11 {
                } else if i == 12 {
                }
            }
        },
        AuditEvent::GroupUpdated => {
            let s = "group_updated"@;
            assert forall|i: int| 0 <= i < s.len() implies snake_char(#[trigger] s[i]) by {
                if i == 0 {
                } else if i == 1 {
                } else if i == 2 {
                } else if i == 3 {
                } else if i == 4 {
                } else if i == 5 {
                } else if i == 6 {
                } else if i == 7 {
                } else if i == 8 {
                } else if i == 9 {
                } else if i == 10 {
                } else if i == 11 {
                } else if i == 12 {
                }
            }
        },
        AuditEvent::GroupDeleted => {
            let s = "group_deleted"@;
            assert forall|i: int| 0 <= i < s.len() implies snake_char(#[trigger] s[i]) by {
                if i == 0 {
                } else if i == 1 {
                } else if i == 2 {
                } else if i == 3 {
                } else if i == 4 {
                } else if i == 5 {
                } else if i == 6 {
                } else if i == 7 {
                } else if i == 8 {
                } else if i == 9 {
                } else if i == 10 {
                } else if i == 11 {
                } else if i == 12 {
                }
            }
        },
        AuditEvent::PasswordChangedSelf => {
            let s = "password_changed_self"@;
            assert forall|i: int| 0 <= i < s.len() implies snake_char(#[trigger] s[i]) by {
                if i == 0 {
                } else if i == 1 {
                } else if i == 2 {
                } else if i == 3 {
                } else if i == 4 {
                } else if i == 5 {
                } else if i == 6 {
                } else if i == 7 {
                } else if i == 8 {
                } else if i == 9 {
                } else if i == 10 {
                } else if i == 11 {
                } else if i == 12 {
                } else if i == 13 {
                } else if i == 14 {
                } else if i == 15 {
                } else if i == 16 {
                } else if i == 17 {
                } else if i == 18 {
                } else if i == 19 {
                } else if i == 20 {
                }
            }
        },
        AuditEvent::PasswordResetSelfRequest => {
            let s = "password_reset_self_request"@;
            assert forall|i: int| 0 <= i < s.len() implies snake_char(#[trigger] s[i]) by {
                if i == 0 {
                } else if i == 1 {
                } else if i == 2 {
                } else if i == 3 {
                } else if i == 4 {
                } else if i == 5 {
                } else if i == 6 {
                } else if i == 7 {
                } else if i == 8 {
                } else if i == 9 {
                } else if i == 10 {
                } else if i == 11 {
                } else if i == 12 {
                } else if i == 13 {
                } else if i == 14 {
                } else if i == 15 {
                } else if i == 16 {
                } else if i == 17 {
                } else if i == 18 {
                } else if i == 19 {
                } else if i == 20 {
                } else if i == 21 {
                } else if i == 22 {
                } else if i == 23 {
                } else if i == 24 {
                } else if i == 25 {
                } else if i == 26 {
                }
            }
        },
        AuditEvent::PasswordResetSelfConsume => {
            let s = "password_reset_self_consume"@;
            assert forall|i: int| 0 <= i < s.len() implies snake_char(#[trigger] s[i]) by {
                if i == 0 {
                } else if i == 1 {
                } else if i == 2 {
                } else if i == 3 {
                } else if i == 4 {
                } else if i == 5 {
                } else if i == 6 {
                } else if i == 7 {
                } else if i == 8 {
                } else if i == 9 {
                } else if i == 10 {
                } else if i == 11 {
                } else if i == 12 {
                } else if i == 13 {
                } else if i == 14 {
                } else if i == 15 {
                } else if i == 16 {
                } else if i == 17 {
                } else if i == 18 {
                } else if i == 19 {
                } else if i == 20 {
                } else if i == 21 {
                } else if i == 22 {
                } else if i == 23 {
                } else if i == 24 {
                } else if i == 25 {
                } else if i == 26 {
                }
            }
        },
        AuditEvent::PasswordResetByOther => {
            let s = "password_reset_by_other"@;
            assert forall|i: int| 0 <= i < s.len() implies snake_char(#[trigger] s[i]) by {
                if i == 0 {
                } else if i == 1 {
                } else if i == 2 {
                } else if i == 3 {
                } else if i == 4 {
                } else if i == 5 {
                } else if i == 6 {
                } else if i == 7 {
                } else if i == 8 {
                } else if i == 9 {
                } else if i == 10 {
                } else if i == 11 {
                } else if i == 12 {
                } else if i == 13 {
                } else if i == 14 {
                } else if i == 15 {
                } else if i == 16 {
                } else if i == 17 {
                } else if i == 18 {
                } else if i == 19 {
                } else if i == 20 {
                } else if i == 21 {
                } else if i == 22 {
                }
            }
        },
        AuditEvent::AccountLocked => {
            let s = "account_locked"@;
            assert forall|i: int| 0 <= i < s.len() implies snake_char(#[trigger] s[i]) by {
                if i == 0 {
                } else if i == 1 {
                } else if i == 2 {
                } else if i == 3 {
                } else if i == 4 {
                } else if i == 5 {
                } else if i == 6 {
                } else if i == 7 {
                } else if i == 8 {
                } else if i == 9 {
                } else if i == 10 {
                } else if i == 11 {
                } else if i == 12 {
                } else if i == 13 {
                }
            }
        },
        AuditEvent::AccountUnlocked => {
            let s = "account_unlocked"@;
            assert forall|i: int| 0 <= i < s.len() implies snake_char(#[trigger] s[i]) by {
                if i == 0 {
                } else if i == 1 {
                } else if i == 2 {
                } else if i == 3 {
                } else if i == 4 {
                } else if i == 5 {
                } else if i == 6 {
                } else if i == 7 {
                } else if i == 8 {
                } else if i == 9 {
                } else if i == 10 {
                } else if i == 11 {
                } else if i == 12 {
                } else if i == 13 {
                } else if i == 14 {
                } else if i == 15 {
                }
            }
        },
        AuditEvent::MfaEnabled => {
            let s = "mfa_enabled"@;
            assert forall|i: int| 0 <= i < s.len() implies snake_char(#[trigger] s[i]) by {
                if i == 0 {
                } else if i == 1 {
                } else if i == 2 {
                } else if i == 3 {
                } else if i == 4 {
                } else if i == 5 {
                } else if i == 6 {
                } else if i == 7 {
                } else if i == 8 {
                } else if i == 9 {
                } else if i == 10 {
                }
            }
        },
        AuditEvent::MfaDisabled => {
            let s = "mfa_disabled"@;
            assert forall|i: int| 0 <= i < s.len() implies snake_char(#[trigger] s[i]) by {
                if i == 0 {
                } else if i == 1 {
                } else if i == 2 {
                } else if i == 3 {
                } else if i == 4 {
                } else if i == 5 {
                } else if i == 6 {
                } else if i == 7 {
                } else if i == 8 {
                } else if i == 9 {
                } else if i == 10 {
                } else if i == 11 {
                }
            }
        },
        AuditEvent::MfaResetByOther => {
            let s = "mfa_reset_by_other"@;
            assert forall|i: int| 0 <= i < s.len() implies snake_char(#[trigger] s[i]) by {
                if i == 0 {
                } else if i == 1 {
                } else if i == 2 {
                } else if i == 3 {
                } else if i == 4 {
                } else if i == 5 {
                } else if i == 6 {
                } else if i == 7 {
                } else if i == 8 {
                } else if i == 9 {
                } else if i == 10 {
                } else if i == 11 {
                } else if i == 12 {
                } else if i == 13 {
                } else if i == 14 {
                } else if i == 15 {
                } else if i == 16 {
                } else if i == 17 {
                }
            }
        },
        AuditEvent::SessionsRevokedSelf => {
            let s = "sessions_revoked_self"@;
            assert forall|i: int| 0 <= i < s.len() implies snake_char(#[trigger] s[i]) by {
                if i == 0 {
                } else if i == 1 {
                } else if i == 2 {
                } else if i == 3 {
                } else if i == 4 {
                } else if i == 5 {
                } else if i == 6 {
                } else if i == 7 {
                } else if i == 8 {
                } else if i == 9 {
                } else if i == 10 {
                } else if i == 11 {
                } else if i == 12 {
                } else if i == 13 {
                } else if i == 14 {
                } else if i == 15 {
                } else if i == 16 {
                } else if i == 17 {
                } else if i == 18 {
                } else if i == 19 {
                } else if i == 20 {
                }
            }
        },
        AuditEvent::SessionsRevokedByOther => {
            let s = "sessions_revoked_by_other"@;
            assert forall|i: int| 0 <= i < s.len() implies snake_char(#[trigger] s[i]) by {
                if i == 0 {
                } else if i == 1 {
                } else if i == 2 {
                } else if i == 3 {
                } else if i == 4 {
                } else if i == 5 {
                } else if i == 6 {
                } else if i == 7 {
                } else if i == 8 {
                } else if i == 9 {
                } else if i == 10 {
                } else if i == 11 {
                } else if i == 12 {
                } else if i == 13 {
                } else if i == 14 {
                } else if i == 15 {
                } else if i == 16 {
                } else if i == 17 {
                } else if i == 18 {
                } else if i == 19 {
                } else if i == 20 {
                } else if i == 21 {
                } else if i == 22 {
                } else if i == 23 {
                } else if i == 24 {
                }
            }
        },
        AuditEvent::SessionLogout => {
            let s = "session_logout"@;
            assert forall|i: int| 0 <= i < s.len() implies snake_char(#[trigger] s[i]) by {
                if i == 0 {
                } else if i == 1 {
                } else if i == 2 {
                } else if i == 3 {
                } else if i == 4 {
                } else if i == 5 {
                } else if i == 6 {
                } else if i == 7 {
                } else if i == 8 {
                } else if i == 9 {
                } else if i == 10 {
                } else if i == 11 {
                } else if i == 12 {
                } else if i == 13 {
                }
            }
        },
        AuditEvent::EmergencyRecovery => {
            let s = "emergency_recovery"@;
            assert forall|i: int| 0 <= i < s.len() implies snake_char(#[trigger] s[i]) by {
                if i == 0 {
                } else if i == 1 {
                } else if i == 2 {
                } else if i == 3 {
                } else if i == 4 {
                } else if i == 5 {
                } else if i == 6 {
                } else if i == 7 {
                } else if i == 8 {
                } else if i == 9 {
                } else if i == 10 {
                } else if i == 11 {
                } else if i == 12 {
                } else if i == 13 {
                } else if i == 14 {
                } else if i == 15 {
                } else if i == 16 {
                } else if i == 17 {
                }
            }
        },
    }
}

} // verus!
