//! The sign-in flow's decisions. The handler looks the user up, checks
//! the lockout, and verifies the password, in that order; after each
//! answer [`login_step`] says what happens next. Every refusal is the
//! same uniform "Invalid email or password." answer; only the audit
//! reason differs, and the client never sees it.
use vstd::prelude::*;
use crate::text::{decimal_int, i64_string, push_str, push_string, to_owned_string};

verus! {

broadcast use vstd::string::group_string_axioms;

/// What the handler has just learned.
#[derive(Debug, Clone, Copy, PartialEq, Eq, Structural)]
pub enum LoginEvent {
    /// The account lookup by email: whether a user exists and, if so,
    /// whether it is active.
    UserLookedUp { found: bool, is_active: bool },
    /// The lockout check.
    LockChecked { locked: bool },
    /// The password check, with whether the user has MFA enrolled.
    PasswordChecked { ok: bool, mfa_enabled: bool },
}

/// What the handler does next.
#[derive(Debug, Clone, Copy, PartialEq, Eq)]
pub enum LoginAction {
    /// Check whether the account is locked.
    CheckLock,
    /// Verify the submitted password.
    VerifyPassword,
    /// Answer with the uniform 401; `audit_reason` is what the
    /// failed-sign-in audit row records (none for an unknown email,
    /// which has no user to audit).
    Reject { audit_reason: Option<&'static str> },
    /// Start a session and redirect.
    SignIn { redirect_to: &'static str },
}

/// The view of a [`LoginAction`], with its texts as sequences.
pub enum LoginActionSpec {
    CheckLock,
    VerifyPassword,
    Reject(Option<Seq<char>>),
    SignIn(Seq<char>),
}

pub open spec fn action_view(a: LoginAction) -> LoginActionSpec {
    match a {
        LoginAction::CheckLock => LoginActionSpec::CheckLock,
        LoginAction::VerifyPassword => LoginActionSpec::VerifyPassword,
        LoginAction::Reject { audit_reason } => LoginActionSpec::Reject(
            match audit_reason {
                Some(r) => Some(r@),
                None => None,
            },
        ),
        LoginAction::SignIn { redirect_to } => LoginActionSpec::SignIn(redirect_to@),
    }
}

/// The sign-in rules: an unknown email or an inactive account is
/// refused before the lockout is consulted, a locked account before
/// the password is verified (no hashing cost, uniform timing), a wrong
/// password is refused, and a right one signs in to the MFA challenge
/// when MFA is enrolled, else to the dashboard.
pub open spec fn login_rule(ev: LoginEvent) -> LoginActionSpec {
    match ev {
        LoginEvent::UserLookedUp { found, is_active } => if !found {
            LoginActionSpec::Reject(None)
        } else if !is_active {
            LoginActionSpec::Reject(Some("inactive"@))
        } else {
            LoginActionSpec::CheckLock
        },
        LoginEvent::LockChecked { locked } => if locked {
            LoginActionSpec::Reject(Some("locked"@))
        } else {
            LoginActionSpec::VerifyPassword
        },
        LoginEvent::PasswordChecked { ok, mfa_enabled } => if !ok {
            LoginActionSpec::Reject(Some("wrong_password"@))
        } else if mfa_enabled {
            LoginActionSpec::SignIn("/admin/mfa/verify"@)
        } else {
            LoginActionSpec::SignIn("/admin"@)
        },
    }
}

/// The next step of the sign-in flow (see [`login_rule`]).
pub fn login_step(ev: LoginEvent) -> (a: LoginAction)
    ensures
        action_view(a) == login_rule(ev),
{
    match ev {
        LoginEvent::UserLookedUp { found, is_active } => {
            if !found {
                LoginAction::Reject { audit_reason: None }
            } else if !is_active {
                LoginAction::Reject { audit_reason: Some("inactive") }
            } else {
                LoginAction::CheckLock
            }
        },
        LoginEvent::LockChecked { locked } => {
            if locked {
                LoginAction::Reject { audit_reason: Some("locked") }
            } else {
                LoginAction::VerifyPassword
            }
        },
        LoginEvent::PasswordChecked { ok, mfa_enabled } => {
            if !ok {
                LoginAction::Reject { audit_reason: Some("wrong_password") }
            } else if mfa_enabled {
                LoginAction::SignIn { redirect_to: "/admin/mfa/verify" }
            } else {
                LoginAction::SignIn { redirect_to: "/admin" }
            }
        },
    }
}

/// The one message every refused sign-in shows.
pub open spec fn invalid_credentials_message() -> Seq<char> {
    "Invalid email or password."@
}

/// The message a refused sign-in shows.
pub fn invalid_credentials() -> (m: &'static str)
    ensures
        m@ == invalid_credentials_message(),
{
    "Invalid email or password."
}

/// The summary of a sign-in audit row: `signed in: <email>`, or
/// `failed sign-in (<reason>): <email>` / `failed sign-in: <email>`.
pub open spec fn login_audit_summary(succeeded: bool, reason: Option<Seq<char>>, email: Seq<char>) -> Seq<char> {
    if succeeded {
        "signed in: "@ + email
    } else {
        match reason {
            Some(r) => "failed sign-in ("@ + r + "): "@ + email,
            None => "failed sign-in: "@ + email,
        }
    }
}

/// Builds a sign-in audit summary (see [`login_audit_summary`]).
pub fn login_audit_text(succeeded: bool, reason: Option<&str>, email: &str) -> (s: String)
    ensures
        s@ == login_audit_summary(
            succeeded,
            match reason {
                Some(r) => Some(r@),
                None => None,
            },
            email@,
        ),
{
    if succeeded {
        let mut s = to_owned_string("signed in: ");
        push_str(&mut s, email);
        s
    } else {
        match reason {
            Some(r) => {
                let mut s = to_owned_string("failed sign-in (");
                push_str(&mut s, r);
                push_str(&mut s, "): ");
                push_str(&mut s, email);
                s
            },
            None => {
                let mut s = to_owned_string("failed sign-in: ");
                push_str(&mut s, email);
                s
            },
        }
    }
}

/// The summary and the `reason` metadata of the audit row written when
/// a failure trips the auto-throttle.
pub open spec fn throttle_lock_texts(email: Seq<char>, count: int, window_minutes: int) -> (Seq<char>, Seq<char>) {
    (
        "auto-throttle locked user "@ + email + " after "@ + decimal_int(count) + " failed logins"@,
        "auto-throttle: "@ + decimal_int(count) + " failed logins within "@ + decimal_int(window_minutes)
            + " minutes"@,
    )
}

/// Builds the auto-throttle audit texts (see [`throttle_lock_texts`]).
pub fn throttle_lock_audit(email: &str, count: i64, window_minutes: i64) -> (r: (String, String))
    ensures
        (r.0@, r.1@) == throttle_lock_texts(email@, count as int, window_minutes as int),
{
    let mut summary = to_owned_string("auto-throttle locked user ");
    push_str(&mut summary, email);
    push_str(&mut summary, " after ");
    push_string(&mut summary, i64_string(count));
    push_str(&mut summary, " failed logins");
    let mut reason = to_owned_string("auto-throttle: ");
    push_string(&mut reason, i64_string(count));
    push_str(&mut reason, " failed logins within ");
    push_string(&mut reason, i64_string(window_minutes));
    push_str(&mut reason, " minutes");
    (summary, reason)
}

/// A session starts only after a right password; an unknown email, an
/// inactive account and a locked account are refused at their own
/// step, before any later check.
pub proof fn lemma_sign_in_requires_every_check(ev: LoginEvent)
    ensures
        login_rule(ev) is SignIn ==> (ev matches LoginEvent::PasswordChecked { ok, .. } && ok),
        (ev matches LoginEvent::UserLookedUp { found, is_active } && (!found || !is_active))
            ==> login_rule(ev) is Reject,
        (ev matches LoginEvent::LockChecked { locked } && locked) ==> login_rule(ev) is Reject,
{
}

} // verus!
