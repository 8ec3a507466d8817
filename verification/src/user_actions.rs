//! The confirm pages of an administrator's actions on another account
//! (lock, unlock, revoke every session): their URLs, their texts, and
//! the validation of what was submitted.
use vstd::prelude::*;
use crate::error::AdminError;
use crate::password_forms::{check_view, field_error, followed_by, no_errors, FormCheck};
use crate::recovery::{lock_duration_result, parse_lock_duration, LockDuration};
use crate::text::{decimal_int, i64_string, push_str, push_string, to_owned_string};

verus! {

broadcast use vstd::string::group_string_axioms;

/// The confirm-only actions (the lock has a form of its own).
#[derive(Debug, Clone, Copy, PartialEq, Eq, Structural)]
pub enum ActionKind {
    Unlock,
    Revoke,
}

/// The last segment of an action's URL.
pub open spec fn suffix_of(kind: ActionKind) -> Seq<char> {
    match kind {
        ActionKind::Unlock => "unlock"@,
        ActionKind::Revoke => "revoke-sessions"@,
    }
}

/// The URL segment of an action.
pub fn action_path_suffix(kind: ActionKind) -> (s: &'static str)
    ensures
        s@ == suffix_of(kind),
{
    match kind {
        ActionKind::Unlock => "unlock",
        ActionKind::Revoke => "revoke-sessions",
    }
}

/// `(title, description, submit label)` of an action's confirm page.
pub open spec fn texts_of(kind: ActionKind) -> (Seq<char>, Seq<char>, Seq<char>) {
    match kind {
        ActionKind::Unlock => (
            "Unlock account"@,
            "Clear the account lock and reset the failed-login counter. The user can sign in immediately."@,
            "Unlock account"@,
        ),
        ActionKind::Revoke => (
            "Revoke all sessions"@,
            "Sign the user out of every device immediately. No lock is applied; they can sign in again on a fresh session."@,
            "Revoke all sessions"@,
        ),
    }
}

/// The texts of an action's confirm page (see [`texts_of`]).
pub fn action_texts(kind: ActionKind) -> (t: (&'static str, &'static str, &'static str))
    ensures
        (t.0@, t.1@, t.2@) == texts_of(kind),
{
    match kind {
        ActionKind::Unlock => (
            "Unlock account",
            "Clear the account lock and reset the failed-login counter. The user can sign in immediately.",
            "Unlock account",
        ),
        ActionKind::Revoke => (
            "Revoke all sessions",
            "Sign the user out of every device immediately. No lock is applied; they can sign in again on a fresh session.",
            "Revoke all sessions",
        ),
    }
}

/// `/admin/users/<id>/<segment>`: where an action's form posts, and
/// where re-authentication returns to.
pub open spec fn user_action_url(target_user_id: int, segment: Seq<char>) -> Seq<char> {
    "/admin/users/"@ + decimal_int(target_user_id) + "/"@ + segment
}

/// Builds an action URL (see [`user_action_url`]).
pub fn user_action_path(target_user_id: i64, segment: &str) -> (p: String)
    ensures
        p@ == user_action_url(target_user_id as int, segment@),
{
    let mut p = to_owned_string("/admin/users/");
    push_string(&mut p, i64_string(target_user_id));
    push_str(&mut p, "/");
    push_str(&mut p, segment);
    p
}

/// `<title> — <email>`.
pub fn action_page_title(title: &str, target_email: &str) -> (t: String)
    ensures
        t@ == title@ + " — "@ + target_email@,
{
    let mut t = to_owned_string(title);
    push_str(&mut t, " — ");
    push_str(&mut t, target_email);
    t
}

/// A reason (already trimmed) shorter than 8 characters is refused.
pub open spec fn reason_errors(reason: Seq<char>) -> (Seq<Seq<char>>, Seq<(Seq<char>, Seq<char>)>) {
    if reason.len() < 8 {
        field_error("reason"@, "Reason must be at least 8 characters."@)
    } else {
        no_errors()
    }
}

/// Validates the reason of a lock, an unlock or a revocation.
pub fn reason_check(reason: &str) -> (c: FormCheck)
    ensures
        check_view(c) == reason_errors(reason@),
{
    let mut c = FormCheck { errors: Vec::new(), field_errors: Vec::new() };
    let n = crate::text::chars_of(reason).len();
    if n < 8 {
        let msg = to_owned_string("Reason must be at least 8 characters.");
        let m2 = msg.clone();
        c.errors.push(msg);
        c.field_errors.push(("reason", m2));
        assert(check_view(c).0 =~= seq!["Reason must be at least 8 characters."@]);
        assert(check_view(c).1 =~= seq![("reason"@, "Reason must be at least 8 characters."@)]);
    } else {
        assert(check_view(c).0 =~= Seq::<Seq<char>>::empty());
        assert(check_view(c).1 =~= Seq::<(Seq<char>, Seq<char>)>::empty());
    }
    c
}

/// The lock form's failures, in order: a short reason, then the
/// duration's refusal.
pub open spec fn lock_errors(reason: Seq<char>, duration: Seq<char>, freeform: Seq<char>) -> (
    Seq<Seq<char>>,
    Seq<(Seq<char>, Seq<char>)>,
) {
    followed_by(
        reason_errors(reason),
        match lock_duration_result(duration, freeform) {
            Ok(_) => no_errors(),
            Err(m) => field_error("duration"@, m),
        },
    )
}

/// Validates the lock form: the check, and the duration when it parsed.
pub fn lock_form_check(reason: &str, duration: &str, freeform_minutes: &str) -> (r: (FormCheck, Option<LockDuration>))
    ensures
        check_view(r.0) == lock_errors(reason@, duration@, freeform_minutes@),
        match lock_duration_result(duration@, freeform_minutes@) {
            Ok(d) => r.1 == Some(d),
            Err(_) => r.1 is None,
        },
{
    let mut c = reason_check(reason);
    let ghost c0 = check_view(c);
    match parse_lock_duration(duration, freeform_minutes) {
        Ok(d) => {
            assert(check_view(c).0 =~= c0.0 + Seq::<Seq<char>>::empty());
            assert(check_view(c).1 =~= c0.1 + Seq::<(Seq<char>, Seq<char>)>::empty());
            (c, Some(d))
        },
        Err(msg) => {
            let m2 = msg.clone();
            c.errors.push(msg);
            c.field_errors.push(("duration", m2));
            assert(check_view(c).0 =~= c0.0 + seq![m2@]);
            assert(check_view(c).1 =~= c0.1 + seq![("duration"@, m2@)]);
            (c, None)
        },
    }
}

// ---------------------------------------------------------------------------
// Revoking one session of another user
// ---------------------------------------------------------------------------

/// The message when an administrator tries to revoke, from another
/// user's profile, the session they are using.
pub open spec fn own_session_message() -> Seq<char> {
    "You can't revoke your own session from another user's profile. Use Account → Sessions to manage your own devices."@
}

/// Whether one session may be revoked from a user's profile: the live
/// session's owner (`owner`, none when the session is revoked, expired
/// or unknown) must be the target user, else the same 404 answers; and
/// it must not be the acting administrator's own session.
pub open spec fn revoke_one_verdict(target_user_id: i64, session_id: i64, owner: Option<i64>, actor_session_id: Option<i64>) -> Result<(), (u16, Seq<char>)> {
    if owner != Some(target_user_id) {
        Err((404, "session #"@ + decimal_int(session_id as int) + " for user #"@ + decimal_int(target_user_id as int)))
    } else if actor_session_id == Some(session_id) {
        Err((400, own_session_message()))
    } else {
        Ok(())
    }
}

/// Decides a per-session revocation (see [`revoke_one_verdict`]); the
/// error's status and message are those of the returned [`AdminError`].
pub fn revoke_one_session_check(target_user_id: i64, session_id: i64, owner: Option<i64>, actor_session_id: Option<i64>) -> (r: Result<(), AdminError>)
    ensures
        match (r, revoke_one_verdict(target_user_id, session_id, owner, actor_session_id)) {
            (Ok(()), Ok(())) => true,
            (Err(e), Err((status, msg))) => crate::error::status_of(e) == status && crate::error::client_text(e) == msg,
            _ => false,
        },
{
    let owned = match owner {
        Some(uid) => uid == target_user_id,
        None => false,
    };
    if !owned {
        let mut m = to_owned_string("session #");
        push_string(&mut m, i64_string(session_id));
        push_str(&mut m, " for user #");
        push_string(&mut m, i64_string(target_user_id));
        return Err(AdminError::NotFound(m));
    }
    match actor_session_id {
        Some(a) => {
            if a == session_id {
                return Err(AdminError::BadRequest(to_owned_string(
                    "You can't revoke your own session from another user's profile. Use Account → Sessions to manage your own devices.",
                )));
            }
        },
        None => {},
    }
    Ok(())
}

} // verus!
