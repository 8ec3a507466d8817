//! The validation decisions of the password forms (forced rotation,
//! self-service change, an administrator's reset of another user) and
//! the choice of which sessions a password change revokes. The
//! database reads, the password-hash check and the policy check are
//! the handlers' I/O; their answers come in as arguments.
use vstd::prelude::*;
use crate::recovery::debug_str;
use crate::text::{chars_of, str_eq, string_from_chars, to_owned_string, trim, trim_str, push_str};

verus! {

broadcast use vstd::string::group_string_axioms;

/// The outcome of validating a form: the messages of the banner, in
/// order, and those of them that belong to a field, keyed by field.
#[derive(Debug, Clone)]
pub struct FormCheck {
    pub errors: Vec<String>,
    pub field_errors: Vec<(&'static str, String)>,
}

/// The mathematical shape of a [`FormCheck`].
pub open spec fn check_view(c: FormCheck) -> (Seq<Seq<char>>, Seq<(Seq<char>, Seq<char>)>) {
    (
        c.errors@.map_values(|m: String| m@),
        c.field_errors@.map_values(|p: (&'static str, String)| (p.0@, p.1@)),
    )
}

pub open spec fn no_errors() -> (Seq<Seq<char>>, Seq<(Seq<char>, Seq<char>)>) {
    (Seq::empty(), Seq::empty())
}

/// A failure shown in the banner and beside `field`.
pub open spec fn field_error(field: Seq<char>, msg: Seq<char>) -> (Seq<Seq<char>>, Seq<(Seq<char>, Seq<char>)>) {
    (seq![msg], seq![(field, msg)])
}

/// Two outcomes one after the other.
pub open spec fn followed_by(
    a: (Seq<Seq<char>>, Seq<(Seq<char>, Seq<char>)>),
    b: (Seq<Seq<char>>, Seq<(Seq<char>, Seq<char>)>),
) -> (Seq<Seq<char>>, Seq<(Seq<char>, Seq<char>)>) {
    (a.0 + b.0, a.1 + b.1)
}

fn empty_check() -> (c: FormCheck)
    ensures
        check_view(c) == no_errors(),
{
    let c = FormCheck { errors: Vec::new(), field_errors: Vec::new() };
    assert(check_view(c).0 =~= Seq::<Seq<char>>::empty());
    assert(check_view(c).1 =~= Seq::<(Seq<char>, Seq<char>)>::empty());
    c
}

fn add_field_error(c: &mut FormCheck, field: &'static str, msg: String)
    ensures
        check_view(*final(c)) == followed_by(check_view(*old(c)), field_error(field@, msg@)),
{
    let ghost before = check_view(*c);
    let m2 = msg.clone();
    c.errors.push(msg);
    c.field_errors.push((field, m2));
    assert(check_view(*c).0 =~= before.0 + seq![msg@]);
    assert(check_view(*c).1 =~= before.1 + seq![(field@, msg@)]);
}

fn add_form_error(c: &mut FormCheck, msg: String)
    ensures
        check_view(*final(c)) == followed_by(check_view(*old(c)), (seq![msg@], Seq::empty())),
{
    let ghost before = check_view(*c);
    c.errors.push(msg);
    assert(check_view(*c).0 =~= before.0 + seq![msg@]);
    assert(check_view(*c).1 =~= before.1 + Seq::<(Seq<char>, Seq<char>)>::empty());
}

// ---------------------------------------------------------------------------
// Forced rotation
// ---------------------------------------------------------------------------

pub open spec fn enter_new_password_message() -> Seq<char> {
    "Enter a new password."@
}

pub open spec fn mismatch_message() -> Seq<char> {
    "Passwords do not match."@
}

pub open spec fn reuse_message() -> Seq<char> {
    "New password must be different from your current password."@
}

pub open spec fn account_gone_message() -> Seq<char> {
    "Could not load your account. Please sign in again."@
}

/// The first check of the forced-rotation form: an empty first field,
/// then a mismatch, then the password policy's complaint (`policy_error`,
/// the policy's answer for `new1`), whichever comes first.
pub open spec fn rotation_errors(new1: Seq<char>, new2: Seq<char>, policy_error: Option<Seq<char>>) -> (
    Seq<Seq<char>>,
    Seq<(Seq<char>, Seq<char>)>,
) {
    if new1.len() == 0 {
        field_error("new_password1"@, enter_new_password_message())
    } else if new1 != new2 {
        field_error("new_password2"@, mismatch_message())
    } else {
        match policy_error {
            Some(m) => field_error("new_password1"@, m),
            None => no_errors(),
        }
    }
}

/// Validates the forced-rotation form (see [`rotation_errors`]).
pub fn must_change_password_check(new1: &str, new2: &str, policy_error: Option<&str>) -> (c: FormCheck)
    ensures
        check_view(c) == rotation_errors(
            new1@,
            new2@,
            match policy_error {
                Some(m) => Some(m@),
                None => None,
            },
        ),
{
    let mut c = empty_check();
    let v1 = chars_of(new1);
    if v1.len() == 0 {
        add_field_error(&mut c, "new_password1", to_owned_string("Enter a new password."));
    } else if !str_eq(new1, new2) {
        add_field_error(&mut c, "new_password2", to_owned_string("Passwords do not match."));
    } else {
        match policy_error {
            Some(m) => add_field_error(&mut c, "new_password1", to_owned_string(m)),
            None => {},
        }
    }
    c
}

/// The second check of the forced-rotation form, once the first passed:
/// the account must still exist, and the new password must not be the
/// current one (`same_as_current`, the hash check's answer).
pub open spec fn rotation_account_errors(account_found: bool, same_as_current: bool) -> (
    Seq<Seq<char>>,
    Seq<(Seq<char>, Seq<char>)>,
) {
    if !account_found {
        (seq![account_gone_message()], Seq::empty())
    } else if same_as_current {
        field_error("new_password1"@, reuse_message())
    } else {
        no_errors()
    }
}

/// The account check of the forced-rotation form (see
/// [`rotation_account_errors`]).
pub fn must_change_password_account_check(account_found: bool, same_as_current: bool) -> (c: FormCheck)
    ensures
        check_view(c) == rotation_account_errors(account_found, same_as_current),
{
    let mut c = empty_check();
    if !account_found {
        add_form_error(&mut c, to_owned_string("Could not load your account. Please sign in again."));
    } else if same_as_current {
        add_field_error(
            &mut c,
            "new_password1",
            to_owned_string("New password must be different from your current password."),
        );
    }
    c
}

// ---------------------------------------------------------------------------
// Self-service change
// ---------------------------------------------------------------------------

pub open spec fn wrong_old_message() -> Seq<char> {
    "Your old password was entered incorrectly. Please enter it again."@
}

pub open spec fn fields_differ_message() -> Seq<char> {
    "The two password fields didn't match."@
}

/// Every failure of the password-change form, in order: a wrong old
/// password (`old_matches`, the hash check's answer), differing new
/// fields, and the policy's complaint about the new password.
pub open spec fn change_errors(old_matches: bool, new1: Seq<char>, new2: Seq<char>, policy_error: Option<Seq<char>>) -> (
    Seq<Seq<char>>,
    Seq<(Seq<char>, Seq<char>)>,
) {
    followed_by(
        followed_by(
            if old_matches { no_errors() } else { field_error("old_password"@, wrong_old_message()) },
            if new1 == new2 { no_errors() } else { field_error("new_password2"@, fields_differ_message()) },
        ),
        match policy_error {
            Some(m) => field_error("new_password1"@, m),
            None => no_errors(),
        },
    )
}

/// Validates the password-change form (see [`change_errors`]).
pub fn password_change_check(old_matches: bool, new1: &str, new2: &str, policy_error: Option<&str>) -> (c:
    FormCheck)
    ensures
        check_view(c) == change_errors(
            old_matches,
            new1@,
            new2@,
            match policy_error {
                Some(m) => Some(m@),
                None => None,
            },
        ),
{
    let mut c = empty_check();
    let ghost c0 = check_view(c);
    if !old_matches {
        add_field_error(
            &mut c,
            "old_password",
            to_owned_string("Your old password was entered incorrectly. Please enter it again."),
        );
    }
    let ghost c1 = check_view(c);
    assert(c1 == followed_by(c0, if old_matches { no_errors() } else { field_error("old_password"@, wrong_old_message()) })) by {
        if old_matches {
            assert(c1.0 =~= c0.0 + Seq::<Seq<char>>::empty());
            assert(c1.1 =~= c0.1 + Seq::<(Seq<char>, Seq<char>)>::empty());
        }
    }
    if !str_eq(new1, new2) {
        add_field_error(&mut c, "new_password2", to_owned_string("The two password fields didn't match."));
    }
    let ghost c2 = check_view(c);
    assert(c2 == followed_by(c1, if new1@ == new2@ { no_errors() } else { field_error("new_password2"@, fields_differ_message()) })) by {
        if new1@ == new2@ {
            assert(c2.0 =~= c1.0 + Seq::<Seq<char>>::empty());
            assert(c2.1 =~= c1.1 + Seq::<(Seq<char>, Seq<char>)>::empty());
        }
    }
    match policy_error {
        Some(m) => add_field_error(&mut c, "new_password1", to_owned_string(m)),
        None => {},
    }
    let ghost c3 = check_view(c);
    assert(c3 == followed_by(c2, match policy_error { Some(m) => field_error("new_password1"@, m@), None => no_errors() })) by {
        if policy_error is None {
            assert(c3.0 =~= c2.0 + Seq::<Seq<char>>::empty());
            assert(c3.1 =~= c2.1 + Seq::<(Seq<char>, Seq<char>)>::empty());
        }
    }
    c
}

// ---------------------------------------------------------------------------
// Administrator reset of another user
// ---------------------------------------------------------------------------

/// A submitted form value, or `default` when absent, trimmed.
pub open spec fn form_value(v: Option<Seq<char>>, default: Seq<char>) -> Seq<char> {
    trim(
        match v {
            Some(s) => s,
            None => default,
        },
    )
}

/// Reads a form value (see [`form_value`]).
pub fn trimmed_form_value(v: Option<&str>, default: &str) -> (r: String)
    ensures
        r@ == form_value(
            match v {
                Some(s) => Some(s@),
                None => None,
            },
            default@,
        ),
{
    let t = match v {
        Some(s) => trim_str(s),
        None => trim_str(default),
    };
    string_from_chars(t.as_slice())
}

pub open spec fn short_reason_message() -> Seq<char> {
    "Reason must be at least 8 characters."@
}

pub open spec fn disabled_target_message(email: Seq<char>) -> Seq<char> {
    email + " is currently disabled. Re-enable the account before resetting."@
}

/// Every failure of the reset form, in order: a reason (already
/// trimmed) of fewer than 8 characters, a mode other than `email` or
/// `temp_pw`, and a disabled target account.
pub open spec fn admin_reset_errors(reason: Seq<char>, mode: Seq<char>, target_email: Seq<char>, target_is_active: bool) -> (
    Seq<Seq<char>>,
    Seq<(Seq<char>, Seq<char>)>,
) {
    followed_by(
        followed_by(
            if reason.len() < 8 { field_error("reason"@, short_reason_message()) } else { no_errors() },
            if mode == "email"@ || mode == "temp_pw"@ {
                no_errors()
            } else {
                (seq!["Unknown mode: "@ + crate::recovery::str_debug(mode) + "."@], Seq::empty())
            },
        ),
        if target_is_active { no_errors() } else { (seq![disabled_target_message(target_email)], Seq::empty()) },
    )
}

/// Validates an administrator's reset of another user's password (see
/// [`admin_reset_errors`]).
pub fn admin_reset_check(reason: &str, mode: &str, target_email: &str, target_is_active: bool) -> (c: FormCheck)
    ensures
        check_view(c) == admin_reset_errors(reason@, mode@, target_email@, target_is_active),
{
    let mut c = empty_check();
    let ghost c0 = check_view(c);
    let rv = chars_of(reason);
    if rv.len() < 8 {
        add_field_error(&mut c, "reason", to_owned_string("Reason must be at least 8 characters."));
    }
    let ghost c1 = check_view(c);
    assert(c1 =~~= if reason@.len() < 8 { field_error("reason"@, short_reason_message()) } else { no_errors() });
    if !str_eq(mode, "email") && !str_eq(mode, "temp_pw") {
        let mut m = to_owned_string("Unknown mode: ");
        let d = debug_str(mode);
        push_str(&mut m, d.as_str());
        push_str(&mut m, ".");
        add_form_error(&mut c, m);
    }
    let ghost c2 = check_view(c);
    assert(c2 =~~= followed_by(c1, if mode@ == "email"@ || mode@ == "temp_pw"@ { no_errors() } else {
        (seq!["Unknown mode: "@ + crate::recovery::str_debug(mode@) + "."@], Seq::empty()) }));
    if !target_is_active {
        let mut m = to_owned_string(target_email);
        push_str(&mut m, " is currently disabled. Re-enable the account before resetting.");
        add_form_error(&mut c, m);
    }
    let ghost c3 = check_view(c);
    assert(c3 =~~= followed_by(c2, if target_is_active { no_errors() } else { (seq![disabled_target_message(target_email@)], Seq::empty()) }));
    c
}

// ---------------------------------------------------------------------------
// Session revocation target
// ---------------------------------------------------------------------------

/// Which sessions a password change revokes.
#[derive(Debug, Clone, Copy, PartialEq, Eq, Structural)]
pub enum SessionTarget {
    /// Every session of the user.
    User { user_id: i64 },
    /// Every session of the user but the one making the request.
    UserExceptCurrent { user_id: i64, current_session_id: i64 },
    /// One session.
    Single { session_id: i64 },
}

/// The current device stays signed in when its session is known;
/// otherwise (a stale cookie) every session goes.
pub fn session_target(user_id: i64, current_session_id: Option<i64>) -> (t: SessionTarget)
    ensures
        t == match current_session_id {
            Some(sid) => SessionTarget::UserExceptCurrent { user_id, current_session_id: sid },
            None => SessionTarget::User { user_id },
        },
{
    match current_session_id {
        Some(sid) => SessionTarget::UserExceptCurrent { user_id, current_session_id: sid },
        None => SessionTarget::User { user_id },
    }
}

} // verus!
