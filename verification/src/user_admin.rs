//! The decisions of the user and group administration forms: which
//! groups / permissions a submission ticks, what changed, the audit
//! summaries, and the validation of new users and groups.
use vstd::prelude::*;
use crate::auth::{role_name, Role};
use vstd::string::StringSliceAdditionalSpecFns;
use crate::builtin::{email_shaped, looks_like_email};
use crate::handlers::{parse_i64, parse_i64_chars};
use crate::password_forms::{check_view, field_error, followed_by, no_errors, FormCheck};
use crate::text::{
    chars_of, chars_starts_with, decimal_int, i64_string, join, push_str, push_string, str_eq,
    sub_chars, to_owned_string,
};

verus! {

broadcast use vstd::string::group_string_axioms;

// ---------------------------------------------------------------------------
// Ticked checkboxes
// ---------------------------------------------------------------------------

/// The id a ticked checkbox named `<prefix><id>` stands for: the value
/// must be `on` and the rest of the name an `i64`.
pub open spec fn ticked_id(pair: (Seq<char>, Seq<char>), prefix: Seq<char>) -> Option<i64> {
    if pair.0.len() >= prefix.len() && pair.0.take(prefix.len() as int) == prefix && pair.1 == "on"@ {
        parse_i64(pair.0.skip(prefix.len() as int))
    } else {
        None
    }
}

/// The ticked ids among the first `n` fields, in form order.
pub open spec fn ticked_ids_of(form: Seq<(String, String)>, prefix: Seq<char>, n: int) -> Seq<i64>
    decreases n,
{
    if n <= 0 {
        Seq::empty()
    } else {
        let r = ticked_ids_of(form, prefix, n - 1);
        match ticked_id((form[n - 1].0@, form[n - 1].1@), prefix) {
            Some(id) => r.push(id),
            None => r,
        }
    }
}

/// The ids of the ticked `<prefix><id>` checkboxes, in form order.
pub fn ticked_ids(form: &[(String, String)], prefix: &str) -> (ids: Vec<i64>)
    ensures
        ids@ == ticked_ids_of(form@, prefix@, form@.len() as int),
{
    let p = chars_of(prefix);
    let on = chars_of("on");
    let mut ids: Vec<i64> = Vec::new();
    let mut i: usize = 0;
    while i < form.len()
        invariant
            i <= form.len(),
            p@ == prefix@,
            on@ == "on"@,
            ids@ == ticked_ids_of(form@, prefix@, i as int),
        decreases form.len() - i,
    {
        let k = chars_of(form[i].0.as_str());
        let v = chars_of(form[i].1.as_str());
        if chars_starts_with(k.as_slice(), p.as_slice()) && crate::text::chars_eq(v.as_slice(), on.as_slice()) {
            let rest = sub_chars(k.as_slice(), p.len(), k.len());
            assert(rest@ =~= k@.skip(p@.len() as int));
            match parse_i64_chars(rest.as_slice()) {
                Some(id) => ids.push(id),
                None => {},
            }
        }
        i = i + 1;
    }
    ids
}

// ---------------------------------------------------------------------------
// Before / after
// ---------------------------------------------------------------------------

/// The ids of `a` that are not in `b`, in `a`'s order.
pub open spec fn ids_not_in(a: Seq<i64>, b: Seq<i64>) -> Seq<i64> {
    a.filter(|x: i64| !b.contains(x))
}

fn contains_id(v: &[i64], x: i64) -> (b: bool)
    ensures
        b == v@.contains(x),
{
    let mut i: usize = 0;
    while i < v.len()
        invariant
            i <= v.len(),
            forall|j: int| 0 <= j < i ==> v@[j] != x,
        decreases v.len() - i,
    {
        if v[i] == x {
            return true;
        }
        i = i + 1;
    }
    false
}

/// The ids of `a` missing from `b`: the added ids are
/// `ids_missing(after, before)`, the removed ones
/// `ids_missing(before, after)`.
pub fn ids_missing(a: &[i64], b: &[i64]) -> (r: Vec<i64>)
    ensures
        r@ == ids_not_in(a@, b@),
{
    let mut r: Vec<i64> = Vec::new();
    let mut i: usize = 0;
    while i < a.len()
        invariant
            i <= a.len(),
            r@ == ids_not_in(a@.take(i as int), b@),
        decreases a.len() - i,
    {
        assert(a@.take(i + 1).drop_last() =~= a@.take(i as int));
        reveal(Seq::filter);
        if !contains_id(b, a[i]) {
            r.push(a[i]);
        }
        i = i + 1;
    }
    assert(a@.take(a.len() as int) =~= a@);
    r
}

/// The ids written out, joined with `,`.
pub open spec fn ids_text(ids: Seq<i64>) -> Seq<char> {
    join(ids.map_values(|x: i64| decimal_int(x as int)), ","@)
}

fn push_ids(s: &mut String, ids: &[i64])
    ensures
        final(s)@ == old(s)@ + ids_text(ids@),
{
    let ghost start = s@;
    let mut i: usize = 0;
    assert(ids_text(ids@.take(0)) =~= Seq::<char>::empty());
    while i < ids.len()
        invariant
            i <= ids.len(),
            s@ == start + ids_text(ids@.take(i as int)),
        decreases ids.len() - i,
    {
        if i > 0 {
            push_str(s, ",");
        }
        push_string(s, i64_string(ids[i]));
        proof {
            let t = ids@.take(i + 1).map_values(|x: i64| decimal_int(x as int));
            assert(t.drop_last() =~= ids@.take(i as int).map_values(|x: i64| decimal_int(x as int)));
            assert(t.last() == decimal_int(ids@[i as int] as int));
            if i == 0 {
                assert(t.len() == 1);
            }
        }
        i = i + 1;
    }
    assert(ids@.take(ids.len() as int) =~= ids@);
}

/// `; <sign><what> [<ids>]` when `ids` is not empty.
pub open spec fn ids_clause(label: Seq<char>, ids: Seq<i64>) -> Seq<char> {
    if ids.len() == 0 {
        Seq::empty()
    } else {
        "; "@ + label + " ["@ + ids_text(ids) + "]"@
    }
}

fn push_ids_clause(s: &mut String, label: &str, ids: &[i64])
    ensures
        final(s)@ == old(s)@ + ids_clause(label@, ids@),
{
    if ids.len() > 0 {
        push_str(s, "; ");
        push_str(s, label);
        push_str(s, " [");
        push_ids(s, ids);
        push_str(s, "]");
    } else {
        assert(s@ =~= s@ + Seq::<char>::empty());
    }
}

pub open spec fn bool_text(b: bool) -> Seq<char> {
    if b { "true"@ } else { "false"@ }
}

/// The audit summary of a user edit:
/// `role: <before> → <after>; active: <bool>`, then the added and
/// removed groups, then `; password reset` when a password was set.
pub open spec fn user_edit_text(
    before: Role,
    after: Role,
    is_active: bool,
    added: Seq<i64>,
    removed: Seq<i64>,
    password_reset: bool,
) -> Seq<char> {
    "role: "@ + role_name(before) + " → "@ + role_name(after) + "; active: "@ + bool_text(is_active)
        + ids_clause("+groups"@, added) + ids_clause("-groups"@, removed) + if password_reset {
        "; password reset"@
    } else {
        Seq::empty()
    }
}

/// Builds a user edit's audit summary (see [`user_edit_text`]).
pub fn user_edit_summary(
    before: Role,
    after: Role,
    is_active: bool,
    added: &[i64],
    removed: &[i64],
    password_reset: bool,
) -> (s: String)
    ensures
        s@ == user_edit_text(before, after, is_active, added@, removed@, password_reset),
{
    let mut s = to_owned_string("role: ");
    push_str(&mut s, before.as_str());
    push_str(&mut s, " → ");
    push_str(&mut s, after.as_str());
    push_str(&mut s, "; active: ");
    push_str(&mut s, if is_active { "true" } else { "false" });
    push_ids_clause(&mut s, "+groups", added);
    push_ids_clause(&mut s, "-groups", removed);
    if password_reset {
        push_str(&mut s, "; password reset");
    }
    s
}

/// The audit summary of a group edit: `name: <name>`, then the added
/// and removed permissions.
pub open spec fn group_edit_text(name: Seq<char>, added: Seq<i64>, removed: Seq<i64>) -> Seq<char> {
    "name: "@ + name + ids_clause("+perms"@, added) + ids_clause("-perms"@, removed)
}

/// Builds a group edit's audit summary (see [`group_edit_text`]).
pub fn group_edit_summary(name: &str, added: &[i64], removed: &[i64]) -> (s: String)
    ensures
        s@ == group_edit_text(name@, added@, removed@),
{
    let mut s = to_owned_string("name: ");
    push_str(&mut s, name);
    push_ids_clause(&mut s, "+perms", added);
    push_ids_clause(&mut s, "-perms", removed);
    s
}

// ---------------------------------------------------------------------------
// New users and groups
// ---------------------------------------------------------------------------

/// The validation of the new-user form, in order: an unknown role
/// (`role` is the parse of `role_str`), then the email (required,
/// email-shaped, and not taken: `email_taken` is the lookup's answer,
/// consulted only for a well-formed email), then the password policy's
/// complaint; when all passed, the role ceiling's complaint about the
/// parsed role.
pub open spec fn new_user_errors(
    email: Seq<char>,
    role_str: Seq<char>,
    role: Option<Role>,
    email_taken: bool,
    policy_error: Option<Seq<char>>,
    ceiling_error: Option<Seq<char>>,
) -> (Seq<Seq<char>>, Seq<(Seq<char>, Seq<char>)>) {
    let first = followed_by(
        followed_by(
            if role is None {
                field_error("role"@, "Unknown role: \""@ + role_str + "\"."@)
            } else {
                no_errors()
            },
            if email.len() == 0 {
                field_error("email"@, "Email is required."@)
            } else if !email_shaped(email) {
                field_error("email"@, "Enter a valid email address."@)
            } else if email_taken {
                field_error("email"@, "A user with email \""@ + email + "\" already exists."@)
            } else {
                no_errors()
            },
        ),
        match policy_error {
            Some(m) => field_error("password"@, m),
            None => no_errors(),
        },
    );
    if first.0.len() == 0 && role is Some {
        match ceiling_error {
            Some(m) => field_error("role"@, m),
            None => no_errors(),
        }
    } else {
        first
    }
}

fn add_error(c: &mut FormCheck, field: &'static str, msg: String)
    ensures
        check_view(*final(c)) == followed_by(check_view(*old(c)), field_error(field@, msg@)),
{
    let ghost before = check_view(*c);
    let m2 = msg.clone();
    c.errors.push(msg);
    c.field_errors.push((field, m2));
    assert(check_view(*c).0 =~= before.0 + seq![msg@]);
    assert(check_view(*c).1 =~= before.1 + seq![(field@, msg@)]);
}

fn quoted_message(head: &str, middle: &str, tail: &str) -> (s: String)
    ensures
        s@ == head@ + middle@ + tail@,
{
    let mut s = to_owned_string(head);
    push_str(&mut s, middle);
    push_str(&mut s, tail);
    s
}

/// Validates the new-user form (see [`new_user_errors`]); `email` is
/// the trimmed submission.
pub fn new_user_check(
    email: &str,
    role_str: &str,
    role: Option<Role>,
    email_taken: bool,
    policy_error: Option<&str>,
    ceiling_error: Option<&str>,
) -> (c: FormCheck)
    ensures
        check_view(c) == new_user_errors(
            email@,
            role_str@,
            role,
            email_taken,
            match policy_error {
                Some(m) => Some(m@),
                None => None,
            },
            match ceiling_error {
                Some(m) => Some(m@),
                None => None,
            },
        ),
{
    let mut c = FormCheck { errors: Vec::new(), field_errors: Vec::new() };
    let ghost c0 = check_view(c);
    assert(c0.0 =~= Seq::<Seq<char>>::empty() && c0.1 =~= Seq::<(Seq<char>, Seq<char>)>::empty());
    if role.is_none() {
        add_error(&mut c, "role", quoted_message("Unknown role: \"", role_str, "\"."));
    }
    let ghost c1 = check_view(c);
    assert(c1 =~~= followed_by(no_errors(), if role is None {
        field_error("role"@, "Unknown role: \""@ + role_str@ + "\"."@) } else { no_errors() }));
    let ev = chars_of(email);
    if ev.len() == 0 {
        add_error(&mut c, "email", to_owned_string("Email is required."));
    } else if !looks_like_email(email) {
        add_error(&mut c, "email", to_owned_string("Enter a valid email address."));
    } else if email_taken {
        add_error(&mut c, "email", quoted_message("A user with email \"", email, "\" already exists."));
    }
    let ghost c2 = check_view(c);
    assert(c2 =~~= followed_by(c1, if email@.len() == 0 {
        field_error("email"@, "Email is required."@) } else if !email_shaped(email@) {
        field_error("email"@, "Enter a valid email address."@) } else if email_taken {
        field_error("email"@, "A user with email \""@ + email@ + "\" already exists."@) } else { no_errors() }));
    match policy_error {
        Some(m) => add_error(&mut c, "password", to_owned_string(m)),
        None => {},
    }
    let ghost c3 = check_view(c);
    assert(c3 =~~= followed_by(c2, match policy_error { Some(m) => field_error("password"@, m@), None => no_errors() }));
    if c.errors.len() == 0 && role.is_some() {
        assert(c3.0.len() == 0);
        assert(c3.1.len() == c3.0.len());
        let mut d = FormCheck { errors: Vec::new(), field_errors: Vec::new() };
        assert(check_view(d).0 =~= Seq::<Seq<char>>::empty() && check_view(d).1 =~= Seq::<(Seq<char>, Seq<char>)>::empty());
        match ceiling_error {
            Some(m) => add_error(&mut d, "role", to_owned_string(m)),
            None => {},
        }
        assert(check_view(d) =~~= match ceiling_error { Some(m) => field_error("role"@, m@), None => no_errors() });
        return d;
    }
    c
}

/// The audit summary of a user creation: `created user <email> as <role>`.
pub fn user_created_summary(email: &str, role: Role) -> (s: String)
    ensures
        s@ == "created user "@ + email@ + " as "@ + role_name(role),
{
    let mut s = to_owned_string("created user ");
    push_str(&mut s, email);
    push_str(&mut s, " as ");
    push_str(&mut s, role.as_str());
    s
}

/// The validation of a new group's name (trimmed): required, and at
/// most 150 bytes.
pub open spec fn group_name_errors(name: Seq<char>) -> (Seq<Seq<char>>, Seq<(Seq<char>, Seq<char>)>) {
    if name.len() == 0 {
        field_error("name"@, "Name is required."@)
    } else if vstd::utf8::encode_utf8(name).len() > 150 {
        field_error("name"@, "Name must be 150 characters or fewer."@)
    } else {
        no_errors()
    }
}

/// Validates a new group's name (see [`group_name_errors`]).
pub fn group_name_check(name: &str) -> (c: FormCheck)
    ensures
        check_view(c) == group_name_errors(name@),
{
    let mut c = FormCheck { errors: Vec::new(), field_errors: Vec::new() };
    assert(check_view(c).0 =~= Seq::<Seq<char>>::empty() && check_view(c).1 =~= Seq::<(Seq<char>, Seq<char>)>::empty());
    let ghost c0 = check_view(c);
    let v = chars_of(name);
    if v.len() == 0 {
        add_error(&mut c, "name", to_owned_string("Name is required."));
        assert(check_view(c).0 =~= seq!["Name is required."@]);
        assert(check_view(c).1 =~= seq![("name"@, "Name is required."@)]);
    } else if name.as_bytes().len() > 150 {
        assert(name.spec_bytes() == vstd::utf8::encode_utf8(name@));
        add_error(&mut c, "name", to_owned_string("Name must be 150 characters or fewer."));
        assert(check_view(c).0 =~= seq!["Name must be 150 characters or fewer."@]);
        assert(check_view(c).1 =~= seq![("name"@, "Name must be 150 characters or fewer."@)]);
    } else {
        assert(name.spec_bytes() == vstd::utf8::encode_utf8(name@));
    }
    assert(check_view(c) =~~= group_name_errors(name@));
    c
}

/// The message when a group's name is already taken.
pub fn duplicate_group_message(name: &str) -> (s: String)
    ensures
        s@ == "A group named \""@ + name@ + "\" already exists."@,
{
    quoted_message("A group named \"", name, "\" already exists.")
}

/// The audit summary of a group creation: `created group <name>`.
pub fn group_created_summary(name: &str) -> (s: String)
    ensures
        s@ == "created group "@ + name@,
{
    let mut s = to_owned_string("created group ");
    push_str(&mut s, name);
    s
}

} // verus!
