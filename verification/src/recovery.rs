//! Organisational-recovery helpers: the `return_to` validator behind
//! the re-auth wall, the lock-duration form parser, the re-auth bounce
//! URLs, and the password-recovery form layouts.
use vstd::prelude::*;
use vstd::string::StringSliceAdditionalSpecFns;
use vstd::utf8::encode_utf8;
use crate::text::{
    chars_contains, chars_contains_seq, chars_eq, chars_of, chars_starts_with, contains_seq,
    decimal, decimal_int, i64_chars, is_ascii_digit, push_chars, push_str, push_string, starts_with,
    string_from_chars, to_owned_string, trim, trim_str,
};

verus! {

broadcast use vstd::string::group_string_axioms;

// ---------------------------------------------------------------------------
// return_to validation
// ---------------------------------------------------------------------------

/// A control character: below U+0020, or DEL.
pub open spec fn is_control(c: char) -> bool {
    (c as u32) < 0x20 || (c as u32) == 0x7f
}

/// The only `return_to` values the re-auth wall follows: non-empty, no
/// control character, not protocol-relative (`//`), no backslash, no
/// `..`, and exactly `/admin` or starting with `/admin/` or `/admin?`.
pub open spec fn safe_return_to(raw: Seq<char>) -> bool {
    &&& raw.len() > 0
    &&& forall|i: int| 0 <= i < raw.len() ==> !is_control(#[trigger] raw[i])
    &&& !starts_with(raw, "//"@)
    &&& !raw.contains('\\')
    &&& !contains_seq(raw, ".."@)
    &&& (raw == "/admin"@ || starts_with(raw, "/admin/"@) || starts_with(raw, "/admin?"@))
}

fn lit_prefix(v: &Vec<char>, lit: &str) -> (b: bool)
    ensures
        b == starts_with(v@, lit@),
{
    let l = chars_of(lit);
    chars_starts_with(v.as_slice(), l.as_slice())
}

/// Validate a candidate `return_to` URL: `Some` of it only when it is
/// a safe internal admin path (see [`safe_return_to`]).
pub fn validate_return_to(raw: &str) -> (r: Option<String>)
    ensures
        match r {
            Some(p) => safe_return_to(raw@) && p@ == raw@,
            None => !safe_return_to(raw@),
        },
{
    let v = chars_of(raw);
    if v.len() == 0 {
        return None;
    }
    let mut i: usize = 0;
    while i < v.len()
        invariant
            i <= v.len(),
            v@ == raw@,
            forall|k: int| 0 <= k < i ==> !is_control(#[trigger] v@[k]),
        decreases v.len() - i,
    {
        let c = v[i];
        if (c as u32) < 0x20 || (c as u32) == 0x7f {
            assert(is_control(raw@[i as int]));
            return None;
        }
        i = i + 1;
    }
    if lit_prefix(&v, "//") {
        return None;
    }
    if chars_contains(v.as_slice(), '\\') {
        return None;
    }
    let dots = chars_of("..");
    if chars_contains_seq(v.as_slice(), dots.as_slice()) {
        return None;
    }
    let admin = chars_of("/admin");
    if chars_eq(v.as_slice(), admin.as_slice()) || lit_prefix(&v, "/admin/") || lit_prefix(&v, "/admin?") {
        Some(string_from_chars(v.as_slice()))
    } else {
        None
    }
}

/// Where the re-auth wall sends the user: the validated `return_to`,
/// or the dashboard `/admin` when it is missing or unsafe.
pub open spec fn reauth_target(return_to: Option<Seq<char>>) -> Seq<char> {
    match return_to {
        Some(raw) if safe_return_to(raw) => raw,
        _ => "/admin"@,
    }
}

/// Resolve the post-success redirect of the re-auth wall.
pub fn redirect_after_reauth(return_to: Option<&str>) -> (r: String)
    ensures
        r@ == reauth_target(
            match return_to {
                Some(s) => Some(s@),
                None => None,
            },
        ),
{
    match return_to {
        Some(raw) => match validate_return_to(raw) {
            Some(p) => p,
            None => to_owned_string("/admin"),
        },
        None => to_owned_string("/admin"),
    }
}

/// The re-auth wall never redirects anywhere unsafe: whatever came in,
/// the target passes the validator.
pub proof fn lemma_reauth_target_is_safe(return_to: Option<Seq<char>>)
    ensures
        safe_return_to(reauth_target(return_to)),
{
    reveal_strlit("/admin");
    reveal_strlit("//");
    reveal_strlit("..");
    let t = reauth_target(return_to);
    if t == "/admin"@ {
        assert forall|i: int| 0 <= i < t.len() implies !is_control(#[trigger] t[i]) by {
            if i == 0 {
            } else if i == 1 {
            } else if i == 2 {
            } else if i == 3 {
            } else if i == 4 {
            } else if i == 5 {
            }
        }
        assert(t.take(2)[1] != "//"@[1]);
        assert(!t.contains('\\')) by {
            assert forall|i: int| 0 <= i < t.len() implies t[i] != '\\' by {
                if i == 0 {
                } else if i == 1 {
                } else if i == 2 {
                } else if i == 3 {
                } else if i == 4 {
                } else if i == 5 {
                }
            }
        }
        assert(!contains_seq(t, ".."@)) by {
            assert forall|i: int| 0 <= i && i + 2 <= t.len() implies #[trigger] t.subrange(i, i + 2) != ".."@ by {
                assert(t.subrange(i, i + 2)[0] == t[i]);
                if i == 0 {
                } else if i == 1 {
                } else if i == 2 {
                } else if i == 3 {
                } else if i == 4 {
                }
            }
        }
    }
}

// ---------------------------------------------------------------------------
// Lock duration
// ---------------------------------------------------------------------------

/// How long an administrator locks an account.
#[derive(Debug, Clone, Copy, PartialEq, Eq, Structural)]
pub enum LockDuration {
    FifteenMinutes,
    OneHour,
    TwentyFourHours,
    SevenDays,
    Indefinite,
    Minutes(u32),
}

/// The value of a run of ASCII digits.
pub open spec fn digits_value(d: Seq<char>) -> nat
    decreases d.len(),
{
    if d.len() == 0 {
        0
    } else {
        digits_value(d.drop_last()) * 10 + ((d.last() as u32) - 48) as nat
    }
}

/// The part of `s` after an optional leading `+`.
pub open spec fn unsigned_digits(s: Seq<char>) -> Seq<char> {
    if s.len() > 0 && s[0] == '+' {
        s.drop_first()
    } else {
        s
    }
}

/// Every character is an ASCII digit.
pub open spec fn all_digits(d: Seq<char>) -> bool {
    forall|i: int| 0 <= i < d.len() ==> is_ascii_digit(#[trigger] d[i])
}

/// `u32::from_str`: an optional `+`, then one or more ASCII digits whose
/// value fits in a `u32`.
pub open spec fn parse_u32(s: Seq<char>) -> Option<u32> {
    let d = unsigned_digits(s);
    if d.len() == 0 || !all_digits(d) {
        None
    } else if digits_value(d) > u32::MAX {
        None
    } else {
        Some(digits_value(d) as u32)
    }
}

/// `u32::from_str` (see [`parse_u32`]).
pub fn parse_u32_chars(s: &[char]) -> (r: Option<u32>)
    ensures
        r == parse_u32(s@),
{
    let start: usize = if s.len() > 0 && s[0] == '+' {
        1
    } else {
        0
    };
    let ghost d = unsigned_digits(s@);
    assert(d == s@.skip(start as int));
    if start == s.len() {
        return None;
    }
    let mut acc: u64 = 0;
    let mut i: usize = start;
    let cap: u64 = 4294967296;
    while i < s.len()
        invariant
            start <= i <= s.len(),
            d == s@.skip(start as int),
            d == unsigned_digits(s@),
            forall|k: int| 0 <= k < i - start ==> is_ascii_digit(#[trigger] d[k]),
            acc == (if digits_value(d.take(i - start)) < cap {
                digits_value(d.take(i - start))
            } else {
                cap as nat
            }),
            cap == 4294967296,
        decreases s.len() - i,
    {
        let c = s[i];
        if !('0' <= c && c <= '9') {
            assert(d[(i - start) as int] == c);
            assert(!is_ascii_digit(d[(i - start) as int]));
            assert(!all_digits(d));
            return None;
        }
        let dv: u64 = (c as u32 - 48) as u64;
        proof {
            let t = d.take(i + 1 - start);
            assert(t.drop_last() =~= d.take(i - start));
            assert(t.last() == c);
        }
        let next = acc * 10 + dv;
        acc = if next < cap {
            next
        } else {
            cap
        };
        i = i + 1;
    }
    assert(d.take(s.len() - start) =~= d);
    if acc >= cap {
        None
    } else {
        Some(acc as u32)
    }
}

/// `Unknown duration: "<debug form of duration>".` and friends: the
/// user-facing text of each refusal of [`parse_lock_duration`].
pub open spec fn lock_duration_result(duration: Seq<char>, freeform: Seq<char>) -> Result<
    LockDuration,
    Seq<char>,
> {
    if duration == "15min"@ {
        Ok(LockDuration::FifteenMinutes)
    } else if duration == "1h"@ {
        Ok(LockDuration::OneHour)
    } else if duration == "24h"@ {
        Ok(LockDuration::TwentyFourHours)
    } else if duration == "7d"@ {
        Ok(LockDuration::SevenDays)
    } else if duration == "indefinite"@ {
        Ok(LockDuration::Indefinite)
    } else if duration == "freeform"@ {
        match parse_u32(trim(freeform)) {
            Some(m) if m >= 1 => Ok(LockDuration::Minutes(m)),
            Some(_) => Err("Freeform duration must be at least 1 minute."@),
            None => Err("Enter a whole number of minutes."@),
        }
    } else {
        Err("Unknown duration: "@ + str_debug(duration) + "."@)
    }
}

/// The text `format!("{:?}", s)` writes for a string: quoted, with
/// the characters that `Debug` escapes escaped.
pub uninterp spec fn str_debug(s: Seq<char>) -> Seq<char>;

/// `format!("{s:?}")` for a string slice.
#[verifier::external_body]
pub(crate) fn debug_str(s: &str) -> (r: String)
    ensures
        r@ == str_debug(s@),
{
    format!("{s:?}")
}

fn lit_eq(v: &Vec<char>, lit: &str) -> (b: bool)
    ensures
        b == (v@ == lit@),
{
    let l = chars_of(lit);
    chars_eq(v.as_slice(), l.as_slice())
}

/// Parse the lock form's duration preset (and, for `freeform`, its
/// minutes field) into a [`LockDuration`], or a user-facing error.
pub fn parse_lock_duration(duration: &str, freeform_minutes: &str) -> (r: Result<LockDuration, String>)
    ensures
        match (r, lock_duration_result(duration@, freeform_minutes@)) {
            (Ok(d), Ok(sd)) => d == sd,
            (Err(m), Err(sm)) => m@ == sm,
            _ => false,
        },
{
    let d = chars_of(duration);
    if lit_eq(&d, "15min") {
        Ok(LockDuration::FifteenMinutes)
    } else if lit_eq(&d, "1h") {
        Ok(LockDuration::OneHour)
    } else if lit_eq(&d, "24h") {
        Ok(LockDuration::TwentyFourHours)
    } else if lit_eq(&d, "7d") {
        Ok(LockDuration::SevenDays)
    } else if lit_eq(&d, "indefinite") {
        Ok(LockDuration::Indefinite)
    } else if lit_eq(&d, "freeform") {
        let t = trim_str(freeform_minutes);
        match parse_u32_chars(t.as_slice()) {
            Some(m) => {
                if m >= 1 {
                    Ok(LockDuration::Minutes(m))
                } else {
                    Err(to_owned_string("Freeform duration must be at least 1 minute."))
                }
            },
            None => Err(to_owned_string("Enter a whole number of minutes.")),
        }
    } else {
        let mut m = to_owned_string("Unknown duration: ");
        push_string(&mut m, debug_str(duration));
        push_str(&mut m, ".");
        Err(m)
    }
}

// ---------------------------------------------------------------------------
// Re-auth bounce URLs
// ---------------------------------------------------------------------------

/// A byte `urlencoding::encode` leaves alone: ASCII alphanumerics and
/// `-`, `.`, `_`, `~`.
pub open spec fn url_safe_byte(b: u8) -> bool {
    (48 <= b <= 57) || (65 <= b <= 90) || (97 <= b <= 122) || b == 45 || b == 46 || b == 95 || b
        == 126
}

/// An uppercase hexadecimal digit.
pub open spec fn hex_digit(d: u8) -> char {
    if d < 10 {
        (48 + d) as char
    } else {
        (55 + d) as char
    }
}

/// Percent-encoding of UTF-8 bytes: safe bytes as themselves, every
/// other byte as `%` and two uppercase hex digits.
pub open spec fn percent_encoded(b: Seq<u8>) -> Seq<char>
    decreases b.len(),
{
    if b.len() == 0 {
        Seq::empty()
    } else {
        let x = b.last();
        percent_encoded(b.drop_last()) + if url_safe_byte(x) {
            seq![x as char]
        } else {
            seq!['%', hex_digit(x / 16), hex_digit(x % 16)]
        }
    }
}

/// `urlencoding::encode`: percent-encodes every byte of the UTF-8 text
/// except ASCII alphanumerics and `-`, `.`, `_`, `~`.
#[verifier::external_body]
fn url_encode(s: &str) -> (r: String)
    ensures
        r@ == percent_encoded(s.spec_bytes()),
{
    urlencoding::encode(s).into_owned()
}

/// The re-auth bounce location for an arbitrary admin path.
pub fn reauth_redirect_for_path(path: &str) -> (loc: String)
    ensures
        loc@ == "/admin/reauth?return_to="@ + percent_encoded(encode_utf8(path@)),
{
    let mut loc = to_owned_string("/admin/reauth?return_to=");
    push_string(&mut loc, url_encode(path));
    loc
}

/// The admin path of a user's reset-password page.
pub open spec fn reset_password_path(target_user_id: int) -> Seq<char> {
    "/admin/users/"@ + decimal_int(target_user_id) + "/reset-password"@
}

/// The re-auth bounce location for `/admin/users/<id>/reset-password`.
pub fn reauth_redirect_for(target_user_id: i64) -> (loc: String)
    ensures
        loc@ == "/admin/reauth?return_to="@ + percent_encoded(
            encode_utf8(reset_password_path(target_user_id as int)),
        ),
{
    let mut path = to_owned_string("/admin/users/");
    let digits = i64_chars(target_user_id);
    push_chars(&mut path, digits.as_slice());
    push_str(&mut path, "/reset-password");
    reauth_redirect_for_path(path.as_str())
}

// ---------------------------------------------------------------------------
// Password-recovery forms
// ---------------------------------------------------------------------------

/// One input of a rendered form.
#[derive(Debug, Clone)]
pub struct FormField {
    pub name: &'static str,
    pub label: String,
    pub widget: &'static str,
    pub input_type: &'static str,
    pub value: String,
    pub hint: Option<String>,
    pub placeholder: Option<String>,
    pub required: bool,
    pub multiple: bool,
    pub span: u8,
    pub autocomplete: Option<&'static str>,
    pub autofocus: bool,
    pub disabled: bool,
    pub searchable: bool,
    pub has_more: bool,
    pub search_url: Option<String>,
    pub errors: Vec<String>,
    pub checked: bool,
}

/// A titled group of form inputs.
#[derive(Debug, Clone)]
pub struct FormSection {
    pub title: Option<String>,
    pub fields: Vec<FormField>,
}

/// A required, full-width text-like input with no hint, placeholder or
/// errors, as the recovery forms lay them out.
pub open spec fn plain_input(
    f: FormField,
    name: Seq<char>,
    label: Seq<char>,
    input_type: Seq<char>,
    autocomplete: Seq<char>,
) -> bool {
    &&& f.name@ == name
    &&& f.label@ == label
    &&& f.widget@ == "input"@
    &&& f.input_type@ == input_type
    &&& f.placeholder is None
    &&& f.required
    &&& !f.multiple
    &&& f.span == 2
    &&& f.autocomplete matches Some(a) && a@ == autocomplete
    &&& !f.disabled
    &&& !f.searchable
    &&& !f.has_more
    &&& f.search_url is None
    &&& !f.checked
}

fn input_field(
    name: &'static str,
    label: &str,
    input_type: &'static str,
    value: String,
    hint: Option<String>,
    autocomplete: &'static str,
    autofocus: bool,
    errors: Vec<String>,
) -> (f: FormField)
    ensures
        plain_input(f, name@, label@, input_type@, autocomplete@),
        f.name == name,
        f.input_type == input_type,
        f.value@ == value@,
        f.hint == hint,
        f.autofocus == autofocus,
        f.errors@ == errors@,
{
    FormField {
        name,
        label: to_owned_string(label),
        widget: "input",
        input_type,
        value,
        hint,
        placeholder: None,
        required: true,
        multiple: false,
        span: 2,
        autocomplete: Some(autocomplete),
        autofocus,
        disabled: false,
        searchable: false,
        has_more: false,
        search_url: None,
        errors,
        checked: false,
    }
}

/// The forgot-password form: one section holding only the e-mail
/// input, prefilled and focused.
pub fn forgot_password_form_sections(prefilled_email: &str) -> (r: Vec<FormSection>)
    ensures
        r@.len() == 1,
        r@[0].title is None,
        r@[0].fields@.len() == 1,
        plain_input(r@[0].fields@[0], "email"@, "Email"@, "email"@, "username"@),
        r@[0].fields@[0].value@ == prefilled_email@,
        r@[0].fields@[0].hint is None,
        r@[0].fields@[0].autofocus,
        r@[0].fields@[0].errors@.len() == 0,
{
    let email = input_field(
        "email",
        "Email",
        "email",
        to_owned_string(prefilled_email),
        None,
        "username",
        true,
        Vec::new(),
    );
    let mut fields: Vec<FormField> = Vec::new();
    fields.push(email);
    let mut out: Vec<FormSection> = Vec::new();
    out.push(FormSection { title: None, fields });
    out
}

/// The messages of `errors` addressed to the field `name`, in order.
pub open spec fn errors_for(errors: Seq<(&str, String)>, name: Seq<char>) -> Seq<Seq<char>>
    decreases errors.len(),
{
    if errors.len() == 0 {
        Seq::empty()
    } else {
        let r = errors_for(errors.drop_last(), name);
        if errors.last().0@ == name {
            r.push(errors.last().1@)
        } else {
            r
        }
    }
}

fn collect_errors(errors: &[(&'static str, String)], name: &str) -> (r: Vec<String>)
    ensures
        r@.map_values(|s: String| s@) == errors_for(errors@, name@),
{
    let mut out: Vec<String> = Vec::new();
    let mut i: usize = 0;
    while i < errors.len()
        invariant
            i <= errors.len(),
            out@.map_values(|s: String| s@) == errors_for(errors@.take(i as int), name@),
        decreases errors.len() - i,
    {
        proof {
            let t = errors@.take(i + 1);
            assert(t.drop_last() =~= errors@.take(i as int));
            assert(t.last() == errors@[i as int]);
        }
        if crate::text::str_eq(errors[i].0, name) {
            let ghost before = out@;
            out.push(errors[i].1.clone());
            assert(out@.map_values(|s: String| s@) =~= before.map_values(|s: String| s@).push(
                errors@[i as int].1@,
            ));
        }
        i = i + 1;
    }
    assert(errors@.take(errors.len() as int) =~= errors@);
    out
}

/// `At least <n> characters.`
pub open spec fn length_hint(min_length: nat) -> Seq<char> {
    "At least "@ + decimal(min_length) + " characters."@
}

/// The new-password form: the password (hinted with the live minimum
/// length, focused) and its confirmation, each carrying the errors
/// addressed to it.
pub fn reset_password_form_sections(min_length: usize, field_errors: &[(&'static str, String)]) -> (r:
    Vec<FormSection>)
    ensures
        r@.len() == 1,
        r@[0].title is None,
        r@[0].fields@.len() == 2,
        plain_input(
            r@[0].fields@[0],
            "new_password1"@,
            "New password"@,
            "password"@,
            "new-password"@,
        ),
        r@[0].fields@[0].value@.len() == 0,
        r@[0].fields@[0].hint matches Some(h) && h@ == length_hint(min_length as nat),
        r@[0].fields@[0].autofocus,
        r@[0].fields@[0].errors@.map_values(|s: String| s@) == errors_for(
            field_errors@,
            "new_password1"@,
        ),
        plain_input(r@[0].fields@[1], "new_password2"@, "Confirm"@, "password"@, "new-password"@),
        r@[0].fields@[1].value@.len() == 0,
        r@[0].fields@[1].hint is None,
        !r@[0].fields@[1].autofocus,
        r@[0].fields@[1].errors@.map_values(|s: String| s@) == errors_for(
            field_errors@,
            "new_password2"@,
        ),
{
    let mut hint = to_owned_string("At least ");
    let digits = crate::text::usize_string(min_length);
    push_str(&mut hint, digits.as_str());
    push_str(&mut hint, " characters.");
    let pw1 = input_field(
        "new_password1",
        "New password",
        "password",
        String::new(),
        Some(hint),
        "new-password",
        true,
        collect_errors(field_errors, "new_password1"),
    );
    let pw2 = input_field(
        "new_password2",
        "Confirm",
        "password",
        String::new(),
        None,
        "new-password",
        false,
        collect_errors(field_errors, "new_password2"),
    );
    let mut fields: Vec<FormField> = Vec::new();
    fields.push(pw1);
    fields.push(pw2);
    let mut out: Vec<FormSection> = Vec::new();
    out.push(FormSection { title: None, fields });
    out
}

/// The state of the administrator-driven reset-password page.
#[derive(Debug, Clone)]
pub struct AdminResetPasswordCtx {
    pub page_title: String,
    pub target_user_id: i64,
    pub target_email: String,
    pub success: bool,
    pub errors: Vec<String>,
    pub field_errors: Vec<(String, Vec<String>)>,
    pub reason: String,
    pub mode: String,
    pub success_mode: String,
    pub temp_password: String,
    pub email_status: String,
    pub revoked_session_count: usize,
}

impl AdminResetPasswordCtx {
    /// The form state (not the success card): titled after the target,
    /// carrying the submitted reason, mode and errors, with every
    /// success-only field empty.
    pub fn form(
        target_user_id: i64,
        target_email: String,
        reason: String,
        mode: String,
        errors: Vec<String>,
        field_errors: Vec<(String, Vec<String>)>,
    ) -> (c: Self)
        ensures
            c.page_title@ == "Reset password — "@ + target_email@,
            c.target_user_id == target_user_id,
            c.target_email@ == target_email@,
            !c.success,
            c.errors@ == errors@,
            c.field_errors@ == field_errors@,
            c.reason@ == reason@,
            c.mode@ == mode@,
            c.success_mode@.len() == 0,
            c.temp_password@.len() == 0,
            c.email_status@.len() == 0,
            c.revoked_session_count == 0,
    {
        let mut page_title = to_owned_string("Reset password — ");
        push_str(&mut page_title, target_email.as_str());
        AdminResetPasswordCtx {
            page_title,
            target_user_id,
            target_email,
            success: false,
            errors,
            field_errors,
            reason,
            mode,
            success_mode: String::new(),
            temp_password: String::new(),
            email_status: String::new(),
            revoked_session_count: 0,
        }
    }
}

} // verus!
