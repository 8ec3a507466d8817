//! The request-independent decisions of the generic CRUD handlers:
//! login flash, session-revoke guard, upload filename hygiene, content
//! type guessing, save-button routing, bulk id parsing, the audit diff
//! of an update, list sorting and date-filter parsing.
use vstd::prelude::*;
use crate::error::AdminError;
use chrono::Datelike;
use crate::filters::AdminField;
use crate::modeladmin::{BulkAction, SortDir};
use crate::audit::ActionType;
use crate::bulk::BulkActionResult;
use crate::recovery::{all_digits, digits_value};
use crate::text::{
    chars_eq, chars_of, decimal, decimal_int, digit, digit_char, i64_chars, is_ascii_alnum, is_ascii_digit, last_index, lower, lower_chars,
    lower_seq, push_chars, push_str, split_char, str_eq, string_from_chars, sub_chars, to_owned_string, trim,
    trim_chars, u64_chars,
};

verus! {

broadcast use vstd::string::group_string_axioms;

// ---------------------------------------------------------------------------
// Login flash
// ---------------------------------------------------------------------------

/// A non-error banner on the login page.
#[derive(Debug, Clone)]
pub struct FlashCtx {
    pub kind: &'static str,
    pub message: String,
}

/// The banner the login page shows for its query flags: `logout` wins
/// over `password_reset=success`; any other `password_reset` value
/// shows nothing.
pub open spec fn login_flash(logout_present: bool, password_reset: Option<Seq<char>>) -> Option<
    (Seq<char>, Seq<char>),
> {
    if logout_present {
        Some(("success"@, "You've been signed out."@))
    } else if password_reset == Some("success"@) {
        Some(("success"@, "Your password has been updated. Sign in with your new password."@))
    } else {
        None
    }
}

/// Pure verdict for the login page's flash banner.
pub fn login_flash_for_query(logout_present: bool, password_reset: Option<&str>) -> (r: Option<
    FlashCtx,
>)
    ensures
        match r {
            Some(f) => login_flash(
                logout_present,
                match password_reset {
                    Some(p) => Some(p@),
                    None => None,
                },
            ) == Some((f.kind@, f.message@)),
            None => login_flash(
                logout_present,
                match password_reset {
                    Some(p) => Some(p@),
                    None => None,
                },
            ) is None,
        },
{
    if logout_present {
        return Some(
            FlashCtx { kind: "success", message: to_owned_string("You've been signed out.") },
        );
    }
    let is_success = match password_reset {
        Some(p) => {
            let pv = chars_of(p);
            let lit = chars_of("success");
            chars_eq(pv.as_slice(), lit.as_slice())
        },
        None => false,
    };
    if is_success {
        Some(
            FlashCtx {
                kind: "success",
                message: to_owned_string(
                    "Your password has been updated. Sign in with your new password.",
                ),
            },
        )
    } else {
        None
    }
}

// ---------------------------------------------------------------------------
// Session revoke guard
// ---------------------------------------------------------------------------

/// The refusal shown when a user tries to revoke the session they are
/// using right now.
pub open spec fn revoke_current_message() -> Seq<char> {
    "You can't revoke your current session here. Use \"Sign out everywhere\" to revoke every session including this one."@
}

/// Refuses (`BadRequest`) exactly when the target is the caller's own
/// current session.
pub fn revoke_session_verdict(target_id: i64, current_session_id: Option<i64>) -> (r: Result<
    (),
    AdminError,
>)
    ensures
        current_session_id == Some(target_id) ==> (r matches Err(AdminError::BadRequest(m))
            && m@ == revoke_current_message()),
        current_session_id != Some(target_id) ==> r is Ok,
{
    match current_session_id {
        Some(c) if c == target_id => Err(
            AdminError::BadRequest(
                to_owned_string(
                    "You can't revoke your current session here. Use \"Sign out everywhere\" to revoke every session including this one.",
                ),
            ),
        ),
        _ => Ok(()),
    }
}

/// The audit summary of one revoked session.
pub open spec fn revocation_summary_text(revoked_id: int, via: Seq<char>) -> Seq<char> {
    "session "@ + decimal_int(revoked_id) + " revoked by user (via "@ + via + ")"@
}

/// `session <id> revoked by user (via <via>)`.
pub fn revocation_summary(revoked_id: i64, via: &str) -> (r: String)
    ensures
        r@ == revocation_summary_text(revoked_id as int, via@),
{
    let mut s = to_owned_string("session ");
    let d = i64_chars(revoked_id);
    push_chars(&mut s, d.as_slice());
    push_str(&mut s, " revoked by user (via ");
    push_str(&mut s, via);
    push_str(&mut s, ")");
    s
}

/// The client address recorded with a revocation: the first
/// `X-Forwarded-For` entry, trimmed, when it is not blank.
pub open spec fn forwarded_client(xff: Option<Seq<char>>) -> Option<Seq<char>> {
    match xff {
        Some(x) => {
            let first = trim(crate::text::before_char(x, ','));
            if first.len() == 0 {
                None
            } else {
                Some(first)
            }
        },
        None => None,
    }
}

/// Reads the client address for revocation audit rows.
pub fn forwarded_ip(xff: Option<&str>) -> (r: Option<String>)
    ensures
        match r {
            Some(s) => forwarded_client(opt_str_view(xff)) == Some(s@),
            None => forwarded_client(opt_str_view(xff)) is None,
        },
{
    match xff {
        Some(x) => {
            let first = trim_chars(crate::text::chars_before(chars_of(x).as_slice(), ',').as_slice());
            if first.len() == 0 {
                None
            } else {
                Some(string_from_chars(first.as_slice()))
            }
        },
        None => None,
    }
}

// ---------------------------------------------------------------------------
// Upload filenames and content types
// ---------------------------------------------------------------------------

pub open spec fn is_path_sep(c: char) -> bool {
    c == '/' || c == '\\'
}

/// Index of the last `/` or `\` in `s`.
pub open spec fn last_sep(s: Seq<char>) -> Option<int>
    decreases s.len(),
{
    if s.len() == 0 {
        None
    } else if is_path_sep(s.last()) {
        Some(s.len() - 1)
    } else {
        last_sep(s.drop_last())
    }
}

/// The last path component of `s` on either separator.
pub open spec fn base_name(s: Seq<char>) -> Seq<char> {
    match last_sep(s) {
        Some(i) => s.skip(i + 1),
        None => s,
    }
}

/// `str::trim_start_matches('.')`.
pub open spec fn strip_leading_dots(s: Seq<char>) -> Seq<char>
    decreases s.len(),
{
    if s.len() > 0 && s[0] == '.' {
        strip_leading_dots(s.drop_first())
    } else {
        s
    }
}

/// ASCII letters, digits, `.`, `_` and `-` are kept; anything else
/// becomes `_`.
pub open spec fn safe_file_char(c: char) -> char {
    if is_ascii_alnum(c) || c == '.' || c == '_' || c == '-' {
        c
    } else {
        '_'
    }
}

/// The most characters an on-disk upload name keeps.
pub const UPLOAD_NAME_MAX_CHARS: usize = 120;

/// The stored name of an upload: last path component, surrounding
/// whitespace and then leading dots removed, unsafe characters replaced
/// by `_`, at most 120 characters, `file` when nothing is left.
pub open spec fn sanitised_filename(raw: Seq<char>) -> Seq<char> {
    let t = strip_leading_dots(trim(base_name(raw)));
    let m = t.map_values(|c: char| safe_file_char(c));
    let b = if m.len() > UPLOAD_NAME_MAX_CHARS {
        m.take(UPLOAD_NAME_MAX_CHARS as int)
    } else {
        m
    };
    if b.len() == 0 {
        "file"@
    } else {
        b
    }
}

proof fn lemma_strip_leading_dots_skip(s: Seq<char>, k: int)
    requires
        0 <= k <= s.len(),
        forall|j: int| 0 <= j < k ==> s[j] == '.',
        k == s.len() || s[k] != '.',
    ensures
        strip_leading_dots(s) == s.skip(k),
    decreases k,
{
    if k > 0 {
        assert(s.drop_first().skip(k - 1) =~= s.skip(k));
        lemma_strip_leading_dots_skip(s.drop_first(), k - 1);
    } else {
        assert(s.skip(0) =~= s);
    }
}

/// Strips path components, trims whitespace and then leading dots, replaces
/// unsafe characters and caps the length.
pub fn sanitise_upload_filename(raw: &str) -> (r: String)
    ensures
        r@ == sanitised_filename(raw@),
{
    let v = chars_of(raw);
    // Start of the last path component.
    let mut start: usize = v.len();
    assert(v@.take(start as int) =~= v@);
    while start > 0 && !(v[start - 1] == '/' || v[start - 1] == '\\')
        invariant
            start <= v.len(),
            v@ == raw@,
            last_sep(v@) == last_sep(v@.take(start as int)),
        decreases start,
    {
        assert(v@.take(start as int).drop_last() =~= v@.take(start - 1));
        start = start - 1;
    }
    proof {
        if start > 0 {
            assert(v@.take(start as int).last() == v@[start - 1]);
            assert(last_sep(v@) == Some(start - 1));
        } else {
            assert(v@.take(0) =~= Seq::<char>::empty());
            assert(v@.skip(0) =~= v@);
        }
        assert(base_name(v@) == v@.skip(start as int));
    }
    let base = sub_chars(v.as_slice(), start, v.len());
    assert(base@ =~= v@.skip(start as int));
    let tr = trim_chars(base.as_slice());
    // Skip leading dots.
    let mut k: usize = 0;
    while k < tr.len() && tr[k] == '.'
        invariant
            k <= tr.len(),
            forall|j: int| 0 <= j < k ==> tr@[j] == '.',
        decreases tr.len() - k,
    {
        k = k + 1;
    }
    proof {
        lemma_strip_leading_dots_skip(tr@, k as int);
    }
    let t = sub_chars(tr.as_slice(), k, tr.len());
    assert(t@ =~= tr@.skip(k as int));
    let ghost m = t@.map_values(|c: char| safe_file_char(c));
    let mut out: Vec<char> = Vec::new();
    let mut i: usize = 0;
    while i < t.len() && i < UPLOAD_NAME_MAX_CHARS
        invariant
            i <= t.len(),
            i <= UPLOAD_NAME_MAX_CHARS,
            m == t@.map_values(|c: char| safe_file_char(c)),
            out@ == m.take(i as int),
        decreases t.len() - i,
    {
        let c = t[i];
        let d = if ('a' <= c && c <= 'z') || ('A' <= c && c <= 'Z') || ('0' <= c && c <= '9')
            || c == '.' || c == '_' || c == '-' {
            c
        } else {
            '_'
        };
        out.push(d);
        assert(m.take(i + 1) =~= m.take(i as int).push(m[i as int]));
        i = i + 1;
    }
    proof {
        if m.len() <= UPLOAD_NAME_MAX_CHARS {
            assert(m.take(m.len() as int) =~= m);
        }
    }
    if out.len() == 0 {
        to_owned_string("file")
    } else {
        string_from_chars(out.as_slice())
    }
}

proof fn lemma_strip_leading_dots_first(s: Seq<char>)
    ensures
        strip_leading_dots(s).len() > 0 ==> strip_leading_dots(s)[0] != '.',
    decreases s.len(),
{
    if s.len() > 0 && s[0] == '.' {
        lemma_strip_leading_dots_first(s.drop_first());
    }
}

/// A stored upload name is never empty, at most 120 characters, does
/// not start with a dot (no hidden files), and is made only of ASCII
/// letters, digits, `.`, `_` and `-`, so it holds no path separator.
pub proof fn lemma_sanitised_filename_is_safe(raw: Seq<char>)
    ensures
        1 <= sanitised_filename(raw).len() <= UPLOAD_NAME_MAX_CHARS,
        sanitised_filename(raw)[0] != '.',
        forall|i: int|
            0 <= i < sanitised_filename(raw).len() ==> {
                let c = #[trigger] sanitised_filename(raw)[i];
                is_ascii_alnum(c) || c == '.' || c == '_' || c == '-'
            },
{
    let t = strip_leading_dots(trim(base_name(raw)));
    let m = t.map_values(|c: char| safe_file_char(c));
    reveal_strlit("file");
    lemma_strip_leading_dots_first(trim(base_name(raw)));
    if m.len() > UPLOAD_NAME_MAX_CHARS {
        assert forall|i: int| 0 <= i < UPLOAD_NAME_MAX_CHARS implies {
            let c = #[trigger] m.take(UPLOAD_NAME_MAX_CHARS as int)[i];
            is_ascii_alnum(c) || c == '.' || c == '_' || c == '-'
        } by {
            assert(m[i] == safe_file_char(t[i]));
        }
    } else {
        assert forall|i: int| 0 <= i < m.len() implies {
            let c = #[trigger] m[i];
            is_ascii_alnum(c) || c == '.' || c == '_' || c == '-'
        } by {
            assert(m[i] == safe_file_char(t[i]));
        }
    }
}

/// The extension of `filename` as the content-type guesser reads it:
/// the ASCII-lowercased text after the last `.` (all of it without one).
pub open spec fn lowered_extension(filename: Seq<char>) -> Seq<char> {
    let lower = lower_seq(filename);
    match last_index(lower, '.') {
        Some(i) => lower.skip(i + 1),
        None => lower,
    }
}

/// MIME type of an extension; `application/octet-stream` for anything
/// not listed.
pub open spec fn content_type_of(ext: Seq<char>) -> Seq<char> {
    if ext == "png"@ {
        "image/png"@
    } else if ext == "jpg"@ || ext == "jpeg"@ {
        "image/jpeg"@
    } else if ext == "gif"@ {
        "image/gif"@
    } else if ext == "webp"@ {
        "image/webp"@
    } else if ext == "svg"@ {
        "image/svg+xml"@
    } else if ext == "pdf"@ {
        "application/pdf"@
    } else if ext == "txt"@ || ext == "log"@ {
        "text/plain; charset=utf-8"@
    } else if ext == "csv"@ {
        "text/csv; charset=utf-8"@
    } else if ext == "json"@ {
        "application/json"@
    } else {
        "application/octet-stream"@
    }
}

fn chars_are(v: &[char], lit: &str) -> (b: bool)
    ensures
        b == (v@ == lit@),
{
    let l = chars_of(lit);
    chars_eq(v, l.as_slice())
}

/// Filename-extension → MIME guesser for served uploads.
pub fn guess_content_type(filename: &str) -> (r: &'static str)
    ensures
        r@ == content_type_of(lowered_extension(filename@)),
{
    let raw = chars_of(filename);
    let lower = lower_chars(raw.as_slice());
    let ext = match crate::text::find_last(lower.as_slice(), '.') {
        Some(i) => sub_chars(lower.as_slice(), i + 1, lower.len()),
        None => sub_chars(lower.as_slice(), 0, lower.len()),
    };
    assert(lower@.subrange(0, lower@.len() as int) =~= lower@);
    let e = ext.as_slice();
    if chars_are(e, "png") {
        "image/png"
    } else if chars_are(e, "jpg") || chars_are(e, "jpeg") {
        "image/jpeg"
    } else if chars_are(e, "gif") {
        "image/gif"
    } else if chars_are(e, "webp") {
        "image/webp"
    } else if chars_are(e, "svg") {
        "image/svg+xml"
    } else if chars_are(e, "pdf") {
        "application/pdf"
    } else if chars_are(e, "txt") || chars_are(e, "log") {
        "text/plain; charset=utf-8"
    } else if chars_are(e, "csv") {
        "text/csv; charset=utf-8"
    } else if chars_are(e, "json") {
        "application/json"
    } else {
        "application/octet-stream"
    }
}

// ---------------------------------------------------------------------------
// Save buttons
// ---------------------------------------------------------------------------

/// Which `Save*` button the change form was submitted with.
#[derive(Debug, Clone, Copy, PartialEq, Eq, Structural)]
pub enum SubmitIntent {
    Save,
    Continue,
    AddAnother,
}

/// Whether the submitted form carries a field named `key`.
pub open spec fn form_has(form: Seq<(String, String)>, key: Seq<char>) -> bool {
    exists|i: int| 0 <= i < form.len() && (#[trigger] form[i]).0@ == key
}

/// `_continue` wins over `_addanother`; neither means plain save.
pub open spec fn intent_of(form: Seq<(String, String)>) -> SubmitIntent {
    if form_has(form, "_continue"@) {
        SubmitIntent::Continue
    } else if form_has(form, "_addanother"@) {
        SubmitIntent::AddAnother
    } else {
        SubmitIntent::Save
    }
}

fn form_contains(form: &[(String, String)], key: &str) -> (b: bool)
    ensures
        b == form_has(form@, key@),
{
    let k = chars_of(key);
    let mut i: usize = 0;
    while i < form.len()
        invariant
            i <= form.len(),
            k@ == key@,
            forall|j: int| 0 <= j < i ==> (#[trigger] form@[j]).0@ != key@,
        decreases form.len() - i,
    {
        let name = chars_of(form[i].0.as_str());
        if chars_eq(name.as_slice(), k.as_slice()) {
            return true;
        }
        i = i + 1;
    }
    false
}

/// Picks the redirect intent from the submitted form fields.
pub fn submit_intent(form: &[(String, String)]) -> (r: SubmitIntent)
    ensures
        r == intent_of(form@),
{
    if form_contains(form, "_continue") {
        SubmitIntent::Continue
    } else if form_contains(form, "_addanother") {
        SubmitIntent::AddAnother
    } else {
        SubmitIntent::Save
    }
}

/// Where a successful create / update lands.
pub open spec fn save_redirect(intent: SubmitIntent, admin_name: Seq<char>, id: int) -> Seq<char> {
    match intent {
        SubmitIntent::Save => "/admin/"@ + admin_name,
        SubmitIntent::Continue => "/admin/"@ + admin_name + "/"@ + decimal_int(id) + "/edit"@,
        SubmitIntent::AddAnother => "/admin/"@ + admin_name + "/new"@,
    }
}

/// The redirect target after a successful save.
pub fn redirect_after_save(intent: SubmitIntent, admin_name: &str, id: i64) -> (r: String)
    ensures
        r@ == save_redirect(intent, admin_name@, id as int),
{
    let mut out = to_owned_string("/admin/");
    push_str(&mut out, admin_name);
    match intent {
        SubmitIntent::Save => {},
        SubmitIntent::Continue => {
            push_str(&mut out, "/");
            let d = i64_chars(id);
            push_chars(&mut out, d.as_slice());
            push_str(&mut out, "/edit");
        },
        SubmitIntent::AddAnother => {
            push_str(&mut out, "/new");
        },
    }
    out
}

// ---------------------------------------------------------------------------
// Bulk ids
// ---------------------------------------------------------------------------

/// `i64::from_str`: an optional `+` or `-`, then one or more ASCII
/// digits whose signed value fits in an `i64`.
pub open spec fn parse_i64(s: Seq<char>) -> Option<i64> {
    let signed = s.len() > 0 && (s[0] == '-' || s[0] == '+');
    let d = if signed {
        s.drop_first()
    } else {
        s
    };
    let neg = s.len() > 0 && s[0] == '-';
    if d.len() == 0 || !all_digits(d) {
        None
    } else if neg {
        if digits_value(d) <= 9223372036854775808 {
            Some((-(digits_value(d) as int)) as i64)
        } else {
            None
        }
    } else if digits_value(d) <= 9223372036854775807 {
        Some(digits_value(d) as i64)
    } else {
        None
    }
}

/// `i64::from_str` (see [`parse_i64`]).
pub fn parse_i64_chars(s: &[char]) -> (r: Option<i64>)
    ensures
        r == parse_i64(s@),
{
    let signed = s.len() > 0 && (s[0] == '-' || s[0] == '+');
    let neg = s.len() > 0 && s[0] == '-';
    let start: usize = if signed {
        1
    } else {
        0
    };
    let ghost d = if signed {
        s@.drop_first()
    } else {
        s@
    };
    assert(d =~= s@.skip(start as int));
    if start == s.len() {
        return None;
    }
    let cap: u64 = 9223372036854775809;
    let mut acc: u64 = 0;
    let mut i: usize = start;
    while i < s.len()
        invariant
            start <= i <= s.len(),
            d == s@.skip(start as int),
            d == (if s@.len() > 0 && (s@[0] == '-' || s@[0] == '+') {
                s@.drop_first()
            } else {
                s@
            }),
            forall|k: int| 0 <= k < i - start ==> is_ascii_digit(#[trigger] d[k]),
            acc == (if digits_value(d.take(i - start)) < cap {
                digits_value(d.take(i - start))
            } else {
                cap as nat
            }),
            cap == 9223372036854775809,
        decreases s.len() - i,
    {
        let c = s[i];
        if !('0' <= c && c <= '9') {
            assert(d[(i - start) as int] == c);
            assert(!is_ascii_digit(d[(i - start) as int]));
            assert(!all_digits(d));
            return None;
        }
        let dv: u64 = (c as u32 - 48) as u64;
        let ghost prev = digits_value(d.take(i - start));
        proof {
            let t = d.take(i + 1 - start);
            assert(t.drop_last() =~= d.take(i - start));
            assert(t.last() == c);
            assert(digits_value(t) == prev * 10 + dv);
        }
        if acc > 922337203685477580 {
            assert(prev * 10 + dv >= cap) by (nonlinear_arith)
                requires
                    prev >= acc,
                    acc > 922337203685477580,
                    cap == 9223372036854775809,
                    dv >= 0,
            ;
            acc = cap;
        } else {
            let next = acc * 10 + dv;
            proof {
                if prev >= cap {
                    assert(prev * 10 + dv >= cap) by (nonlinear_arith)
                        requires
                            prev >= cap,
                            dv >= 0,
                    ;
                }
            }
            acc = if next < cap {
                next
            } else {
                cap
            };
        }
        i = i + 1;
    }
    assert(d.take(s.len() - start) =~= d);
    assert(all_digits(d));
    if neg {
        if acc <= 9223372036854775808 {
            if acc == 9223372036854775808 {
                Some(i64::MIN)
            } else {
                let a: i64 = acc as i64;
                Some(-a)
            }
        } else {
            None
        }
    } else if acc <= 9223372036854775807 {
        Some(acc as i64)
    } else {
        None
    }
}

/// The positive ids among the pieces, in order.
pub open spec fn positive_ids(pieces: Seq<Seq<char>>) -> Seq<i64>
    decreases pieces.len(),
{
    if pieces.len() == 0 {
        Seq::empty()
    } else {
        let r = positive_ids(pieces.drop_last());
        match parse_i64(trim(pieces.last())) {
            Some(n) if n > 0 => r.push(n),
            _ => r,
        }
    }
}

/// The most ids one bulk delete accepts.
pub const BULK_DELETE_MAX: usize = 1000;

/// At most the first `n` elements of `s`.
pub open spec fn at_most(s: Seq<i64>, n: nat) -> Seq<i64> {
    if s.len() <= n {
        s
    } else {
        s.take(n as int)
    }
}

/// The ids of a comma-separated list: each piece trimmed and parsed,
/// non-numbers and non-positive ids skipped, the first 1000 kept.
pub open spec fn bulk_ids(raw: Seq<char>) -> Seq<i64> {
    at_most(positive_ids(split_char(raw, ',')), BULK_DELETE_MAX as nat)
}

/// Parses the `ids` field of a bulk-delete form.
pub fn parse_bulk_ids(raw: &str) -> (r: Vec<i64>)
    ensures
        r@ == bulk_ids(raw@),
{
    let v = chars_of(raw);
    let mut out: Vec<i64> = Vec::new();
    let mut cur: Vec<char> = Vec::new();
    let ghost mut done: Seq<Seq<char>> = Seq::empty();
    let mut i: usize = 0;
    while i < v.len()
        invariant
            i <= v.len(),
            v@ == raw@,
            done.push(cur@) == split_char(v@.take(i as int), ','),
            out@ == at_most(positive_ids(done), BULK_DELETE_MAX as nat),
        decreases v.len() - i,
    {
        let c = v[i];
        proof {
            let t = v@.take(i + 1);
            assert(t.drop_last() =~= v@.take(i as int));
            assert(t.last() == c);
        }
        if c == ',' {
            let t = trim_chars(cur.as_slice());
            let p = parse_i64_chars(t.as_slice());
            let ghost before = positive_ids(done);
            match p {
                Some(n) => {
                    if n > 0 && out.len() < BULK_DELETE_MAX {
                        out.push(n);
                    }
                },
                None => {},
            }
            proof {
                let nd = done.push(cur@);
                assert(nd.drop_last() =~= done);
                let after = positive_ids(nd);
                if after.len() == before.len() + 1 {
                    assert(after.drop_last() =~= before);
                    if before.len() < BULK_DELETE_MAX {
                        assert(at_most(after, BULK_DELETE_MAX as nat) =~= at_most(before, BULK_DELETE_MAX as nat).push(after.last()));
                    } else {
                        assert(after.take(BULK_DELETE_MAX as int) =~= before.take(BULK_DELETE_MAX as int));
                    }
                }
                done = nd;
            }
            cur = Vec::new();
            assert(done.push(cur@) =~= split_char(v@.take(i + 1), ','));
        } else {
            cur.push(c);
            proof {
                let r = split_char(v@.take(i as int), ',');
                assert(done.push(cur@) =~= r.update(r.len() - 1, r.last().push(c)));
            }
        }
        i = i + 1;
    }
    let t = trim_chars(cur.as_slice());
    let p = parse_i64_chars(t.as_slice());
    let ghost before = positive_ids(done);
    match p {
        Some(n) => {
            if n > 0 && out.len() < BULK_DELETE_MAX {
                out.push(n);
            }
        },
        None => {},
    }
    proof {
        let nd = done.push(cur@);
        assert(nd.drop_last() =~= done);
        let after = positive_ids(nd);
        if after.len() == before.len() + 1 {
            assert(after.drop_last() =~= before);
            if before.len() < BULK_DELETE_MAX {
                assert(at_most(after, BULK_DELETE_MAX as nat) =~= at_most(before, BULK_DELETE_MAX as nat).push(after.last()));
            } else {
                assert(after.take(BULK_DELETE_MAX as int) =~= before.take(BULK_DELETE_MAX as int));
            }
        }
        assert(v@.take(v.len() as int) =~= v@);
    }
    out
}

proof fn lemma_positive_ids_positive(pieces: Seq<Seq<char>>)
    ensures
        forall|i: int| 0 <= i < positive_ids(pieces).len() ==> #[trigger] positive_ids(pieces)[i] > 0,
    decreases pieces.len(),
{
    if pieces.len() > 0 {
        let d = pieces.drop_last();
        lemma_positive_ids_positive(d);
        let r = positive_ids(d);
        let all = positive_ids(pieces);
        match parse_i64(trim(pieces.last())) {
            Some(n) => {
                if n > 0 {
                    assert(all == r.push(n));
                    assert forall|i: int| 0 <= i < all.len() implies #[trigger] all[i] > 0 by {
                        if i < r.len() {
                            assert(all[i] == r[i]);
                        }
                    }
                } else {
                    assert(all == r);
                }
            },
            None => {
                assert(all == r);
            },
        }
    }
}

/// A bulk delete names at most 1000 ids, every one positive.
pub proof fn lemma_bulk_ids_bounded(raw: Seq<char>)
    ensures
        bulk_ids(raw).len() <= BULK_DELETE_MAX,
        forall|i: int| 0 <= i < bulk_ids(raw).len() ==> #[trigger] bulk_ids(raw)[i] > 0,
{
    let all = positive_ids(split_char(raw, ','));
    lemma_positive_ids_positive(split_char(raw, ','));
    if all.len() > BULK_DELETE_MAX {
        assert forall|i: int| 0 <= i < bulk_ids(raw).len() implies #[trigger] bulk_ids(raw)[i] > 0 by {
            assert(bulk_ids(raw)[i] == all[i]);
        }
    }
}

/// Whether some editable field of the model is named `name`.
pub open spec fn editable_field_named(fields: Seq<AdminField>, name: Seq<char>) -> bool {
    exists|k: int| 0 <= k < fields.len() && (#[trigger] fields[k]).editable && fields[k].name@ == name
}

/// Two equal snapshots have no diff, and a diff lists editable fields
/// only.
pub proof fn lemma_row_diff_properties(
    fields: Seq<AdminField>,
    before: Seq<(String, String)>,
    after: Seq<(String, String)>,
)
    ensures
        before == after ==> row_diff(fields, before, after).len() == 0,
        forall|i: int|
            0 <= i < row_diff(fields, before, after).len() ==> editable_field_named(
                fields,
                (#[trigger] row_diff(fields, before, after)[i]).0,
            ),
    decreases fields.len(),
{
    if fields.len() > 0 {
        let d = fields.drop_last();
        lemma_row_diff_properties(d, before, after);
        let r = row_diff(d, before, after);
        let all = row_diff(fields, before, after);
        assert forall|i: int| 0 <= i < all.len() implies editable_field_named(
            fields,
            (#[trigger] all[i]).0,
        ) by {
            if i < r.len() {
                assert(all[i] == r[i]);
                assert(editable_field_named(d, r[i].0));
                let k = choose|k: int|
                    0 <= k < d.len() && (#[trigger] d[k]).editable && d[k].name@ == r[i].0;
                assert(fields[k] == d[k]);
            } else {
                let k = fields.len() - 1;
                assert(fields[k] == fields.last());
                assert(fields[k].editable);
            }
        }
    }
}

// ---------------------------------------------------------------------------
// Update diff
// ---------------------------------------------------------------------------

/// A row as the edit form sees it: its id and `(column, value)` pairs.
#[derive(Debug, Clone)]
pub struct EditRow {
    pub id: i64,
    pub values: Vec<(String, String)>,
}

/// One column's value transition between two row snapshots.
#[derive(Debug, Clone)]
pub struct FieldChange {
    pub field: String,
    pub label: String,
    pub from: String,
    pub to: String,
}

/// The value of `key` in a row snapshot: the last pair with that
/// column wins; a missing column reads as the empty string.
pub open spec fn row_value(values: Seq<(String, String)>, key: Seq<char>) -> Seq<char>
    decreases values.len(),
{
    if values.len() == 0 {
        Seq::empty()
    } else if values.last().0@ == key {
        values.last().1@
    } else {
        row_value(values.drop_last(), key)
    }
}

/// `(field, label, from, to)` of a change.
pub open spec fn change_view(c: FieldChange) -> (Seq<char>, Seq<char>, Seq<char>, Seq<char>) {
    (c.field@, c.label@, c.from@, c.to@)
}

/// The editable fields whose value differs between the snapshots, in
/// field order, with both values.
pub open spec fn row_diff(
    fields: Seq<AdminField>,
    before: Seq<(String, String)>,
    after: Seq<(String, String)>,
) -> Seq<(Seq<char>, Seq<char>, Seq<char>, Seq<char>)>
    decreases fields.len(),
{
    if fields.len() == 0 {
        Seq::empty()
    } else {
        let r = row_diff(fields.drop_last(), before, after);
        let f = fields.last();
        let b = row_value(before, f.name@);
        let a = row_value(after, f.name@);
        if f.editable && b != a {
            r.push((f.name@, f.label@, b, a))
        } else {
            r
        }
    }
}

fn lookup_value(values: &[(String, String)], key: &str) -> (r: String)
    ensures
        r@ == row_value(values@, key@),
{
    let mut j: usize = values.len();
    assert(values@.take(j as int) =~= values@);
    while j > 0
        invariant
            j <= values.len(),
            row_value(values@, key@) == row_value(values@.take(j as int), key@),
        decreases j,
    {
        let ghost t = values@.take(j as int);
        assert(t.drop_last() =~= values@.take(j - 1));
        assert(t.last() == values@[j - 1]);
        if str_eq(values[j - 1].0.as_str(), key) {
            return values[j - 1].1.clone();
        }
        j = j - 1;
    }
    String::new()
}

/// The per-column diff between two snapshots of a row, restricted to
/// the editable fields.
pub fn compute_row_diff(fields: &[AdminField], before: &EditRow, after: &EditRow) -> (r: Vec<
    FieldChange,
>)
    ensures
        r@.map_values(|c: FieldChange| change_view(c)) == row_diff(
            fields@,
            before.values@,
            after.values@,
        ),
{
    let mut changes: Vec<FieldChange> = Vec::new();
    let mut i: usize = 0;
    while i < fields.len()
        invariant
            i <= fields.len(),
            changes@.map_values(|c: FieldChange| change_view(c)) == row_diff(
                fields@.take(i as int),
                before.values@,
                after.values@,
            ),
        decreases fields.len() - i,
    {
        let f = &fields[i];
        proof {
            let t = fields@.take(i + 1);
            assert(t.drop_last() =~= fields@.take(i as int));
            assert(t.last() == fields@[i as int]);
        }
        if f.editable {
            let b = lookup_value(before.values.as_slice(), f.name);
            let a = lookup_value(after.values.as_slice(), f.name);
            if !str_eq(b.as_str(), a.as_str()) {
                let c = FieldChange {
                    field: to_owned_string(f.name),
                    label: to_owned_string(f.label),
                    from: b,
                    to: a,
                };
                let ghost old_changes = changes@;
                changes.push(c);
                assert(changes@.map_values(|c: FieldChange| change_view(c)) =~= old_changes.map_values(
                    |c: FieldChange| change_view(c),
                ).push(change_view(c)));
            }
        }
        i = i + 1;
    }
    assert(fields@.take(fields.len() as int) =~= fields@);
    changes
}

// ---------------------------------------------------------------------------
// List sorting
// ---------------------------------------------------------------------------

/// Whether some field of the model is named `name`.
pub open spec fn declares_field(fields: Seq<AdminField>, name: Seq<char>) -> bool {
    exists|i: int| 0 <= i < fields.len() && (#[trigger] fields[i]).name@ == name
}

/// `?dir=` value read permissively: anything whose first character is
/// `d` or `D` sorts descending.
pub open spec fn dir_of(dir: Option<Seq<char>>) -> SortDir {
    match dir {
        Some(d) => if d.len() > 0 && lower(d[0]) == 'd' {
            SortDir::Desc
        } else {
            SortDir::Asc
        },
        None => SortDir::Asc,
    }
}

/// `?sort=col&dir=..`: the trimmed column when the model declares it,
/// with its direction; nothing otherwise.
pub open spec fn active_sort(
    fields: Seq<AdminField>,
    sort: Option<Seq<char>>,
    dir: Option<Seq<char>>,
) -> Option<(Seq<char>, SortDir)> {
    match sort {
        None => None,
        Some(s) => {
            let raw = trim(s);
            if raw.len() == 0 || !declares_field(fields, raw) {
                None
            } else {
                Some((raw, dir_of(dir)))
            }
        },
    }
}

pub open spec fn opt_str_view(o: Option<&str>) -> Option<Seq<char>> {
    match o {
        Some(s) => Some(s@),
        None => None,
    }
}

/// Parses the list page's sort parameters against the model's fields,
/// so a hand-crafted URL cannot name an undeclared column.
pub fn parse_active_sort(fields: &[AdminField], sort: Option<&str>, dir: Option<&str>) -> (r: Option<
    (String, SortDir),
>)
    ensures
        match r {
            Some((col, d)) => active_sort(fields@, opt_str_view(sort), opt_str_view(dir)) == Some(
                (col@, d),
            ),
            None => active_sort(fields@, opt_str_view(sort), opt_str_view(dir)) is None,
        },
{
    let s = match sort {
        Some(s) => s,
        None => return None,
    };
    let raw = trim_chars(chars_of(s).as_slice());
    if raw.len() == 0 {
        return None;
    }
    let mut found = false;
    let mut i: usize = 0;
    while i < fields.len()
        invariant
            i <= fields.len(),
            found == (exists|j: int| 0 <= j < i && (#[trigger] fields@[j]).name@ == raw@),
        decreases fields.len() - i,
    {
        let name = chars_of(fields[i].name);
        if chars_eq(name.as_slice(), raw.as_slice()) {
            found = true;
        }
        i = i + 1;
    }
    if !found {
        return None;
    }
    let direction = match dir {
        Some(d) => {
            let dv = chars_of(d);
            if dv.len() > 0 && crate::text::to_lower(dv[0]) == 'd' {
                SortDir::Desc
            } else {
                SortDir::Asc
            }
        },
        None => SortDir::Asc,
    };
    Some((string_from_chars(raw.as_slice()), direction))
}

// ---------------------------------------------------------------------------
// Date-range filter values
// ---------------------------------------------------------------------------

/// What `chrono::NaiveDate::parse_from_str(s, "%Y-%m-%d")` yields for
/// `s`: the year, month and day of the parsed date, or `None` when
/// chrono refuses the text.
pub uninterp spec fn chrono_ymd(s: Seq<char>) -> Option<(int, int, int)>;

/// Parses `s` with chrono's `NaiveDate::parse_from_str` and the format
/// `%Y-%m-%d`, handing back the date's year, month and day. chrono
/// documents `month()` as 1..=12 and `day()` as 1..=31.
#[verifier::external_body]
fn chrono_parse_ymd(s: &str) -> (r: Option<(i32, u32, u32)>)
    ensures
        match r {
            Some((y, m, d)) => {
                &&& chrono_ymd(s@) == Some((y as int, m as int, d as int))
                &&& 1 <= m <= 12
                &&& 1 <= d <= 31
            },
            None => chrono_ymd(s@) is None,
        },
{
    match chrono::NaiveDate::parse_from_str(s, "%Y-%m-%d") {
        Ok(d) => Some((d.year(), d.month(), d.day())),
        Err(_) => None,
    }
}

/// `s` left-padded with `0` to at least four characters.
pub open spec fn pad4(s: Seq<char>) -> Seq<char> {
    if s.len() >= 4 {
        s
    } else {
        Seq::new((4 - s.len()) as nat, |i: int| '0') + s
    }
}

/// chrono's `%Y`: years 0..=9999 as four zero-padded digits, any other
/// year with an explicit sign before at least four digits.
pub open spec fn year_text(y: int) -> Seq<char> {
    if 0 <= y <= 9999 {
        pad4(decimal(y as nat))
    } else if y < 0 {
        seq!['-'] + pad4(decimal((-y) as nat))
    } else {
        seq!['+'] + pad4(decimal(y as nat))
    }
}

/// `%m` / `%d`: two zero-padded digits of `0 <= n < 100`.
pub open spec fn two_digits(n: int) -> Seq<char> {
    seq![digit_char((n / 10) as nat), digit_char((n % 10) as nat)]
}

/// A date as `%Y-%m-%d` renders it.
pub open spec fn date_text(y: int, m: int, d: int) -> Seq<char> {
    year_text(y) + seq!['-'] + two_digits(m) + seq!['-'] + two_digits(d)
}

/// The canonical `YYYY-MM-DD` of a date filter bound: `None` for blank
/// input and for text chrono does not read as a date.
pub open spec fn date_filter_value(raw: Seq<char>) -> Option<Seq<char>> {
    let t = trim(raw);
    if t.len() == 0 {
        None
    } else {
        match chrono_ymd(t) {
            Some((y, m, d)) => Some(date_text(y, m, d)),
            None => None,
        }
    }
}

fn pad4_chars(v: Vec<char>) -> (r: Vec<char>)
    ensures
        r@ == pad4(v@),
{
    if v.len() >= 4 {
        return v;
    }
    let mut r: Vec<char> = Vec::new();
    let n: usize = 4 - v.len();
    let mut i: usize = 0;
    while i < n
        invariant
            i <= n,
            n == 4 - v.len(),
            r@ == Seq::new(i as nat, |k: int| '0'),
        decreases n - i,
    {
        r.push('0');
        assert(r@ =~= Seq::new((i + 1) as nat, |k: int| '0'));
        i = i + 1;
    }
    let mut j: usize = 0;
    while j < v.len()
        invariant
            j <= v.len(),
            n == 4 - v.len(),
            r@ == Seq::new(n as nat, |k: int| '0') + v@.take(j as int),
        decreases v.len() - j,
    {
        r.push(v[j]);
        assert(v@.take(j + 1) =~= v@.take(j as int).push(v@[j as int]));
        j = j + 1;
    }
    assert(v@.take(v.len() as int) =~= v@);
    r
}

/// Renders a date as chrono's `%Y-%m-%d` does.
pub fn format_ymd(year: i32, month: u32, day: u32) -> (r: String)
    requires
        month < 100,
        day < 100,
    ensures
        r@ == date_text(year as int, month as int, day as int),
{
    let mut out: Vec<char> = Vec::new();
    if 0 <= year && year <= 9999 {
        out = pad4_chars(u64_chars(year as u64));
    } else {
        let mag: u64 = if year < 0 {
            (-(year as i64)) as u64
        } else {
            year as u64
        };
        out.push(if year < 0 {
            '-'
        } else {
            '+'
        });
        let p = pad4_chars(u64_chars(mag));
        let mut j: usize = 0;
        while j < p.len()
            invariant
                j <= p.len(),
                out@ == seq![if year < 0 {
                    '-'
                } else {
                    '+'
                }] + p@.take(j as int),
            decreases p.len() - j,
        {
            out.push(p[j]);
            assert(p@.take(j + 1) =~= p@.take(j as int).push(p@[j as int]));
            j = j + 1;
        }
        assert(p@.take(p.len() as int) =~= p@);
    }
    assert(out@ == year_text(year as int));
    let ghost y = out@;
    out.push('-');
    out.push(digit((month / 10) as u64));
    out.push(digit((month % 10) as u64));
    out.push('-');
    out.push(digit((day / 10) as u64));
    out.push(digit((day % 10) as u64));
    assert(out@ =~= date_text(year as int, month as int, day as int));
    string_from_chars(out.as_slice())
}

/// Strict `YYYY-MM-DD` parse of a date-range filter bound, re-emitted
/// in canonical form.
pub fn parse_date_yyyy_mm_dd(raw: &str) -> (r: Option<String>)
    ensures
        match r {
            Some(s) => date_filter_value(raw@) == Some(s@),
            None => date_filter_value(raw@) is None,
        },
{
    let t = trim_chars(chars_of(raw).as_slice());
    if t.len() == 0 {
        return None;
    }
    let ts = string_from_chars(t.as_slice());
    match chrono_parse_ymd(ts.as_str()) {
        Some((y, m, d)) => Some(format_ymd(y, m, d)),
        None => None,
    }
}

// ---------------------------------------------------------------------------
// Weekday labels
// ---------------------------------------------------------------------------

#[verifier::external_type_specification]
#[verifier::external_body]
pub struct ExWeekday(chrono::Weekday);

/// The day's number from Monday (Monday 0 … Sunday 6), as chrono's
/// `Weekday::num_days_from_monday` gives it.
pub uninterp spec fn weekday_index(w: chrono::Weekday) -> u32;

/// chrono's `Weekday::num_days_from_monday`: a match giving Monday 0
/// through Sunday 6.
#[verifier::external_body]
fn days_from_monday(w: chrono::Weekday) -> (n: u32)
    ensures
        n == weekday_index(w),
        n < 7,
{
    w.num_days_from_monday()
}

/// Three-letter label of the `n`-th day of the week, Monday first.
pub open spec fn weekday_label(n: int) -> Seq<char> {
    if n == 0 {
        "Mon"@
    } else if n == 1 {
        "Tue"@
    } else if n == 2 {
        "Wed"@
    } else if n == 3 {
        "Thu"@
    } else if n == 4 {
        "Fri"@
    } else if n == 5 {
        "Sat"@
    } else {
        "Sun"@
    }
}

/// The label of a day counted from Monday.
pub fn weekday_short_name(days_from_mon: u32) -> (r: &'static str)
    requires
        days_from_mon < 7,
    ensures
        r@ == weekday_label(days_from_mon as int),
{
    match days_from_mon {
        0 => "Mon",
        1 => "Tue",
        2 => "Wed",
        3 => "Thu",
        4 => "Fri",
        5 => "Sat",
        _ => "Sun",
    }
}

/// Locale-neutral three-letter weekday label for the sparkline axis.
pub fn short_weekday(w: chrono::Weekday) -> (r: &'static str)
    ensures
        r@ == weekday_label(weekday_index(w) as int),
{
    let n = days_from_monday(w);
    weekday_short_name(n)
}

// ---------------------------------------------------------------------------
// Project bulk actions
// ---------------------------------------------------------------------------

/// The first registered action named `name`.
pub open spec fn action_named(actions: Seq<BulkAction>, name: Seq<char>) -> Option<BulkAction>
    decreases actions.len(),
{
    if actions.len() == 0 {
        None
    } else if actions[0].name@ == name {
        Some(actions[0])
    } else {
        action_named(actions.drop_first(), name)
    }
}

/// The refusal of the reserved `delete` action name.
pub open spec fn reserved_delete_message() -> Seq<char> {
    "the action name `delete` is reserved — use POST /admin/:model/bulk_delete"@
}

/// The refusal of an action the model does not register.
pub open spec fn unknown_action_message(action_name: Seq<char>, admin_name: Seq<char>) -> Seq<char> {
    "bulk action `"@ + action_name + "` is not registered on `"@ + admin_name + "`"@
}

/// Resolves a bulk-action URL segment against the model's registered
/// actions; `delete` is reserved for the built-in cascade delete.
pub fn resolve_bulk_action(admin_name: &str, action_name: &str, actions: &[BulkAction]) -> (r: Result<
    BulkAction,
    AdminError,
>)
    ensures
        action_name@ == "delete"@ ==> (r matches Err(AdminError::BadRequest(m)) && m@
            == reserved_delete_message()),
        action_name@ != "delete"@ ==> match action_named(actions@, action_name@) {
            Some(a) => r == Ok::<BulkAction, AdminError>(a),
            None => r matches Err(AdminError::NotFound(m)) && m@ == unknown_action_message(
                action_name@,
                admin_name@,
            ),
        },
{
    if str_eq(action_name, "delete") {
        return Err(
            AdminError::BadRequest(
                to_owned_string(
                    "the action name `delete` is reserved — use POST /admin/:model/bulk_delete",
                ),
            ),
        );
    }
    let mut i: usize = 0;
    assert(actions@.skip(0) =~= actions@);
    while i < actions.len()
        invariant
            i <= actions.len(),
            action_named(actions@, action_name@) == action_named(actions@.skip(i as int), action_name@),
            action_name@ != "delete"@,
        decreases actions.len() - i,
    {
        assert(actions@.skip(i as int)[0] == actions@[i as int]);
        assert(actions@.skip(i as int).drop_first() =~= actions@.skip(i + 1));
        if str_eq(actions[i].name, action_name) {
            return Ok(actions[i]);
        }
        i = i + 1;
    }
    let mut m = to_owned_string("bulk action `");
    push_str(&mut m, action_name);
    push_str(&mut m, "` is not registered on `");
    push_str(&mut m, admin_name);
    push_str(&mut m, "`");
    Err(AdminError::NotFound(m))
}

/// Whether a bulk action runs on this POST: a confirmed submission, or
/// any submission of an action that needs no confirmation page.
pub fn bulk_action_commits(action: &BulkAction, confirmed: bool) -> (b: bool)
    ensures
        b == (confirmed || !action.confirm),
{
    confirmed || !action.confirm
}

/// The audit summary of a bulk dispatch: the handler's own message
/// when it gave one, else the counts.
pub open spec fn bulk_summary_text(action: Seq<char>, model: Seq<char>, outcome: BulkActionResult) -> Seq<
    char,
> {
    match outcome.message {
        Some(m) => m@,
        None => "bulk action `"@ + action + "` on "@ + model + ": "@ + decimal(outcome.succeeded as nat)
            + " succeeded, "@ + decimal(outcome.failed@.len()) + " failed"@,
    }
}

/// Summarises a bulk dispatch for its audit row.
pub fn bulk_action_summary(action: &str, model: &str, outcome: &BulkActionResult) -> (r: String)
    ensures
        r@ == bulk_summary_text(action@, model@, *outcome),
{
    match &outcome.message {
        Some(m) => m.clone(),
        None => {
            let mut s = to_owned_string("bulk action `");
            push_str(&mut s, action);
            push_str(&mut s, "` on ");
            push_str(&mut s, model);
            push_str(&mut s, ": ");
            let ok = crate::text::usize_string(outcome.succeeded);
            push_str(&mut s, ok.as_str());
            push_str(&mut s, " succeeded, ");
            let fail = crate::text::usize_string(outcome.failed.len());
            push_str(&mut s, fail.as_str());
            push_str(&mut s, " failed");
            s
        },
    }
}

/// The audit action of a bulk dispatch: destructive actions log as
/// deletes, the rest as updates.
pub fn bulk_audit_action(action: &BulkAction) -> (r: ActionType)
    ensures
        r == (if action.destructive { ActionType::Delete } else { ActionType::Update }),
{
    if action.destructive {
        ActionType::Delete
    } else {
        ActionType::Update
    }
}

// ---------------------------------------------------------------------------
// CSV export, lookup and search
// ---------------------------------------------------------------------------

/// One exported line: the escaped cells joined with `,`, then `\n`.
pub open spec fn export_line(cells: Seq<Seq<char>>) -> Seq<char> {
    crate::csv::join_cells(cells) + seq!['\n']
}

/// The exported lines of `rows`, one after another.
pub open spec fn export_lines(rows: Seq<Seq<Seq<char>>>) -> Seq<char>
    decreases rows.len(),
{
    if rows.len() == 0 {
        Seq::empty()
    } else {
        export_lines(rows.drop_last()) + export_line(rows.last())
    }
}

pub open spec fn string_rows(rows: Seq<Vec<String>>) -> Seq<Seq<Seq<char>>> {
    rows.map_values(|r: Vec<String>| r@.map_values(|c: String| c@))
}

fn push_export_line(out: &mut String, cells: &[String])
    ensures
        final(out)@ == old(out)@ + export_line(cells@.map_values(|c: String| c@)),
{
    let ghost start = out@;
    let ghost views = cells@.map_values(|c: String| c@);
    let mut i: usize = 0;
    while i < cells.len()
        invariant
            i <= cells.len(),
            views == cells@.map_values(|c: String| c@),
            out@ == start + crate::csv::join_cells(views.take(i as int)),
        decreases cells.len() - i,
    {
        let ghost before = out@;
        if i > 0 {
            crate::text::push_char(out, ',');
        }
        let e = crate::csv::csv_escape_field(cells[i].as_str());
        push_str(out, e.as_str());
        proof {
            let t = views.take(i + 1);
            assert(t.drop_last() =~= views.take(i as int));
            assert(t.last() == cells@[i as int]@);
            if i == 0 {
                assert(t.len() == 1);
                assert(crate::csv::join_cells(views.take(0)) =~= Seq::<char>::empty());
            }
        }
        assert(out@ =~= start + crate::csv::join_cells(views.take(i + 1)));
        i = i + 1;
    }
    crate::text::push_char(out, '\n');
    assert(views.take(cells.len() as int) =~= views);
}

/// The body of a CSV download: the field labels as the header line,
/// then one line per row, cells escaped as RFC 4180 asks and lines
/// ended with `\n`.
pub fn export_csv_body(labels: &[&str], rows: &[Vec<String>]) -> (r: String)
    ensures
        r@ == crate::csv::join_cells(labels@.map_values(|l: &str| l@)) + seq!['\n'] + export_lines(
            string_rows(rows@),
        ),
{
    let mut out = String::new();
    let ghost lv = labels@.map_values(|l: &str| l@);
    let mut i: usize = 0;
    while i < labels.len()
        invariant
            i <= labels.len(),
            lv == labels@.map_values(|l: &str| l@),
            out@ == crate::csv::join_cells(lv.take(i as int)),
        decreases labels.len() - i,
    {
        if i > 0 {
            crate::text::push_char(&mut out, ',');
        }
        let e = crate::csv::csv_escape_field(labels[i]);
        push_str(&mut out, e.as_str());
        proof {
            let t = lv.take(i + 1);
            assert(t.drop_last() =~= lv.take(i as int));
            assert(t.last() == labels@[i as int]@);
            if i == 0 {
                assert(t.len() == 1);
            }
        }
        assert(out@ =~= crate::csv::join_cells(lv.take(i + 1)));
        i = i + 1;
    }
    crate::text::push_char(&mut out, '\n');
    assert(lv.take(labels.len() as int) =~= lv);
    let ghost head = out@;
    let mut k: usize = 0;
    while k < rows.len()
        invariant
            k <= rows.len(),
            out@ == head + export_lines(string_rows(rows@.take(k as int))),
        decreases rows.len() - k,
    {
        push_export_line(&mut out, rows[k].as_slice());
        proof {
            let t = string_rows(rows@.take(k + 1));
            assert(t.drop_last() =~= string_rows(rows@.take(k as int)));
            assert(t.last() == rows@[k as int]@.map_values(|c: String| c@));
        }
        assert(out@ =~= head + export_lines(string_rows(rows@.take(k + 1))));
        k = k + 1;
    }
    assert(rows@.take(rows.len() as int) =~= rows@);
    out
}

/// `?limit=` of the lookup endpoint: an `i64` when it parses, 20
/// otherwise, clamped to 1..=50.
pub open spec fn lookup_limit_of(raw: Option<Seq<char>>) -> i64 {
    let n = match raw {
        Some(s) => match parse_i64(s) {
            Some(n) => n,
            None => 20,
        },
        None => 20,
    };
    if n < 1 {
        1
    } else if n > 50 {
        50
    } else {
        n
    }
}

/// Reads the lookup endpoint's row limit.
pub fn lookup_limit(raw: Option<&str>) -> (r: i64)
    ensures
        r == lookup_limit_of(opt_str_view(raw)),
{
    let n: i64 = match raw {
        Some(s) => match parse_i64_chars(chars_of(s).as_slice()) {
            Some(n) => n,
            None => 20,
        },
        None => 20,
    };
    if n < 1 {
        1
    } else if n > 50 {
        50
    } else {
        n
    }
}

/// The label of a row in lookup and search results: its display cell
/// when there is one and it is not empty, else `#<id>`.
pub open spec fn row_label_of(display_idx: Option<usize>, cells: Seq<String>, id: i64) -> Seq<char> {
    match display_idx {
        Some(i) if i < cells.len() && cells[i as int]@.len() > 0 => cells[i as int]@,
        _ => seq!['#'] + decimal_int(id as int),
    }
}

/// Labels a result row.
pub fn row_label(display_idx: Option<usize>, cells: &[String], id: i64) -> (r: String)
    ensures
        r@ == row_label_of(display_idx, cells@, id),
{
    match display_idx {
        Some(i) => {
            if i < cells.len() {
                let v = chars_of(cells[i].as_str());
                if v.len() > 0 {
                    return cells[i].clone();
                }
            }
        },
        None => {},
    }
    proof {
        reveal_strlit("#");
    }
    let mut s = to_owned_string("#");
    let d = i64_chars(id);
    push_chars(&mut s, d.as_slice());
    s
}

/// The fewest characters a palette search runs with.
pub const SEARCH_MIN_QUERY_LEN: usize = 2;

/// The most results the palette returns.
pub const SEARCH_TOTAL_LIMIT: usize = 20;

/// The most rows fetched per model for the palette.
pub const SEARCH_PER_MODEL_LIMIT: i64 = 5;

/// The palette's search term: the trimmed query, when it has at least
/// two characters.
pub open spec fn palette_term(q: Option<Seq<char>>) -> Option<Seq<char>> {
    let t = trim(
        match q {
            Some(s) => s,
            None => Seq::empty(),
        },
    );
    if t.len() < SEARCH_MIN_QUERY_LEN {
        None
    } else {
        Some(t)
    }
}

/// Reads the palette's search term.
pub fn search_term(q: Option<&str>) -> (r: Option<String>)
    ensures
        match r {
            Some(s) => palette_term(opt_str_view(q)) == Some(s@),
            None => palette_term(opt_str_view(q)) is None,
        },
{
    let raw = match q {
        Some(s) => chars_of(s),
        None => Vec::new(),
    };
    let t = trim_chars(raw.as_slice());
    if t.len() < SEARCH_MIN_QUERY_LEN {
        None
    } else {
        Some(string_from_chars(t.as_slice()))
    }
}

/// `<admin_name>.change_<singular in ASCII lower case>`: the permission
/// a palette result needs.
pub fn change_permission(admin_name: &str, singular_name: &str) -> (r: String)
    ensures
        r@ == admin_name@ + ".change_"@ + lower_seq(singular_name@),
{
    let mut s = to_owned_string(admin_name);
    push_str(&mut s, ".change_");
    let l = lower_chars(chars_of(singular_name).as_slice());
    push_chars(&mut s, l.as_slice());
    s
}

/// One palette hit.
#[derive(Debug, Clone)]
pub struct SearchResult {
    pub admin_name: String,
    pub model_label: String,
    pub label: String,
    pub url: String,
}

pub open spec fn hit_view(h: SearchResult) -> (Seq<char>, Seq<char>, Seq<char>, Seq<char>) {
    (h.admin_name@, h.model_label@, h.label@, h.url@)
}

/// The palette hit of one row of a model.
pub open spec fn hit_of(
    admin_name: Seq<char>,
    model_label: Seq<char>,
    display_idx: Option<usize>,
    row: crate::json_api::ListRow,
) -> (Seq<char>, Seq<char>, Seq<char>, Seq<char>) {
    (
        admin_name,
        model_label,
        row_label_of(display_idx, row.cells@, row.id),
        "/admin/"@ + admin_name + "/"@ + decimal_int(row.id as int) + "/edit"@,
    )
}

/// Appends one model's rows to the palette results, stopping once the
/// palette holds its limit.
pub fn add_search_hits(
    results: &mut Vec<SearchResult>,
    admin_name: &str,
    model_label: &str,
    display_idx: Option<usize>,
    rows: &[crate::json_api::ListRow],
)
    ensures
        ({
            let before = old(results)@.len();
            let room = if before >= SEARCH_TOTAL_LIMIT {
                0
            } else {
                SEARCH_TOTAL_LIMIT - before
            };
            let taken = if rows@.len() < room {
                rows@.len() as int
            } else {
                room as int
            };
            &&& final(results)@.len() == before + taken
            &&& forall|j: int| 0 <= j < before ==> #[trigger] final(results)@[j] == old(results)@[j]
            &&& forall|j: int|
                0 <= j < taken ==> hit_view(#[trigger] final(results)@[before + j]) == hit_of(
                    admin_name@,
                    model_label@,
                    display_idx,
                    rows@[j],
                )
        }),
{
    let ghost start = results@;
    let mut k: usize = 0;
    while k < rows.len() && results.len() < SEARCH_TOTAL_LIMIT
        invariant
            k <= rows.len(),
            results@.len() == start.len() + k,
            start.len() >= SEARCH_TOTAL_LIMIT ==> k == 0,
            start.len() < SEARCH_TOTAL_LIMIT ==> k <= SEARCH_TOTAL_LIMIT - start.len(),
            forall|j: int| 0 <= j < start.len() ==> #[trigger] results@[j] == start[j],
            forall|j: int|
                0 <= j < k ==> hit_view(#[trigger] results@[start.len() + j]) == hit_of(
                    admin_name@,
                    model_label@,
                    display_idx,
                    rows@[j],
                ),
        decreases rows.len() - k,
    {
        let row = &rows[k];
        let label = row_label(display_idx, row.cells.as_slice(), row.id);
        let mut url = to_owned_string("/admin/");
        push_str(&mut url, admin_name);
        push_str(&mut url, "/");
        let d = i64_chars(row.id);
        push_chars(&mut url, d.as_slice());
        push_str(&mut url, "/edit");
        results.push(
            SearchResult {
                admin_name: to_owned_string(admin_name),
                model_label: to_owned_string(model_label),
                label,
                url,
            },
        );
        k = k + 1;
    }
}

} // verus!
