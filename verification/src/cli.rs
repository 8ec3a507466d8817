//! The command-line surface: the `user` subcommands, the audit
//! summary of an emergency operation, and the decisions of the
//! `new` project wizard (name / type / database validation).
use vstd::prelude::*;
use crate::auth::Role;
use crate::text::{
    chars_eq_ignore_case, chars_of, eq_ignore_case, is_alnum, is_ascii_alnum, is_ascii_digit,
    is_digit, push_char, push_chars, push_str, string_from_chars, to_owned_string, trim, trim_str,
};
use crate::recovery::{all_digits, digits_value, unsigned_digits, parse_u32_chars, parse_u32};

verus! {

broadcast use vstd::string::group_string_axioms;

/// Role names as the command line spells them.
#[derive(Copy, Clone, Debug, PartialEq, Eq, Structural)]
pub enum CliRole {
    User,
    Staff,
    Supervisor,
    Administrator,
    Developer,
}

pub open spec fn cli_role(r: CliRole) -> Role {
    match r {
        CliRole::User => Role::User,
        CliRole::Staff => Role::Staff,
        CliRole::Supervisor => Role::Supervisor,
        CliRole::Administrator => Role::Administrator,
        CliRole::Developer => Role::Developer,
    }
}

impl From<CliRole> for Role {
    fn from(r: CliRole) -> (out: Self) {
        match r {
            CliRole::User => Role::User,
            CliRole::Staff => Role::Staff,
            CliRole::Supervisor => Role::Supervisor,
            CliRole::Administrator => Role::Administrator,
            CliRole::Developer => Role::Developer,
        }
    }
}

impl vstd::std_specs::convert::FromSpecImpl<CliRole> for Role {
    open spec fn obeys_from_spec() -> bool {
        true
    }

    open spec fn from_spec(v: CliRole) -> Role {
        cli_role(v)
    }
}

/// The `user` subcommands.
pub enum Action {
    /// Create a user; prompts for the password unless given.
    Create { email: String, role: CliRole, password: Option<String> },
    /// List every user.
    List,
    /// Set the role of an existing user.
    Role { email: String, role: CliRole },
    /// Delete a user.
    Delete { email: String },
    /// Emergency: set a temporary password and revoke every session.
    ResetPassword { email: String, reason: String, temp_password: Option<String>, yes: bool },
    /// Emergency: clear an auto-throttle lock.
    Unlock { email: String, reason: String, yes: bool },
    /// Emergency: clear MFA and revoke every session.
    DisableMfa { email: String, reason: String, yes: bool },
    /// Emergency: change a user's role.
    Promote { email: String, to_role: CliRole, reason: String, yes: bool },
    /// Emergency: issue a single-use reset URL.
    EmergencyAccess { email: String, reason: String, ttl_minutes: i64, yes: bool },
}

// ---------------------------------------------------------------------------
// Emergency audit summary
// ---------------------------------------------------------------------------

/// `op: <first 200 characters of reason>`, with `…` when the reason was
/// longer.
pub open spec fn summary_text(op: Seq<char>, reason: Seq<char>) -> Seq<char> {
    op + ": "@ + reason.take(if reason.len() < 200 {
        reason.len() as int
    } else {
        200
    }) + if reason.len() > 200 {
        seq!['…']
    } else {
        Seq::empty()
    }
}

/// The `summary` column of an emergency audit row: the operation and
/// the reason cut to at most 200 characters (not bytes), `…` marking
/// a cut.
pub fn build_summary(op: &str, reason: &str) -> (s: String)
    ensures
        s@ == summary_text(op@, reason@),
{
    let mut preview = to_owned_string(op);
    push_str(&mut preview, ": ");
    let r = chars_of(reason);
    let n = if r.len() < 200 {
        r.len()
    } else {
        200
    };
    let mut i: usize = 0;
    while i < n
        invariant
            i <= n <= r.len(),
            r@ == reason@,
            preview@ == op@ + ": "@ + r@.take(i as int),
        decreases n - i,
    {
        push_char(&mut preview, r[i]);
        assert(r@.take(i + 1) == r@.take(i as int).push(r@[i as int]));
        i = i + 1;
    }
    if r.len() > 200 {
        push_char(&mut preview, '…');
    }
    preview
}

// ---------------------------------------------------------------------------
// Wizard
// ---------------------------------------------------------------------------

/// Curated project types, in the order the wizard shows them;
/// `custom` (the default) first.
pub const PROJECT_TYPES: [&'static str; 4] = ["custom", "translation-agency", "clinic", "blog"];

/// The spec view of [`PROJECT_TYPES`].
pub open spec fn project_types() -> Seq<Seq<char>> {
    seq!["custom"@, "translation-agency"@, "clinic"@, "blog"@]
}

/// The hint shown beside each project type.
pub open spec fn type_hint(t: Seq<char>) -> Seq<char> {
    if t == "translation-agency"@ {
        "example models — translators, tasks"@
    } else if t == "clinic"@ {
        "example models — patients, appointments"@
    } else if t == "blog"@ {
        "example models — posts, comments"@
    } else {
        "clean slate (no models yet)"@
    }
}

fn lit_is(v: &Vec<char>, lit: &str) -> (b: bool)
    ensures
        b == (v@ == lit@),
{
    let l = chars_of(lit);
    crate::text::chars_eq(v.as_slice(), l.as_slice())
}

/// One-line hint shown beside a project type in the wizard.
pub fn project_type_hint(t: &str) -> (h: &'static str)
    ensures
        h@ == type_hint(t@),
{
    let v = chars_of(t);
    if lit_is(&v, "translation-agency") {
        "example models — translators, tasks"
    } else if lit_is(&v, "clinic") {
        "example models — patients, appointments"
    } else if lit_is(&v, "blog") {
        "example models — posts, comments"
    } else {
        "clean slate (no models yet)"
    }
}

/// The project type an answer picks: empty picks `custom`, `1`..`4`
/// picks by position, a type's name (any ASCII case) picks that type;
/// anything else picks nothing and the wizard asks again.
pub open spec fn chosen_project_type(input: Seq<char>) -> Option<Seq<char>> {
    let d = unsigned_digits(input);
    if input.len() == 0 {
        Some("custom"@)
    } else if d.len() > 0 && all_digits(d) && 1 <= digits_value(d) <= 4 {
        Some(project_types()[digits_value(d) - 1])
    } else {
        first_type_matching(input, 0)
    }
}

/// The first project type from index `k` on whose name equals `input`
/// ignoring ASCII case.
pub open spec fn first_type_matching(input: Seq<char>, k: int) -> Option<Seq<char>>
    decreases 4 - k,
{
    if k < 0 || k >= 4 {
        None
    } else if eq_ignore_case(project_types()[k], input) {
        Some(project_types()[k])
    } else {
        first_type_matching(input, k + 1)
    }
}

/// The decision behind the wizard's project-type question (the input
/// is the trimmed answer line).
pub fn choose_project_type(input: &str) -> (r: Option<&'static str>)
    ensures
        match (r, chosen_project_type(input@)) {
            (Some(t), Some(st)) => t@ == st,
            (None, None) => true,
            _ => false,
        },
{
    let v = chars_of(input);
    if v.len() == 0 {
        return Some("custom");
    }
    if let Some(n) = parse_u32_chars(v.as_slice()) {
        if 1 <= n && n <= 4 {
            proof {
                assert(project_types()[n - 1] == PROJECT_TYPES@[n - 1]@);
            }
            return Some(PROJECT_TYPES[(n - 1) as usize]);
        }
    }
    let mut k: usize = 0;
    while k < 4
        invariant
            k <= 4,
            v@ == input@,
            chosen_project_type(input@) == first_type_matching(input@, k as int),
        decreases 4 - k,
    {
        let t = chars_of(PROJECT_TYPES[k]);
        assert(t@ == project_types()[k as int]);
        if chars_eq_ignore_case(t.as_slice(), v.as_slice()) {
            return Some(PROJECT_TYPES[k]);
        }
        k = k + 1;
    }
    None
}

/// A character allowed in a project name.
pub open spec fn project_name_char(c: char) -> bool {
    is_ascii_alnum(c) || c == '-' || c == '_'
}

/// What [`validate_project_name`] answers for `name`.
pub open spec fn project_name_verdict(name: Seq<char>) -> Result<(), Seq<char>> {
    if name.len() == 0 {
        Err("project name is required"@)
    } else if is_ascii_digit(name[0]) {
        Err("project name may not start with a digit"@)
    } else if exists|i: int| 0 <= i < name.len() && !project_name_char(#[trigger] name[i]) {
        Err("project name may only contain ASCII letters, digits, '-', and '_'"@)
    } else {
        Ok(())
    }
}

/// Project names: non-empty, not starting with a digit, ASCII letters,
/// digits, `-` and `_` only.
pub fn validate_project_name(name: &str) -> (r: Result<(), String>)
    ensures
        match (r, project_name_verdict(name@)) {
            (Ok(()), Ok(())) => true,
            (Err(m), Err(sm)) => m@ == sm,
            _ => false,
        },
{
    let v = chars_of(name);
    if v.len() == 0 {
        return Err(to_owned_string("project name is required"));
    }
    if is_digit(v[0]) {
        return Err(to_owned_string("project name may not start with a digit"));
    }
    let mut i: usize = 0;
    while i < v.len()
        invariant
            i <= v.len(),
            v@ == name@,
            v@.len() > 0,
            !is_ascii_digit(v@[0]),
            forall|k: int| 0 <= k < i ==> project_name_char(#[trigger] v@[k]),
        decreases v.len() - i,
    {
        let c = v[i];
        if !(is_alnum(c) || c == '-' || c == '_') {
            assert(!project_name_char(name@[i as int]));
            return Err(
                to_owned_string("project name may only contain ASCII letters, digits, '-', and '_'"),
            );
        }
        i = i + 1;
    }
    Ok(())
}

/// A character allowed in a database name.
pub open spec fn db_name_char(c: char) -> bool {
    is_ascii_alnum(c) || c == '_'
}

/// Database names PostgreSQL reserves.
pub open spec fn reserved_db_name(name: Seq<char>) -> bool {
    eq_ignore_case("postgres"@, name) || eq_ignore_case("template0"@, name) || eq_ignore_case(
        "template1"@,
        name,
    )
}

/// What [`validate_db_name`] answers for `name`.
pub open spec fn db_name_verdict(name: Seq<char>) -> Result<(), Seq<char>> {
    if name.len() == 0 {
        Err("database name is required"@)
    } else if is_ascii_digit(name[0]) {
        Err("database name may not start with a digit"@)
    } else if exists|i: int| 0 <= i < name.len() && !db_name_char(#[trigger] name[i]) {
        Err("database name may only contain ASCII letters, digits, and '_'"@)
    } else if name.len() > 63 {
        Err("database name must be 63 characters or fewer (PostgreSQL limit)"@)
    } else if reserved_db_name(name) {
        Err("'"@ + name + "' is reserved by PostgreSQL -- pick a different name"@)
    } else {
        Ok(())
    }
}

/// PostgreSQL identifiers without quoting: non-empty, not starting
/// with a digit, ASCII letters / digits / `_`, at most 63 characters
/// (all ASCII, so 63 bytes), and not `postgres` / `template0` /
/// `template1` in any case.
pub fn validate_db_name(name: &str) -> (r: Result<(), String>)
    ensures
        match (r, db_name_verdict(name@)) {
            (Ok(()), Ok(())) => true,
            (Err(m), Err(sm)) => m@ == sm,
            _ => false,
        },
{
    let v = chars_of(name);
    if v.len() == 0 {
        return Err(to_owned_string("database name is required"));
    }
    if is_digit(v[0]) {
        return Err(to_owned_string("database name may not start with a digit"));
    }
    let mut i: usize = 0;
    while i < v.len()
        invariant
            i <= v.len(),
            v@ == name@,
            v@.len() > 0,
            !is_ascii_digit(v@[0]),
            forall|k: int| 0 <= k < i ==> db_name_char(#[trigger] v@[k]),
        decreases v.len() - i,
    {
        let c = v[i];
        if !(is_alnum(c) || c == '_') {
            assert(!db_name_char(name@[i as int]));
            return Err(to_owned_string("database name may only contain ASCII letters, digits, and '_'"));
        }
        i = i + 1;
    }
    if v.len() > 63 {
        return Err(to_owned_string("database name must be 63 characters or fewer (PostgreSQL limit)"));
    }
    let p = chars_of("postgres");
    let t0 = chars_of("template0");
    let t1 = chars_of("template1");
    if chars_eq_ignore_case(p.as_slice(), v.as_slice()) || chars_eq_ignore_case(t0.as_slice(), v.as_slice())
        || chars_eq_ignore_case(t1.as_slice(), v.as_slice()) {
        let mut m = to_owned_string("'");
        push_chars(&mut m, v.as_slice());
        push_str(&mut m, "' is reserved by PostgreSQL -- pick a different name");
        return Err(m);
    }
    Ok(())
}

/// The name the wizard's first question settles on: the answer, or the
/// suggested name when the answer is empty; `Err` carries the warning
/// shown before asking again.
pub open spec fn project_name_answer(input: Seq<char>, suggested: Option<Seq<char>>) -> Result<
    Seq<char>,
    Seq<char>,
> {
    let chosen = if input.len() == 0 {
        match suggested {
            Some(s) => s,
            None => Seq::empty(),
        }
    } else {
        input
    };
    if chosen.len() == 0 {
        Err("Project name is required."@)
    } else {
        match project_name_verdict(chosen) {
            Ok(()) => Ok(chosen),
            Err(m) => Err(m),
        }
    }
}

/// The decision behind the wizard's project-name question.
pub fn choose_project_name(input: &str, suggested: Option<&str>) -> (r: Result<String, String>)
    ensures
        match (
            r,
            project_name_answer(
                input@,
                match suggested {
                    Some(s) => Some(s@),
                    None => None,
                },
            ),
        ) {
            (Ok(n), Ok(sn)) => n@ == sn,
            (Err(m), Err(sm)) => m@ == sm,
            _ => false,
        },
{
    let v = chars_of(input);
    let chosen: String = if v.len() == 0 {
        match suggested {
            Some(s) => to_owned_string(s),
            None => String::new(),
        }
    } else {
        string_from_chars(v.as_slice())
    };
    let cv = chars_of(chosen.as_str());
    if cv.len() == 0 {
        return Err(to_owned_string("Project name is required."));
    }
    match validate_project_name(chosen.as_str()) {
        Ok(()) => Ok(chosen),
        Err(m) => Err(m),
    }
}

/// The database name the wizard's third question settles on: the
/// answer, or `<project>_dev` when the answer is empty.
pub open spec fn db_name_answer(input: Seq<char>, project: Seq<char>) -> Result<Seq<char>, Seq<char>> {
    let chosen = if input.len() == 0 {
        project + "_dev"@
    } else {
        input
    };
    match db_name_verdict(chosen) {
        Ok(()) => Ok(chosen),
        Err(m) => Err(m),
    }
}

/// The decision behind the wizard's database question.
pub fn choose_db_name(input: &str, project: &str) -> (r: Result<String, String>)
    ensures
        match (r, db_name_answer(input@, project@)) {
            (Ok(n), Ok(sn)) => n@ == sn,
            (Err(m), Err(sm)) => m@ == sm,
            _ => false,
        },
{
    let v = chars_of(input);
    let chosen: String = if v.len() == 0 {
        let mut d = to_owned_string(project);
        push_str(&mut d, "_dev");
        d
    } else {
        string_from_chars(v.as_slice())
    };
    match validate_db_name(chosen.as_str()) {
        Ok(()) => Ok(chosen),
        Err(m) => Err(m),
    }
}

/// Whether the interactive wizard runs: not with `--no-interactive`,
/// not under CI (the `CI` variable is set), and only when both stdin
/// and stdout are terminals.
pub fn should_run(no_interactive: bool, ci_set: bool, stdin_is_terminal: bool, stdout_is_terminal: bool) -> (b:
    bool)
    ensures
        b == (!no_interactive && !ci_set && stdin_is_terminal && stdout_is_terminal),
{
    if no_interactive {
        return false;
    }
    if ci_set {
        return false;
    }
    stdin_is_terminal && stdout_is_terminal
}

// ---------------------------------------------------------------------------
// `user list` table
// ---------------------------------------------------------------------------

/// `n` spaces.
pub open spec fn spaces(n: int) -> Seq<char> {
    Seq::new(if n < 0 { 0 } else { n as nat }, |i: int| ' ')
}

/// `{:<w}`: `s` followed by spaces up to `w` characters.
pub open spec fn pad_after(s: Seq<char>, w: int) -> Seq<char> {
    s + spaces(w - s.len())
}

/// `{:>w}`: spaces up to `w` characters, then `s`.
pub open spec fn pad_before(s: Seq<char>, w: int) -> Seq<char> {
    spaces(w - s.len()) + s
}

fn push_spaces(out: &mut String, n: usize)
    ensures
        final(out)@ == old(out)@ + spaces(n as int),
{
    let ghost start = out@;
    let mut k: usize = 0;
    while k < n
        invariant
            k <= n,
            out@ == start + spaces(k as int),
        decreases n - k,
    {
        push_char(out, ' ');
        assert(spaces(k as int).push(' ') =~= spaces(k + 1));
        k = k + 1;
    }
}

fn push_padded_after(out: &mut String, v: &[char], w: usize)
    ensures
        final(out)@ == old(out)@ + pad_after(v@, w as int),
{
    push_chars(out, v);
    let fill: usize = if v.len() < w { w - v.len() } else { 0 };
    push_spaces(out, fill);
    assert(spaces(fill as int) =~= spaces(w - v@.len()));
}

/// The header of the `user list` table.
pub open spec fn user_table_header() -> Seq<char> {
    pad_before("ID"@, 4) + "  "@ + pad_after("EMAIL"@, 32) + "  "@ + pad_after("ROLE"@, 14) + "  "@
        + pad_after("ACTIVE"@, 6) + "  "@ + "CREATED"@
}

/// One row of the `user list` table: id right-aligned in 4, email in 32,
/// role in 14, `yes` / `no` in 6, then the creation time as given.
pub open spec fn user_table_row(id: int, email: Seq<char>, role: Seq<char>, active: bool, created: Seq<char>) -> Seq<char> {
    pad_before(crate::text::decimal_int(id), 4) + "  "@ + pad_after(email, 32) + "  "@ + pad_after(role, 14) + "  "@
        + pad_after(if active { "yes"@ } else { "no"@ }, 6) + "  "@ + created
}

fn user_line(id: &[char], email: &[char], role: &[char], active: &[char], last: &[char]) -> (s: String)
    ensures
        s@ == pad_before(id@, 4) + "  "@ + pad_after(email@, 32) + "  "@ + pad_after(role@, 14) + "  "@
            + pad_after(active@, 6) + "  "@ + last@,
{
    let mut s = String::new();
    let fill: usize = if id.len() < 4 { 4 - id.len() } else { 0 };
    push_spaces(&mut s, fill);
    assert(spaces(fill as int) =~= spaces(4 - id@.len()));
    push_chars(&mut s, id);
    push_str(&mut s, "  ");
    push_padded_after(&mut s, email, 32);
    push_str(&mut s, "  ");
    push_padded_after(&mut s, role, 14);
    push_str(&mut s, "  ");
    push_padded_after(&mut s, active, 6);
    push_str(&mut s, "  ");
    push_chars(&mut s, last);
    assert(s@ =~= pad_before(id@, 4) + "  "@ + pad_after(email@, 32) + "  "@ + pad_after(role@, 14) + "  "@
        + pad_after(active@, 6) + "  "@ + last@);
    s
}

/// The header line of `user list`.
pub fn user_list_header() -> (s: String)
    ensures
        s@ == user_table_header(),
{
    let id = chars_of("ID");
    let email = chars_of("EMAIL");
    let role = chars_of("ROLE");
    let active = chars_of("ACTIVE");
    let created = chars_of("CREATED");
    let s = user_line(id.as_slice(), email.as_slice(), role.as_slice(), active.as_slice(), created.as_slice());
    s
}

/// One line of `user list` (see [`user_table_row`]); `created` is the
/// already formatted creation time.
pub fn user_list_line(id: i64, email: &str, role: &str, active: bool, created: &str) -> (s: String)
    ensures
        s@ == user_table_row(id as int, email@, role@, active, created@),
{
    let idc = crate::text::i64_chars(id);
    let e = chars_of(email);
    let r = chars_of(role);
    let a = chars_of(if active { "yes" } else { "no" });
    let c = chars_of(created);
    user_line(idc.as_slice(), e.as_slice(), r.as_slice(), a.as_slice(), c.as_slice())
}

// ---------------------------------------------------------------------------
// Emergency commands' refusals
// ---------------------------------------------------------------------------

/// The emergency operations.
#[derive(Debug, Clone, Copy, PartialEq, Eq, Structural)]
pub enum EmergencyOp {
    ResetPassword,
    Unlock,
    DisableMfa,
    Promote,
    EmergencyAccess,
}

/// How an operation is named in its refusals, and what did not happen.
pub open spec fn op_words(op: EmergencyOp) -> (Seq<char>, Seq<char>) {
    match op {
        EmergencyOp::ResetPassword => ("reset"@, "no rows changed"@),
        EmergencyOp::Unlock => ("unlock"@, "no rows changed"@),
        EmergencyOp::DisableMfa => ("disable_mfa"@, "no rows changed"@),
        EmergencyOp::Promote => ("promote"@, "no rows changed"@),
        EmergencyOp::EmergencyAccess => ("emergency_access"@, "no token issued"@),
    }
}

/// The refusal when the target disappeared between the lookup and the
/// operation.
pub open spec fn vanished_text(op: EmergencyOp, email: Seq<char>) -> Seq<char> {
    "User vanished between lookup and "@ + op_words(op).0 + "; "@ + op_words(op).1 + " (email="@ + email + ")"@
}

/// Builds the vanished-target refusal (see [`vanished_text`]).
pub fn vanished_message(op: EmergencyOp, email: &str) -> (m: String)
    ensures
        m@ == vanished_text(op, email@),
{
    let (word, consequence) = match op {
        EmergencyOp::ResetPassword => ("reset", "no rows changed"),
        EmergencyOp::Unlock => ("unlock", "no rows changed"),
        EmergencyOp::DisableMfa => ("disable_mfa", "no rows changed"),
        EmergencyOp::Promote => ("promote", "no rows changed"),
        EmergencyOp::EmergencyAccess => ("emergency_access", "no token issued"),
    };
    let mut m = to_owned_string("User vanished between lookup and ");
    push_str(&mut m, word);
    push_str(&mut m, "; ");
    push_str(&mut m, consequence);
    push_str(&mut m, " (email=");
    push_str(&mut m, email);
    push_str(&mut m, ")");
    m
}

/// The refusal to demote the sole active administrator.
pub fn sole_administrator_refusal(email: &str) -> (m: String)
    ensures
        m@ == "Refused: "@ + email@
            + " is the sole active administrator; demoting them would leave the deployment with zero administrators. Promote another user to administrator first, then re-run."@,
{
    let mut m = to_owned_string("Refused: ");
    push_str(&mut m, email);
    push_str(
        &mut m,
        " is the sole active administrator; demoting them would leave the deployment with zero administrators. Promote another user to administrator first, then re-run.",
    );
    m
}

/// The refusal to issue an emergency-access URL to a deactivated account.
pub fn inactive_target_refusal(email: &str) -> (m: String)
    ensures
        m@ == "Refused: "@ + email@
            + " is deactivated. Emergency-access only issues URLs to active accounts (a URL into a deactivated account has no recovery semantic). Reactivate the user first via `rustio user role` or update `is_active` directly, then re-run."@,
{
    let mut m = to_owned_string("Refused: ");
    push_str(&mut m, email);
    push_str(
        &mut m,
        " is deactivated. Emergency-access only issues URLs to active accounts (a URL into a deactivated account has no recovery semantic). Reactivate the user first via `rustio user role` or update `is_active` directly, then re-run.",
    );
    m
}

/// The validity an emergency-access URL actually gets: the requested
/// minutes clamped to `1 ..= 60`.
pub fn effective_ttl_minutes(ttl_minutes: i64) -> (t: i64)
    ensures
        t == (if ttl_minutes < 1 { 1 } else if ttl_minutes > 60 { 60 } else { ttl_minutes }),
{
    if ttl_minutes < 1 {
        1
    } else if ttl_minutes > 60 {
        60
    } else {
        ttl_minutes
    }
}

} // verus!
