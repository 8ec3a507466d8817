//! Helpers of the built-in user and group pages: e-mail shape check,
//! display name from an e-mail address, HTML escaping, table-name
//! headings, and the client address recorded on audit rows.
use vstd::prelude::*;
use crate::text::{
    chars_of, find_first, find_last, first_index, join, last_index, push_chars, push_str,
    string_from_chars, sub_chars, to_owned_string, to_upper, trim, trim_chars, trim_str, upper,
};
use crate::filters::title_words;


verus! {

broadcast use vstd::string::group_string_axioms;

// ---------------------------------------------------------------------------
// looks_like_email
// ---------------------------------------------------------------------------

/// `<local>@<host>.<tld>` with every part non-empty, split at the first
/// `@` and at the last `.` after it, once surrounding whitespace is
/// trimmed.
pub open spec fn email_shaped(s: Seq<char>) -> bool {
    let t = trim(s);
    match first_index(t, '@') {
        None => false,
        Some(at) => {
            let local = t.take(at);
            let domain = t.skip(at + 1);
            local.len() > 0 && domain.len() > 0 && match last_index(domain, '.') {
                None => false,
                Some(dot) => dot > 0 && dot + 1 < domain.len(),
            }
        },
    }
}

/// Cheap e-mail shape check: `<x>@<y>.<z>` with non-empty parts.
pub fn looks_like_email(s: &str) -> (b: bool)
    ensures
        b == email_shaped(s@),
{
    let t = trim_str(s);
    let at = match find_first(t.as_slice(), '@') {
        Some(i) => i,
        None => return false,
    };
    let domain = sub_chars(t.as_slice(), at + 1, t.len());
    assert(domain@ =~= t@.skip(at + 1));
    if at == 0 || domain.len() == 0 {
        return false;
    }
    match find_last(domain.as_slice(), '.') {
        None => false,
        Some(dot) => dot > 0 && dot + 1 < domain.len(),
    }
}

// ---------------------------------------------------------------------------
// humanize_email
// ---------------------------------------------------------------------------

/// What `char::to_uppercase` yields for `c` (one or more characters,
/// per the Unicode case tables).
pub uninterp spec fn unicode_upper(c: char) -> Seq<char>;

/// `char::to_uppercase`, collected.
#[verifier::external_body]
fn char_to_uppercase(c: char) -> (r: Vec<char>)
    ensures
        r@ == unicode_upper(c),
{
    c.to_uppercase().collect()
}

pub open spec fn name_separator(c: char) -> bool {
    c == '.' || c == '_' || c == '-'
}

/// The pieces of `s` between separators (empty pieces included).
pub open spec fn pieces(s: Seq<char>) -> Seq<Seq<char>>
    decreases s.len(),
{
    if s.len() == 0 {
        seq![Seq::empty()]
    } else {
        let r = pieces(s.drop_last());
        if name_separator(s.last()) {
            r.push(Seq::empty())
        } else {
            r.update(r.len() - 1, r.last().push(s.last()))
        }
    }
}

/// A word with its first character uppercased.
pub open spec fn capitalised(w: Seq<char>) -> Seq<char> {
    if w.len() == 0 {
        w
    } else {
        unicode_upper(w[0]) + w.drop_first()
    }
}

/// The part of an address before its first `@` (all of it without one).
pub open spec fn local_part(email: Seq<char>) -> Seq<char> {
    match first_index(email, '@') {
        Some(i) => email.take(i),
        None => email,
    }
}

/// `alice.smith@example.com` → `Alice Smith`: the local part split on
/// `.`, `_`, `-`, empty pieces dropped, each capitalised, joined with
/// spaces; the whole address when that leaves nothing.
pub open spec fn email_display_name(email: Seq<char>) -> Seq<char> {
    let words = pieces(local_part(email)).filter(|w: Seq<char>| w.len() > 0);
    let h = join(words.map_values(|w: Seq<char>| capitalised(w)), " "@);
    if h.len() == 0 {
        email
    } else {
        h
    }
}

proof fn lemma_pieces_nonempty(s: Seq<char>)
    ensures
        pieces(s).len() >= 1,
    decreases s.len(),
{
    if s.len() > 0 {
        lemma_pieces_nonempty(s.drop_last());
    }
}

/// A display name derived from an e-mail address.
pub fn humanize_email(email: &str) -> (r: String)
    ensures
        r@ == email_display_name(email@),
{
    let e = chars_of(email);
    let local = match find_first(e.as_slice(), '@') {
        Some(i) => sub_chars(e.as_slice(), 0, i),
        None => sub_chars(e.as_slice(), 0, e.len()),
    };
    assert(local@ =~= local_part(email@));
    // Split into pieces.
    let mut ps: Vec<Vec<char>> = Vec::new();
    let mut cur: Vec<char> = Vec::new();
    let mut i: usize = 0;
    while i < local.len()
        invariant
            i <= local.len(),
            ps@.map_values(|x: Vec<char>| x@).push(cur@) == pieces(local@.take(i as int)),
        decreases local.len() - i,
    {
        let c = local[i];
        if c == '.' || c == '_' || c == '-' {
            ps.push(cur);
            cur = Vec::new();
        } else {
            cur.push(c);
        }
        proof {
            let t = local@.take(i + 1);
            assert(t.drop_last() =~= local@.take(i as int));
            assert(t.last() == c);
            assert(ps@.map_values(|x: Vec<char>| x@).push(cur@) =~= pieces(t));
        }
        i = i + 1;
    }
    ps.push(cur);
    let ghost all = ps@.map_values(|x: Vec<char>| x@);
    proof {
        assert(local@.take(local.len() as int) =~= local@);
    }
    // Capitalise the non-empty pieces and join them.
    let mut out: Vec<char> = Vec::new();
    let mut count: usize = 0;
    let mut k: usize = 0;
    while k < ps.len()
        invariant
            k <= ps.len(),
            all == ps@.map_values(|x: Vec<char>| x@),
            count == all.take(k as int).filter(|w: Seq<char>| w.len() > 0).len(),
            out@ == join(
                all.take(k as int).filter(|w: Seq<char>| w.len() > 0).map_values(
                    |w: Seq<char>| capitalised(w),
                ),
                " "@,
            ),
        decreases ps.len() - k,
    {
        let ghost before = all.take(k as int).filter(|w: Seq<char>| w.len() > 0);
        let w = &ps[k];
        proof {
            let t = all.take(k + 1);
            assert(t.drop_last() =~= all.take(k as int));
            assert(t.last() == w@);
            reveal_with_fuel(Seq::filter, 1);
        }
        if w.len() > 0 {
            if count > 0 {
                out.push(' ');
            }
            let up = char_to_uppercase(w[0]);
            let mut j: usize = 0;
            let ghost base = out@;
            while j < up.len()
                invariant
                    j <= up.len(),
                    out@ == base + up@.take(j as int),
                decreases up.len() - j,
            {
                out.push(up[j]);
                assert(up@.take(j + 1) =~= up@.take(j as int).push(up@[j as int]));
                j = j + 1;
            }
            let mut j2: usize = 1;
            while j2 < w.len()
                invariant
                    1 <= j2 <= w.len(),
                    out@ == base + up@ + w@.subrange(1, j2 as int),
                decreases w.len() - j2,
            {
                out.push(w[j2]);
                assert(w@.subrange(1, j2 + 1) =~= w@.subrange(1, j2 as int).push(w@[j2 as int]));
                j2 = j2 + 1;
            }
            proof {
                assert(up@.take(up.len() as int) =~= up@);
                assert(w@.subrange(1, w@.len() as int) =~= w@.drop_first());
                let after = all.take(k + 1).filter(|w: Seq<char>| w.len() > 0);
                assert(after =~= before.push(w@));
                let m = after.map_values(|w: Seq<char>| capitalised(w));
                assert(m.drop_last() =~= before.map_values(|w: Seq<char>| capitalised(w)));
                reveal_strlit(" ");
                if count == 0 {
                    assert(before.len() == 0);
                    assert(m.len() == 1);
                }
            }
            count = count + 1;
        } else {
            proof {
                let after = all.take(k + 1).filter(|w: Seq<char>| w.len() > 0);
                assert(after =~= before);
            }
        }
        k = k + 1;
    }
    proof {
        assert(all.take(ps.len() as int) =~= all);
        assert(all == pieces(local_part(email@)));
    }
    if out.len() == 0 {
        to_owned_string(email)
    } else {
        string_from_chars(out.as_slice())
    }
}

// ---------------------------------------------------------------------------
// html_escape
// ---------------------------------------------------------------------------

/// One character as HTML text: `&`, `<`, `>`, `"` become entities.
pub open spec fn html_char(c: char) -> Seq<char> {
    if c == '&' {
        "&amp;"@
    } else if c == '<' {
        "&lt;"@
    } else if c == '>' {
        "&gt;"@
    } else if c == '"' {
        "&quot;"@
    } else {
        seq![c]
    }
}

/// `s` with `&`, `<`, `>` and `"` replaced by their entities.
pub open spec fn html_escaped(s: Seq<char>) -> Seq<char>
    decreases s.len(),
{
    if s.len() == 0 {
        Seq::empty()
    } else {
        html_escaped(s.drop_last()) + html_char(s.last())
    }
}

/// Escapes text for an HTML attribute or body.
pub fn html_escape(s: &str) -> (r: String)
    ensures
        r@ == html_escaped(s@),
{
    let v = chars_of(s);
    let mut out = String::new();
    let mut i: usize = 0;
    while i < v.len()
        invariant
            i <= v.len(),
            v@ == s@,
            out@ == html_escaped(v@.take(i as int)),
        decreases v.len() - i,
    {
        let c = v[i];
        if c == '&' {
            push_str(&mut out, "&amp;");
        } else if c == '<' {
            push_str(&mut out, "&lt;");
        } else if c == '>' {
            push_str(&mut out, "&gt;");
        } else if c == '"' {
            push_str(&mut out, "&quot;");
        } else {
            crate::text::push_char(&mut out, c);
        }
        proof {
            let t = v@.take(i + 1);
            assert(t.drop_last() =~= v@.take(i as int));
            assert(t.last() == c);
        }
        i = i + 1;
    }
    assert(v@.take(v.len() as int) =~= v@);
    out
}

/// Escaped text holds no `<`, `>` or `"`, so it cannot open a tag or
/// close an attribute.
pub proof fn lemma_html_escaped_is_inert(s: Seq<char>)
    ensures
        !html_escaped(s).contains('<'),
        !html_escaped(s).contains('>'),
        !html_escaped(s).contains('"'),
    decreases s.len(),
{
    reveal_strlit("&amp;");
    reveal_strlit("&lt;");
    reveal_strlit("&gt;");
    reveal_strlit("&quot;");
    if s.len() > 0 {
        lemma_html_escaped_is_inert(s.drop_last());
        let a = html_escaped(s.drop_last());
        let b = html_char(s.last());
        assert(html_escaped(s) == a + b);
        assert forall|x: char| x == '<' || x == '>' || x == '"' implies !(a + b).contains(x) by {
            if (a + b).contains(x) {
                let w = choose|w: int| 0 <= w < (a + b).len() && (a + b)[w] == x;
                if w < a.len() {
                    assert(a[w] == x);
                } else {
                    assert(b[w - a.len()] == x);
                }
            }
        }
    }
}

// ---------------------------------------------------------------------------
// humanise_table / client_ip
// ---------------------------------------------------------------------------

/// Title-cases a snake_case table name into a model heading (the same
/// rule as the field-label humaniser of the filters).
pub fn humanise_table(s: &str) -> (r: String)
    ensures
        r@ == title_words(s@),
{
    crate::filters::humanise(s)
}

/// The client address recorded on audit rows: the first entry of
/// `X-Forwarded-For` (trimmed) when that header is present, else
/// `X-Real-IP`.
pub open spec fn client_address(forwarded_for: Option<Seq<char>>, real_ip: Option<Seq<char>>) -> Option<
    Seq<char>,
> {
    match forwarded_for {
        Some(x) => Some(
            trim(
                match first_index(x, ',') {
                    Some(i) => x.take(i),
                    None => x,
                },
            ),
        ),
        None => real_ip,
    }
}

/// Resolves the client address from the two proxy headers' values.
pub fn client_ip(forwarded_for: Option<&str>, real_ip: Option<&str>) -> (r: Option<String>)
    ensures
        match r {
            Some(s) => client_address(
                match forwarded_for {
                    Some(x) => Some(x@),
                    None => None,
                },
                match real_ip {
                    Some(x) => Some(x@),
                    None => None,
                },
            ) == Some(s@),
            None => client_address(
                match forwarded_for {
                    Some(x) => Some(x@),
                    None => None,
                },
                match real_ip {
                    Some(x) => Some(x@),
                    None => None,
                },
            ) is None,
        },
{
    match forwarded_for {
        Some(x) => {
            let v = chars_of(x);
            let first = match find_first(v.as_slice(), ',') {
                Some(i) => sub_chars(v.as_slice(), 0, i),
                None => sub_chars(v.as_slice(), 0, v.len()),
            };
            assert(v@.subrange(0, v@.len() as int) =~= v@);
            let t = trim_chars(first.as_slice());
            Some(string_from_chars(t.as_slice()))
        },
        None => match real_ip {
            Some(r) => Some(to_owned_string(r)),
            None => None,
        },
    }
}

// ---------------------------------------------------------------------------
// Permission matrix
// ---------------------------------------------------------------------------

/// One permission as stored: its id and codename
/// (`<table>.<action>_<model>`).
#[derive(Debug, Clone)]
pub struct PermRow {
    pub id: i64,
    pub name: String,
}

/// One checkbox of the matrix.
#[derive(Debug, Clone)]
pub struct PermCell {
    pub id: i64,
    pub name: String,
    pub checked: bool,
}

/// One model's row: its heading and one cell per canonical action
/// (`None` where the model registered no such permission).
#[derive(Debug, Clone)]
pub struct PermissionMatrixRow {
    pub label: String,
    pub cells: Vec<Option<PermCell>>,
}

/// The matrix: action column headers, one row per model table in
/// ascending table-name order, and every permission that does not fit
/// the `<table>.<action>_<rest>` shape.
#[derive(Debug, Clone)]
pub struct PermissionMatrix {
    pub columns: [&'static str; 4],
    pub rows: Vec<PermissionMatrixRow>,
    pub extras: Vec<PermCell>,
}

/// The canonical CRUD actions, in column order.
pub const PERMISSION_ACTIONS: [&'static str; 4] = ["view", "add", "change", "delete"];

/// The column of a canonical action.
pub open spec fn action_column(a: Seq<char>) -> Option<int> {
    if a == "view"@ {
        Some(0)
    } else if a == "add"@ {
        Some(1)
    } else if a == "change"@ {
        Some(2)
    } else if a == "delete"@ {
        Some(3)
    } else {
        None
    }
}

/// `<table>.<action>_<rest>` with a canonical action: the table (text
/// before the first `.`) and the action's column (the action being the
/// text after that `.` up to the next `_`).
pub open spec fn parse_codename(name: Seq<char>) -> Option<(Seq<char>, int)> {
    match first_index(name, '.') {
        None => None,
        Some(d) => {
            let rest = name.skip(d + 1);
            match first_index(rest, '_') {
                None => None,
                Some(u) => match action_column(rest.take(u)) {
                    Some(k) => Some((name.take(d), k)),
                    None => None,
                },
            }
        },
    }
}

pub open spec fn cell_view(c: PermCell) -> (i64, Seq<char>, bool) {
    (c.id, c.name@, c.checked)
}

pub open spec fn opt_cell_view(c: Option<PermCell>) -> Option<(i64, Seq<char>, bool)> {
    match c {
        Some(x) => Some(cell_view(x)),
        None => None,
    }
}

/// A permission's checkbox: ticked when the group holds it.
pub open spec fn perm_cell(p: PermRow, current: Seq<i64>) -> (i64, Seq<char>, bool) {
    (p.id, p.name@, current.contains(p.id))
}

/// Whether permission `p` belongs to table `t`.
pub open spec fn in_table(p: PermRow, t: Seq<char>) -> bool {
    match parse_codename(p.name@) {
        Some((tt, _k)) => tt == t,
        None => false,
    }
}

/// Whether some permission belongs to table `t`.
pub open spec fn has_table(perms: Seq<PermRow>, t: Seq<char>) -> bool {
    exists|i: int| 0 <= i < perms.len() && #[trigger] in_table(perms[i], t)
}

/// The cells of table `t`'s row: each action's first permission takes
/// the cell.
pub open spec fn table_cells(perms: Seq<PermRow>, current: Seq<i64>, t: Seq<char>) -> Seq<
    Option<(i64, Seq<char>, bool)>,
>
    decreases perms.len(),
{
    if perms.len() == 0 {
        seq![None, None, None, None]
    } else {
        let r = table_cells(perms.drop_last(), current, t);
        match parse_codename(perms.last().name@) {
            Some((tt, k)) => if tt == t && r[k] is None {
                r.update(k, Some(perm_cell(perms.last(), current)))
            } else {
                r
            },
            None => r,
        }
    }
}

/// The permissions that take no cell, in order: those whose codename
/// is not `<table>.<action>_<rest>`, and those whose cell an earlier
/// permission already took, so no permission is dropped.
pub open spec fn extra_cells(perms: Seq<PermRow>, current: Seq<i64>) -> Seq<(i64, Seq<char>, bool)>
    decreases perms.len(),
{
    if perms.len() == 0 {
        Seq::empty()
    } else {
        let r = extra_cells(perms.drop_last(), current);
        match parse_codename(perms.last().name@) {
            None => r.push(perm_cell(perms.last(), current)),
            Some((tt, k)) => if table_cells(perms.drop_last(), current, tt)[k] is Some {
                r.push(perm_cell(perms.last(), current))
            } else {
                r
            },
        }
    }
}

/// Byte-wise (code point) lexicographic order, as `String`'s `Ord`.
pub open spec fn lex_lt(a: Seq<char>, b: Seq<char>) -> bool
    decreases a.len(),
{
    if a.len() == 0 {
        b.len() > 0
    } else if b.len() == 0 {
        false
    } else if a[0] != b[0] {
        (a[0] as int) < (b[0] as int)
    } else {
        lex_lt(a.drop_first(), b.drop_first())
    }
}

pub proof fn lemma_lex_lt_irreflexive(a: Seq<char>)
    ensures
        !lex_lt(a, a),
    decreases a.len(),
{
    if a.len() > 0 {
        lemma_lex_lt_irreflexive(a.drop_first());
    }
}

pub proof fn lemma_lex_lt_total(a: Seq<char>, b: Seq<char>)
    ensures
        a != b ==> lex_lt(a, b) || lex_lt(b, a),
        !(lex_lt(a, b) && lex_lt(b, a)),
    decreases a.len(),
{
    if a.len() > 0 && b.len() > 0 {
        lemma_lex_lt_total(a.drop_first(), b.drop_first());
        if a[0] == b[0] && a.drop_first() == b.drop_first() {
            assert(a =~= seq![a[0]] + a.drop_first());
            assert(b =~= seq![b[0]] + b.drop_first());
        }
    } else if a.len() == 0 && b.len() == 0 {
        assert(a =~= b);
    }
}

pub proof fn lemma_lex_lt_transitive(a: Seq<char>, b: Seq<char>, c: Seq<char>)
    requires
        lex_lt(a, b),
        lex_lt(b, c),
    ensures
        lex_lt(a, c),
    decreases a.len(),
{
    if a.len() > 0 && b.len() > 0 && c.len() > 0 {
        if a[0] == b[0] && b[0] == c[0] {
            lemma_lex_lt_transitive(a.drop_first(), b.drop_first(), c.drop_first());
        }
    }
}

/// Keys in strictly ascending order.
pub open spec fn strictly_sorted(ks: Seq<Seq<char>>) -> bool {
    forall|i: int, j: int| 0 <= i < j < ks.len() ==> lex_lt(#[trigger] ks[i], #[trigger] ks[j])
}

fn chars_lt(a: &[char], b: &[char]) -> (r: bool)
    ensures
        r == lex_lt(a@, b@),
{
    let mut i: usize = 0;
    assert(a@.skip(0) =~= a@);
    assert(b@.skip(0) =~= b@);
    while i < a.len() && i < b.len()
        invariant
            i <= a.len(),
            i <= b.len(),
            lex_lt(a@, b@) == lex_lt(a@.skip(i as int), b@.skip(i as int)),
        decreases a.len() - i,
    {
        assert(a@.skip(i as int)[0] == a@[i as int]);
        assert(b@.skip(i as int)[0] == b@[i as int]);
        if a[i] != b[i] {
            return a[i] < b[i];
        }
        assert(a@.skip(i as int).drop_first() =~= a@.skip(i + 1));
        assert(b@.skip(i as int).drop_first() =~= b@.skip(i + 1));
        i = i + 1;
    }
    i < b.len()
}

fn holds_perm(current: &[i64], id: i64) -> (r: bool)
    ensures
        r == current@.contains(id),
{
    let mut i: usize = 0;
    while i < current.len()
        invariant
            i <= current.len(),
            forall|j: int| 0 <= j < i ==> current@[j] != id,
        decreases current.len() - i,
    {
        if current[i] == id {
            assert(current@[i as int] == id);
            return true;
        }
        i = i + 1;
    }
    false
}

fn parse_perm_codename(name: &str) -> (r: Option<(Vec<char>, usize)>)
    ensures
        match r {
            Some((t, k)) => parse_codename(name@) == Some((t@, k as int)) && k < 4,
            None => parse_codename(name@) is None,
        },
{
    let v = chars_of(name);
    let d = match find_first(v.as_slice(), '.') {
        Some(d) => d,
        None => return None,
    };
    let rest = sub_chars(v.as_slice(), d + 1, v.len());
    assert(rest@ =~= name@.skip(d + 1));
    let u = match find_first(rest.as_slice(), '_') {
        Some(u) => u,
        None => return None,
    };
    let action = sub_chars(rest.as_slice(), 0, u);
    assert(action@ =~= rest@.take(u as int));
    let table = sub_chars(v.as_slice(), 0, d);
    assert(table@ =~= name@.take(d as int));
    proof {
        reveal_strlit("view");
        reveal_strlit("add");
        reveal_strlit("change");
        reveal_strlit("delete");
    }
    let ghost want = match action_column(action@) {
        Some(c) => Some((table@, c)),
        None => None,
    };
    assert(parse_codename(name@) == want);
    let mut k: usize = 0;
    while k < 4
        invariant
            k <= 4,
            parse_codename(name@) == want,
            want == (match action_column(action@) {
                Some(c) => Some((table@, c)),
                None => None::<(Seq<char>, int)>,
            }),
            forall|j: int| 0 <= j < k ==> #[trigger] PERMISSION_ACTIONS@[j]@ != action@,
        decreases 4 - k,
    {
        let a = chars_of(PERMISSION_ACTIONS[k]);
        if crate::text::chars_eq(a.as_slice(), action.as_slice()) {
            return Some((table, k));
        }
        k = k + 1;
    }
    assert(PERMISSION_ACTIONS@[0]@ != action@);
    assert(PERMISSION_ACTIONS@[1]@ != action@);
    assert(PERMISSION_ACTIONS@[2]@ != action@);
    assert(PERMISSION_ACTIONS@[3]@ != action@);
    None
}

pub open spec fn key_views(ks: Seq<Vec<char>>) -> Seq<Seq<char>> {
    ks.map_values(|k: Vec<char>| k@)
}

pub open spec fn row_cells_view(cs: Seq<Option<PermCell>>) -> Seq<Option<(i64, Seq<char>, bool)>> {
    cs.map_values(|c: Option<PermCell>| opt_cell_view(c))
}

/// The grouping state after a prefix of the permissions: sorted keys,
/// the cells of each, and the rows' one-to-one match with the tables.
pub open spec fn grouping_ok(
    perms: Seq<PermRow>,
    current: Seq<i64>,
    keys: Seq<Seq<char>>,
    cells: Seq<Vec<Option<PermCell>>>,
) -> bool {
    &&& keys.len() == cells.len()
    &&& strictly_sorted(keys)
    &&& forall|t: Seq<char>| has_table(perms, t) <==> keys.contains(t)
    &&& forall|j: int|
        0 <= j < keys.len() ==> row_cells_view(#[trigger] cells[j]@) == table_cells(
            perms,
            current,
            keys[j],
        )
}

proof fn lemma_has_table_step(perms: Seq<PermRow>, t: Seq<char>)
    requires
        perms.len() > 0,
    ensures
        has_table(perms, t) == (has_table(perms.drop_last(), t) || in_table(perms.last(), t)),
{
    let p = perms.drop_last();
    if has_table(perms, t) {
        let w = choose|w: int| 0 <= w < perms.len() && #[trigger] in_table(perms[w], t);
        if w < p.len() {
            assert(p[w] == perms[w]);
        }
    }
    if has_table(p, t) {
        let w = choose|w: int| 0 <= w < p.len() && #[trigger] in_table(p[w], t);
        assert(p[w] == perms[w]);
    }
    if in_table(perms.last(), t) {
        assert(in_table(perms[perms.len() - 1], t));
    }
}

proof fn lemma_insert_contains(s: Seq<Seq<char>>, pos: int, x: Seq<char>, t: Seq<char>)
    requires
        0 <= pos <= s.len(),
    ensures
        s.insert(pos, x).contains(t) == (s.contains(t) || t == x),
{
    let n = s.insert(pos, x);
    if n.contains(t) {
        let w = choose|w: int| 0 <= w < n.len() && n[w] == t;
        if w < pos {
            assert(s[w] == t);
        } else if w > pos {
            assert(s[w - 1] == t);
        }
    }
    if s.contains(t) {
        let w = choose|w: int| 0 <= w < s.len() && s[w] == t;
        if w < pos {
            assert(n[w] == t);
        } else {
            assert(n[w + 1] == t);
        }
    }
    if t == x {
        assert(n[pos] == t);
    }
}

proof fn lemma_table_cells_untouched(perms: Seq<PermRow>, current: Seq<i64>, t: Seq<char>)
    requires
        !has_table(perms, t),
    ensures
        table_cells(perms, current, t) == seq![
            None::<(i64, Seq<char>, bool)>,
            None::<(i64, Seq<char>, bool)>,
            None::<(i64, Seq<char>, bool)>,
            None::<(i64, Seq<char>, bool)>,
        ],
    decreases perms.len(),
{
    if perms.len() > 0 {
        let p = perms.drop_last();
        assert forall|i: int| 0 <= i < p.len() implies !#[trigger] in_table(p[i], t) by {
            assert(p[i] == perms[i]);
        }
        lemma_table_cells_untouched(p, current, t);
        let n = perms.len() - 1;
        assert(perms[n] == perms.last());
        assert(!in_table(perms[n], t));
    }
}

proof fn lemma_table_cells_len(perms: Seq<PermRow>, current: Seq<i64>, t: Seq<char>)
    ensures
        table_cells(perms, current, t).len() == 4,
    decreases perms.len(),
{
    if perms.len() > 0 {
        lemma_table_cells_len(perms.drop_last(), current, t);
        match parse_codename(perms.last().name@) {
            Some((tt, k)) => {
                lemma_parse_codename_column(perms.last().name@);
            },
            None => {},
        }
    }
}

proof fn lemma_parse_codename_column(name: Seq<char>)
    ensures
        parse_codename(name) matches Some((_t, k)) ==> 0 <= k < 4,
{
}

proof fn lemma_taken_cell_stays(perms: Seq<PermRow>, current: Seq<i64>, t: Seq<char>, k: int, n: int)
    requires
        0 <= n <= perms.len(),
        0 <= k < 4,
        table_cells(perms.take(n), current, t)[k] is Some,
    ensures
        table_cells(perms, current, t)[k] == table_cells(perms.take(n), current, t)[k],
    decreases perms.len() - n,
{
    if n < perms.len() {
        let q = perms.drop_last();
        assert(q.take(n) =~= perms.take(n));
        lemma_taken_cell_stays(q, current, t, k, n);
        lemma_table_cells_len(q, current, t);
        lemma_parse_codename_column(perms.last().name@);
    } else {
        assert(perms.take(n) =~= perms);
    }
}

proof fn lemma_extras_grow(perms: Seq<PermRow>, current: Seq<i64>, n: int, c: (i64, Seq<char>, bool))
    requires
        0 <= n <= perms.len(),
        extra_cells(perms.take(n), current).contains(c),
    ensures
        extra_cells(perms, current).contains(c),
    decreases perms.len() - n,
{
    if n < perms.len() {
        let q = perms.drop_last();
        assert(q.take(n) =~= perms.take(n));
        lemma_extras_grow(q, current, n, c);
        let r = extra_cells(q, current);
        let w = choose|w: int| 0 <= w < r.len() && r[w] == c;
        let e = extra_cells(perms, current);
        assert(e.len() >= r.len() && e[w] == r[w]);
    } else {
        assert(perms.take(n) =~= perms);
    }
}

/// No permission is silently dropped: each one either holds the cell of
/// its table and action, or is listed among the extras.
pub proof fn lemma_no_permission_dropped(perms: Seq<PermRow>, current: Seq<i64>, i: int)
    requires
        0 <= i < perms.len(),
    ensures
        extra_cells(perms, current).contains(perm_cell(perms[i], current)) || (parse_codename(
            perms[i].name@,
        ) matches Some((t, k)) && table_cells(perms, current, t)[k] == Some(
            perm_cell(perms[i], current),
        )),
{
    let p = perms.take(i + 1);
    assert(p.drop_last() =~= perms.take(i));
    assert(p.last() == perms[i]);
    let c = perm_cell(perms[i], current);
    match parse_codename(perms[i].name@) {
        None => {
            assert(extra_cells(p, current) == extra_cells(perms.take(i), current).push(c));
            assert(extra_cells(p, current)[extra_cells(p, current).len() - 1] == c);
            lemma_extras_grow(perms, current, i + 1, c);
        },
        Some((t, k)) => {
            lemma_parse_codename_column(perms[i].name@);
            lemma_table_cells_len(perms.take(i), current, t);
            if table_cells(perms.take(i), current, t)[k] is Some {
                assert(extra_cells(p, current)[extra_cells(p, current).len() - 1] == c);
                lemma_extras_grow(perms, current, i + 1, c);
            } else {
                assert(table_cells(p, current, t)[k] == Some(c));
                lemma_taken_cell_stays(perms, current, t, k, i + 1);
            }
        },
    }
}

/// Groups permissions by table into the matrix the group-edit page
/// renders: the first permission of a table and action takes its cell;
/// every other one, and every codename of another shape, is listed among
/// the extras, so no permission is dropped (see
/// [`lemma_no_permission_dropped`]). The rows come in table order.
pub fn build_permission_matrix(all: &[PermRow], current: &[i64]) -> (m: PermissionMatrix)
    ensures
        m.columns@ == PERMISSION_ACTIONS@,
        exists|ks: Seq<Seq<char>>|
            {
                &&& ks.len() == m.rows@.len()
                &&& strictly_sorted(ks)
                &&& forall|t: Seq<char>| has_table(all@, t) <==> ks.contains(t)
                &&& forall|j: int|
                    0 <= j < ks.len() ==> (#[trigger] m.rows@[j]).label@ == title_words(ks[j])
                        && row_cells_view(m.rows@[j].cells@) == table_cells(all@, current@, ks[j])
            },
        m.extras@.map_values(|c: PermCell| cell_view(c)) == extra_cells(all@, current@),
{
    let mut keys: Vec<Vec<char>> = Vec::new();
    let mut cells: Vec<Vec<Option<PermCell>>> = Vec::new();
    let mut extras: Vec<PermCell> = Vec::new();
    let mut i: usize = 0;
    while i < all.len()
        invariant
            i <= all.len(),
            grouping_ok(all@.take(i as int), current@, key_views(keys@), cells@),
            forall|j: int| 0 <= j < cells@.len() ==> (#[trigger] cells@[j])@.len() == 4,
            extras@.map_values(|c: PermCell| cell_view(c)) == extra_cells(all@.take(i as int), current@),
        decreases all.len() - i,
    {
        let ghost before = all@.take(i as int);
        let ghost after = all@.take(i + 1);
        let ghost p = all@[i as int];
        proof {
            assert(after.drop_last() =~= before);
            assert(after.last() == p);
        }
        let cell = PermCell {
            id: all[i].id,
            name: all[i].name.clone(),
            checked: holds_perm(current, all[i].id),
        };
        assert(cell_view(cell) == perm_cell(p, current@));
        match parse_perm_codename(all[i].name.as_str()) {
            None => {
                let ghost ex = extras@;
                extras.push(cell);
                assert(extras@.map_values(|c: PermCell| cell_view(c)) =~= ex.map_values(
                    |c: PermCell| cell_view(c),
                ).push(cell_view(cell)));
                proof {
                    assert forall|t: Seq<char>| has_table(after, t) <==> has_table(before, t) by {
                        lemma_has_table_step(after, t);
                    }
                }
            },
            Some((table, k)) => {
                // Find the first key not below `table`.
                let mut pos: usize = 0;
                while pos < keys.len() && chars_lt(keys[pos].as_slice(), table.as_slice())
                    invariant
                        pos <= keys.len(),
                        forall|j: int| 0 <= j < pos ==> lex_lt(#[trigger] keys@[j]@, table@),
                    decreases keys.len() - pos,
                {
                    pos = pos + 1;
                }
                let ghost kv = key_views(keys@);
                let found = pos < keys.len() && crate::text::chars_eq(
                    keys[pos].as_slice(),
                    table.as_slice(),
                );
                if found && cells[pos][k].is_some() {
                    // The cell is taken: keep this permission among the extras.
                    proof {
                        assert(kv[pos as int] == table@);
                        assert(row_cells_view(cells@[pos as int]@)[k as int] == opt_cell_view(
                            cells@[pos as int]@[k as int],
                        ));
                        assert(table_cells(before, current@, table@)[k as int] is Some);
                    }
                    let ghost ex = extras@;
                    extras.push(cell);
                    assert(extras@.map_values(|c: PermCell| cell_view(c)) =~= ex.map_values(
                        |c: PermCell| cell_view(c),
                    ).push(cell_view(cell)));
                    proof {
                        assert forall|t: Seq<char>| has_table(after, t) <==> kv.contains(t) by {
                            lemma_has_table_step(after, t);
                            if t == table@ {
                                assert(kv[pos as int] == table@);
                            }
                        }
                        assert forall|j: int| 0 <= j < kv.len() implies row_cells_view(
                            #[trigger] cells@[j]@,
                        ) == table_cells(after, current@, kv[j]) by {
                        }
                    }
                } else if found {
                    proof {
                        assert(kv[pos as int] == table@);
                        assert(row_cells_view(cells@[pos as int]@)[k as int] == opt_cell_view(
                            cells@[pos as int]@[k as int],
                        ));
                        assert(table_cells(before, current@, table@)[k as int] is None);
                        assert(extra_cells(after, current@) =~= extra_cells(before, current@));
                    }
                    let mut row = cells.remove(pos);
                    row.set(k, Some(cell));
                    cells.insert(pos, row);
                    proof {
                        assert(key_views(keys@) == kv);
                        assert forall|t: Seq<char>| has_table(after, t) <==> kv.contains(t) by {
                            lemma_has_table_step(after, t);
                            if t == table@ {
                                assert(kv[pos as int] == table@);
                            }
                        }
                        assert forall|j: int| 0 <= j < kv.len() implies row_cells_view(
                            #[trigger] cells@[j]@,
                        ) == table_cells(after, current@, kv[j]) by {
                            if j == pos {
                                assert(row_cells_view(cells@[j]@) =~= table_cells(
                                    before,
                                    current@,
                                    kv[j],
                                ).update(k as int, Some(cell_view(cell))));
                            }
                        }
                    }
                } else {
                    let mut row: Vec<Option<PermCell>> = Vec::new();
                    row.push(None);
                    row.push(None);
                    row.push(None);
                    row.push(None);
                    row.set(k, Some(cell));
                    proof {
                        if pos < keys.len() {
                            lemma_lex_lt_total(kv[pos as int], table@);
                        }
                        assert(!kv.contains(table@)) by {
                            if kv.contains(table@) {
                                let w = choose|w: int| 0 <= w < kv.len() && kv[w] == table@;
                                if w < pos {
                                    lemma_lex_lt_irreflexive(table@);
                                } else if w > pos {
                                    assert(lex_lt(kv[pos as int], kv[w]));
                                    lemma_lex_lt_total(kv[pos as int], table@);
                                }
                            }
                        }
                        lemma_table_cells_untouched(before, current@, table@);
                        assert(extra_cells(after, current@) =~= extra_cells(before, current@));
                    }
                    keys.insert(pos, table);
                    cells.insert(pos, row);
                    proof {
                        let nk = key_views(keys@);
                        assert(nk =~= kv.insert(pos as int, table@));
                        assert forall|a: int, b: int| 0 <= a < b < nk.len() implies lex_lt(
                            #[trigger] nk[a],
                            #[trigger] nk[b],
                        ) by {
                            if a < pos && b == pos {
                            } else if a < pos && b > pos {
                                assert(nk[b] == kv[b - 1]);
                                if b - 1 == pos as int {
                                    lemma_lex_lt_total(kv[pos as int], table@);
                                    lemma_lex_lt_transitive(nk[a], table@, kv[b - 1]);
                                }
                            } else if a == pos && b > pos {
                                assert(nk[b] == kv[b - 1]);
                                lemma_lex_lt_total(kv[pos as int], table@);
                                if b - 1 > pos {
                                    assert(lex_lt(kv[pos as int], kv[b - 1]));
                                    lemma_lex_lt_transitive(table@, kv[pos as int], kv[b - 1]);
                                }
                            } else if a > pos {
                                assert(nk[a] == kv[a - 1]);
                                assert(nk[b] == kv[b - 1]);
                            }
                        }
                        assert forall|t: Seq<char>| has_table(after, t) <==> nk.contains(t) by {
                            lemma_has_table_step(after, t);
                            lemma_insert_contains(kv, pos as int, table@, t);
                        }
                        assert forall|j: int| 0 <= j < nk.len() implies row_cells_view(
                            #[trigger] cells@[j]@,
                        ) == table_cells(after, current@, nk[j]) by {
                            if j == pos {
                                assert(row_cells_view(cells@[j]@) =~= table_cells(
                                    before,
                                    current@,
                                    table@,
                                ).update(k as int, Some(cell_view(cell))));
                            } else if j < pos {
                                assert(nk[j] != table@);
                            } else {
                                assert(nk[j] == kv[j - 1]);
                                assert(nk[j] != table@);
                            }
                        }
                    }
                }
            },
        }
        i = i + 1;
    }
    assert(all@.take(all.len() as int) =~= all@);
    assert(cells@.skip(0) =~= cells@);
    // Turn the grouped cells into labelled rows, in key order.
    let mut rows: Vec<PermissionMatrixRow> = Vec::new();
    let ghost kv = key_views(keys@);
    let ghost cv = cells@;
    let mut j: usize = 0;
    while j < keys.len()
        invariant
            j <= keys.len(),
            kv == key_views(keys@),
            keys@.len() == cv.len(),
            cells@ == cv.skip(j as int),
            rows@.len() == j,
            forall|x: int|
                0 <= x < j ==> (#[trigger] rows@[x]).label@ == title_words(kv[x])
                    && rows@[x].cells@ == cv[x]@,
        decreases keys.len() - j,
    {
        let t = string_from_chars(keys[j].as_slice());
        let label = crate::filters::humanise(t.as_str());
        let row_cells = cells.remove(0);
        assert(row_cells == cv[j as int]);
        rows.push(PermissionMatrixRow { label, cells: row_cells });
        assert(cells@ =~= cv.skip(j + 1));
        j = j + 1;
    }
    PermissionMatrix { columns: PERMISSION_ACTIONS, rows, extras }
}

} // verus!
