//! Naming rules of the model derive: struct name → admin slug,
//! field name → label, Rust type → field kind, and the label field
//! a model's `object_label` falls back on.
use vstd::prelude::*;
use crate::text::{
    chars_ends_with, chars_eq, chars_of, ends_with, is_ascii_upper, join, lower, lower_chars,
    lower_seq, push_char, push_chars, push_str, string_from_chars, to_lower, to_owned_string,
    to_upper, upper,
};

verus! {

broadcast use vstd::string::group_string_axioms;

// ---------------------------------------------------------------------------
// camel_to_snake / plural_snake
// ---------------------------------------------------------------------------

/// `CamelCase` → `camel_case`: every ASCII uppercase letter after the
/// first character gets a `_` before it; every letter is lowercased.
pub open spec fn snake_of(s: Seq<char>) -> Seq<char>
    decreases s.len(),
{
    if s.len() == 0 {
        Seq::empty()
    } else if is_ascii_upper(s.last()) && s.len() > 1 {
        snake_of(s.drop_last()) + seq!['_', lower(s.last())]
    } else {
        snake_of(s.drop_last()).push(lower(s.last()))
    }
}

/// Converts a CamelCase identifier to snake_case.
pub fn camel_to_snake(s: &str) -> (r: String)
    ensures
        r@ == snake_of(s@),
{
    let v = chars_of(s);
    let mut out = String::new();
    let mut i: usize = 0;
    while i < v.len()
        invariant
            i <= v.len(),
            v@ == s@,
            out@ == snake_of(v@.take(i as int)),
        decreases v.len() - i,
    {
        let c = v[i];
        if (c >= 'A' && c <= 'Z') && i > 0 {
            push_char(&mut out, '_');
        }
        push_char(&mut out, to_lower(c));
        proof {
            let t = v@.take(i + 1);
            assert(t.drop_last() =~= v@.take(i as int));
            assert(t.last() == c);
        }
        i = i + 1;
    }
    assert(v@.take(v.len() as int) =~= v@);
    out
}

pub open spec fn is_vowel(c: char) -> bool {
    c == 'a' || c == 'e' || c == 'i' || c == 'o' || c == 'u'
}

/// Regular English plural of a snake_case name: a trailing `s` stays
/// as is; `x`, `z`, `ch`, `sh` take `es`; consonant + `y` becomes
/// `ies`; everything else takes `s`.
pub open spec fn plural_of(snake: Seq<char>) -> Seq<char> {
    if ends_with(snake, "s"@) {
        snake
    } else if ends_with(snake, "x"@) || ends_with(snake, "z"@) || ends_with(snake, "ch"@)
        || ends_with(snake, "sh"@) {
        snake + "es"@
    } else if ends_with(snake, "y"@) {
        let stem = snake.drop_last();
        if stem.len() == 0 || is_vowel(stem.last()) {
            snake + "s"@
        } else {
            stem + "ies"@
        }
    } else {
        snake + "s"@
    }
}

fn ends(v: &Vec<char>, lit: &str) -> (b: bool)
    ensures
        b == ends_with(v@, lit@),
{
    let l = chars_of(lit);
    chars_ends_with(v.as_slice(), l.as_slice())
}

/// The admin slug of a model struct: its snake_case name, pluralised.
pub fn plural_snake(camel: &str) -> (r: String)
    ensures
        r@ == plural_of(snake_of(camel@)),
{
    let snake = camel_to_snake(camel);
    let v = chars_of(snake.as_str());
    if ends(&v, "s") {
        snake
    } else if ends(&v, "x") || ends(&v, "z") || ends(&v, "ch") || ends(&v, "sh") {
        let mut r = snake;
        push_str(&mut r, "es");
        r
    } else if ends(&v, "y") {
        proof {
            reveal_strlit("y");
        }
        let stem_len = v.len() - 1;
        let stem = crate::text::sub_chars(v.as_slice(), 0, stem_len);
        assert(stem@ =~= v@.drop_last());
        if stem_len == 0 || {
            let b = stem[stem_len - 1];
            b == 'a' || b == 'e' || b == 'i' || b == 'o' || b == 'u'
        } {
            let mut r = snake;
            push_str(&mut r, "s");
            r
        } else {
            let mut r = string_from_chars(stem.as_slice());
            push_str(&mut r, "ies");
            r
        }
    } else {
        let mut r = snake;
        push_str(&mut r, "s");
        r
    }
}

// ---------------------------------------------------------------------------
// Labels
// ---------------------------------------------------------------------------

/// `blog_posts` → `Blog posts`: the first character ASCII-uppercased,
/// every later `_` a space.
pub open spec fn sentence_label(s: Seq<char>) -> Seq<char> {
    Seq::new(
        s.len(),
        |i: int|
            if i == 0 {
                upper(s[0])
            } else if s[i] == '_' {
                ' '
            } else {
                s[i]
            },
    )
}

/// The display name of a model from its snake_case slug.
pub fn humanise(snake: &str) -> (r: String)
    ensures
        r@ == sentence_label(snake@),
{
    let v = chars_of(snake);
    let mut out: Vec<char> = Vec::new();
    let mut i: usize = 0;
    while i < v.len()
        invariant
            i <= v.len(),
            v@ == snake@,
            out@ == sentence_label(v@).take(i as int),
        decreases v.len() - i,
    {
        let c = v[i];
        if i == 0 {
            out.push(to_upper(c));
        } else if c == '_' {
            out.push(' ');
        } else {
            out.push(c);
        }
        assert(out@ =~= sentence_label(v@).take(i + 1));
        i = i + 1;
    }
    assert(sentence_label(v@).take(v.len() as int) =~= sentence_label(v@));
    string_from_chars(out.as_slice())
}

/// Acronyms written fully uppercase in field labels.
pub const HUMANISE_ACRONYMS: [&'static str; 17] = [
    "id",
    "ip",
    "url",
    "uri",
    "api",
    "uuid",
    "mfa",
    "csv",
    "sql",
    "html",
    "http",
    "https",
    "json",
    "tls",
    "ssl",
    "smtp",
    "xml",
];

pub open spec fn is_acronym(w: Seq<char>) -> bool {
    exists|k: int| 0 <= k < 17 && #[trigger] HUMANISE_ACRONYMS@[k]@ == w
}

/// The `_`-separated segments of `s` (an empty `s` has one empty
/// segment).
pub open spec fn underscore_segments(s: Seq<char>) -> Seq<Seq<char>>
    decreases s.len(),
{
    if s.len() == 0 {
        seq![Seq::empty()]
    } else {
        let r = underscore_segments(s.drop_last());
        if s.last() == '_' {
            r.push(Seq::empty())
        } else {
            r.update(r.len() - 1, r.last().push(s.last()))
        }
    }
}

/// One segment's label: a known acronym fully uppercase, otherwise the
/// first character ASCII-uppercased.
pub open spec fn segment_label(seg: Seq<char>) -> Seq<char> {
    if is_acronym(lower_seq(seg)) {
        lower_seq(seg).map_values(|c: char| upper(c))
    } else if seg.len() == 0 {
        seg
    } else {
        seq![upper(seg[0])] + seg.drop_first()
    }
}

/// `mfa_secret_key_id` → `MFA Secret Key ID`.
pub open spec fn field_label(s: Seq<char>) -> Seq<char> {
    if s.len() == 0 {
        Seq::empty()
    } else {
        join(underscore_segments(s).map_values(|seg: Seq<char>| segment_label(seg)), " "@)
    }
}

proof fn lemma_segments_nonempty(s: Seq<char>)
    ensures
        underscore_segments(s).len() >= 1,
    decreases s.len(),
{
    if s.len() > 0 {
        lemma_segments_nonempty(s.drop_last());
    }
}

fn acronym(w: &Vec<char>) -> (b: bool)
    ensures
        b == is_acronym(w@),
{
    let mut k: usize = 0;
    while k < 17
        invariant
            k <= 17,
            forall|j: int| 0 <= j < k ==> #[trigger] HUMANISE_ACRONYMS@[j]@ != w@,
        decreases 17 - k,
    {
        let a = chars_of(HUMANISE_ACRONYMS[k]);
        if chars_eq(a.as_slice(), w.as_slice()) {
            return true;
        }
        k = k + 1;
    }
    false
}

fn segment_text(seg: &Vec<char>) -> (r: Vec<char>)
    ensures
        r@ == segment_label(seg@),
{
    let low = lower_chars(seg.as_slice());
    if acronym(&low) {
        let mut r: Vec<char> = Vec::new();
        let mut i: usize = 0;
        while i < low.len()
            invariant
                i <= low.len(),
                r@ == low@.map_values(|c: char| upper(c)).take(i as int),
            decreases low.len() - i,
        {
            r.push(to_upper(low[i]));
            assert(r@ =~= low@.map_values(|c: char| upper(c)).take(i + 1));
            i = i + 1;
        }
        assert(low@.map_values(|c: char| upper(c)).take(low.len() as int) =~= low@.map_values(
            |c: char| upper(c),
        ));
        r
    } else if seg.len() == 0 {
        Vec::new()
    } else {
        let mut r: Vec<char> = Vec::new();
        r.push(to_upper(seg[0]));
        let mut i: usize = 1;
        while i < seg.len()
            invariant
                1 <= i <= seg.len(),
                r@ == seq![upper(seg@[0])] + seg@.subrange(1, i as int),
            decreases seg.len() - i,
        {
            r.push(seg[i]);
            assert(seg@.subrange(1, i + 1) =~= seg@.subrange(1, i as int).push(seg@[i as int]));
            i = i + 1;
        }
        assert(seg@.subrange(1, seg@.len() as int) =~= seg@.drop_first());
        r
    }
}

/// Title-cases a snake_case field name for validation messages and
/// labels; whole segments that are known acronyms are uppercased.
pub fn humanise_field(s: &str) -> (r: String)
    ensures
        r@ == field_label(s@),
{
    let v = chars_of(s);
    if v.len() == 0 {
        return String::new();
    }
    // Split into segments.
    let mut segs: Vec<Vec<char>> = Vec::new();
    let mut cur: Vec<char> = Vec::new();
    let mut i: usize = 0;
    while i < v.len()
        invariant
            i <= v.len(),
            v@ == s@,
            segs@.map_values(|x: Vec<char>| x@).push(cur@) == underscore_segments(v@.take(i as int)),
        decreases v.len() - i,
    {
        let ghost before = segs@.map_values(|x: Vec<char>| x@).push(cur@);
        let c = v[i];
        if c == '_' {
            segs.push(cur);
            cur = Vec::new();
        } else {
            cur.push(c);
        }
        proof {
            let t = v@.take(i + 1);
            assert(t.drop_last() =~= v@.take(i as int));
            assert(t.last() == c);
            assert(segs@.map_values(|x: Vec<char>| x@).push(cur@) =~= underscore_segments(t));
        }
        i = i + 1;
    }
    segs.push(cur);
    let ghost all = segs@.map_values(|x: Vec<char>| x@);
    proof {
        assert(v@.take(v.len() as int) =~= v@);
        assert(all == underscore_segments(s@));
    }
    let mut out = String::new();
    let mut k: usize = 0;
    while k < segs.len()
        invariant
            k <= segs.len(),
            all == segs@.map_values(|x: Vec<char>| x@),
            out@ == join(all.take(k as int).map_values(|seg: Seq<char>| segment_label(seg)), " "@),
        decreases segs.len() - k,
    {
        if k > 0 {
            push_char(&mut out, ' ');
        }
        let t = segment_text(&segs[k]);
        push_chars(&mut out, t.as_slice());
        proof {
            let m = all.take(k + 1).map_values(|seg: Seq<char>| segment_label(seg));
            assert(m.drop_last() =~= all.take(k as int).map_values(|seg: Seq<char>| segment_label(seg)));
            assert(m.last() == segment_label(segs@[k as int]@));
            reveal_strlit(" ");
            if k == 0 {
                assert(m.len() == 1);
            } else {
                assert(" "@ =~= seq![' ']);
            }
        }
        k = k + 1;
    }
    assert(all.take(segs.len() as int) =~= all);
    out
}

/// Framework-managed timestamp names (`created_at`, `updated_at`).
pub open spec fn auto_timestamp_name(name: Seq<char>) -> bool {
    name == "created_at"@ || name == "updated_at"@
}

/// `true` for the framework-managed timestamp names.
pub fn is_auto_timestamp_name(name: &str) -> (b: bool)
    ensures
        b == auto_timestamp_name(name@),
{
    let v = chars_of(name);
    let a = chars_of("created_at");
    let u = chars_of("updated_at");
    chars_eq(v.as_slice(), a.as_slice()) || chars_eq(v.as_slice(), u.as_slice())
}

// ---------------------------------------------------------------------------
// Field kinds
// ---------------------------------------------------------------------------

/// The storage kind the derive infers for one struct field.
#[derive(Debug, PartialEq, Eq, Clone, Copy, Structural)]
pub enum FieldKind {
    I32,
    I64,
    F64,
    Decimal,
    Bool,
    String,
    Email,
    Phone,
    Choice,
    DateTime,
    Date,
    Time,
    Uuid,
    DateTimeAuto,
    OptionalString,
    OptionalI64,
    OptionalDateTime,
    FilePath,
    OptionalFilePath,
}

/// The `FieldType` variant a kind is registered as.
pub open spec fn kind_type_name(k: FieldKind) -> Seq<char> {
    match k {
        FieldKind::I32 => "I32"@,
        FieldKind::I64 => "I64"@,
        FieldKind::F64 => "F64"@,
        FieldKind::Decimal => "Decimal"@,
        FieldKind::Bool => "Bool"@,
        FieldKind::String => "String"@,
        FieldKind::Email => "Email"@,
        FieldKind::Phone => "Phone"@,
        FieldKind::Choice => "String"@,
        FieldKind::DateTime => "DateTime"@,
        FieldKind::Date => "Date"@,
        FieldKind::Time => "Time"@,
        FieldKind::Uuid => "Uuid"@,
        FieldKind::DateTimeAuto => "DateTime"@,
        FieldKind::OptionalString => "OptionalString"@,
        FieldKind::OptionalI64 => "OptionalI64"@,
        FieldKind::OptionalDateTime => "OptionalDateTime"@,
        FieldKind::FilePath => "FilePath"@,
        FieldKind::OptionalFilePath => "OptionalFilePath"@,
    }
}

/// The `Row` accessor that reads a kind back.
pub open spec fn kind_getter(k: FieldKind) -> Seq<char> {
    match k {
        FieldKind::I32 => "get_i32"@,
        FieldKind::I64 => "get_i64"@,
        FieldKind::F64 => "get_f64"@,
        FieldKind::Decimal => "get_decimal"@,
        FieldKind::Bool => "get_bool"@,
        FieldKind::String => "get_string"@,
        FieldKind::Email => "get_string"@,
        FieldKind::Phone => "get_string"@,
        FieldKind::Choice => "get_string"@,
        FieldKind::DateTime => "get_datetime"@,
        FieldKind::Date => "get_date"@,
        FieldKind::Time => "get_time"@,
        FieldKind::Uuid => "get_uuid"@,
        FieldKind::DateTimeAuto => "get_datetime"@,
        FieldKind::OptionalString => "get_optional_string"@,
        FieldKind::OptionalI64 => "get_optional_i64"@,
        FieldKind::OptionalDateTime => "get_optional_datetime"@,
        FieldKind::FilePath => "get_string"@,
        FieldKind::OptionalFilePath => "get_optional_string"@,
    }
}

impl FieldKind {
    /// Name of the `FieldType` variant this kind registers as.
    pub fn field_type_ident(&self) -> (s: &'static str)
        ensures
            s@ == kind_type_name(*self),
    {
        match self {
            FieldKind::I32 => "I32",
            FieldKind::I64 => "I64",
            FieldKind::F64 => "F64",
            FieldKind::Decimal => "Decimal",
            FieldKind::Bool => "Bool",
            FieldKind::String => "String",
            FieldKind::Email => "Email",
            FieldKind::Phone => "Phone",
            FieldKind::Choice => "String",
            FieldKind::DateTime => "DateTime",
            FieldKind::Date => "Date",
            FieldKind::Time => "Time",
            FieldKind::Uuid => "Uuid",
            FieldKind::DateTimeAuto => "DateTime",
            FieldKind::OptionalString => "OptionalString",
            FieldKind::OptionalI64 => "OptionalI64",
            FieldKind::OptionalDateTime => "OptionalDateTime",
            FieldKind::FilePath => "FilePath",
            FieldKind::OptionalFilePath => "OptionalFilePath",
        }
    }

    /// The `Row` accessor `from_row` calls for this kind.
    pub fn row_getter(&self) -> (s: &'static str)
        ensures
            s@ == kind_getter(*self),
    {
        match self {
            FieldKind::I32 => "get_i32",
            FieldKind::I64 => "get_i64",
            FieldKind::F64 => "get_f64",
            FieldKind::Decimal => "get_decimal",
            FieldKind::Bool => "get_bool",
            FieldKind::String => "get_string",
            FieldKind::Email => "get_string",
            FieldKind::Phone => "get_string",
            FieldKind::Choice => "get_string",
            FieldKind::DateTime => "get_datetime",
            FieldKind::Date => "get_date",
            FieldKind::Time => "get_time",
            FieldKind::Uuid => "get_uuid",
            FieldKind::DateTimeAuto => "get_datetime",
            FieldKind::OptionalString => "get_optional_string",
            FieldKind::OptionalI64 => "get_optional_i64",
            FieldKind::OptionalDateTime => "get_optional_datetime",
            FieldKind::FilePath => "get_string",
            FieldKind::OptionalFilePath => "get_optional_string",
        }
    }
}

/// The text of a type with every space removed.
pub open spec fn without_spaces(s: Seq<char>) -> Seq<char>
    decreases s.len(),
{
    if s.len() == 0 {
        Seq::empty()
    } else if s.last() == ' ' {
        without_spaces(s.drop_last())
    } else {
        without_spaces(s.drop_last()).push(s.last())
    }
}

/// The kind of a field from the (space-free) text of its type.
pub open spec fn kind_of_type(t: Seq<char>) -> Option<FieldKind> {
    if t == "i32"@ {
        Some(FieldKind::I32)
    } else if t == "i64"@ {
        Some(FieldKind::I64)
    } else if t == "f64"@ {
        Some(FieldKind::F64)
    } else if t == "Decimal"@ {
        Some(FieldKind::Decimal)
    } else if t == "rust_decimal::Decimal"@ {
        Some(FieldKind::Decimal)
    } else if t == "bool"@ {
        Some(FieldKind::Bool)
    } else if t == "String"@ {
        Some(FieldKind::String)
    } else if t == "DateTime<Utc>"@ {
        Some(FieldKind::DateTime)
    } else if t == "chrono::DateTime<chrono::Utc>"@ {
        Some(FieldKind::DateTime)
    } else if t == "NaiveDate"@ {
        Some(FieldKind::Date)
    } else if t == "chrono::NaiveDate"@ {
        Some(FieldKind::Date)
    } else if t == "NaiveTime"@ {
        Some(FieldKind::Time)
    } else if t == "chrono::NaiveTime"@ {
        Some(FieldKind::Time)
    } else if t == "Uuid"@ {
        Some(FieldKind::Uuid)
    } else if t == "uuid::Uuid"@ {
        Some(FieldKind::Uuid)
    } else if t == "Option<String>"@ {
        Some(FieldKind::OptionalString)
    } else if t == "Option<i64>"@ {
        Some(FieldKind::OptionalI64)
    } else if t == "Option<DateTime<Utc>>"@ {
        Some(FieldKind::OptionalDateTime)
    } else if t == "Option<chrono::DateTime<chrono::Utc>>"@ {
        Some(FieldKind::OptionalDateTime)
    } else {
        None
    }
}

/// Infers a field's kind from the text of its type (spaces ignored);
/// an unsupported type is refused with the message the derive reports.
pub fn classify_type(ty: &str) -> (r: Result<FieldKind, String>)
    ensures
        match (r, kind_of_type(without_spaces(ty@))) {
            (Ok(k), Some(sk)) => k == sk,
            (Err(m), None) => m@ == "unsupported field type for RustioAdmin: "@ + without_spaces(ty@),
            _ => false,
        },
{
    let v = chars_of(ty);
    let mut t: Vec<char> = Vec::new();
    let mut i: usize = 0;
    while i < v.len()
        invariant
            i <= v.len(),
            v@ == ty@,
            t@ == without_spaces(v@.take(i as int)),
        decreases v.len() - i,
    {
        if v[i] != ' ' {
            t.push(v[i]);
        }
        proof {
            let w = v@.take(i + 1);
            assert(w.drop_last() =~= v@.take(i as int));
        }
        i = i + 1;
    }
    assert(v@.take(v.len() as int) =~= v@);

    if lit_eq(&t, "i32") {
        Ok(FieldKind::I32)
    } else if lit_eq(&t, "i64") {
        Ok(FieldKind::I64)
    } else if lit_eq(&t, "f64") {
        Ok(FieldKind::F64)
    } else if lit_eq(&t, "Decimal") {
        Ok(FieldKind::Decimal)
    } else if lit_eq(&t, "rust_decimal::Decimal") {
        Ok(FieldKind::Decimal)
    } else if lit_eq(&t, "bool") {
        Ok(FieldKind::Bool)
    } else if lit_eq(&t, "String") {
        Ok(FieldKind::String)
    } else if lit_eq(&t, "DateTime<Utc>") {
        Ok(FieldKind::DateTime)
    } else if lit_eq(&t, "chrono::DateTime<chrono::Utc>") {
        Ok(FieldKind::DateTime)
    } else if lit_eq(&t, "NaiveDate") {
        Ok(FieldKind::Date)
    } else if lit_eq(&t, "chrono::NaiveDate") {
        Ok(FieldKind::Date)
    } else if lit_eq(&t, "NaiveTime") {
        Ok(FieldKind::Time)
    } else if lit_eq(&t, "chrono::NaiveTime") {
        Ok(FieldKind::Time)
    } else if lit_eq(&t, "Uuid") {
        Ok(FieldKind::Uuid)
    } else if lit_eq(&t, "uuid::Uuid") {
        Ok(FieldKind::Uuid)
    } else if lit_eq(&t, "Option<String>") {
        Ok(FieldKind::OptionalString)
    } else if lit_eq(&t, "Option<i64>") {
        Ok(FieldKind::OptionalI64)
    } else if lit_eq(&t, "Option<DateTime<Utc>>") {
        Ok(FieldKind::OptionalDateTime)
    } else if lit_eq(&t, "Option<chrono::DateTime<chrono::Utc>>") {
        Ok(FieldKind::OptionalDateTime)
    } else {
        let mut m = to_owned_string("unsupported field type for RustioAdmin: ");
        push_chars(&mut m, t.as_slice());
        Err(m)
    }
}

fn lit_eq(v: &Vec<char>, lit: &str) -> (b: bool)
    ensures
        b == (v@ == lit@),
{
    let l = chars_of(lit);
    chars_eq(v.as_slice(), l.as_slice())
}

/// Preferred label fields, in order of preference.
pub open spec fn label_candidates() -> Seq<Seq<char>> {
    seq!["name"@, "title"@, "full_name"@, "label"@, "email"@]
}

/// The first candidate from index `k` on that is one of `names`.
pub open spec fn first_label_field(names: Seq<Seq<char>>, k: int) -> Option<Seq<char>>
    decreases 5 - k,
{
    if k < 0 || k >= 5 {
        None
    } else if names.contains(label_candidates()[k]) {
        Some(label_candidates()[k])
    } else {
        first_label_field(names, k + 1)
    }
}

/// The field `object_label` shows: `name`, then `title`, `full_name`,
/// `label`, `email`, whichever the struct has first; `None` when it has
/// none of them.
pub fn find_label_field(field_names: &[&str]) -> (r: Option<String>)
    ensures
        match (r, first_label_field(crate::text::str_views(field_names@), 0)) {
            (Some(n), Some(sn)) => n@ == sn,
            (None, None) => true,
            _ => false,
        },
{
    let names = ["name", "title", "full_name", "label", "email"];
    let ghost views = crate::text::str_views(field_names@);
    let mut k: usize = 0;
    while k < 5
        invariant
            k <= 5,
            views == crate::text::str_views(field_names@),
            names@.map_values(|x: &str| x@) == label_candidates(),
            first_label_field(views, 0) == first_label_field(views, k as int),
        decreases 5 - k,
    {
        let cand = chars_of(names[k]);
        assert(cand@ == label_candidates()[k as int]);
        let mut j: usize = 0;
        let mut found = false;
        while j < field_names.len()
            invariant
                j <= field_names.len(),
                views == crate::text::str_views(field_names@),
                !found ==> forall|x: int| 0 <= x < j ==> views[x] != cand@,
                found ==> views.contains(cand@),
            decreases field_names.len() - j,
        {
            let f = chars_of(field_names[j]);
            assert(views[j as int] == f@);
            if !found && chars_eq(f.as_slice(), cand.as_slice()) {
                found = true;
            }
            j = j + 1;
        }
        if found {
            return Some(string_from_chars(cand.as_slice()));
        }
        k = k + 1;
    }
    None
}


/// The Rust type a field of kind `k` holds, as a struct declares it.
pub open spec fn kind_rust_type(k: FieldKind) -> Seq<char> {
    match k {
        FieldKind::I32 => "i32"@,
        FieldKind::I64 => "i64"@,
        FieldKind::F64 => "f64"@,
        FieldKind::Decimal => "Decimal"@,
        FieldKind::Bool => "bool"@,
        FieldKind::String | FieldKind::Email | FieldKind::Phone | FieldKind::Choice | FieldKind::FilePath => "String"@,
        FieldKind::DateTime | FieldKind::DateTimeAuto => "DateTime<Utc>"@,
        FieldKind::Date => "NaiveDate"@,
        FieldKind::Time => "NaiveTime"@,
        FieldKind::Uuid => "Uuid"@,
        FieldKind::OptionalString | FieldKind::OptionalFilePath => "Option<String>"@,
        FieldKind::OptionalI64 => "Option<i64>"@,
        FieldKind::OptionalDateTime => "Option<DateTime<Utc>>"@,
    }
}

/// The same type written with its crate paths.
pub open spec fn kind_rust_type_qualified(k: FieldKind) -> Seq<char> {
    match k {
        FieldKind::Decimal => "rust_decimal::Decimal"@,
        FieldKind::DateTime | FieldKind::DateTimeAuto => "chrono::DateTime<chrono::Utc>"@,
        FieldKind::Date => "chrono::NaiveDate"@,
        FieldKind::Time => "chrono::NaiveTime"@,
        FieldKind::Uuid => "uuid::Uuid"@,
        FieldKind::OptionalDateTime => "Option<chrono::DateTime<chrono::Utc>>"@,
        _ => kind_rust_type(k),
    }
}

/// The kinds the derive reads off a field's type alone (the others come
/// from the field's name or attributes).
pub open spec fn kind_from_type(k: FieldKind) -> bool {
    !(k is Email || k is Phone || k is Choice || k is DateTimeAuto || k is FilePath || k is OptionalFilePath)
}

/// A type text is classified as the kind whose Rust type it names
/// (plainly or with its crate paths), and the Rust type of every kind
/// read off a type is classified back as that kind, in either spelling.
pub proof fn lemma_type_names_its_kind(t: Seq<char>, k: FieldKind)
    ensures
        kind_of_type(t) == Some(k) ==> kind_from_type(k) && (t == kind_rust_type(k) || t
            == kind_rust_type_qualified(k)),
        kind_from_type(k) ==> kind_of_type(kind_rust_type(k)) == Some(k) && kind_of_type(
            kind_rust_type_qualified(k),
        ) == Some(k),
{
    reveal_strlit("i32");
    reveal_strlit("i64");
    reveal_strlit("f64");
    reveal_strlit("Decimal");
    reveal_strlit("rust_decimal::Decimal");
    reveal_strlit("bool");
    reveal_strlit("String");
    reveal_strlit("DateTime<Utc>");
    reveal_strlit("chrono::DateTime<chrono::Utc>");
    reveal_strlit("NaiveDate");
    reveal_strlit("chrono::NaiveDate");
    reveal_strlit("NaiveTime");
    reveal_strlit("chrono::NaiveTime");
    reveal_strlit("Uuid");
    reveal_strlit("uuid::Uuid");
    reveal_strlit("Option<String>");
    reveal_strlit("Option<i64>");
    reveal_strlit("Option<DateTime<Utc>>");
    reveal_strlit("Option<chrono::DateTime<chrono::Utc>>");
    assert("i32"@[1] != "i64"@[1]);
    assert("i32"@[0] != "f64"@[0]);
    assert("i64"@[0] != "f64"@[0]);
    assert("bool"@[0] != "Uuid"@[0]);
    assert("NaiveDate"@[5] != "NaiveTime"@[5]);
    assert("chrono::NaiveDate"@[13] != "chrono::NaiveTime"@[13]);
    assert("rust_decimal::Decimal"@[0] != "Option<DateTime<Utc>>"@[0]);
    assert("i32"@.len() == 3);
    assert("Decimal"@.len() == 7);
    assert("rust_decimal::Decimal"@.len() == 21);
    assert("bool"@.len() == 4);
    assert("String"@.len() == 6);
    assert("DateTime<Utc>"@.len() == 13);
    assert("chrono::DateTime<chrono::Utc>"@.len() == 29);
    assert("NaiveDate"@.len() == 9);
    assert("chrono::NaiveDate"@.len() == 17);
    assert("Uuid"@.len() == 4);
    assert("uuid::Uuid"@.len() == 10);
    assert("Option<String>"@.len() == 14);
    assert("Option<i64>"@.len() == 11);
    assert("Option<DateTime<Utc>>"@.len() == 21);
    assert("Option<chrono::DateTime<chrono::Utc>>"@.len() == 37);
}

} // verus!
