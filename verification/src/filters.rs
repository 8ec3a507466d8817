//! Field classification and filter inference: pure helpers that turn
//! schema metadata into user-facing hints (form labels, masked
//! display of personal data, the filters a list page offers).
use vstd::prelude::*;
use crate::text::{
    chars_of, chars_eq, chars_ends_with, i64_chars, push_chars, push_str, string_from_chars,
    to_owned_string, to_upper, decimal_int, upper, ends_with,
};

verus! {

broadcast use vstd::string::group_string_axioms;

/// The storage / widget type of one admin field.
#[derive(Debug, Clone, Copy, PartialEq, Eq, Structural)]
pub enum FieldType {
    I32,
    I64,
    F64,
    Decimal,
    Bool,
    String,
    Email,
    Phone,
    DateTime,
    Date,
    Time,
    Uuid,
    OptionalString,
    OptionalI64,
    OptionalDateTime,
    FilePath,
    OptionalFilePath,
}

/// Static description of one column of a registered admin model.
#[derive(Debug, Clone, Copy)]
pub struct AdminField {
    /// Column / form-field name (snake_case).
    pub name: &'static str,
    /// Human label shown beside the input and in table headers.
    pub label: &'static str,
    pub field_type: FieldType,
    /// `false` for framework-managed columns (timestamps, hashes).
    pub editable: bool,
    /// Admin name of the model this column points at, when declared.
    pub relation: Option<&'static str>,
    /// Allowed values of a choice column.
    pub choices: Option<&'static [&'static str]>,
}

/// The role a field plays in the admin UI.
#[derive(Debug, Clone, Copy, PartialEq, Eq, Structural)]
pub enum FieldRole {
    Id,
    Timestamp,
    Bool,
    NumericCount,
    ForeignKey,
    Status,
    Email,
    Phone,
    PlainText,
}

pub open spec fn role_is_sensitive(r: FieldRole) -> bool {
    r is Email || r is Phone
}

impl FieldRole {
    /// `true` when the role carries personal data and should be masked
    /// by default on list views.
    pub fn is_sensitive(self) -> (b: bool)
        ensures
            b == role_is_sensitive(self),
    {
        matches!(self, FieldRole::Email | FieldRole::Phone)
    }
}

pub open spec fn is_integer_type(t: FieldType) -> bool {
    t is I32 || t is I64
}

/// The role [`classify_field`] assigns to a field named `name` of type `t`.
pub open spec fn field_role(name: Seq<char>, t: FieldType) -> FieldRole {
    if name == "id"@ {
        FieldRole::Id
    } else if name == "email"@ {
        FieldRole::Email
    } else if name == "phone"@ {
        FieldRole::Phone
    } else if name == "status"@ || ends_with(name, "_status"@) {
        FieldRole::Status
    } else if t is Bool {
        FieldRole::Bool
    } else if t is DateTime || t is OptionalDateTime {
        FieldRole::Timestamp
    } else if ends_with(name, "_id"@) && is_integer_type(t) {
        FieldRole::ForeignKey
    } else if is_integer_type(t) {
        FieldRole::NumericCount
    } else {
        FieldRole::PlainText
    }
}

/// `true` when the field's name is `lit`.
fn name_is(name: &Vec<char>, lit: &str) -> (b: bool)
    ensures
        b == (name@ == lit@),
{
    let l = chars_of(lit);
    chars_eq(name.as_slice(), l.as_slice())
}

fn name_ends(name: &Vec<char>, lit: &str) -> (b: bool)
    ensures
        b == ends_with(name@, lit@),
{
    let l = chars_of(lit);
    chars_ends_with(name.as_slice(), l.as_slice())
}

/// Assign a [`FieldRole`] to one field. Precedence: `id`, `email`,
/// `phone`, status, bool, datetime, integer `_id` foreign key, other
/// integers, then plain text.
pub fn classify_field(f: &AdminField) -> (r: FieldRole)
    ensures
        r == field_role(f.name@, f.field_type),
{
    let name = chars_of(f.name);
    if name_is(&name, "id") {
        return FieldRole::Id;
    }
    if name_is(&name, "email") {
        return FieldRole::Email;
    }
    if name_is(&name, "phone") {
        return FieldRole::Phone;
    }
    if name_is(&name, "status") || name_ends(&name, "_status") {
        return FieldRole::Status;
    }
    if matches!(f.field_type, FieldType::Bool) {
        return FieldRole::Bool;
    }
    if matches!(f.field_type, FieldType::DateTime | FieldType::OptionalDateTime) {
        return FieldRole::Timestamp;
    }
    let integer = matches!(f.field_type, FieldType::I32 | FieldType::I64);
    if name_ends(&name, "_id") && integer {
        return FieldRole::ForeignKey;
    }
    if integer {
        return FieldRole::NumericCount;
    }
    FieldRole::PlainText
}

// ---------------------------------------------------------------------------
// Humanised labels
// ---------------------------------------------------------------------------

/// `snake_case` → `Snake Case`: every `_` becomes a space and the
/// character after it (and the first one) is ASCII-uppercased.
pub open spec fn title_words(s: Seq<char>) -> Seq<char> {
    Seq::new(
        s.len(),
        |i: int|
            if s[i] == '_' {
                ' '
            } else if i == 0 || s[i - 1] == '_' {
                upper(s[i])
            } else {
                s[i]
            },
    )
}

/// Title-cases a snake_case name (see [`title_words`]).
pub fn humanise(s: &str) -> (r: String)
    ensures
        r@ == title_words(s@),
{
    let v = chars_of(s);
    let mut out: Vec<char> = Vec::new();
    let mut next_upper = true;
    let mut i: usize = 0;
    while i < v.len()
        invariant
            i <= v.len(),
            v@ == s@,
            out@ == title_words(v@).take(i as int),
            next_upper == (i == 0 || v@[i - 1] == '_'),
        decreases v.len() - i,
    {
        let ch = v[i];
        if ch == '_' {
            out.push(' ');
            next_upper = true;
        } else if next_upper {
            out.push(to_upper(ch));
            next_upper = false;
        } else {
            out.push(ch);
        }
        assert(out@ =~= title_words(v@).take(i + 1));
        i = i + 1;
    }
    assert(title_words(v@).take(v.len() as int) =~= title_words(v@));
    string_from_chars(out.as_slice())
}

// ---------------------------------------------------------------------------
// field_ui_metadata
// ---------------------------------------------------------------------------

/// Everything a form / list renderer needs to present one field.
#[derive(Debug, Clone)]
pub struct FieldUI {
    pub role: FieldRole,
    pub label: String,
    pub placeholder: Option<String>,
    pub hint: Option<String>,
    pub sensitive: bool,
    pub sensitivity_note: Option<String>,
    pub relation_label: Option<String>,
}

pub open spec fn opt_view(o: Option<String>) -> Option<Seq<char>> {
    match o {
        Some(s) => Some(s@),
        None => None,
    }
}

/// The placeholder [`field_ui_metadata`] shows for a field.
pub open spec fn ui_placeholder(name: Seq<char>, role: FieldRole) -> Option<Seq<char>> {
    if name == "slug"@ {
        Some("my-post-title"@)
    } else {
        match role {
            FieldRole::Email => Some("name@example.com"@),
            FieldRole::Phone => Some("+1 555 123 4567"@),
            FieldRole::Timestamp => Some("YYYY-MM-DDTHH:MM"@),
            _ => None,
        }
    }
}

/// The hint [`field_ui_metadata`] shows for a field.
pub open spec fn ui_hint(name: Seq<char>, role: FieldRole) -> Option<Seq<char>> {
    if name == "slug"@ {
        Some("URL-friendly identifier"@)
    } else {
        match role {
            FieldRole::Timestamp => Some("Interpreted as UTC."@),
            FieldRole::Status => Some("Short status label (e.g. active, pending, resolved)."@),
            FieldRole::ForeignKey => Some("Foreign-key id — must reference an existing row."@),
            _ => None,
        }
    }
}

/// `ui` is the metadata of field `f`.
pub open spec fn ui_of(ui: FieldUI, f: AdminField) -> bool {
    let role = field_role(f.name@, f.field_type);
    &&& ui.role == role
    &&& ui.label@ == title_words(f.name@)
    &&& opt_view(ui.placeholder) == ui_placeholder(f.name@, role)
    &&& opt_view(ui.hint) == ui_hint(f.name@, role)
    &&& ui.sensitive == role_is_sensitive(role)
    &&& opt_view(ui.sensitivity_note) == (if role_is_sensitive(role) {
        Some("Personal data."@)
    } else {
        None
    })
    &&& ui.relation_label is None
}

fn some_str(s: &str) -> (r: Option<String>)
    ensures
        opt_view(r) == Some(s@),
{
    Some(to_owned_string(s))
}

/// Package a field's display metadata for the admin form / list
/// renderers. All strings are plain text.
pub fn field_ui_metadata(f: &AdminField) -> (ui: FieldUI)
    ensures
        ui_of(ui, *f),
{
    let role = classify_field(f);
    let label = humanise(f.name);
    let mut placeholder: Option<String> = None;
    let mut hint: Option<String> = None;
    let mut sensitive = false;
    let mut sensitivity_note: Option<String> = None;
    match role {
        FieldRole::Email => {
            placeholder = some_str("name@example.com");
        },
        FieldRole::Phone => {
            placeholder = some_str("+1 555 123 4567");
        },
        FieldRole::Timestamp => {
            placeholder = some_str("YYYY-MM-DDTHH:MM");
            hint = some_str("Interpreted as UTC.");
        },
        FieldRole::Status => {
            hint = some_str("Short status label (e.g. active, pending, resolved).");
        },
        FieldRole::ForeignKey => {
            hint = some_str("Foreign-key id — must reference an existing row.");
        },
        _ => {},
    }
    let name = chars_of(f.name);
    if name_is(&name, "slug") {
        placeholder = some_str("my-post-title");
        hint = some_str("URL-friendly identifier");
    }
    if role.is_sensitive() {
        sensitive = true;
        sensitivity_note = some_str("Personal data.");
    }
    FieldUI { role, label, placeholder, hint, sensitive, sensitivity_note, relation_label: None }
}

/// Like [`field_ui_metadata`] but relation-aware: a non-empty
/// `relation_target` makes the field a foreign key labelled with the
/// target and hinted `Foreign key to <target>.`.
pub fn field_ui_metadata_with_relation(f: &AdminField, relation_target: Option<&str>) -> (ui: FieldUI)
    ensures
        match relation_target {
            Some(t) if t@.len() > 0 => {
                &&& ui.role == FieldRole::ForeignKey
                &&& opt_view(ui.relation_label) == Some(t@)
                &&& opt_view(ui.hint) == Some("Foreign key to "@ + t@ + "."@)
                &&& ui.label@ == title_words(f.name@)
                &&& ({
                    let role = field_role(f.name@, f.field_type);
                    &&& opt_view(ui.placeholder) == ui_placeholder(f.name@, role)
                    &&& ui.sensitive == role_is_sensitive(role)
                    &&& opt_view(ui.sensitivity_note) == (if role_is_sensitive(role) {
                        Some("Personal data."@)
                    } else {
                        None
                    })
                })
            },
            _ => ui_of(ui, *f),
        },
{
    let mut ui = field_ui_metadata(f);
    if let Some(target) = relation_target {
        let tv = chars_of(target);
        if tv.len() > 0 {
            ui.role = FieldRole::ForeignKey;
            ui.relation_label = Some(to_owned_string(target));
            let mut h = to_owned_string("Foreign key to ");
            push_str(&mut h, target);
            push_str(&mut h, ".");
            ui.hint = Some(h);
        }
    }
    ui
}

/// The text of a foreign-key cell: `Target #42`, or the bare id.
pub open spec fn relation_cell(id: int, target: Option<Seq<char>>) -> Seq<char> {
    match target {
        Some(t) if t.len() > 0 => t + " #"@ + decimal_int(id),
        _ => decimal_int(id),
    }
}

/// Render "Target #42" for a foreign-key cell on a list view. Falls
/// back to the raw id when there is no (non-empty) target name.
pub fn format_relation_cell(id: i64, target: Option<&str>) -> (r: String)
    ensures
        r@ == relation_cell(
            id as int,
            match target {
                Some(t) => Some(t@),
                None => None,
            },
        ),
{
    let digits = i64_chars(id);
    match target {
        Some(t) => {
            let tv = chars_of(t);
            if tv.len() > 0 {
                let mut out = string_from_chars(tv.as_slice());
                push_str(&mut out, " #");
                push_chars(&mut out, digits.as_slice());
                return out;
            }
            string_from_chars(digits.as_slice())
        },
        None => string_from_chars(digits.as_slice()),
    }
}

// ---------------------------------------------------------------------------
// infer_filters
// ---------------------------------------------------------------------------

/// What shape of filter the admin list page renders for a field.
#[non_exhaustive]
#[derive(Debug, Clone)]
pub enum FilterKind {
    DropdownText,
    BoolYesNo,
    DateRange,
    NumericExact,
    ExactMatch,
    RelationSelect { target_model: String },
}

/// One filter the list page shows for a model.
#[derive(Debug, Clone)]
pub struct FilterDef {
    pub field: String,
    pub label: String,
    pub kind: FilterKind,
}

/// The spec-level shape of a filter kind.
pub enum KindSpec {
    DropdownText,
    BoolYesNo,
    DateRange,
    NumericExact,
    ExactMatch,
    RelationSelect(Seq<char>),
}

pub open spec fn kind_view(k: FilterKind) -> KindSpec {
    match k {
        FilterKind::DropdownText => KindSpec::DropdownText,
        FilterKind::BoolYesNo => KindSpec::BoolYesNo,
        FilterKind::DateRange => KindSpec::DateRange,
        FilterKind::NumericExact => KindSpec::NumericExact,
        FilterKind::ExactMatch => KindSpec::ExactMatch,
        FilterKind::RelationSelect { target_model } => KindSpec::RelationSelect(target_model@),
    }
}

/// The filter a field gets, given what the relation lookup answered
/// for it (consulted for foreign keys only); `None` when the field
/// gets no stock filter.
pub open spec fn filter_kind_for(f: AdminField, target: Option<Seq<char>>) -> Option<KindSpec> {
    if f.name@ == "id"@ {
        None
    } else {
        match field_role(f.name@, f.field_type) {
            FieldRole::Status => Some(KindSpec::DropdownText),
            FieldRole::Bool => Some(KindSpec::BoolYesNo),
            FieldRole::Timestamp => Some(KindSpec::DateRange),
            FieldRole::NumericCount => Some(KindSpec::NumericExact),
            FieldRole::ForeignKey => match target {
                Some(t) if t.len() > 0 => Some(KindSpec::RelationSelect(t)),
                _ => Some(KindSpec::NumericExact),
            },
            _ => None,
        }
    }
}

/// The filters of `fields`, in field order, given the relation lookup's
/// answer for each field.
pub open spec fn inferred_filters(fields: Seq<AdminField>, targets: Seq<Option<Seq<char>>>) -> Seq<
    (Seq<char>, Seq<char>, KindSpec),
>
    decreases fields.len(),
{
    if fields.len() == 0 {
        Seq::empty()
    } else {
        let rest = inferred_filters(fields.drop_last(), targets.drop_last());
        let f = fields.last();
        match filter_kind_for(f, targets.last()) {
            Some(k) => rest.push((f.name@, title_words(f.name@), k)),
            None => rest,
        }
    }
}

pub open spec fn filter_view(d: FilterDef) -> (Seq<char>, Seq<char>, KindSpec) {
    (d.field@, d.label@, kind_view(d.kind))
}

pub open spec fn filters_view(v: Seq<FilterDef>) -> Seq<(Seq<char>, Seq<char>, KindSpec)> {
    v.map_values(|d: FilterDef| filter_view(d))
}

/// Infer the filter controls for a model's list page from its fields.
/// Order follows the order of `fields`; `id` gets none, nor do plain
/// text / email / phone fields.
pub fn infer_filters(fields: &[AdminField]) -> (out: Vec<FilterDef>)
    ensures
        filters_view(out@) == inferred_filters(
            fields@,
            Seq::new(fields@.len(), |i: int| None::<Seq<char>>),
        ),
{
    let mut out: Vec<FilterDef> = Vec::new();
    let mut i: usize = 0;
    while i < fields.len()
        invariant
            i <= fields.len(),
            filters_view(out@) == inferred_filters(
                fields@.take(i as int),
                Seq::new(i as nat, |k: int| None::<Seq<char>>),
            ),
        decreases fields.len() - i,
    {
        let f = &fields[i];
        let d = filter_for(f, None);
        let ghost before = out@;
        if let Some(d) = d {
            out.push(d);
        }
        proof {
            let fs = fields@.take(i + 1);
            let ts = Seq::new((i + 1) as nat, |k: int| None::<Seq<char>>);
            assert(fs.drop_last() =~= fields@.take(i as int));
            assert(ts.drop_last() =~= Seq::new(i as nat, |k: int| None::<Seq<char>>));
            assert(fs.last() == *f);
            assert(filters_view(out@) =~= inferred_filters(fs, ts));
        }
        i = i + 1;
    }
    proof {
        assert(fields@.take(fields.len() as int) =~= fields@);
    }
    out
}

/// The filter for one field, given the relation lookup's answer.
fn filter_for(f: &AdminField, target: Option<String>) -> (r: Option<FilterDef>)
    ensures
        match (r, filter_kind_for(*f, opt_view(target))) {
            (Some(d), Some(k)) => filter_view(d) == (f.name@, title_words(f.name@), k),
            (None, None) => true,
            _ => false,
        },
{
    let name = chars_of(f.name);
    if name_is(&name, "id") {
        return None;
    }
    let role = classify_field(f);
    let kind = match role {
        FieldRole::Status => FilterKind::DropdownText,
        FieldRole::Bool => FilterKind::BoolYesNo,
        FieldRole::Timestamp => FilterKind::DateRange,
        FieldRole::NumericCount => FilterKind::NumericExact,
        FieldRole::ForeignKey => match target {
            Some(t) => {
                let tv = chars_of(t.as_str());
                if tv.len() > 0 {
                    FilterKind::RelationSelect { target_model: t }
                } else {
                    FilterKind::NumericExact
                }
            },
            None => FilterKind::NumericExact,
        },
        _ => {
            return None;
        },
    };
    Some(FilterDef { field: to_owned_string(f.name), label: humanise(f.name), kind })
}

/// Whether [`infer_filters_with_relations`] asks the relation lookup
/// about `f`: a foreign-key field other than `id`.
pub open spec fn asks_lookup(f: AdminField) -> bool {
    f.name@ != "id"@ && field_role(f.name@, f.field_type) is ForeignKey
}

/// `targets[i]` is what the lookup answered for `fields[i]` where it is
/// asked (a `None` answer included), and `None` for every other field.
pub open spec fn lookup_answers<F: Fn(&AdminField) -> Option<String>>(
    lookup: F,
    fields: Seq<AdminField>,
    targets: Seq<Option<String>>,
) -> bool {
    &&& targets.len() == fields.len()
    &&& forall|i: int|
        #![trigger targets[i]]
        0 <= i < fields.len() ==> (asks_lookup(fields[i]) ==> call_ensures(
            lookup,
            (&fields[i],),
            targets[i],
        )) && (!asks_lookup(fields[i]) ==> targets[i] is None)
}

/// Like [`infer_filters`] but asks `relation_target_of` about each
/// foreign-key field (and no other); a non-empty answer makes its
/// filter a [`FilterKind::RelationSelect`] on that model, any other
/// answer the numeric-exact fallback.
pub fn infer_filters_with_relations<F>(fields: &[AdminField], relation_target_of: F) -> (out: Vec<
    FilterDef,
>) where F: Fn(&AdminField) -> Option<String>
    requires
        forall|i: int|
            0 <= i < fields@.len() && asks_lookup(#[trigger] fields@[i]) ==> call_requires(
                relation_target_of,
                (&fields@[i],),
            ),
    ensures
        exists|targets: Seq<Option<String>>|
            #[trigger] lookup_answers(relation_target_of, fields@, targets) && filters_view(out@)
                == inferred_filters(fields@, targets.map_values(|t: Option<String>| opt_view(t))),
{
    let mut out: Vec<FilterDef> = Vec::new();
    let ghost mut targets: Seq<Option<String>> = Seq::empty();
    let mut i: usize = 0;
    while i < fields.len()
        invariant
            i <= fields.len(),
            targets.len() == i,
            forall|j: int|
                0 <= j < fields@.len() && asks_lookup(#[trigger] fields@[j]) ==> call_requires(
                    relation_target_of,
                    (&fields@[j],),
                ),
            forall|j: int|
                #![trigger targets[j]]
                0 <= j < i ==> (asks_lookup(fields@[j]) ==> call_ensures(
                    relation_target_of,
                    (&fields@[j],),
                    targets[j],
                )) && (!asks_lookup(fields@[j]) ==> targets[j] is None),
            filters_view(out@) == inferred_filters(
                fields@.take(i as int),
                targets.map_values(|t: Option<String>| opt_view(t)),
            ),
        decreases fields.len() - i,
    {
        let f = &fields[i];
        let role = classify_field(f);
        let name = chars_of(f.name);
        let asks = !name_is(&name, "id") && matches!(role, FieldRole::ForeignKey);
        assert(asks == asks_lookup(fields@[i as int]));
        let target: Option<String> = if asks {
            relation_target_of(f)
        } else {
            None
        };
        let ghost t = target;
        let d = filter_for(f, target);
        if let Some(d) = d {
            out.push(d);
        }
        proof {
            let old_targets = targets;
            targets = targets.push(t);
            let fs = fields@.take(i + 1);
            let ts = targets.map_values(|x: Option<String>| opt_view(x));
            assert(fs.drop_last() =~= fields@.take(i as int));
            assert(ts.drop_last() =~= old_targets.map_values(|x: Option<String>| opt_view(x)));
            assert(fs.last() == *f);
            assert(ts.last() == opt_view(t));
            assert(filters_view(out@) =~= inferred_filters(fs, ts));
            assert(targets[i as int] == t);
            assert forall|j: int| 0 <= j < i implies #[trigger] targets[j] == old_targets[j] by {}
        }
        i = i + 1;
    }
    proof {
        assert(fields@.take(fields.len() as int) =~= fields@);
        assert(lookup_answers(relation_target_of, fields@, targets));
    }
    out
}

// ---------------------------------------------------------------------------
// mask_pii
// ---------------------------------------------------------------------------

/// How many leading characters [`mask_pii`] keeps for an input of `n`
/// characters: `n / 3` clamped to `2..=4`, never more than `n`.
pub open spec fn mask_keep(n: nat) -> nat {
    let third = n / 3;
    let clamped: nat = if third < 2 {
        2
    } else if third > 4 {
        4
    } else {
        third
    };
    if clamped < n {
        clamped
    } else {
        n
    }
}

/// The masked display of `s`: same length, first [`mask_keep`]
/// characters kept, the rest replaced by `•`.
pub open spec fn masked(s: Seq<char>) -> Seq<char> {
    Seq::new(s.len(), |i: int| if i < mask_keep(s.len()) { s[i] } else { '\u{2022}' })
}

/// Produce a masked display string for a sensitive value: keeps the
/// first few characters, replaces the rest with `•`. The output has
/// as many characters as the input.
pub fn mask_pii(value: &str) -> (r: String)
    ensures
        r@ == masked(value@),
        r@.len() == value@.len(),
{
    let chars = chars_of(value);
    let n = chars.len();
    if n == 0 {
        assert(masked(value@) =~= Seq::<char>::empty());
        return String::new();
    }
    let third = n / 3;
    let clamped = if third < 2 {
        2
    } else if third > 4 {
        4
    } else {
        third
    };
    let keep = if clamped < n {
        clamped
    } else {
        n
    };
    let mut out: Vec<char> = Vec::new();
    let mut i: usize = 0;
    while i < n
        invariant
            n == chars@.len(),
            chars@ == value@,
            keep == mask_keep(n as nat),
            i <= n,
            out@ == masked(value@).take(i as int),
        decreases n - i,
    {
        if i < keep {
            out.push(chars[i]);
        } else {
            out.push('\u{2022}');
        }
        assert(out@ =~= masked(value@).take(i + 1));
        i = i + 1;
    }
    assert(masked(value@).take(n as int) =~= masked(value@));
    string_from_chars(out.as_slice())
}


/// A field's role is personal data (masked by default) exactly when the
/// field is named `email` or `phone`, whatever its type.
pub proof fn lemma_sensitive_roles_by_name(name: Seq<char>, t: FieldType)
    ensures
        role_is_sensitive(field_role(name, t)) <==> (name == "email"@ || name == "phone"@),
        name == "email"@ ==> field_role(name, t) is Email,
        name == "phone"@ ==> field_role(name, t) is Phone,
        name == "id"@ ==> field_role(name, t) is Id,
{
    reveal_strlit("id");
    reveal_strlit("email");
    reveal_strlit("phone");
    assert("id"@.len() == 2);
    assert("email"@.len() == 5);
    assert("phone"@.len() == 5);
    assert("email"@[0] != "phone"@[0]);
    if name == "email"@ {
        assert(name != "id"@);
    }
    if name == "phone"@ {
        assert(name != "id"@);
        assert(name != "email"@);
    }
}

/// How [`mask_pii`] masks: the output is as long as the input, keeps at
/// most four leading characters (two for short values, a third of the
/// value up to four otherwise, never the whole of a value of three or
/// more characters) and replaces every other character by `•`.
pub proof fn lemma_mask_hides_the_rest(s: Seq<char>)
    ensures
        ({
            let n = s.len();
            let k = mask_keep(n);
            &&& masked(s).len() == n
            &&& forall|i: int| 0 <= i < k ==> #[trigger] masked(s)[i] == s[i]
            &&& forall|i: int| k <= i < n ==> #[trigger] masked(s)[i] == '\u{2022}'
            &&& k <= 4
            &&& k <= n
            &&& n >= 2 ==> k >= 2
            &&& n < 6 ==> k <= 2
            &&& n >= 3 ==> k < n
            &&& n >= 6 ==> 3 * k <= n && (n < 3 * k + 3 || k == 4)
        }),
{
}


/// Past the names that decide a role by themselves (`id`, `email`,
/// `phone`, status columns), the type decides: a `bool` is a yes/no
/// column, a date-time a timestamp, an integer named `*_id` a foreign
/// key, any other integer a count, and the rest plain text.
pub proof fn lemma_roles_by_type(name: Seq<char>, t: FieldType)
    requires
        name != "id"@,
        name != "email"@,
        name != "phone"@,
        name != "status"@,
        !ends_with(name, "_status"@),
    ensures
        t is Bool ==> field_role(name, t) is Bool,
        (t is DateTime || t is OptionalDateTime) ==> field_role(name, t) is Timestamp,
        (t is I32 || t is I64) && ends_with(name, "_id"@) ==> field_role(name, t) is ForeignKey,
        (t is I32 || t is I64) && !ends_with(name, "_id"@) ==> field_role(name, t) is NumericCount,
        !(t is Bool || t is DateTime || t is OptionalDateTime || t is I32 || t is I64) ==> field_role(
            name,
            t,
        ) is PlainText,
{
}

} // verus!
