//! The create / update / delete flow's own decisions: completing a
//! submitted form with the values of read-only columns, and the
//! summaries of the audit rows the flow writes.
use vstd::prelude::*;
use crate::handlers::EditRow;
use crate::text::{decimal_int, i64_string, push_str, push_string, str_eq, usize_string, decimal, to_owned_string};

verus! {

broadcast use vstd::string::group_string_axioms;

/// `(column, value)` pairs as sequences.
pub open spec fn pairs_view(p: Seq<(String, String)>) -> Seq<(Seq<char>, Seq<char>)> {
    p.map_values(|x: (String, String)| (x.0@, x.1@))
}

/// Whether some pair is named `key`.
pub open spec fn has_key(p: Seq<(Seq<char>, Seq<char>)>, key: Seq<char>) -> bool {
    exists|i: int| 0 <= i < p.len() && (#[trigger] p[i]).0 == key
}

/// The value of the first pair named `key`.
pub open spec fn first_pair_value(p: Seq<(Seq<char>, Seq<char>)>, key: Seq<char>) -> Option<Seq<char>>
    decreases p.len(),
{
    if p.len() == 0 {
        None
    } else if p[0].0 == key {
        Some(p[0].1)
    } else {
        first_pair_value(p.drop_first(), key)
    }
}

/// The form after the first `k` read-only columns were considered: a
/// column the browser did not submit (read-only inputs are disabled)
/// gets the row's stored value, when the row has one.
pub open spec fn filled(
    form: Seq<(Seq<char>, Seq<char>)>,
    readonly: Seq<Seq<char>>,
    stored: Seq<(Seq<char>, Seq<char>)>,
    k: int,
) -> Seq<(Seq<char>, Seq<char>)>
    decreases k,
{
    if k <= 0 {
        form
    } else {
        let f = filled(form, readonly, stored, k - 1);
        let name = readonly[k - 1];
        if has_key(f, name) {
            f
        } else {
            match first_pair_value(stored, name) {
                Some(v) => f.push((name, v)),
                None => f,
            }
        }
    }
}

fn pairs_contain(p: &Vec<(String, String)>, key: &str) -> (b: bool)
    ensures
        b == has_key(pairs_view(p@), key@),
{
    let mut i: usize = 0;
    while i < p.len()
        invariant
            i <= p.len(),
            forall|j: int| 0 <= j < i ==> (#[trigger] pairs_view(p@)[j]).0 != key@,
        decreases p.len() - i,
    {
        if str_eq(p[i].0.as_str(), key) {
            assert(pairs_view(p@)[i as int].0 == key@);
            return true;
        }
        i = i + 1;
    }
    false
}

fn first_stored(p: &[(String, String)], key: &str) -> (r: Option<String>)
    ensures
        match (r, first_pair_value(pairs_view(p@), key@)) {
            (Some(s), Some(v)) => s@ == v,
            (None, None) => true,
            _ => false,
        },
{
    let mut i: usize = 0;
    assert(pairs_view(p@).skip(0) =~= pairs_view(p@));
    while i < p.len()
        invariant
            i <= p.len(),
            first_pair_value(pairs_view(p@), key@) == first_pair_value(pairs_view(p@).skip(i as int), key@),
        decreases p.len() - i,
    {
        assert(pairs_view(p@).skip(i as int).drop_first() =~= pairs_view(p@).skip(i + 1));
        if str_eq(p[i].0.as_str(), key) {
            return Some(p[i].1.clone());
        }
        i = i + 1;
    }
    None
}

/// Completes an update form with the stored values of the read-only
/// columns it lacks (see [`filled`]); without a stored row the form is
/// left as it is.
pub fn fill_readonly_fields(form: &mut Vec<(String, String)>, readonly: &[&str], stored: Option<&EditRow>)
    ensures
        pairs_view(final(form)@) == match stored {
            Some(row) => filled(pairs_view(old(form)@), readonly@.map_values(|s: &str| s@), pairs_view(row.values@), readonly@.len() as int),
            None => pairs_view(old(form)@),
        },
{
    let row = match stored {
        Some(r) => r,
        None => return,
    };
    let ghost start = pairs_view(form@);
    let ghost names = readonly@.map_values(|s: &str| s@);
    let mut k: usize = 0;
    while k < readonly.len()
        invariant
            k <= readonly.len(),
            names == readonly@.map_values(|s: &str| s@),
            pairs_view(form@) == filled(start, names, pairs_view(row.values@), k as int),
        decreases readonly.len() - k,
    {
        let name = readonly[k];
        if !pairs_contain(form, name) {
            match first_stored(row.values.as_slice(), name) {
                Some(v) => {
                    let ghost before = pairs_view(form@);
                    form.push((to_owned_string(name), v));
                    assert(pairs_view(form@) =~= before.push((names[k as int], pairs_view(form@).last().1)));
                },
                None => {},
            }
        }
        k = k + 1;
    }
}

// ---------------------------------------------------------------------------
// Audit summaries
// ---------------------------------------------------------------------------

/// `Created <model>: <label>`.
pub open spec fn created_text(singular: Seq<char>, label: Seq<char>) -> Seq<char> {
    "Created "@ + singular + ": "@ + label
}

/// `Deleted <model>: <label>`.
pub open spec fn deleted_text(singular: Seq<char>, label: Seq<char>) -> Seq<char> {
    "Deleted "@ + singular + ": "@ + label
}

/// `Updated <model> #<id> (no field changes)`, or with the number of
/// changed fields (`1 field`, `n fields`).
pub open spec fn updated_text(singular: Seq<char>, id: int, changed: nat) -> Seq<char> {
    "Updated "@ + singular + " #"@ + decimal_int(id) + if changed == 0 {
        " (no field changes)"@
    } else {
        " ("@ + decimal(changed) + if changed == 1 {
            " field changed)"@
        } else {
            " fields changed)"@
        }
    }
}

/// The summary of a create's audit row.
pub fn created_summary(singular: &str, label: &str) -> (s: String)
    ensures
        s@ == created_text(singular@, label@),
{
    let mut s = to_owned_string("Created ");
    push_str(&mut s, singular);
    push_str(&mut s, ": ");
    push_str(&mut s, label);
    s
}

/// The summary of a delete's audit row.
pub fn deleted_summary(singular: &str, label: &str) -> (s: String)
    ensures
        s@ == deleted_text(singular@, label@),
{
    let mut s = to_owned_string("Deleted ");
    push_str(&mut s, singular);
    push_str(&mut s, ": ");
    push_str(&mut s, label);
    s
}

/// The summary of an update's audit row.
pub fn updated_summary(singular: &str, id: i64, changed: usize) -> (s: String)
    ensures
        s@ == updated_text(singular@, id as int, changed as nat),
{
    let mut s = to_owned_string("Updated ");
    push_str(&mut s, singular);
    push_str(&mut s, " #");
    push_string(&mut s, i64_string(id));
    if changed == 0 {
        push_str(&mut s, " (no field changes)");
    } else {
        push_str(&mut s, " (");
        push_string(&mut s, usize_string(changed));
        if changed == 1 {
            push_str(&mut s, " field changed)");
        } else {
            push_str(&mut s, " fields changed)");
        }
    }
    s
}

} // verus!
