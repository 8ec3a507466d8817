//! The audit pages' small decisions: the per-actor filter of the log
//! page, and the labels of the object-history page.
use vstd::prelude::*;
use crate::handlers::{parse_i64, parse_i64_chars};
use crate::text::{decimal_int, i64_string, push_str, push_string, to_owned_string, trim, trim_chars, chars_of};

verus! {

broadcast use vstd::string::group_string_axioms;

/// A positive id from a query parameter (trimmed); anything else, or
/// no parameter, gives no filter.
pub open spec fn positive_id_of(raw: Option<Seq<char>>) -> Option<i64> {
    match raw {
        Some(s) => match parse_i64(trim(s)) {
            Some(n) => if n > 0 { Some(n) } else { None },
            None => None,
        },
        None => None,
    }
}

/// Reads a positive id parameter (see [`positive_id_of`]).
pub fn positive_id_param(raw: Option<&str>) -> (r: Option<i64>)
    ensures
        r == positive_id_of(
            match raw {
                Some(s) => Some(s@),
                None => None,
            },
        ),
{
    match raw {
        Some(s) => {
            let t = trim_chars(chars_of(s).as_slice());
            match parse_i64_chars(t.as_slice()) {
                Some(n) => if n > 0 {
                    Some(n)
                } else {
                    None
                },
                None => None,
            }
        },
        None => None,
    }
}

/// `#<id>`: how a row without a label, or a user without an email, is
/// named.
pub open spec fn id_label(id: int) -> Seq<char> {
    "#"@ + decimal_int(id)
}

/// The label, or `#<id>` when there is none.
pub fn label_or_id(label: Option<String>, id: i64) -> (r: String)
    ensures
        r@ == match label {
            Some(l) => l@,
            None => id_label(id as int),
        },
{
    match label {
        Some(l) => l,
        None => {
            let mut s = to_owned_string("#");
            push_string(&mut s, i64_string(id));
            s
        },
    }
}

/// The object-history page's title: `History: <model> — <label>`.
pub fn history_title(singular_name: &str, label: &str) -> (t: String)
    ensures
        t@ == "History: "@ + singular_name@ + " — "@ + label@,
{
    let mut t = to_owned_string("History: ");
    push_str(&mut t, singular_name);
    push_str(&mut t, " — ");
    push_str(&mut t, label);
    t
}

} // verus!
