//! The list page's reading of its query string into SQL filters: each
//! stock filter of the model takes its value(s) from the query string.
use vstd::prelude::*;
use crate::filters::{kind_view, FilterDef, FilterKind, KindSpec};
use crate::handlers::{date_filter_value, parse_date_yyyy_mm_dd};
use crate::text::{chars_of, push_str, str_eq, to_owned_string};

verus! {

broadcast use vstd::string::group_string_axioms;

/// The filters read off a query string: `column = value` matches and
/// inclusive date ranges, ready for the list query.
#[derive(Debug, Clone)]
pub struct SqlFilterQuery {
    pub filters: Vec<(String, String)>,
    pub date_ranges: Vec<(String, Option<String>, Option<String>)>,
}

/// The value of the first query parameter named `name`.
pub open spec fn qs_first(qs: Seq<(String, String)>, name: Seq<char>) -> Option<Seq<char>>
    decreases qs.len(),
{
    if qs.len() == 0 {
        None
    } else if qs[0].0@ == name {
        Some(qs[0].1@)
    } else {
        qs_first(qs.drop_first(), name)
    }
}

/// A date bound: the parameter, read as a canonical date.
pub open spec fn date_bound(qs: Seq<(String, String)>, name: Seq<char>) -> Option<Seq<char>> {
    match qs_first(qs, name) {
        Some(v) => date_filter_value(v),
        None => None,
    }
}

/// The `column = value` filters of the first `n` filter definitions: a
/// dropdown or yes/no filter whose parameter is present and not empty.
pub open spec fn eq_filters(defs: Seq<FilterDef>, qs: Seq<(String, String)>, n: int) -> Seq<(Seq<char>, Seq<char>)>
    decreases n,
{
    if n <= 0 {
        Seq::empty()
    } else {
        let r = eq_filters(defs, qs, n - 1);
        let f = defs[n - 1];
        match kind_view(f.kind) {
            KindSpec::DropdownText | KindSpec::BoolYesNo => match qs_first(qs, f.field@) {
                Some(v) => if v.len() > 0 {
                    r.push((f.field@, v))
                } else {
                    r
                },
                None => r,
            },
            _ => r,
        }
    }
}

/// The date ranges of the first `n` filter definitions: a date filter
/// with at least one of `<field>__gte` / `<field>__lte` reading as a date.
pub open spec fn range_filters(defs: Seq<FilterDef>, qs: Seq<(String, String)>, n: int) -> Seq<
    (Seq<char>, Option<Seq<char>>, Option<Seq<char>>),
>
    decreases n,
{
    if n <= 0 {
        Seq::empty()
    } else {
        let r = range_filters(defs, qs, n - 1);
        let f = defs[n - 1];
        match kind_view(f.kind) {
            KindSpec::DateRange => {
                let gte = date_bound(qs, f.field@ + "__gte"@);
                let lte = date_bound(qs, f.field@ + "__lte"@);
                if gte is Some || lte is Some {
                    r.push((f.field@, gte, lte))
                } else {
                    r
                }
            },
            _ => r,
        }
    }
}

pub open spec fn opt_view(o: Option<String>) -> Option<Seq<char>> {
    match o {
        Some(s) => Some(s@),
        None => None,
    }
}

fn first_param(qs: &[(String, String)], name: &str) -> (r: Option<String>)
    ensures
        opt_view(r) == qs_first(qs@, name@),
{
    let mut i: usize = 0;
    assert(qs@.skip(0) =~= qs@);
    while i < qs.len()
        invariant
            i <= qs.len(),
            qs_first(qs@, name@) == qs_first(qs@.skip(i as int), name@),
        decreases qs.len() - i,
    {
        assert(qs@.skip(i as int).drop_first() =~= qs@.skip(i + 1));
        if str_eq(qs[i].0.as_str(), name) {
            return Some(qs[i].1.clone());
        }
        i = i + 1;
    }
    None
}

fn bound(qs: &[(String, String)], field: &str, suffix: &str) -> (r: Option<String>)
    ensures
        opt_view(r) == date_bound(qs@, field@ + suffix@),
{
    let mut name = to_owned_string(field);
    push_str(&mut name, suffix);
    match first_param(qs, name.as_str()) {
        Some(v) => parse_date_yyyy_mm_dd(v.as_str()),
        None => None,
    }
}

/// Reads the query string `qs` for the model's stock filters `defs`
/// (see [`eq_filters`] and [`range_filters`]); other kinds of filter
/// take nothing from it here.
pub fn sql_filter_query(defs: &[FilterDef], qs: &[(String, String)]) -> (q: SqlFilterQuery)
    ensures
        q.filters@.map_values(|p: (String, String)| (p.0@, p.1@)) == eq_filters(defs@, qs@, defs@.len() as int),
        q.date_ranges@.map_values(|r: (String, Option<String>, Option<String>)| (r.0@, opt_view(r.1), opt_view(r.2)))
            == range_filters(defs@, qs@, defs@.len() as int),
{
    let mut filters: Vec<(String, String)> = Vec::new();
    let mut date_ranges: Vec<(String, Option<String>, Option<String>)> = Vec::new();
    let mut i: usize = 0;
    while i < defs.len()
        invariant
            i <= defs.len(),
            filters@.map_values(|p: (String, String)| (p.0@, p.1@)) == eq_filters(defs@, qs@, i as int),
            date_ranges@.map_values(|r: (String, Option<String>, Option<String>)| (r.0@, opt_view(r.1), opt_view(r.2)))
                == range_filters(defs@, qs@, i as int),
        decreases defs.len() - i,
    {
        let ghost fv = filters@.map_values(|p: (String, String)| (p.0@, p.1@));
        let ghost rv = date_ranges@.map_values(|r: (String, Option<String>, Option<String>)| (r.0@, opt_view(r.1), opt_view(r.2)));
        let f = &defs[i];
        match &f.kind {
            FilterKind::DropdownText | FilterKind::BoolYesNo => {
                match first_param(qs, f.field.as_str()) {
                    Some(v) => {
                        if chars_of(v.as_str()).len() > 0 {
                            filters.push((f.field.clone(), v));
                            assert(filters@.map_values(|p: (String, String)| (p.0@, p.1@)) =~= fv.push(
                                (f.field@, filters@.last().1@),
                            ));
                        }
                    },
                    None => {},
                }
            },
            FilterKind::DateRange => {
                let gte = bound(qs, f.field.as_str(), "__gte");
                let lte = bound(qs, f.field.as_str(), "__lte");
                if gte.is_some() || lte.is_some() {
                    date_ranges.push((f.field.clone(), gte, lte));
                    assert(date_ranges@.map_values(|r: (String, Option<String>, Option<String>)| (r.0@, opt_view(r.1), opt_view(r.2)))
                        =~= rv.push((f.field@, opt_view(date_ranges@.last().1), opt_view(date_ranges@.last().2))));
                }
            },
            _ => {},
        }
        i = i + 1;
    }
    SqlFilterQuery { filters, date_ranges }
}


/// A dropdown or yes/no filter of the first `n` whose query parameter is
/// present and not empty is applied with that value.
pub proof fn lemma_chosen_filters_are_applied(defs: Seq<FilterDef>, qs: Seq<(String, String)>, n: int)
    requires
        0 <= n <= defs.len(),
    ensures
        forall|j: int|
            #![trigger defs[j]]
            0 <= j < n && (defs[j].kind is DropdownText || defs[j].kind is BoolYesNo) && qs_first(
                qs,
                defs[j].field@,
            ) is Some && qs_first(qs, defs[j].field@)->0.len() > 0 ==> eq_filters(defs, qs, n).contains(
                (defs[j].field@, qs_first(qs, defs[j].field@)->0),
            ),
    decreases n,
{
    if n > 0 {
        lemma_chosen_filters_are_applied(defs, qs, n - 1);
        let r = eq_filters(defs, qs, n - 1);
        let out = eq_filters(defs, qs, n);
        assert forall|k: int| 0 <= k < r.len() implies out.contains(#[trigger] r[k]) by {
            if out != r {
                assert(out[k] == r[k]);
            }
        }
        assert forall|j: int|
            #![trigger defs[j]]
            0 <= j < n && (defs[j].kind is DropdownText || defs[j].kind is BoolYesNo) && qs_first(
                qs,
                defs[j].field@,
            ) is Some && qs_first(qs, defs[j].field@)->0.len() > 0 implies out.contains(
            (defs[j].field@, qs_first(qs, defs[j].field@)->0),
        ) by {
            if j < n - 1 {
                let p = (defs[j].field@, qs_first(qs, defs[j].field@)->0);
                let k = choose|k: int| 0 <= k < r.len() && r[k] == p;
                assert(out.contains(r[k]));
            } else {
                let p = (defs[j].field@, qs_first(qs, defs[j].field@)->0);
                assert(out == r.push(p));
                assert(out[r.len() as int] == p);
            }
        }
    }
}

/// Every applied `column = value` comes from a dropdown or yes/no filter
/// of the first `n` whose query parameter carries that (non-empty) value.
pub proof fn lemma_applied_filters_were_chosen(defs: Seq<FilterDef>, qs: Seq<(String, String)>, n: int)
    requires
        0 <= n <= defs.len(),
    ensures
        forall|k: int|
            0 <= k < eq_filters(defs, qs, n).len() ==> exists|j: int|
                #![trigger defs[j]]
                0 <= j < n && (defs[j].kind is DropdownText || defs[j].kind is BoolYesNo) && defs[j].field@
                    == (#[trigger] eq_filters(defs, qs, n)[k]).0 && qs_first(qs, defs[j].field@) == Some(
                    eq_filters(defs, qs, n)[k].1,
                ) && eq_filters(defs, qs, n)[k].1.len() > 0,
    decreases n,
{
    if n > 0 {
        lemma_applied_filters_were_chosen(defs, qs, n - 1);
        let r = eq_filters(defs, qs, n - 1);
        let out = eq_filters(defs, qs, n);
        assert forall|k: int| 0 <= k < out.len() implies exists|j: int|
            #![trigger defs[j]]
            0 <= j < n && (defs[j].kind is DropdownText || defs[j].kind is BoolYesNo) && defs[j].field@
                == (#[trigger] out[k]).0 && qs_first(qs, defs[j].field@) == Some(out[k].1) && out[k].1.len()
                > 0 by {
            if k < r.len() {
                assert(out[k] == r[k]);
                let j = choose|j: int|
                    #![trigger defs[j]]
                    0 <= j < n - 1 && (defs[j].kind is DropdownText || defs[j].kind is BoolYesNo)
                        && defs[j].field@ == r[k].0 && qs_first(qs, defs[j].field@) == Some(r[k].1)
                        && r[k].1.len() > 0;
                assert(defs[j] == defs[j]);
            } else {
                let j = n - 1;
                assert(defs[j] == defs[j]);
            }
        }
    }
}


/// A date filter of the first `n` is applied as a range when one of its
/// `__gte` / `__lte` parameters reads as a date, with those bounds.
pub proof fn lemma_date_ranges_follow_bounds(defs: Seq<FilterDef>, qs: Seq<(String, String)>, n: int)
    requires
        0 <= n <= defs.len(),
    ensures
        forall|j: int|
            #![trigger defs[j]]
            0 <= j < n && defs[j].kind is DateRange && (date_bound(qs, defs[j].field@ + "__gte"@) is Some
                || date_bound(qs, defs[j].field@ + "__lte"@) is Some) ==> range_filters(defs, qs, n).contains(
                (
                    defs[j].field@,
                    date_bound(qs, defs[j].field@ + "__gte"@),
                    date_bound(qs, defs[j].field@ + "__lte"@),
                ),
            ),
    decreases n,
{
    if n > 0 {
        lemma_date_ranges_follow_bounds(defs, qs, n - 1);
        let r = range_filters(defs, qs, n - 1);
        let out = range_filters(defs, qs, n);
        assert forall|k: int| 0 <= k < r.len() implies out.contains(#[trigger] r[k]) by {
            assert(out[k] == r[k]);
        }
        assert forall|j: int|
            #![trigger defs[j]]
            0 <= j < n && defs[j].kind is DateRange && (date_bound(qs, defs[j].field@ + "__gte"@) is Some
                || date_bound(qs, defs[j].field@ + "__lte"@) is Some) implies out.contains(
            (
                defs[j].field@,
                date_bound(qs, defs[j].field@ + "__gte"@),
                date_bound(qs, defs[j].field@ + "__lte"@),
            ),
        ) by {
            let p = (
                defs[j].field@,
                date_bound(qs, defs[j].field@ + "__gte"@),
                date_bound(qs, defs[j].field@ + "__lte"@),
            );
            if j < n - 1 {
                let k = choose|k: int| 0 <= k < r.len() && r[k] == p;
                assert(out.contains(r[k]));
            } else {
                assert(out[r.len() as int] == p);
            }
        }
    }
}

/// Every applied date range comes from a date filter of the first `n`
/// and carries its bounds, at least one of which reads as a date.
pub proof fn lemma_date_ranges_were_chosen(defs: Seq<FilterDef>, qs: Seq<(String, String)>, n: int)
    requires
        0 <= n <= defs.len(),
    ensures
        forall|k: int|
            0 <= k < range_filters(defs, qs, n).len() ==> exists|j: int|
                #![trigger defs[j]]
                0 <= j < n && defs[j].kind is DateRange && (#[trigger] range_filters(defs, qs, n)[k]).0
                    == defs[j].field@ && range_filters(defs, qs, n)[k].1 == date_bound(
                    qs,
                    defs[j].field@ + "__gte"@,
                ) && range_filters(defs, qs, n)[k].2 == date_bound(qs, defs[j].field@ + "__lte"@) && (
                range_filters(defs, qs, n)[k].1 is Some || range_filters(defs, qs, n)[k].2 is Some),
    decreases n,
{
    if n > 0 {
        lemma_date_ranges_were_chosen(defs, qs, n - 1);
        let r = range_filters(defs, qs, n - 1);
        let out = range_filters(defs, qs, n);
        assert forall|k: int| 0 <= k < out.len() implies exists|j: int|
            #![trigger defs[j]]
            0 <= j < n && defs[j].kind is DateRange && (#[trigger] out[k]).0 == defs[j].field@ && out[k].1
                == date_bound(qs, defs[j].field@ + "__gte"@) && out[k].2 == date_bound(
                qs,
                defs[j].field@ + "__lte"@,
            ) && (out[k].1 is Some || out[k].2 is Some) by {
            if k < r.len() {
                assert(out[k] == r[k]);
                let j = choose|j: int|
                    #![trigger defs[j]]
                    0 <= j < n - 1 && defs[j].kind is DateRange && r[k].0 == defs[j].field@ && r[k].1
                        == date_bound(qs, defs[j].field@ + "__gte"@) && r[k].2 == date_bound(
                        qs,
                        defs[j].field@ + "__lte"@,
                    ) && (r[k].1 is Some || r[k].2 is Some);
                assert(defs[j] == defs[j]);
            } else {
                let j = n - 1;
                assert(defs[j] == defs[j]);
            }
        }
    }
}

} // verus!
