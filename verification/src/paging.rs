//! The list page's pagination: the page size a request may choose, the
//! page it asks for, and the clamp of a stale page number to the last
//! page.
use vstd::prelude::*;
use crate::handlers::{parse_i64, parse_i64_chars};
use crate::text::chars_of;

verus! {

/// The page sizes a `?per_page=` may pick.
pub open spec fn allowed_per_page(n: i64) -> bool {
    n == 25 || n == 50 || n == 100 || n == 200
}

/// The page size a request chose: its `per_page` parameter when that is
/// an `i64` among the allowed sizes.
pub open spec fn per_page_choice(raw: Option<Seq<char>>) -> Option<i64> {
    match raw {
        Some(s) => match parse_i64(s) {
            Some(n) => if allowed_per_page(n) { Some(n) } else { None },
            None => None,
        },
        None => None,
    }
}

fn opt_chars(raw: Option<&str>) -> (r: Option<i64>)
    ensures
        r == match raw {
            Some(s) => parse_i64(s@),
            None => None,
        },
{
    match raw {
        Some(s) => parse_i64_chars(chars_of(s).as_slice()),
        None => None,
    }
}

/// Reads `?per_page=` (see [`per_page_choice`]).
pub fn per_page_override(raw: Option<&str>) -> (r: Option<i64>)
    ensures
        r == per_page_choice(
            match raw {
                Some(s) => Some(s@),
                None => None,
            },
        ),
{
    match opt_chars(raw) {
        Some(n) => if n == 25 || n == 50 || n == 100 || n == 200 {
            Some(n)
        } else {
            None
        },
        None => None,
    }
}

/// The page size: the request's choice, else the model's default, at
/// least one.
pub fn page_size(choice: Option<i64>, list_per_page: usize) -> (n: i64)
    requires
        list_per_page <= i64::MAX,
    ensures
        n == ({
            let m = match choice {
                Some(c) => c as int,
                None => list_per_page as int,
            };
            if m < 1 { 1 } else { m }
        }),
{
    let m: i64 = match choice {
        Some(c) => c,
        None => list_per_page as i64,
    };
    if m < 1 { 1 } else { m }
}

/// The requested page: `?page=` as an `i64`, else 1, at least 1.
pub open spec fn requested_page_of(raw: Option<Seq<char>>) -> i64 {
    let p = match raw {
        Some(s) => match parse_i64(s) {
            Some(n) => n,
            None => 1,
        },
        None => 1,
    };
    if p < 1 { 1 } else { p }
}

/// Reads `?page=` (see [`requested_page_of`]).
pub fn requested_page(raw: Option<&str>) -> (p: i64)
    ensures
        p == requested_page_of(
            match raw {
                Some(s) => Some(s@),
                None => None,
            },
        ),
{
    let p: i64 = match opt_chars(raw) {
        Some(n) => n,
        None => 1,
    };
    if p < 1 { 1 } else { p }
}

/// The rows a page skips: `(page - 1) * per_page`.
pub fn page_offset(page: i64, per_page: i64) -> (o: i64)
    requires
        page >= 1,
        per_page >= 1,
        (page - 1) * per_page <= i64::MAX,
    ensures
        o == (page - 1) * per_page,
{
    (page - 1) * per_page
}

/// The number of pages for `total` rows: at least one.
pub open spec fn total_pages_of(total: int, per_page: int) -> int {
    let t = if total < 1 { 1 } else { total };
    let p = (t + per_page - 1) / per_page;
    if p < 1 { 1 } else { p }
}

/// Where a fetched page lands: the page clamped to the last one, the
/// page count, and whether the rows must be fetched again (the request
/// was past the last page of a non-empty list).
pub open spec fn page_clamp(total: int, per_page: int, requested: int) -> (int, int, bool) {
    let pages = total_pages_of(total, per_page);
    let page = if requested < pages { requested } else { pages };
    (page, pages, page != requested && total > 0)
}

/// Clamps the requested page once the row count is known (see
/// [`page_clamp`]).
pub fn clamp_page(total_rows: i64, per_page: i64, requested: i64) -> (r: (i64, i64, bool))
    requires
        1 <= per_page < i64::MAX,
        total_rows + per_page <= i64::MAX,
    ensures
        (r.0 as int, r.1 as int, r.2) == page_clamp(total_rows as int, per_page as int, requested as int),
        1 <= r.1,
        r.0 <= r.1,
{
    let t: i64 = if total_rows < 1 { 1 } else { total_rows };
    let p: i64 = (t + per_page - 1) / per_page;
    let pages: i64 = if p < 1 { 1 } else { p };
    let page: i64 = if requested < pages { requested } else { pages };
    (page, pages, page != requested && total_rows > 0)
}


/// The page count is the least number of `per_page`-row pages that hold
/// the rows (an empty list still has one page); the served page is the
/// requested one unless it lies past the last, then the last; the rows
/// are fetched again exactly when a non-empty list's page moved.
pub proof fn lemma_page_count_is_ceiling(total: int, per_page: int, requested: int)
    requires
        per_page >= 1,
    ensures
        ({
            let (page, pages, refetch) = page_clamp(total, per_page, requested);
            let t = if total < 1 { 1 } else { total };
            &&& (pages - 1) * per_page < t <= pages * per_page
            &&& page <= pages
            &&& (requested <= pages ==> page == requested)
            &&& (requested > pages ==> page == pages)
            &&& (refetch <==> (page != requested && total > 0))
        }),
{
    let t = if total < 1 { 1 } else { total };
    let q = (t + per_page - 1) / per_page;
    vstd::arithmetic::div_mod::lemma_fundamental_div_mod(t + per_page - 1, per_page);
    let r = (t + per_page - 1) % per_page;
    assert(0 <= r < per_page);
    assert(per_page * q + r == t + per_page - 1);
    assert(q >= 1) by (nonlinear_arith)
        requires
            per_page * q + r == t + per_page - 1,
            0 <= r < per_page,
            t >= 1,
    ;
    assert((q - 1) * per_page < t <= q * per_page) by (nonlinear_arith)
        requires
            per_page * q + r == t + per_page - 1,
            0 <= r < per_page,
    ;
}

} // verus!
