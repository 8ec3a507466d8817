//! The read-only user profile page: which tab is shown, the paging of
//! the activity tab, and the name the page leads with.
use vstd::prelude::*;
use crate::builtin::{email_display_name, humanize_email};
use crate::text::{chars_eq, chars_of, to_owned_string, trim, trim_str};

verus! {

broadcast use vstd::string::group_string_axioms;

/// Audit rows per activity page.
pub const ACTIVITY_PER_PAGE: i64 = 50;

/// Audit rows on the overview tab.
pub const OVERVIEW_RECENT_LIMIT: i64 = 7;

/// Users in the side list.
pub const LIST_PANE_LIMIT: i64 = 50;

/// The profile page's tabs.
#[derive(Debug, Clone, Copy, PartialEq, Eq, Structural)]
pub enum UserTab {
    Overview,
    Activity,
    Permissions,
    Sessions,
}

/// The tab a `?tab=` value selects; anything else is the overview.
pub open spec fn tab_of(tab: Option<Seq<char>>) -> UserTab {
    match tab {
        Some(t) => if t == "activity"@ {
            UserTab::Activity
        } else if t == "permissions"@ {
            UserTab::Permissions
        } else if t == "sessions"@ {
            UserTab::Sessions
        } else {
            UserTab::Overview
        },
        None => UserTab::Overview,
    }
}

fn is_lit(v: &Vec<char>, lit: &str) -> (b: bool)
    ensures
        b == (v@ == lit@),
{
    let l = chars_of(lit);
    chars_eq(v.as_slice(), l.as_slice())
}

/// Selects the tab (see [`tab_of`]).
pub fn user_tab(tab: Option<&str>) -> (t: UserTab)
    ensures
        t == tab_of(
            match tab {
                Some(s) => Some(s@),
                None => None,
            },
        ),
{
    match tab {
        Some(s) => {
            let v = chars_of(s);
            if is_lit(&v, "activity") {
                UserTab::Activity
            } else if is_lit(&v, "permissions") {
                UserTab::Permissions
            } else if is_lit(&v, "sessions") {
                UserTab::Sessions
            } else {
                UserTab::Overview
            }
        },
        None => UserTab::Overview,
    }
}

/// The tab's name in the page.
pub fn tab_name(t: UserTab) -> (s: &'static str)
    ensures
        s@ == match t {
            UserTab::Overview => "overview"@,
            UserTab::Activity => "activity"@,
            UserTab::Permissions => "permissions"@,
            UserTab::Sessions => "sessions"@,
        },
{
    match t {
        UserTab::Overview => "overview",
        UserTab::Activity => "activity",
        UserTab::Permissions => "permissions",
        UserTab::Sessions => "sessions",
    }
}

/// The activity tab's page count: at least one page.
pub open spec fn activity_pages(count: int) -> int {
    let c = if count < 1 { 1 } else { count };
    (c + ACTIVITY_PER_PAGE - 1) / (ACTIVITY_PER_PAGE as int)
}

/// `(page, total pages, offset)` of the activity tab: the requested
/// page clamped into `1 ..= total`, and the rows it skips.
pub open spec fn activity_window(count: int, page: int) -> (int, int, int) {
    let total = activity_pages(count);
    let p0 = if page < 1 { 1 } else { page };
    let p = if p0 > total { total } else { p0 };
    (p, total, (p - 1) * ACTIVITY_PER_PAGE)
}

/// Pages the activity tab (see [`activity_window`]).
pub fn activity_paging(activity_count: i64, page: i64) -> (r: (i64, i64, i64))
    requires
        activity_count <= i64::MAX - ACTIVITY_PER_PAGE,
    ensures
        (r.0 as int, r.1 as int, r.2 as int) == activity_window(activity_count as int, page as int),
        1 <= r.0 <= r.1,
{
    let c: i64 = if activity_count < 1 { 1 } else { activity_count };
    let total: i64 = (c + ACTIVITY_PER_PAGE - 1) / ACTIVITY_PER_PAGE;
    assert(total >= 1) by (nonlinear_arith)
        requires c >= 1, total == (c + 49) / 50;
    let p0: i64 = if page < 1 { 1 } else { page };
    let p: i64 = if p0 > total { total } else { p0 };
    assert((p - 1) * 50 <= c + 49) by (nonlinear_arith)
        requires 1 <= p <= total, total == (c + 49) / 50, c >= 1;
    (p, total, (p - 1) * ACTIVITY_PER_PAGE)
}

/// The name the page leads with: the full name when it is not blank,
/// else a name made from the email (see
/// [`crate::builtin::humanize_email`]).
pub open spec fn display_name_of(full_name: Option<Seq<char>>, email: Seq<char>) -> Seq<char> {
    match full_name {
        Some(n) => if trim(n).len() > 0 {
            n
        } else {
            email_display_name(email)
        },
        None => email_display_name(email),
    }
}

/// Picks the page's leading name (see [`display_name_of`]).
pub fn display_name(full_name: Option<&str>, email: &str) -> (r: String)
    ensures
        r@ == display_name_of(
            match full_name {
                Some(n) => Some(n@),
                None => None,
            },
            email@,
        ),
{
    match full_name {
        Some(n) => {
            if trim_str(n).len() > 0 {
                to_owned_string(n)
            } else {
                humanize_email(email)
            }
        },
        None => humanize_email(email),
    }
}

} // verus!
