//! The dashboard's seven-day activity sparkline: one point per day,
//! oldest first, ending today, with the day's audit-row count.
use vstd::prelude::*;
use chrono::Datelike;
use crate::filters::AdminField;
use crate::handlers::{date_text, format_ymd, weekday_label, weekday_short_name};
use crate::text::{push_str, str_eq, to_owned_string};

verus! {

/// What chrono gives for the date `offset` days before `y-m-d`: the
/// year, month, day and days from Monday of
/// `NaiveDate::from_ymd_opt(y, m, d)` less `TimeDelta::days(offset)`,
/// or `None` when the date does not exist or the result is out of
/// chrono's range.
pub uninterp spec fn chrono_days_before(y: i32, m: u32, d: u32, offset: int) -> Option<(i32, u32, u32, u32)>;

/// chrono's `NaiveDate::from_ymd_opt`, `checked_sub_signed` of
/// `TimeDelta::days(offset)`, and the result's `year()`, `month()`,
/// `day()` and `weekday().num_days_from_monday()`. chrono documents
/// `month()` as 1..=12, `day()` as 1..=31 and the days from Monday as
/// 0..=6. The offset stays small, far from `TimeDelta::days`' panic.
#[verifier::external_body]
fn days_before(y: i32, m: u32, d: u32, offset: i64) -> (r: Option<(i32, u32, u32, u32)>)
    requires
        0 <= offset <= 6,
    ensures
        r == chrono_days_before(y, m, d, offset as int),
        r matches Some(t) ==> 1 <= t.1 <= 12 && 1 <= t.2 <= 31 && t.3 < 7,
{
    let date = chrono::NaiveDate::from_ymd_opt(y, m, d)?;
    let back = date.checked_sub_signed(chrono::TimeDelta::days(offset))?;
    Some((back.year(), back.month(), back.day(), back.weekday().num_days_from_monday()))
}

/// One day of the sparkline.
#[derive(Debug, Clone)]
pub struct DaySparkPoint {
    /// `YYYY-MM-DD`.
    pub date_iso: String,
    /// Three-letter weekday.
    pub label: &'static str,
    pub count: i64,
}

pub open spec fn point_view(p: DaySparkPoint) -> (Seq<char>, Seq<char>, i64) {
    (p.date_iso@, p.label@, p.count)
}

/// The count recorded for a day; the last row for it wins, as when the
/// rows are collected into a map; no row counts zero.
pub open spec fn count_for(rows: Seq<((i32, u32, u32), i64)>, day: (i32, u32, u32)) -> i64
    decreases rows.len(),
{
    if rows.len() == 0 {
        0
    } else if rows.last().0 == day {
        rows.last().1
    } else {
        count_for(rows.drop_last(), day)
    }
}

/// The points of the first `n` days of the week ending on `today`
/// (`6 - k` days back for the `k`-th), each with its count, negatives
/// shown as zero; a day chrono cannot compute is left out.
pub open spec fn spark_of(today: (i32, u32, u32), rows: Seq<((i32, u32, u32), i64)>, n: int) -> Seq<
    (Seq<char>, Seq<char>, i64),
>
    decreases n,
{
    if n <= 0 {
        Seq::empty()
    } else {
        let r = spark_of(today, rows, n - 1);
        match chrono_days_before(today.0, today.1, today.2, 7 - n) {
            Some((y, m, d, w)) => {
                let c = count_for(rows, (y, m, d));
                r.push((date_text(y as int, m as int, d as int), weekday_label(w as int), if c < 0 { 0 } else { c }))
            },
            None => r,
        }
    }
}

fn count_of(rows: &[((i32, u32, u32), i64)], day: (i32, u32, u32)) -> (c: i64)
    ensures
        c == count_for(rows@, day),
{
    let mut k: usize = rows.len();
    assert(rows@.take(k as int) =~= rows@);
    while k > 0
        invariant
            k <= rows.len(),
            count_for(rows@, day) == count_for(rows@.take(k as int), day),
        decreases k,
    {
        assert(rows@.take(k as int).drop_last() =~= rows@.take(k - 1));
        let (dd, c) = rows[k - 1];
        if dd.0 == day.0 && dd.1 == day.1 && dd.2 == day.2 {
            return c;
        }
        k = k - 1;
    }
    0
}

/// The sparkline of the week ending on `today`, from the per-day audit
/// counts `rows` (see [`spark_of`]).
pub fn spark_points(today: (i32, u32, u32), rows: &[((i32, u32, u32), i64)]) -> (out: Vec<DaySparkPoint>)
    ensures
        out@.map_values(|p: DaySparkPoint| point_view(p)) == spark_of(today, rows@, 7),
{
    let mut out: Vec<DaySparkPoint> = Vec::new();
    let mut n: i64 = 0;
    while n < 7
        invariant
            0 <= n <= 7,
            out@.map_values(|p: DaySparkPoint| point_view(p)) == spark_of(today, rows@, n as int),
        decreases 7 - n,
    {
        let ghost before = out@.map_values(|p: DaySparkPoint| point_view(p));
        match days_before(today.0, today.1, today.2, 6 - n) {
            Some((y, m, d, w)) => {
                let c = count_of(rows, (y, m, d));
                let p = DaySparkPoint {
                    date_iso: format_ymd(y, m, d),
                    label: weekday_short_name(w),
                    count: if c < 0 { 0 } else { c },
                };
                out.push(p);
                assert(out@.map_values(|p: DaySparkPoint| point_view(p)) =~= before.push(point_view(out@.last())));
            },
            None => {},
        }
        n = n + 1;
    }
    out
}

// ---------------------------------------------------------------------------
// New rows this week
// ---------------------------------------------------------------------------

/// A model's "new this week" count is shown when it is a project model
/// (not a core one) and declares a `created_at` column.
pub open spec fn tracks_new_rows(core: bool, fields: Seq<AdminField>) -> bool {
    !core && exists|i: int| 0 <= i < fields.len() && (#[trigger] fields[i]).name@ == "created_at"@
}

/// Whether the dashboard counts a model's new rows (see
/// [`tracks_new_rows`]).
pub fn counts_new_rows(core: bool, fields: &[AdminField]) -> (b: bool)
    ensures
        b == tracks_new_rows(core, fields@),
{
    if core {
        return false;
    }
    let mut i: usize = 0;
    while i < fields.len()
        invariant
            i <= fields.len(),
            !core,
            forall|j: int| 0 <= j < i ==> (#[trigger] fields@[j]).name@ != "created_at"@,
        decreases fields.len() - i,
    {
        if str_eq(fields[i].name, "created_at") {
            assert(fields@[i as int].name@ == "created_at"@);
            return true;
        }
        i = i + 1;
    }
    false
}

/// The query counting a table's rows created in the last seven days.
pub fn new_this_week_query(table: &str) -> (q: String)
    ensures
        q@ == "SELECT COUNT(*) FROM "@ + table@ + " WHERE created_at > NOW() - INTERVAL '7 days'"@,
{
    let mut q = to_owned_string("SELECT COUNT(*) FROM ");
    push_str(&mut q, table);
    push_str(&mut q, " WHERE created_at > NOW() - INTERVAL '7 days'");
    q
}

} // verus!
