//! Review reports: the daily, weekly (Monday to Sunday) and monthly periods,
//! and the per-status counting every report total, day and category uses.
use vstd::prelude::*;
use crate::task_day::{
    add_days, chrono_add_days, chrono_days_from_monday, chrono_pred, chrono_valid, date_pred, date_valid,
    days_from_civil, days_from_monday, lemma_chrono_add_days, month_days, TaskDate,
};
use crate::text::{concat2, str_eq};

verus! {

#[derive(Clone, Copy, Debug, PartialEq, Eq, Structural)]
pub enum ReviewPeriod {
    Daily,
    Weekly,
    Monthly,
}

/// How many tasks of a period were planned, and in which status each is.
#[derive(Clone, Copy, Debug, PartialEq, Eq, Structural)]
pub struct StatusCounts {
    pub planned: i64,
    pub completed: i64,
    pub carried: i64,
    pub cancelled: i64,
    pub pending: i64,
}

/// Every planned task is in exactly one status.
pub open spec fn balanced(c: StatusCounts) -> bool {
    c.planned == c.completed + c.carried + c.cancelled + c.pending
}

/// Counts stay far from overflow (fewer tasks than 2^62).
pub open spec fn counts_ok(c: StatusCounts) -> bool {
    0 <= c.completed < 0x4000_0000_0000_0000 && 0 <= c.carried < 0x4000_0000_0000_0000
        && 0 <= c.cancelled < 0x4000_0000_0000_0000 && 0 <= c.pending < 0x4000_0000_0000_0000
        && 0 <= c.planned < 0x4000_0000_0000_0000
}

/// The statuses a task can be in.
pub open spec fn known_status(status: Seq<char>) -> bool {
    status == "completed"@ || status == "carried"@ || status == "cancelled"@ || status == "pending"@
}

/// The counts after one task of `status` is counted.
pub open spec fn recorded(c: StatusCounts, status: Seq<char>) -> StatusCounts {
    let planned = (c.planned + 1) as i64;
    if status == "completed"@ {
        StatusCounts { planned, completed: (c.completed + 1) as i64, ..c }
    } else if status == "carried"@ {
        StatusCounts { planned, carried: (c.carried + 1) as i64, ..c }
    } else if status == "cancelled"@ {
        StatusCounts { planned, cancelled: (c.cancelled + 1) as i64, ..c }
    } else if status == "pending"@ {
        StatusCounts { planned, pending: (c.pending + 1) as i64, ..c }
    } else {
        StatusCounts { planned, ..c }
    }
}

impl StatusCounts {
    /// All zero.
    pub fn new() -> (c: Self)
        ensures
            c == (StatusCounts { planned: 0, completed: 0, carried: 0, cancelled: 0, pending: 0 }),
    {
        StatusCounts { planned: 0, completed: 0, carried: 0, cancelled: 0, pending: 0 }
    }

    /// Counts one task: it is planned, and counted in its status. An unknown
    /// status is an error (after `planned` was counted).
    pub fn record(&mut self, status: &str) -> (r: Result<(), String>)
        requires
            counts_ok(*old(self)),
        ensures
            *final(self) == recorded(*old(self), status@),
            r is Ok <==> known_status(status@),
            r matches Err(e) ==> e@ == "unsupported task status: "@ + status@,
    {
        proof {
            reveal_strlit("completed");
            reveal_strlit("carried");
            reveal_strlit("cancelled");
            reveal_strlit("pending");
            assert("completed"@.len() != "carried"@.len());
            assert("completed"@.len() != "pending"@.len());
            assert("carried"@[0] != "pending"@[0]);
            assert("completed"@[1] != "cancelled"@[1]);
            assert("carried"@.len() != "cancelled"@.len());
            assert("cancelled"@.len() != "pending"@.len());
        }
        self.planned = self.planned + 1;
        if str_eq(status, "completed") {
            self.completed = self.completed + 1;
        } else if str_eq(status, "carried") {
            self.carried = self.carried + 1;
        } else if str_eq(status, "cancelled") {
            self.cancelled = self.cancelled + 1;
        } else if str_eq(status, "pending") {
            self.pending = self.pending + 1;
        } else {
            return Err(concat2("unsupported task status: ", status));
        }
        Ok(())
    }
}

/// Counting a task of a known status keeps every planned task in exactly
/// one status.
pub proof fn record_keeps_counts_balanced(before: StatusCounts, status: Seq<char>)
    requires
        balanced(before),
        known_status(status),
        counts_ok(before),
    ensures
        balanced(recorded(before, status)),
{
}

/// The date `(y, m, d)` as a task date.
pub open spec fn as_date(t: (i32, u32, u32)) -> TaskDate {
    TaskDate { year: t.0, month: t.1, day: t.2 }
}

/// The first and last day of the period around `anchor`: the day itself; the
/// Monday-to-Sunday week; or the calendar month (first day to the day before
/// the next month's first). Out-of-range dates are refused.
pub open spec fn period_bounds_spec(period: ReviewPeriod, anchor: TaskDate) -> Result<(TaskDate, TaskDate), Seq<char>> {
    match period {
        ReviewPeriod::Daily => Ok((anchor, anchor)),
        ReviewPeriod::Weekly => {
            let back = match chrono_days_from_monday(anchor.year, anchor.month, anchor.day) {
                Some(n) => chrono_add_days(anchor.year, anchor.month, anchor.day, -(n as int) as i64),
                None => None,
            };
            match back {
                None => Err("review week is outside the supported date range"@),
                Some(s) => match chrono_add_days(s.0, s.1, s.2, 6) {
                    None => Err("review week is outside the supported date range"@),
                    Some(e) => Ok((as_date(s), as_date(e))),
                },
            }
        },
        ReviewPeriod::Monthly => {
            if !chrono_valid(anchor.year, anchor.month, 1) {
                Err("invalid review month"@)
            } else {
                let next: Option<(i32, u32)> = if anchor.month == 12 {
                    if anchor.year < i32::MAX { Some(((anchor.year + 1) as i32, 1u32)) } else { None }
                } else if anchor.month < u32::MAX {
                    Some((anchor.year, (anchor.month + 1) as u32))
                } else {
                    None
                };
                match next {
                    None => Err("review month is outside the supported date range"@),
                    Some((ny, nm)) => if !chrono_valid(ny, nm, 1) {
                        Err("review month is outside the supported date range"@)
                    } else {
                        match chrono_pred(ny, nm, 1) {
                            None => Err("review month is outside the supported date range"@),
                            Some(e) => Ok((TaskDate { year: anchor.year, month: anchor.month, day: 1 }, as_date(e))),
                        }
                    },
                }
            }
        },
    }
}

/// The days from 1970-01-01 of a date.
pub open spec fn day_number(d: TaskDate) -> int {
    days_from_civil(d.year as int, d.month as int, d.day as int)
}

/// A weekly review covers seven consecutive valid days, from the Monday of
/// the anchor's week to the following Sunday, with the anchor among them.
pub proof fn review_week_runs_monday_to_sunday(anchor: TaskDate)
    ensures
        period_bounds_spec(ReviewPeriod::Weekly, anchor) matches Ok(b) ==> {
            &&& chrono_valid(b.0.year, b.0.month, b.0.day) && chrono_valid(b.1.year, b.1.month, b.1.day)
            &&& day_number(b.1) == day_number(b.0) + 6
            &&& day_number(b.0) <= day_number(anchor) <= day_number(b.1)
            &&& chrono_days_from_monday(b.0.year, b.0.month, b.0.day) == Some(0u32)
        },
{
    if let Some(n) = chrono_days_from_monday(anchor.year, anchor.month, anchor.day) {
        let back = -(n as int) as i64;
        lemma_chrono_add_days(anchor.year, anchor.month, anchor.day, back);
        if let Some(s) = chrono_add_days(anchor.year, anchor.month, anchor.day, back) {
            lemma_chrono_add_days(s.0, s.1, s.2, 6);
            let a = day_number(anchor);
            assert(n == (a + 3) % 7);
            assert(day_number(as_date(s)) == a - n);
            assert((a - n + 3) % 7 == 0) by (nonlinear_arith)
                requires
                    n == (a + 3) % 7,
            ;
        }
    }
}

/// A monthly review covers the anchor's calendar month, from its first day
/// to its last.
pub proof fn review_month_is_the_calendar_month(anchor: TaskDate)
    ensures
        period_bounds_spec(ReviewPeriod::Monthly, anchor) matches Ok(b) ==> {
            &&& b.0.year == anchor.year && b.0.month == anchor.month && b.0.day == 1
            &&& b.1.year == anchor.year && b.1.month == anchor.month
            &&& b.1.day == month_days(anchor.year as int, anchor.month as int)
        },
{
}

/// Computes the bounds of a review period.
pub fn period_bounds(period: ReviewPeriod, anchor: TaskDate) -> (r: Result<(TaskDate, TaskDate), String>)
    ensures
        match period_bounds_spec(period, anchor) {
            Ok(b) => r == Ok::<(TaskDate, TaskDate), String>(b),
            Err(msg) => r matches Err(e) && e@ == msg,
        },
{
    match period {
        ReviewPeriod::Daily => Ok((anchor, anchor)),
        ReviewPeriod::Weekly => {
            let back = match days_from_monday(anchor) {
                Some(n) => add_days(anchor, -(n as i64)),
                None => None,
            };
            let start = match back {
                Some(s) => s,
                None => return Err("review week is outside the supported date range".to_string()),
            };
            match add_days(start, 6) {
                Some(end) => Ok((start, end)),
                None => Err("review week is outside the supported date range".to_string()),
            }
        },
        ReviewPeriod::Monthly => {
            if !date_valid(anchor.year, anchor.month, 1) {
                return Err("invalid review month".to_string());
            }
            let start = TaskDate { year: anchor.year, month: anchor.month, day: 1 };
            let (ny, nm) = if anchor.month == 12 {
                if anchor.year == i32::MAX {
                    return Err("review month is outside the supported date range".to_string());
                }
                (anchor.year + 1, 1u32)
            } else {
                if anchor.month == u32::MAX {
                    return Err("review month is outside the supported date range".to_string());
                }
                (anchor.year, anchor.month + 1)
            };
            if !date_valid(ny, nm, 1) {
                return Err("review month is outside the supported date range".to_string());
            }
            match date_pred(TaskDate { year: ny, month: nm, day: 1 }) {
                Some(end) => Ok((start, end)),
                None => Err("review month is outside the supported date range".to_string()),
            }
        },
    }
}

/// One day of a review.
#[derive(Clone, Debug, PartialEq, Eq)]
pub struct ReviewDay {
    pub date: String,
    pub counts: StatusCounts,
}

/// One category of a review (`None` id: uncategorized).
#[derive(Clone, Debug, PartialEq, Eq)]
pub struct ReviewCategory {
    pub category_id: Option<String>,
    pub label: String,
    pub counts: StatusCounts,
}

/// One task as a review lists it.
#[derive(Clone, Debug, PartialEq, Eq)]
pub struct ReviewTask {
    pub id: String,
    pub title: String,
    pub category_name: Option<String>,
    pub status: String,
    pub scheduled_date: String,
    pub completed_at: Option<i64>,
    pub carried_from: Option<String>,
}

/// A review report.
#[derive(Clone, Debug, PartialEq, Eq)]
pub struct ReviewReport {
    pub period: ReviewPeriod,
    pub anchor_date: String,
    pub period_start: String,
    pub period_end: String,
    pub current_task_day: String,
    pub totals: StatusCounts,
    pub days: Vec<ReviewDay>,
    pub categories: Vec<ReviewCategory>,
    pub tasks: Vec<ReviewTask>,
}

/// The label of a task's category; uncategorized tasks are labelled
/// `Uncategorized`.
pub fn category_label(category_name: &Option<String>) -> (r: String)
    ensures
        r@ == match category_name {
            Some(n) => n@,
            None => "Uncategorized"@,
        },
{
    match category_name {
        Some(n) => crate::text::owned(n.as_str()),
        None => "Uncategorized".to_string(),
    }
}

} // verus!
