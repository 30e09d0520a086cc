//! Task days: calendar dates as plain values, the day-rollover setting, and
//! the rule that a task day changes at the rollover rather than at midnight.
//! Calendar arithmetic (month lengths, leap years, weekdays) is chrono's.
use vstd::prelude::*;
use vstd::string::StringSliceAdditionalSpecFns;

verus! {

/// A calendar date (proleptic Gregorian), as chrono's `NaiveDate` holds it.
#[derive(Clone, Copy, Debug, PartialEq, Eq, Structural)]
pub struct TaskDate {
    pub year: i32,
    pub month: u32,
    pub day: u32,
}

/// A local wall-clock time on a date.
#[derive(Clone, Copy, Debug, PartialEq, Eq, Structural)]
pub struct LocalDateTime {
    pub date: TaskDate,
    pub hour: u32,
    pub minute: u32,
    pub second: u32,
}

/// The time of day at which a new task day starts.
#[derive(Clone, Copy, Debug, PartialEq, Eq, Structural)]
pub struct Rollover {
    pub hour: u32,
    pub minute: u32,
}

/// What `chrono::NaiveTime::parse_from_str(text, "%H:%M")` yields: the hour
/// and minute it reads, or `None`.
pub uninterp spec fn chrono_hour_minute(text: Seq<char>) -> Option<(u32, u32)>;

/// Calls `chrono::NaiveTime::parse_from_str` with `%H:%M`; the contract claims
/// only that the result is a function of the text.
#[verifier::external_body]
fn parse_hour_minute(text: &str) -> (r: Option<(u32, u32)>)
    ensures
        r == chrono_hour_minute(text@),
{
    chrono::NaiveTime::parse_from_str(text, "%H:%M")
        .ok()
        .map(|t| (chrono::Timelike::hour(&t), chrono::Timelike::minute(&t)))
}

/// `a` comes strictly before `b` in (year, month, day) order, which is the
/// calendar order of valid dates.
pub open spec fn date_before(a: TaskDate, b: TaskDate) -> bool {
    a.year < b.year || (a.year == b.year && (a.month < b.month || (a.month == b.month && a.day < b.day)))
}

/// Month and day lie in the ranges every valid date has.
pub open spec fn fields_in_range(d: TaskDate) -> bool {
    1 <= d.month <= 12 && 1 <= d.day <= 31
}

/// `a` is not after `b`.
pub fn date_not_after(a: TaskDate, b: TaskDate) -> (r: bool)
    ensures
        r == !date_before(b, a),
{
    !(b.year < a.year || (b.year == a.year && (b.month < a.month || (b.month == a.month && b.day < a.day))))
}

/// The first and last years a chrono `NaiveDate` can hold.
pub open spec fn first_year() -> int { -262143 }
pub open spec fn last_year() -> int { 262142 }

/// A proleptic Gregorian leap year.
pub open spec fn leap_year(year: int) -> bool {
    (year % 4 == 0 && year % 100 != 0) || year % 400 == 0
}

/// The number of days of a month.
pub open spec fn month_days(year: int, month: int) -> int {
    if month == 2 {
        if leap_year(year) { 29 } else { 28 }
    } else if month == 4 || month == 6 || month == 9 || month == 11 {
        30
    } else {
        31
    }
}

/// What `NaiveDate::from_ymd_opt(y, m, d)` then `pred_opt` yields: the
/// previous calendar date, none before the first representable date or for
/// an invalid date.
pub open spec fn chrono_pred(year: i32, month: u32, day: u32) -> Option<(i32, u32, u32)> {
    if !chrono_valid(year, month, day) {
        None
    } else if day > 1 {
        Some((year, month, (day - 1) as u32))
    } else if month > 1 {
        Some((year, (month - 1) as u32, month_days(year as int, month - 1) as u32))
    } else if year > first_year() {
        Some(((year - 1) as i32, 12u32, 31u32))
    } else {
        None
    }
}

/// What `NaiveDate::from_ymd_opt(y, m, d)` then `succ_opt` yields: the next
/// calendar date, none after the last representable date or for an invalid
/// date.
pub open spec fn chrono_succ(year: i32, month: u32, day: u32) -> Option<(i32, u32, u32)> {
    if !chrono_valid(year, month, day) {
        None
    } else if day < month_days(year as int, month as int) {
        Some((year, month, (day + 1) as u32))
    } else if month < 12 {
        Some((year, (month + 1) as u32, 1u32))
    } else if year < last_year() {
        Some(((year + 1) as i32, 1u32, 1u32))
    } else {
        None
    }
}

/// Calls `chrono::NaiveDate::pred_opt` on the date; the contract claims the
/// previous calendar date (`chrono_pred`), `None` for the first
/// representable date or an invalid one.
#[verifier::external_body]
pub(crate) fn date_pred(date: TaskDate) -> (r: Option<TaskDate>)
    ensures
        match r {
            Some(p) => {
                &&& chrono_pred(date.year, date.month, date.day) == Some((p.year, p.month, p.day))
            },
            None => chrono_pred(date.year, date.month, date.day) is None,
        },
{
    chrono::NaiveDate::from_ymd_opt(date.year, date.month, date.day)
        .and_then(|d| d.pred_opt())
        .map(|d| TaskDate {
            year: chrono::Datelike::year(&d),
            month: chrono::Datelike::month(&d),
            day: chrono::Datelike::day(&d),
        })
}

/// Calls `chrono::NaiveDate::succ_opt` on the date; the contract claims the
/// next calendar date (`chrono_succ`), `None` for the last representable
/// date or an invalid one.
#[verifier::external_body]
pub(crate) fn date_succ(date: TaskDate) -> (r: Option<TaskDate>)
    ensures
        match r {
            Some(p) => {
                &&& chrono_succ(date.year, date.month, date.day) == Some((p.year, p.month, p.day))
            },
            None => chrono_succ(date.year, date.month, date.day) is None,
        },
{
    chrono::NaiveDate::from_ymd_opt(date.year, date.month, date.day)
        .and_then(|d| d.succ_opt())
        .map(|d| TaskDate {
            year: chrono::Datelike::year(&d),
            month: chrono::Datelike::month(&d),
            day: chrono::Datelike::day(&d),
        })
}

/// A rollover is accepted only as five bytes with `:` third, which chrono
/// then reads as a 24-hour `HH:MM` time.
pub open spec fn rollover_spec(value: &str) -> Option<Rollover> {
    if value.spec_bytes().len() == 5 && value.spec_bytes()[2] == 58u8 {
        match chrono_hour_minute(value@) {
            Some((h, m)) => Some(Rollover { hour: h, minute: m }),
            None => None,
        }
    } else {
        None
    }
}

/// Parses the day-rollover setting (`HH:MM`, 24-hour).
pub fn parse_rollover(value: &str) -> (r: Result<Rollover, String>)
    ensures
        match rollover_spec(value) {
            Some(ro) => r == Ok::<Rollover, String>(ro),
            None => r matches Err(e) && e@ == "day rollover must use 24-hour HH:MM format"@,
        },
{
    let bytes = value.as_bytes();
    if bytes.len() != 5 || bytes[2] != 58u8 {
        return Err("day rollover must use 24-hour HH:MM format".to_string());
    }
    match parse_hour_minute(value) {
        Some((h, m)) => Ok(Rollover { hour: h, minute: m }),
        None => Err("day rollover must use 24-hour HH:MM format".to_string()),
    }
}

/// A time of day is before the rollover.
pub open spec fn before_rollover(t: LocalDateTime, r: Rollover) -> bool {
    t.hour < r.hour || (t.hour == r.hour && t.minute < r.minute)
}

/// The task day of a local time: before the rollover it is still the
/// previous calendar day (unless there is none); from the rollover on it is
/// the calendar day itself.
pub open spec fn task_day_spec(t: LocalDateTime, r: Rollover) -> TaskDate {
    if before_rollover(t, r) {
        match chrono_pred(t.date.year, t.date.month, t.date.day) {
            Some((y, m, d)) => TaskDate { year: y, month: m, day: d },
            None => t.date,
        }
    } else {
        t.date
    }
}

/// Computes the task day of a local time.
pub fn task_day_at(local_time: LocalDateTime, rollover: Rollover) -> (r: TaskDate)
    ensures
        r == task_day_spec(local_time, rollover),
        (local_time.hour < rollover.hour || (local_time.hour == rollover.hour && local_time.minute < rollover.minute))
            ==> match chrono_pred(local_time.date.year, local_time.date.month, local_time.date.day) {
                Some(p) => r.year == p.0 && r.month == p.1 && r.day == p.2,
                None => r == local_time.date,
            },
        !(local_time.hour < rollover.hour || (local_time.hour == rollover.hour && local_time.minute < rollover.minute))
            ==> r == local_time.date,
{
    if local_time.hour < rollover.hour || (local_time.hour == rollover.hour && local_time.minute < rollover.minute) {
        match date_pred(local_time.date) {
            Some(p) => p,
            None => local_time.date,
        }
    } else {
        local_time.date
    }
}

/// A time of day strictly before the rollover (earlier hour, or the same
/// hour and an earlier minute) still belongs to the previous calendar day;
/// from the rollover's hour and minute on, the task day is the calendar day.
pub proof fn task_day_changes_at_the_rollover_minute(t: LocalDateTime, r: Rollover)
    ensures
        (t.hour < r.hour || (t.hour == r.hour && t.minute < r.minute))
            ==> match chrono_pred(t.date.year, t.date.month, t.date.day) {
                Some(p) => task_day_spec(t, r).year == p.0 && task_day_spec(t, r).month == p.1 && task_day_spec(t, r).day == p.2,
                None => task_day_spec(t, r) == t.date,
            },
        !(t.hour < r.hour || (t.hour == r.hour && t.minute < r.minute)) ==> task_day_spec(t, r) == t.date,
{
}

/// For valid clock readings, the day changes exactly when the minutes since
/// midnight reach the rollover's: a time before it is on the previous day
/// (when there is one), a time at or after it on its own date.
pub proof fn task_day_follows_minutes_since_midnight(t: LocalDateTime, r: Rollover)
    requires
        t.minute < 60,
        r.minute < 60,
        chrono_pred(t.date.year, t.date.month, t.date.day) is Some,
    ensures
        (task_day_spec(t, r) == t.date) <==> (t.hour * 60 + t.minute >= r.hour * 60 + r.minute),
{
}

/// From the rollover on, the task day is the calendar day; a midnight
/// rollover therefore never moves a time to the previous day.
pub proof fn midnight_rollover_is_the_calendar_day(t: LocalDateTime)
    ensures
        task_day_spec(t, Rollover { hour: 0, minute: 0 }) == t.date,
{
}

/// What `NaiveDate::parse_from_str(text, "%Y-%m-%d")` yields.
pub uninterp spec fn chrono_parse_date(text: Seq<char>) -> Option<(i32, u32, u32)>;

/// Calls `chrono::NaiveDate::parse_from_str` with `%Y-%m-%d`; the contract
/// claims only that the result is a function of the text.
#[verifier::external_body]
fn parse_ymd(text: &str) -> (r: Option<TaskDate>)
    ensures
        match r {
            Some(d) => chrono_parse_date(text@) == Some((d.year, d.month, d.day)),
            None => chrono_parse_date(text@) is None,
        },
{
    chrono::NaiveDate::parse_from_str(text, "%Y-%m-%d")
        .ok()
        .map(|d| TaskDate {
            year: chrono::Datelike::year(&d),
            month: chrono::Datelike::month(&d),
            day: chrono::Datelike::day(&d),
        })
}

/// Reads a `YYYY-MM-DD` date; `message` is the refusal text.
pub fn parse_date(value: &str, message: &str) -> (r: Result<TaskDate, String>)
    ensures
        match chrono_parse_date(value@) {
            Some((y, m, d)) => r == Ok::<TaskDate, String>(TaskDate { year: y, month: m, day: d }),
            None => r matches Err(e) && e@ == message@,
        },
{
    match parse_ymd(value) {
        Some(d) => Ok(d),
        None => Err(crate::text::owned(message)),
    }
}

/// `%Y`: the year zero-padded to four digits; outside 0..=9999 a sign
/// (`+` or `-`) leads at least four digits.
pub open spec fn year_text(year: int) -> Seq<char> {
    if 0 <= year <= 9999 {
        crate::tasks::zero_padded(year, 4)
    } else {
        (if year < 0 { seq!['-'] } else { seq!['+'] }) + crate::tasks::zero_padded(if year < 0 { -year } else { year }, 4)
    }
}

/// What `NaiveDate::format("%Y-%m-%d")` writes for a valid date: the year
/// as `year_text` writes it, then the month and the day zero-padded to two
/// digits, separated by hyphens.
pub closed spec fn chrono_format_date(year: i32, month: u32, day: u32) -> Seq<char> {
    year_text(year as int) + "-"@ + crate::tasks::zero_padded(month as int, 2) + "-"@
        + crate::tasks::zero_padded(day as int, 2)
}

/// Calls `chrono::NaiveDate::format` with `%Y-%m-%d`; the contract claims
/// the text `chrono_format_date` states (chrono's `write_year` and
/// `write_two` with zero padding). The date must be valid.
#[verifier::external_body]
pub(crate) fn format_date(date: TaskDate) -> (r: String)
    requires
        chrono_valid(date.year, date.month, date.day),
    ensures
        r@ == chrono_format_date(date.year, date.month, date.day),
{
    match chrono::NaiveDate::from_ymd_opt(date.year, date.month, date.day) {
        Some(d) => d.format("%Y-%m-%d").to_string(),
        None => String::new(),
    }
}

/// `NaiveDate::from_ymd_opt(y, m, d)` succeeds: a proleptic Gregorian date
/// within chrono's year range.
pub open spec fn chrono_valid(year: i32, month: u32, day: u32) -> bool {
    &&& first_year() <= year <= last_year()
    &&& 1 <= month <= 12
    &&& 1 <= day <= month_days(year as int, month as int)
}

/// Calls `chrono::NaiveDate::from_ymd_opt`; the contract claims that it
/// accepts exactly the proleptic Gregorian dates of chrono's year range
/// (`chrono_valid`), as its documentation and source state.
#[verifier::external_body]
pub(crate) fn date_valid(year: i32, month: u32, day: u32) -> (r: bool)
    ensures
        r == chrono_valid(year, month, day),
{
    chrono::NaiveDate::from_ymd_opt(year, month, day).is_some()
}

/// Text of a date that may be invalid: the formatted date, or the refusal.
pub fn date_text(date: TaskDate) -> (r: Result<String, String>)
    ensures
        chrono_valid(date.year, date.month, date.day) ==> (r matches Ok(t) && t@ == chrono_format_date(date.year, date.month, date.day)),
        !chrono_valid(date.year, date.month, date.day) ==> (r matches Err(e) && e@ == "invalid date"@),
{
    if date_valid(date.year, date.month, date.day) {
        Ok(format_date(date))
    } else {
        Err("invalid date".to_string())
    }
}


/// Days from 1970-01-01 to a proleptic Gregorian date (negative before it).
pub open spec fn days_from_civil(year: int, month: int, day: int) -> int {
    let y = if month <= 2 { year - 1 } else { year };
    let era = y / 400;
    let yoe = y - era * 400;
    let mp = if month > 2 { month - 3 } else { month + 9 };
    let doy = (153 * mp + 2) / 5 + day - 1;
    let doe = yoe * 365 + yoe / 4 - yoe / 100 + doy;
    era * 146097 + doe - 719468
}

/// What chrono's `weekday().num_days_from_monday()` yields: 0 for Monday to
/// 6 for Sunday (1970-01-01 was a Thursday), none for an invalid date.
pub open spec fn chrono_days_from_monday(year: i32, month: u32, day: u32) -> Option<u32> {
    if chrono_valid(year, month, day) {
        Some(((days_from_civil(year as int, month as int, day as int) + 3) % 7) as u32)
    } else {
        None
    }
}

/// Calls `chrono::Weekday::num_days_from_monday` on the date's weekday; the
/// contract claims the weekday of the calendar date (`None` for an invalid
/// date).
#[verifier::external_body]
pub(crate) fn days_from_monday(date: TaskDate) -> (r: Option<u32>)
    ensures
        r == chrono_days_from_monday(date.year, date.month, date.day),
{
    chrono::NaiveDate::from_ymd_opt(date.year, date.month, date.day)
        .map(|d| chrono::Datelike::weekday(&d).num_days_from_monday())
}

/// What `checked_add_signed(TimeDelta::try_days(days))` yields for a date:
/// for a valid date, the valid date `days` days later (earlier when
/// negative), when the delta is within `TimeDelta`'s range (at most
/// `i64::MAX / 1000` seconds either way) and that date within chrono's
/// years; otherwise nothing.
pub closed spec fn chrono_add_days(year: i32, month: u32, day: u32, days: i64) -> Option<(i32, u32, u32)> {
    let target = days_from_civil(year as int, month as int, day as int) + days;
    if chrono_valid(year, month, day) && -9223372036854775 <= days * 86400 <= 9223372036854775
        && exists|t: (i32, u32, u32)| #[trigger] chrono_valid(t.0, t.1, t.2)
            && days_from_civil(t.0 as int, t.1 as int, t.2 as int) == target {
        Some(choose|t: (i32, u32, u32)| #[trigger] chrono_valid(t.0, t.1, t.2)
            && days_from_civil(t.0 as int, t.1 as int, t.2 as int) == target)
    } else {
        None
    }
}

/// A date that adding days yields is a valid date that many days away.
pub proof fn lemma_chrono_add_days(year: i32, month: u32, day: u32, days: i64)
    ensures
        chrono_add_days(year, month, day, days) matches Some(t) ==> {
            &&& chrono_valid(t.0, t.1, t.2)
            &&& days_from_civil(t.0 as int, t.1 as int, t.2 as int) == days_from_civil(year as int, month as int, day as int) + days
        },
{
}

/// Calls `chrono::NaiveDate::checked_add_signed` with a whole number of days
/// (`None` when the delta or the result is out of range, or the date invalid).
#[verifier::external_body]
pub(crate) fn add_days(date: TaskDate, days: i64) -> (r: Option<TaskDate>)
    ensures
        match r {
            Some(p) => chrono_add_days(date.year, date.month, date.day, days) == Some((p.year, p.month, p.day)),
            None => chrono_add_days(date.year, date.month, date.day, days) is None,
        },
{
    chrono::NaiveDate::from_ymd_opt(date.year, date.month, date.day)
        .and_then(|d| chrono::TimeDelta::try_days(days).and_then(|t| d.checked_add_signed(t)))
        .map(|d| TaskDate {
            year: chrono::Datelike::year(&d),
            month: chrono::Datelike::month(&d),
            day: chrono::Datelike::day(&d),
        })
}

} // verus!
