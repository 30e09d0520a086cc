//! Task rules: titles, the status transitions (toggle, cancel, carry,
//! delete), reordering the pending list, categories and the month summary
//! key. The SQL that stores tasks is the host's.
use vstd::prelude::*;
use crate::text::{concat2, owned, str_eq, trim, trim_exec};
use crate::task_day::{
    chrono_format_date, chrono_parse_date, chrono_pred, chrono_succ, chrono_valid, date_pred, date_succ, date_valid, format_date,
    parse_date, TaskDate,
};

verus! {

/// One task of a task day.
#[derive(Clone, Debug, PartialEq, Eq)]
pub struct Task {
    pub id: String,
    pub title: String,
    pub category_id: Option<String>,
    pub category_name: Option<String>,
    pub status: String,
    pub created_at: i64,
    pub updated_at: i64,
    pub scheduled_date: String,
    pub completed_at: Option<i64>,
    pub sort_order: i64,
    pub carried_from: Option<String>,
}

/// A task category.
#[derive(Clone, Debug, PartialEq, Eq)]
pub struct Category {
    pub id: String,
    pub name: String,
    pub sort_order: i64,
}

/// Completed and carried counts of a month (`YYYY-MM`).
#[derive(Clone, Debug, PartialEq, Eq)]
pub struct MonthSummary {
    pub month: String,
    pub completed: i64,
    pub carried: i64,
}

/// What the today view shows.
#[derive(Clone, Debug, PartialEq, Eq)]
pub struct TodayState {
    pub task_day: String,
    pub tasks: Vec<Task>,
    pub previous_task_day: String,
    pub previous_pending: Vec<Task>,
    pub categories: Vec<Category>,
    pub month_summary: MonthSummary,
}

/// A task title is stored trimmed and must not be blank.
pub fn clean_title(title: &str) -> (r: Result<&str, String>)
    ensures
        trim(title@).len() == 0 ==> (r matches Err(e) && e@ == "task title cannot be empty"@),
        trim(title@).len() > 0 ==> (r matches Ok(t) && t@ == trim(title@)),
{
    let t = trim_exec(title);
    if t.unicode_len() == 0 {
        Err("task title cannot be empty".to_string())
    } else {
        Ok(t)
    }
}

/// A category name is stored trimmed and must not be blank.
pub fn clean_category_name(name: &str) -> (r: Result<&str, String>)
    ensures
        trim(name@).len() == 0 ==> (r matches Err(e) && e@ == "category name cannot be empty"@),
        trim(name@).len() > 0 ==> (r matches Ok(t) && t@ == trim(name@)),
{
    let t = trim_exec(name);
    if t.unicode_len() == 0 {
        Err("category name cannot be empty".to_string())
    } else {
        Ok(t)
    }
}

/// An update must have changed exactly one row; otherwise `<label> not found`.
pub fn require_changed(changed: usize, label: &str) -> (r: Result<(), String>)
    ensures
        r is Ok <==> changed == 1,
        r matches Err(e) ==> e@ == label@ + " not found"@,
{
    if changed == 1 {
        Ok(())
    } else {
        Err(concat2(label, " not found"))
    }
}

/// Toggling completes a pending task and reopens a completed one; carried
/// and cancelled tasks are history and cannot be toggled.
pub fn toggled_status(status: &str) -> (r: Result<&'static str, String>)
    ensures
        status@ == "pending"@ ==> (r matches Ok(s) && s@ == "completed"@),
        status@ == "completed"@ ==> (r matches Ok(s) && s@ == "pending"@),
        !(status@ == "pending"@ || status@ == "completed"@)
            ==> (r matches Err(e) && e@ == "only pending or completed tasks can be toggled"@),
{
    proof {
        reveal_strlit("pending");
        reveal_strlit("completed");
        assert("pending"@.len() != "completed"@.len());
    }
    if str_eq(status, "pending") {
        Ok("completed")
    } else if str_eq(status, "completed") {
        Ok("pending")
    } else {
        Err("only pending or completed tasks can be toggled".to_string())
    }
}

/// Toggling twice returns a pending or completed task to its status.
pub proof fn toggle_is_an_involution(status: Seq<char>)
    requires
        status == "pending"@ || status == "completed"@,
    ensures
        (if (if status == "pending"@ { "completed"@ } else { "pending"@ }) == "pending"@ { "completed"@ } else { "pending"@ }) == status,
{
    reveal_strlit("pending");
    reveal_strlit("completed");
    assert("pending"@.len() != "completed"@.len());
}

/// Deleting completed or carried history needs explicit confirmation.
pub fn delete_allowed(status: &str, confirm_historical: bool) -> (r: Result<(), String>)
    ensures
        r is Ok <==> !((status@ == "completed"@ || status@ == "carried"@) && !confirm_historical),
        r matches Err(e) ==> e@ == "deleting completed or carried history requires confirmation"@,
{
    if (str_eq(status, "completed") || str_eq(status, "carried")) && !confirm_historical {
        return Err("deleting completed or carried history requires confirmation".to_string());
    }
    Ok(())
}

/// The texts of a list of ids.
pub open spec fn ids(v: Seq<String>) -> Seq<Seq<char>> {
    v.map_values(|s: String| s@)
}

/// A reorder names each pending task of the day exactly once: no id twice,
/// and the same set of ids as the stored pending tasks.
pub open spec fn reorder_ok(existing: Seq<Seq<char>>, ordered: Seq<Seq<char>>) -> bool {
    &&& forall|i: int, j: int| 0 <= i < j < ordered.len() ==> ordered[i] != ordered[j]
    &&& forall|x: Seq<char>| ordered.contains(x) <==> existing.contains(x)
}

fn contains_text(v: &Vec<String>, x: &str) -> (r: bool)
    ensures
        r == ids(v@).contains(x@),
{
    let mut i: usize = 0;
    while i < v.len()
        invariant
            i <= v@.len(),
            forall|k: int| 0 <= k < i ==> #[trigger] v@[k]@ != x@,
        decreases v.len() - i,
    {
        if str_eq(v[i].as_str(), x) {
            assert(ids(v@)[i as int] == x@);
            return true;
        }
        i = i + 1;
    }
    assert forall|k: int| 0 <= k < ids(v@).len() implies ids(v@)[k] != x@ by {
        assert(ids(v@)[k] == v@[k]@);
    }
    false
}

/// Validates a drag-reorder of the pending list.
pub fn check_reorder(existing: &Vec<String>, ordered: &Vec<String>) -> (r: Result<(), String>)
    ensures
        r is Ok <==> reorder_ok(ids(existing@), ids(ordered@)),
        r matches Err(e) ==> e@ == "reorder must contain each pending task exactly once"@,
{
    let ghost e = ids(existing@);
    let ghost o = ids(ordered@);
    let mut i: usize = 0;
    while i < ordered.len()
        invariant
            i <= ordered@.len(),
            e == ids(existing@),
            o == ids(ordered@),
            forall|a: int, b: int| 0 <= a < b < i ==> o[a] != o[b],
            forall|a: int| 0 <= a < i ==> e.contains(#[trigger] o[a]),
        decreases ordered.len() - i,
    {
        let id = ordered[i].as_str();
        assert(o[i as int] == id@);
        let mut j: usize = 0;
        while j < i
            invariant
                j <= i,
                i < ordered@.len(),
                o == ids(ordered@),
                o[i as int] == id@,
                forall|a: int| 0 <= a < j ==> o[a] != id@,
            decreases i - j,
        {
            if str_eq(ordered[j].as_str(), id) {
                assert(o[j as int] == o[i as int]);
                return Err("reorder must contain each pending task exactly once".to_string());
            }
            j = j + 1;
        }
        if !contains_text(existing, id) {
            return Err("reorder must contain each pending task exactly once".to_string());
        }
        i = i + 1;
    }
    let mut k: usize = 0;
    while k < existing.len()
        invariant
            k <= existing@.len(),
            e == ids(existing@),
            o == ids(ordered@),
            forall|a: int, b: int| 0 <= a < b < o.len() ==> o[a] != o[b],
            forall|a: int| 0 <= a < o.len() ==> e.contains(#[trigger] o[a]),
            forall|a: int| 0 <= a < k ==> o.contains(#[trigger] e[a]),
        decreases existing.len() - k,
    {
        let id = existing[k].as_str();
        assert(e[k as int] == id@);
        if !contains_text(ordered, id) {
            assert(!reorder_ok(e, o)) by {
                assert(e.contains(e[k as int]));
            }
            return Err("reorder must contain each pending task exactly once".to_string());
        }
        k = k + 1;
    }
    assert forall|x: Seq<char>| o.contains(x) <==> e.contains(x) by {
        if o.contains(x) {
            let a = choose|a: int| 0 <= a < o.len() && o[a] == x;
            assert(e.contains(o[a]));
        }
        if e.contains(x) {
            let a = choose|a: int| 0 <= a < e.len() && e[a] == x;
            assert(o.contains(e[a]));
        }
    }
    Ok(())
}

/// The stored sort order of the task at position `index` of a reorder
/// (10, 20, 30, ...).
pub fn reorder_sort_order(index: usize) -> (r: i64)
    requires
        (index + 1) * 10 <= i64::MAX,
    ensures
        r == (index + 1) * 10,
{
    (index as i64 + 1) * 10
}

/// `n` written in decimal with at least `width` digits (zero-padded after
/// the sign), as `{:0width$}` writes it.
pub open spec fn zero_padded(n: int, width: nat) -> Seq<char> {
    let digits = crate::text::decimal((if n < 0 { -n } else { n }) as nat);
    let body_width: int = if n < 0 { width - 1 } else { width as int };
    let pad: nat = if digits.len() < body_width { (body_width - digits.len()) as nat } else { 0 };
    (if n < 0 { seq!['-'] } else { Seq::empty() }) + Seq::new(pad, |i: int| '0') + digits
}

fn padded(n: i64, width: usize) -> (r: String)
    requires
        width <= 16,
    ensures
        r@ == zero_padded(n as int, width as nat),
{
    let magnitude: u128 = if n < 0 { (-(n as i128)) as u128 } else { n as u128 };
    let digits = crate::text::decimal_string(magnitude);
    let body_width: usize = if n < 0 { if width >= 1 { width - 1 } else { 0 } } else { width };
    let mut out = String::new();
    if n < 0 {
        crate::text::push_char(&mut out, '-');
    }
    let len = digits.unicode_len();
    let mut k: usize = len;
    let ghost start = out@;
    while k < body_width
        invariant
            len == digits@.len(),
            len <= k,
            k <= body_width || k == len,
            out@ == start + Seq::new((k - len) as nat, |i: int| '0'),
        decreases body_width - k,
    {
        crate::text::push_char(&mut out, '0');
        assert(out@ =~= start + Seq::new((k + 1 - len) as nat, |i: int| '0'));
        k = k + 1;
    }
    let r = concat2(out.as_str(), digits.as_str());
    proof {
        let spec_width: int = if n < 0 { width - 1 } else { width as int };
        assert(magnitude as int == (if n < 0 { -n } else { n as int }));
        assert(start == (if n < 0 { seq!['-'] } else { Seq::<char>::empty() }));
        if len < spec_width {
            assert(k == spec_width);
        } else {
            assert(k == len);
        }
    }
    assert(r@ =~= zero_padded(n as int, width as nat));
    r
}

/// The month key of a date: `{:04}-{:02}` of year and month.
pub fn month_key(year: i32, month: u32) -> (r: String)
    ensures
        r@ == zero_padded(year as int, 4) + "-"@ + zero_padded(month as int, 2),
{
    let y = padded(year as i64, 4);
    let m = padded(month as i64, 2);
    let a = concat2(y.as_str(), "-");
    let r = concat2(a.as_str(), m.as_str());
    assert(r@ =~= zero_padded(year as int, 4) + "-"@ + zero_padded(month as int, 2));
    r
}

/// The days a today view covers: the task day, the day before it (whose
/// pending tasks are offered for carrying) and the month of its summary.
#[derive(Debug)]
pub struct TodayDays {
    pub task_day: String,
    pub previous_task_day: String,
    pub month: String,
}

/// Names the days of the today view for a task date; the first
/// representable date has no previous day and is refused, as is a field
/// triple that is no calendar date.
pub fn today_days(task_date: TaskDate) -> (r: Result<TodayDays, String>)
    ensures
        !chrono_valid(task_date.year, task_date.month, task_date.day) ==> (r matches Err(e) && e@ == "invalid date"@),
        chrono_valid(task_date.year, task_date.month, task_date.day) ==> match chrono_pred(task_date.year, task_date.month, task_date.day) {
            None => r matches Err(e) && e@ == "task day has no predecessor"@,
            Some((py, pm, pd)) => r matches Ok(t) && {
                &&& t.task_day@ == chrono_format_date(task_date.year, task_date.month, task_date.day)
                &&& t.previous_task_day@ == chrono_format_date(py, pm, pd)
                &&& t.month@ == zero_padded(task_date.year as int, 4) + "-"@ + zero_padded(task_date.month as int, 2)
            },
        },
{
    if !date_valid(task_date.year, task_date.month, task_date.day) {
        return Err("invalid date".to_string());
    }
    let previous = match date_pred(task_date) {
        Some(p) => p,
        None => return Err("task day has no predecessor".to_string()),
    };
    Ok(TodayDays {
        task_day: format_date(task_date),
        previous_task_day: format_date(previous),
        month: month_key(task_date.year, task_date.month),
    })
}

/// The day a carried task moves to: the day after its scheduled date.
/// `parse_error` is what an unreadable stored date reports.
pub fn carry_target(scheduled_date: &str, parse_error: &str) -> (r: Result<String, String>)
    ensures
        match chrono_parse_date(scheduled_date@) {
            None => r matches Err(e) && e@ == parse_error@,
            Some((y, m, d)) => match chrono_succ(y, m, d) {
                None => r matches Err(e) && e@ == "task day has no successor"@,
                Some((sy, sm, sd)) => r matches Ok(t) && t@ == chrono_format_date(sy, sm, sd),
            },
        },
{
    let source = parse_date(scheduled_date, parse_error)?;
    match date_succ(source) {
        Some(next) => Ok(format_date(next)),
        None => Err("task day has no successor".to_string()),
    }
}

} // verus!
