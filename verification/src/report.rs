//! Aggregation of a review report from the tasks scheduled in its period:
//! the period's days (each with its status counts), the grand totals, and the
//! per-category breakdown ordered by planned count, then label.
use vstd::prelude::*;
use crate::reviews::{
    category_label, known_status, period_bounds, period_bounds_spec, recorded, ReviewCategory, ReviewDay,
    ReviewPeriod, ReviewReport, ReviewTask, StatusCounts,
};
use crate::task_day::{
    chrono_format_date, chrono_succ, chrono_valid, date_before, date_not_after, date_succ, date_valid, fields_in_range,
    format_date, TaskDate,
};
use crate::text::{concat2, owned, str_eq, text_before, text_less};

verus! {

/// The text of a date as reports print it (`YYYY-MM-DD`).
pub open spec fn date_text_of(d: TaskDate) -> Seq<char> {
    chrono_format_date(d.year, d.month, d.day)
}

/// An order-preserving number for dates whose month and day are in range.
pub open spec fn date_rank(d: TaskDate) -> int {
    d.year * 512 + d.month * 32 + d.day
}

/// How many more steps a walk from `day` may take before passing `end`.
pub open spec fn steps_left(day: TaskDate, end: TaskDate) -> int {
    if date_before(end, day) { 0 } else { date_rank(end) - date_rank(day) + 1 }
}

/// The texts of the days from `day` through `end`, stepping one calendar day
/// at a time, or the refusal the walk runs into: an invalid date, or a step
/// past the last representable date.
pub open spec fn period_texts(day: TaskDate, end: TaskDate) -> Result<Seq<Seq<char>>, Seq<char>>
    decreases steps_left(day, end),
{
    if date_before(end, day) {
        Ok(Seq::empty())
    } else if !chrono_valid(day.year, day.month, day.day) {
        Err("invalid date"@)
    } else {
        match chrono_succ(day.year, day.month, day.day) {
            None => Err("review period exceeds supported date range"@),
            Some((y, m, d)) => {
                let next = TaskDate { year: y, month: m, day: d };
                if fields_in_range(day) && fields_in_range(next) && date_before(day, next) {
                    proof {
                        lemma_steps_decrease(day, next, end);
                    }
                    match period_texts(next, end) {
                        Ok(rest) => Ok(seq![date_text_of(day)] + rest),
                        Err(e) => Err(e),
                    }
                } else {
                    Err("review period exceeds supported date range"@)
                }
            },
        }
    }
}

/// A later in-range date has a larger rank.
pub proof fn lemma_rank_monotone(a: TaskDate, b: TaskDate)
    requires
        fields_in_range(a),
        date_before(a, b),
    ensures
        date_rank(a) < date_rank(b),
{
    if a.year < b.year {
        assert(date_rank(a) <= a.year * 512 + 415);
        assert(date_rank(b) >= b.year * 512);
        assert(b.year * 512 >= a.year * 512 + 512) by (nonlinear_arith)
            requires a.year < b.year;
    }
}

/// Stepping to a later in-range date brings the walk closer to its end.
pub proof fn lemma_steps_decrease(day: TaskDate, next: TaskDate, end: TaskDate)
    requires
        fields_in_range(day),
        fields_in_range(next),
        date_before(day, next),
        !date_before(end, day),
    ensures
        0 <= steps_left(next, end) < steps_left(day, end),
{
    lemma_rank_monotone(day, next);
    if date_before(next, end) {
        lemma_rank_monotone(next, end);
    }
    if date_before(day, end) {
        lemma_rank_monotone(day, end);
    }
}

/// Walks the days of a period in calendar order and writes each one.
fn period_day_texts(start: TaskDate, end: TaskDate) -> (r: Result<Vec<String>, String>)
    ensures
        match period_texts(start, end) {
            Ok(texts) => r matches Ok(v) && v@.map_values(|s: String| s@) == texts,
            Err(m) => r matches Err(e) && e@ == m,
        },
{
    let mut out: Vec<String> = Vec::new();
    let mut day = start;
    let ghost done: Seq<Seq<char>> = Seq::empty();
    while date_not_after(day, end)
        invariant
            out@.map_values(|s: String| s@) == done,
            period_texts(start, end) == match period_texts(day, end) {
                Ok(rest) => Ok(done + rest),
                Err(e) => Err::<Seq<Seq<char>>, Seq<char>>(e),
            },
        decreases steps_left(day, end),
    {
        if !date_valid(day.year, day.month, day.day) {
            return Err("invalid date".to_string());
        }
        let text = format_date(day);
        match date_succ(day) {
            None => {
                return Err("review period exceeds supported date range".to_string());
            },
            Some(next) => {
                proof {
                    lemma_steps_decrease(day, next, end);
                    assert(done + (seq![date_text_of(day)] + match period_texts(next, end) {
                        Ok(rest) => rest,
                        Err(_) => Seq::empty(),
                    }) =~= done.push(date_text_of(day)) + match period_texts(next, end) {
                        Ok(rest) => rest,
                        Err(_) => Seq::empty(),
                    });
                    done = done.push(date_text_of(day));
                }
                out.push(text);
                assert(out@.map_values(|s: String| s@) =~= done);
                day = next;
            },
        }
    }
    assert(done + Seq::<Seq<char>>::empty() =~= done);
    Ok(out)
}

/// The texts held by a list of strings.
pub open spec fn texts(v: Seq<String>) -> Seq<Seq<char>> {
    v.map_values(|s: String| s@)
}

/// Each text sorts strictly before the next (so none occurs twice).
pub open spec fn strictly_sorted(s: Seq<Seq<char>>) -> bool {
    forall|i: int, j: int| 0 <= i < j < s.len() ==> text_before(#[trigger] s[i], #[trigger] s[j])
}

/// Inserts `t` into a strictly sorted list unless it is already there.
fn insert_sorted(out: &mut Vec<String>, t: String)
    requires
        strictly_sorted(texts(old(out)@)),
    ensures
        strictly_sorted(texts(final(out)@)),
        forall|x: Seq<char>| texts(final(out)@).contains(x) <==> (texts(old(out)@).contains(x) || x == t@),
{
    let ghost before = texts(out@);
    let mut p: usize = 0;
    while p < out.len() && text_less(out[p].as_str(), t.as_str())
        invariant
            p <= out@.len(),
            before == texts(out@),
            strictly_sorted(before),
            forall|k: int| 0 <= k < p ==> text_before(#[trigger] before[k], t@),
        decreases out.len() - p,
    {
        p = p + 1;
    }
    if p < out.len() && str_eq(out[p].as_str(), t.as_str()) {
        assert(before[p as int] == t@);
        assert forall|x: Seq<char>| before.contains(x) <==> (before.contains(x) || x == t@) by {
            if x == t@ {
                assert(before[p as int] == x);
            }
        }
        return;
    }
    proof {
        if p < before.len() {
            crate::text::lemma_text_before_total(before[p as int], t@);
            assert(text_before(t@, before[p as int]));
            assert forall|k: int| p < k < before.len() implies text_before(t@, #[trigger] before[k]) by {
                crate::text::lemma_text_before_transitive(t@, before[p as int], before[k]);
            }
        }
    }
    out.insert(p, t);
    let ghost after = texts(out@);
    assert(after =~= before.insert(p as int, t@));
    assert forall|i: int, j: int| 0 <= i < j < after.len() implies text_before(#[trigger] after[i], #[trigger] after[j]) by {
        if j < p {
        } else if i < p && j == p {
        } else if i < p {
            crate::text::lemma_text_before_transitive(after[i], t@, after[j]);
        } else if i == p {
        } else {
        }
    }
    assert forall|x: Seq<char>| after.contains(x) <==> (before.contains(x) || x == t@) by {
        if after.contains(x) {
            let k = choose|k: int| 0 <= k < after.len() && after[k] == x;
            if k < p {
                assert(before[k] == x);
            } else if k > p {
                assert(before[k - 1] == x);
            }
        }
        if before.contains(x) {
            let k = choose|k: int| 0 <= k < before.len() && before[k] == x;
            if k < p {
                assert(after[k] == x);
            } else {
                assert(after[k + 1] == x);
            }
        }
        if x == t@ {
            assert(after[p as int] == x);
        }
    }
}

/// The distinct texts of `items` in sorted order.
fn sorted_distinct(items: &Vec<String>) -> (r: Vec<String>)
    ensures
        strictly_sorted(texts(r@)),
        forall|x: Seq<char>| texts(r@).contains(x) <==> texts(items@).contains(x),
{
    let mut out: Vec<String> = Vec::new();
    let mut i: usize = 0;
    while i < items.len()
        invariant
            i <= items@.len(),
            strictly_sorted(texts(out@)),
            forall|x: Seq<char>| texts(out@).contains(x) <==> texts(items@).take(i as int).contains(x),
        decreases items.len() - i,
    {
        let t = owned(items[i].as_str());
        insert_sorted(&mut out, t);
        proof {
            let pre = texts(items@).take(i as int);
            let post = texts(items@).take(i + 1);
            assert(post =~= pre.push(items@[i as int]@));
            assert forall|x: Seq<char>| post.contains(x) <==> (pre.contains(x) || x == items@[i as int]@) by {
                if post.contains(x) {
                    let k = choose|k: int| 0 <= k < post.len() && post[k] == x;
                    if k < pre.len() {
                        assert(pre[k] == x);
                    }
                }
                if pre.contains(x) {
                    let k = choose|k: int| 0 <= k < pre.len() && pre[k] == x;
                    assert(post[k] == x);
                }
                if x == items@[i as int]@ {
                    assert(post[i as int] == x);
                }
            }
        }
        i = i + 1;
    }
    assert(texts(items@).take(i as int) =~= texts(items@));
    out
}

/// All counts zero.
pub open spec fn no_counts() -> StatusCounts {
    StatusCounts { planned: 0, completed: 0, carried: 0, cancelled: 0, pending: 0 }
}

/// The counts after counting `statuses` in order, from zero.
pub open spec fn tally(statuses: Seq<Seq<char>>) -> StatusCounts
    decreases statuses.len(),
{
    if statuses.len() == 0 {
        no_counts()
    } else {
        recorded(tally(statuses.drop_last()), statuses.last())
    }
}

/// Counting `n` statuses plans `n` tasks and counts each status at most `n` times.
pub proof fn lemma_tally_bounds(statuses: Seq<Seq<char>>)
    requires
        statuses.len() < 0x4000_0000_0000_0000,
    ensures
        tally(statuses).planned == statuses.len(),
        0 <= tally(statuses).completed <= statuses.len(),
        0 <= tally(statuses).carried <= statuses.len(),
        0 <= tally(statuses).cancelled <= statuses.len(),
        0 <= tally(statuses).pending <= statuses.len(),
    decreases statuses.len(),
{
    if statuses.len() > 0 {
        lemma_tally_bounds(statuses.drop_last());
    }
}

/// A row of the review query: a task and the id of its category.
pub open spec fn row_status(r: (ReviewTask, Option<String>)) -> Seq<char> {
    r.0.status@
}

pub open spec fn row_date(r: (ReviewTask, Option<String>)) -> Seq<char> {
    r.0.scheduled_date@
}

/// The category key of a row: its category id, or the empty text.
pub open spec fn id_key(id: Option<String>) -> Seq<char> {
    match id {
        Some(s) => s@,
        None => Seq::empty(),
    }
}

pub open spec fn opt_text(o: Option<String>) -> Option<Seq<char>> {
    match o {
        Some(s) => Some(s@),
        None => None,
    }
}

/// The label of a row's category (`Uncategorized` without one).
pub open spec fn row_label(r: (ReviewTask, Option<String>)) -> Seq<char> {
    match r.0.category_name {
        Some(n) => n@,
        None => "Uncategorized"@,
    }
}

/// The statuses of every row, in order.
pub open spec fn all_statuses(rows: Seq<(ReviewTask, Option<String>)>) -> Seq<Seq<char>>
    decreases rows.len(),
{
    if rows.len() == 0 {
        Seq::empty()
    } else {
        all_statuses(rows.drop_last()).push(row_status(rows.last()))
    }
}

/// The statuses of the rows scheduled on the day written `date`, in order.
pub open spec fn statuses_on(rows: Seq<(ReviewTask, Option<String>)>, date: Seq<char>) -> Seq<Seq<char>>
    decreases rows.len(),
{
    if rows.len() == 0 {
        Seq::empty()
    } else if row_date(rows.last()) == date {
        statuses_on(rows.drop_last(), date).push(row_status(rows.last()))
    } else {
        statuses_on(rows.drop_last(), date)
    }
}

/// The statuses of the rows whose category key is `key`, in order.
pub open spec fn statuses_in(rows: Seq<(ReviewTask, Option<String>)>, key: Seq<char>) -> Seq<Seq<char>>
    decreases rows.len(),
{
    if rows.len() == 0 {
        Seq::empty()
    } else if id_key(rows.last().1) == key {
        statuses_in(rows.drop_last(), key).push(row_status(rows.last()))
    } else {
        statuses_in(rows.drop_last(), key)
    }
}

/// The category id and label of the first row with category key `key`.
pub open spec fn first_of_key(rows: Seq<(ReviewTask, Option<String>)>, key: Seq<char>) -> Option<(Option<Seq<char>>, Seq<char>)>
    decreases rows.len(),
{
    if rows.len() == 0 {
        None
    } else {
        match first_of_key(rows.drop_last(), key) {
            Some(h) => Some(h),
            None => if id_key(rows.last().1) == key {
                Some((opt_text(rows.last().1), row_label(rows.last())))
            } else {
                None
            },
        }
    }
}

/// Why one row cannot be counted in a period with the given day texts.
pub open spec fn row_error(r: (ReviewTask, Option<String>), days: Seq<Seq<char>>) -> Option<Seq<char>> {
    if !known_status(row_status(r)) {
        Some("unsupported task status: "@ + row_status(r))
    } else if !days.contains(row_date(r)) {
        Some("task date fell outside review period"@)
    } else {
        None
    }
}

/// The first refusal among the rows, in order.
pub open spec fn rows_error(rows: Seq<(ReviewTask, Option<String>)>, days: Seq<Seq<char>>) -> Option<Seq<char>>
    decreases rows.len(),
{
    if rows.len() == 0 {
        None
    } else {
        match rows_error(rows.drop_last(), days) {
            Some(e) => Some(e),
            None => row_error(rows.last(), days),
        }
    }
}

/// Filtering rows never yields more statuses than rows.
pub proof fn lemma_statuses_len(rows: Seq<(ReviewTask, Option<String>)>, date: Seq<char>, key: Seq<char>)
    ensures
        statuses_on(rows, date).len() <= rows.len(),
        statuses_in(rows, key).len() <= rows.len(),
        all_statuses(rows).len() == rows.len(),
    decreases rows.len(),
{
    if rows.len() > 0 {
        lemma_statuses_len(rows.drop_last(), date, key);
    }
}

/// The first index holding `t`, if any.
fn find_text(items: &Vec<String>, t: &str) -> (r: Option<usize>)
    ensures
        match r {
            Some(j) => j < items@.len() && items@[j as int]@ == t@,
            None => !texts(items@).contains(t@),
        },
{
    let mut j: usize = 0;
    while j < items.len()
        invariant
            j <= items@.len(),
            forall|k: int| 0 <= k < j ==> items@[k]@ != t@,
        decreases items.len() - j,
    {
        if str_eq(items[j].as_str(), t) {
            return Some(j);
        }
        j = j + 1;
    }
    assert forall|x: Seq<char>| texts(items@).contains(x) implies x != t@ by {
        let k = choose|k: int| 0 <= k < texts(items@).len() && texts(items@)[k] == x;
        assert(items@[k]@ == x);
    }
    None
}

/// The first group whose category key is `key`, if any.
fn find_group(ids: &Vec<Option<String>>, key: &str) -> (r: Option<usize>)
    ensures
        match r {
            Some(j) => j < ids@.len() && id_key(ids@[j as int]) == key@,
            None => forall|k: int| 0 <= k < ids@.len() ==> id_key(#[trigger] ids@[k]) != key@,
        },
{
    let mut j: usize = 0;
    while j < ids.len()
        invariant
            j <= ids@.len(),
            forall|k: int| 0 <= k < j ==> id_key(#[trigger] ids@[k]) != key@,
        decreases ids.len() - j,
    {
        let matched = match &ids[j] {
            Some(s) => str_eq(s.as_str(), key),
            None => key.unicode_len() == 0,
        };
        if matched {
            proof {
                if ids@[j as int] is None {
                    assert(key@ =~= Seq::<char>::empty());
                }
            }
            return Some(j);
        }
        j = j + 1;
    }
    None
}

/// The category groups found so far, in order of first appearance: each
/// carries the id and label of its first row and the counts of all its rows;
/// keys are distinct and every key of the rows has a group.
pub open spec fn groups_ok(
    rows: Seq<(ReviewTask, Option<String>)>,
    ids: Seq<Option<String>>,
    labels: Seq<String>,
    counts: Seq<StatusCounts>,
) -> bool {
    &&& ids.len() == labels.len()
    &&& labels.len() == counts.len()
    &&& forall|j: int| 0 <= j < ids.len() ==> first_of_key(rows, id_key(#[trigger] ids[j])) == Some((opt_text(ids[j]), labels[j]@))
    &&& forall|j: int| 0 <= j < ids.len() ==> counts[j] == tally(statuses_in(rows, id_key(#[trigger] ids[j])))
    &&& forall|j1: int, j2: int| 0 <= j1 < j2 < ids.len() ==> id_key(#[trigger] ids[j1]) != id_key(#[trigger] ids[j2])
    &&& forall|k: Seq<char>| #[trigger] first_of_key(rows, k) is Some ==> exists|j: int| 0 <= j < ids.len() && id_key(ids[j]) == k
}

/// What counting the rows of a period produced.
struct Counted {
    totals: StatusCounts,
    day_counts: Vec<StatusCounts>,
    ids: Vec<Option<String>>,
    labels: Vec<String>,
    group_counts: Vec<StatusCounts>,
}

fn copy_id(id: &Option<String>) -> (r: Option<String>)
    ensures
        opt_text(r) == opt_text(*id),
        id_key(r) == id_key(*id),
{
    match id {
        Some(s) => Some(owned(s.as_str())),
        None => None,
    }
}

/// One more row extends every prefix-defined count by that row alone.
proof fn lemma_prefix_step(rows: Seq<(ReviewTask, Option<String>)>, i: int)
    requires
        0 <= i < rows.len(),
    ensures
        rows.take(i + 1).drop_last() == rows.take(i),
        rows.take(i + 1).last() == rows[i],
        all_statuses(rows.take(i + 1)) == all_statuses(rows.take(i)).push(row_status(rows[i])),
        forall|d: Seq<char>| #[trigger] statuses_on(rows.take(i + 1), d)
            == if row_date(rows[i]) == d { statuses_on(rows.take(i), d).push(row_status(rows[i])) } else { statuses_on(rows.take(i), d) },
        forall|k: Seq<char>| #[trigger] statuses_in(rows.take(i + 1), k)
            == if id_key(rows[i].1) == k { statuses_in(rows.take(i), k).push(row_status(rows[i])) } else { statuses_in(rows.take(i), k) },
        forall|k: Seq<char>| #[trigger] first_of_key(rows.take(i + 1), k)
            == match first_of_key(rows.take(i), k) {
                Some(h) => Some(h),
                None => if id_key(rows[i].1) == k { Some((opt_text(rows[i].1), row_label(rows[i]))) } else { None },
            },
        forall|days: Seq<Seq<char>>| #[trigger] rows_error(rows.take(i + 1), days)
            == match rows_error(rows.take(i), days) {
                Some(e) => Some(e),
                None => row_error(rows[i], days),
            },
{
    assert(rows.take(i + 1).drop_last() =~= rows.take(i));
}

/// A refusal among the first rows is the refusal of every longer list.
proof fn lemma_rows_error_prefix(rows: Seq<(ReviewTask, Option<String>)>, i: int, days: Seq<Seq<char>>)
    requires
        0 <= i <= rows.len(),
        rows_error(rows.take(i), days) is Some,
    ensures
        rows_error(rows, days) == rows_error(rows.take(i), days),
    decreases rows.len(),
{
    if rows.len() > i {
        assert(rows.drop_last().take(i) =~= rows.take(i));
        lemma_rows_error_prefix(rows.drop_last(), i, days);
    } else {
        assert(rows.take(i) =~= rows);
    }
}

/// Without a first row of a key there are no rows of that key.
proof fn lemma_no_key_no_statuses(rows: Seq<(ReviewTask, Option<String>)>, key: Seq<char>)
    requires
        first_of_key(rows, key) is None,
    ensures
        statuses_in(rows, key).len() == 0,
    decreases rows.len(),
{
    if rows.len() > 0 {
        lemma_no_key_no_statuses(rows.drop_last(), key);
    }
}

/// Counting one more status of a known kind extends the tally.
proof fn lemma_tally_push(s: Seq<Seq<char>>, status: Seq<char>)
    ensures
        tally(s.push(status)) == recorded(tally(s), status),
{
    assert(s.push(status).drop_last() =~= s);
}

/// Counts every row of a period into the totals, its day and its category,
/// stopping at the first row that cannot be counted.
#[verifier::rlimit(50)]
fn count_rows(rows: &Vec<(ReviewTask, Option<String>)>, dates: &Vec<String>) -> (r: Result<Counted, String>)
    requires
        rows@.len() < 0x4000_0000_0000_0000,
        strictly_sorted(texts(dates@)),
    ensures
        match rows_error(rows@, texts(dates@)) {
            Some(m) => r matches Err(e) && e@ == m,
            None => r matches Ok(c) && {
                &&& c.totals == tally(all_statuses(rows@))
                &&& c.day_counts@.len() == dates@.len()
                &&& forall|j: int| 0 <= j < dates@.len() ==> #[trigger] c.day_counts@[j] == tally(statuses_on(rows@, dates@[j]@))
                &&& groups_ok(rows@, c.ids@, c.labels@, c.group_counts@)
            },
        },
{
    let ghost days = texts(dates@);
    let mut totals = StatusCounts::new();
    let mut day_counts: Vec<StatusCounts> = Vec::new();
    let mut j: usize = 0;
    while j < dates.len()
        invariant
            j <= dates@.len(),
            day_counts@.len() == j,
            forall|k: int| 0 <= k < j ==> #[trigger] day_counts@[k] == no_counts(),
        decreases dates.len() - j,
    {
        day_counts.push(StatusCounts::new());
        j = j + 1;
    }
    let mut ids: Vec<Option<String>> = Vec::new();
    let mut labels: Vec<String> = Vec::new();
    let mut group_counts: Vec<StatusCounts> = Vec::new();
    let mut i: usize = 0;
    proof {
        assert(rows@.take(0) =~= Seq::<(ReviewTask, Option<String>)>::empty());
        assert forall|k: int| 0 <= k < dates@.len() implies #[trigger] day_counts@[k] == tally(statuses_on(rows@.take(0), dates@[k]@)) by {}
    }
    while i < rows.len()
        invariant
            i <= rows@.len(),
            rows@.len() < 0x4000_0000_0000_0000,
            days == texts(dates@),
            strictly_sorted(days),
            rows_error(rows@.take(i as int), days) is None,
            totals == tally(all_statuses(rows@.take(i as int))),
            day_counts@.len() == dates@.len(),
            forall|k: int| 0 <= k < dates@.len() ==> #[trigger] day_counts@[k] == tally(statuses_on(rows@.take(i as int), dates@[k]@)),
            groups_ok(rows@.take(i as int), ids@, labels@, group_counts@),
        decreases rows.len() - i,
    {
        let ghost pre = rows@.take(i as int);
        let ghost pre1 = rows@.take(i + 1);
        let row = &rows[i];
        let status = row.0.status.as_str();
        proof {
            lemma_prefix_step(rows@, i as int);
            lemma_statuses_len(pre, row_date(rows@[i as int]), id_key(rows@[i as int].1));
            lemma_tally_bounds(all_statuses(pre));
            lemma_tally_push(all_statuses(pre), status@);
        }
        match totals.record(status) {
            Err(e) => {
                proof {
                    lemma_rows_error_prefix(rows@, i + 1, days);
                }
                return Err(e);
            },
            Ok(()) => {},
        }
        let found = find_text(dates, row.0.scheduled_date.as_str());
        let d = match found {
            Some(d) => d,
            None => {
                proof {
                    lemma_rows_error_prefix(rows@, i + 1, days);
                }
                return Err("task date fell outside review period".to_string());
            },
        };
        assert(days.contains(row_date(rows@[i as int]))) by {
            assert(days[d as int] == row_date(rows@[i as int]));
        }
        let mut c = day_counts[d];
        proof {
            lemma_statuses_len(pre, dates@[d as int]@, Seq::empty());
            lemma_tally_bounds(statuses_on(pre, dates@[d as int]@));
            lemma_tally_push(statuses_on(pre, dates@[d as int]@), status@);
        }
        let _ = c.record(status);
        day_counts.set(d, c);
        proof {
            assert forall|k: int| 0 <= k < dates@.len() implies #[trigger] day_counts@[k] == tally(statuses_on(pre1, dates@[k]@)) by {
                if k != d {
                    if k < d {
                        crate::text::lemma_text_before_irreflexive(days[k]);
                        assert(text_before(days[k], days[d as int]));
                    } else {
                        crate::text::lemma_text_before_irreflexive(days[k]);
                        assert(text_before(days[d as int], days[k]));
                    }
                    assert(days[k] != days[d as int]);
                }
            }
        }
        let key: &str = match &row.1 {
            Some(s) => s.as_str(),
            None => "",
        };
        proof {
            reveal_strlit("");
            assert(key@ == id_key(rows@[i as int].1));
        }
        match find_group(&ids, key) {
            Some(g) => {
                let mut gc = group_counts[g];
                proof {
                    lemma_tally_bounds(statuses_in(pre, key@));
                    lemma_tally_push(statuses_in(pre, key@), status@);
                }
                let _ = gc.record(status);
                group_counts.set(g, gc);
                proof {
                    assert forall|j: int| 0 <= j < ids@.len() implies #[trigger] group_counts@[j] == tally(statuses_in(pre1, id_key(ids@[j]))) by {
                        if j != g {
                            if j < g {
                                assert(id_key(ids@[j]) != id_key(ids@[g as int]));
                            } else {
                                assert(id_key(ids@[g as int]) != id_key(ids@[j]));
                            }
                        }
                    }
                    assert forall|j: int| 0 <= j < ids@.len() implies first_of_key(pre1, id_key(#[trigger] ids@[j])) == Some((opt_text(ids@[j]), labels@[j]@)) by {
                        assert(first_of_key(pre, id_key(ids@[j])) is Some);
                    }
                    assert forall|k: Seq<char>| #[trigger] first_of_key(pre1, k) is Some implies exists|j: int| 0 <= j < ids@.len() && id_key(ids@[j]) == k by {
                        if first_of_key(pre, k) is None {
                            assert(id_key(ids@[g as int]) == k);
                        }
                    }
                }
            },
            None => {
                let ghost old_ids = ids@;
                let ghost old_labels = labels@;
                let ghost old_counts = group_counts@;
                proof {
                    if first_of_key(pre, key@) is Some {
                        assert(exists|j: int| 0 <= j < old_ids.len() && id_key(old_ids[j]) == key@);
                        let j = choose|j: int| 0 <= j < old_ids.len() && id_key(old_ids[j]) == key@;
                        assert(id_key(old_ids[j]) != key@);
                    }
                    assert(statuses_in(pre, key@) =~= Seq::<Seq<char>>::empty()) by {
                        lemma_no_key_no_statuses(pre, key@);
                    }
                    lemma_tally_push(Seq::<Seq<char>>::empty(), status@);
                }
                let id = copy_id(&row.1);
                let label = category_label(&row.0.category_name);
                let mut gc = StatusCounts::new();
                let _ = gc.record(status);
                ids.push(id);
                labels.push(label);
                group_counts.push(gc);
                proof {
                    let n = old_ids.len();
                    assert forall|j: int| 0 <= j < ids@.len() implies #[trigger] group_counts@[j] == tally(statuses_in(pre1, id_key(ids@[j]))) by {
                        if j < n {
                            assert(id_key(ids@[j]) != key@);
                        }
                    }
                    assert forall|j: int| 0 <= j < ids@.len() implies first_of_key(pre1, id_key(#[trigger] ids@[j])) == Some((opt_text(ids@[j]), labels@[j]@)) by {
                        if j < n {
                            assert(first_of_key(pre, id_key(ids@[j])) is Some);
                        }
                    }
                    assert forall|j1: int, j2: int| 0 <= j1 < j2 < ids@.len() implies id_key(#[trigger] ids@[j1]) != id_key(#[trigger] ids@[j2]) by {
                        if j2 == n {
                            assert(id_key(old_ids[j1]) != key@);
                        } else {
                            assert(id_key(old_ids[j1]) != id_key(old_ids[j2]));
                        }
                    }
                    assert forall|k: Seq<char>| #[trigger] first_of_key(pre1, k) is Some implies exists|j: int| 0 <= j < ids@.len() && id_key(ids@[j]) == k by {
                        if first_of_key(pre, k) is Some {
                            let j = choose|j: int| 0 <= j < old_ids.len() && id_key(old_ids[j]) == k;
                            assert(id_key(ids@[j]) == k);
                        } else {
                            assert(id_key(ids@[n as int]) == k);
                        }
                    }
                }
            },
        }
        i = i + 1;
    }
    assert(rows@.take(i as int) =~= rows@);
    Ok(Counted { totals, day_counts, ids, labels, group_counts })
}

/// The category key of a category (its id, or the empty text).
pub open spec fn category_key(c: ReviewCategory) -> Seq<char> {
    id_key(c.category_id)
}

/// Report order of categories: more planned tasks first, then by label,
/// then by key (the order of the map the categories are gathered in, which a
/// stable sort keeps among equals).
pub open spec fn category_before(a: ReviewCategory, b: ReviewCategory) -> bool {
    a.counts.planned > b.counts.planned || (a.counts.planned == b.counts.planned && (text_before(a.label@, b.label@)
        || (a.label@ == b.label@ && text_before(category_key(a), category_key(b)))))
}

pub proof fn lemma_category_before_transitive(a: ReviewCategory, b: ReviewCategory, c: ReviewCategory)
    requires
        category_before(a, b),
        category_before(b, c),
    ensures
        category_before(a, c),
{
    if a.counts.planned == b.counts.planned && b.counts.planned == c.counts.planned {
        if text_before(a.label@, b.label@) && text_before(b.label@, c.label@) {
            crate::text::lemma_text_before_transitive(a.label@, b.label@, c.label@);
        } else if a.label@ == b.label@ && b.label@ == c.label@ {
            crate::text::lemma_text_before_transitive(category_key(a), category_key(b), category_key(c));
        }
    }
}

pub proof fn lemma_category_before_total(a: ReviewCategory, b: ReviewCategory)
    requires
        category_key(a) != category_key(b),
    ensures
        category_before(a, b) || category_before(b, a),
{
    if a.label@ != b.label@ {
        crate::text::lemma_text_before_total(a.label@, b.label@);
    } else {
        crate::text::lemma_text_before_total(category_key(a), category_key(b));
    }
}

/// Compares two categories in report order.
fn category_less(a: &ReviewCategory, b: &ReviewCategory) -> (r: bool)
    ensures
        r == category_before(*a, *b),
{
    if a.counts.planned != b.counts.planned {
        return a.counts.planned > b.counts.planned;
    }
    if text_less(a.label.as_str(), b.label.as_str()) {
        return true;
    }
    if !str_eq(a.label.as_str(), b.label.as_str()) {
        return false;
    }
    let ka: &str = match &a.category_id {
        Some(s) => s.as_str(),
        None => "",
    };
    let kb: &str = match &b.category_id {
        Some(s) => s.as_str(),
        None => "",
    };
    proof {
        reveal_strlit("");
    }
    text_less(ka, kb)
}

/// The category built from group `j`.
pub open spec fn is_group(c: ReviewCategory, ids: Seq<Option<String>>, labels: Seq<String>, counts: Seq<StatusCounts>, j: int) -> bool {
    &&& 0 <= j < ids.len()
    &&& opt_text(c.category_id) == opt_text(ids[j])
    &&& c.label@ == labels[j]@
    &&& c.counts == counts[j]
}

/// Categories in strict report order.
pub open spec fn in_report_order(cs: Seq<ReviewCategory>) -> bool {
    forall|a: int, b: int| 0 <= a < b < cs.len() ==> category_before(#[trigger] cs[a], #[trigger] cs[b])
}

/// Inserts a category with a new key at its place in report order.
fn insert_category(out: &mut Vec<ReviewCategory>, c: ReviewCategory)
    requires
        in_report_order(old(out)@),
        forall|k: int| 0 <= k < old(out)@.len() ==> category_key(#[trigger] old(out)@[k]) != category_key(c),
    ensures
        in_report_order(final(out)@),
        exists|p: int| 0 <= p <= old(out)@.len() && final(out)@ == old(out)@.insert(p, c),
{
    let ghost before = out@;
    let mut p: usize = 0;
    while p < out.len() && category_less(&out[p], &c)
        invariant
            p <= out@.len(),
            out@ == before,
            forall|k: int| 0 <= k < p ==> category_before(#[trigger] before[k], c),
        decreases out.len() - p,
    {
        p = p + 1;
    }
    proof {
        if p < before.len() {
            lemma_category_before_total(before[p as int], c);
            assert forall|k: int| p < k < before.len() implies category_before(c, #[trigger] before[k]) by {
                lemma_category_before_transitive(c, before[p as int], before[k]);
            }
        }
    }
    out.insert(p, c);
    proof {
        let after = out@;
        assert(after =~= before.insert(p as int, c));
        assert forall|a: int, b: int| 0 <= a < b < after.len() implies category_before(#[trigger] after[a], #[trigger] after[b]) by {
            if b < p {
            } else if a < p && b == p {
            } else if a < p {
                lemma_category_before_transitive(after[a], c, after[b]);
            } else if a == p {
            } else {
            }
        }
    }
}

/// The category is built from one of the groups.
pub open spec fn some_group(c: ReviewCategory, ids: Seq<Option<String>>, labels: Seq<String>, counts: Seq<StatusCounts>) -> bool {
    exists|j: int| #[trigger] is_group(c, ids, labels, counts, j)
}

/// Some category has key `key`.
pub open spec fn has_category(cs: Seq<ReviewCategory>, key: Seq<char>) -> bool {
    exists|a: int| 0 <= a < cs.len() && #[trigger] category_key(cs[a]) == key
}

/// Group keys are distinct.
pub open spec fn distinct_keys(ids: Seq<Option<String>>) -> bool {
    forall|j1: int, j2: int| 0 <= j1 < j2 < ids.len() ==> id_key(#[trigger] ids[j1]) != id_key(#[trigger] ids[j2])
}

/// `origin[a]` is the group listed at position `a`, and `pos[j]` the
/// position of group `j`, for the first `g` groups.
pub open spec fn placed(
    out: Seq<ReviewCategory>,
    origin: Seq<int>,
    pos: Seq<int>,
    ids: Seq<Option<String>>,
    labels: Seq<String>,
    counts: Seq<StatusCounts>,
    g: int,
) -> bool {
    &&& origin.len() == out.len()
    &&& pos.len() == g
    &&& forall|a: int| 0 <= a < out.len() ==> 0 <= #[trigger] origin[a] < g && is_group(out[a], ids, labels, counts, origin[a])
    &&& forall|j: int| 0 <= j < g ==> 0 <= #[trigger] pos[j] < out.len() && category_key(out[pos[j]]) == id_key(ids[j])
}

/// Orders the groups into report order.
fn sort_groups(ids: &Vec<Option<String>>, labels: &Vec<String>, counts: &Vec<StatusCounts>) -> (r: Vec<ReviewCategory>)
    requires
        ids@.len() == labels@.len(),
        labels@.len() == counts@.len(),
        distinct_keys(ids@),
    ensures
        in_report_order(r@),
        forall|a: int| 0 <= a < r@.len() ==> #[trigger] some_group(r@[a], ids@, labels@, counts@),
        forall|j: int| 0 <= j < ids@.len() ==> #[trigger] has_category(r@, id_key(ids@[j])),
{
    let mut out: Vec<ReviewCategory> = Vec::new();
    let ghost mut origin: Seq<int> = Seq::empty();
    let ghost mut pos: Seq<int> = Seq::empty();
    let mut g: usize = 0;
    while g < ids.len()
        invariant
            g <= ids@.len(),
            ids@.len() == labels@.len(),
            labels@.len() == counts@.len(),
            distinct_keys(ids@),
            in_report_order(out@),
            placed(out@, origin, pos, ids@, labels@, counts@, g as int),
        decreases ids.len() - g,
    {
        let c = ReviewCategory { category_id: copy_id(&ids[g]), label: owned(labels[g].as_str()), counts: counts[g] };
        assert(is_group(c, ids@, labels@, counts@, g as int));
        let ghost before = out@;
        proof {
            assert forall|k: int| 0 <= k < before.len() implies category_key(#[trigger] before[k]) != category_key(c) by {
                let j = origin[k];
                assert(is_group(before[k], ids@, labels@, counts@, j));
                assert(id_key(ids@[j]) != id_key(ids@[g as int]));
            }
        }
        insert_category(&mut out, c);
        proof {
            let p = choose|p: int| 0 <= p <= before.len() && out@ == before.insert(p, c);
            let after = out@;
            let new_origin = origin.insert(p, g as int);
            let new_pos = pos.map_values(|x: int| if x >= p { x + 1 } else { x }).push(p);
            assert forall|a: int| 0 <= a < after.len() implies 0 <= #[trigger] new_origin[a] < g + 1
                && is_group(after[a], ids@, labels@, counts@, new_origin[a]) by {
                if a < p {
                    assert(after[a] == before[a]);
                    assert(new_origin[a] == origin[a]);
                } else if a > p {
                    assert(after[a] == before[a - 1]);
                    assert(new_origin[a] == origin[a - 1]);
                }
            }
            assert forall|j: int| 0 <= j < g + 1 implies 0 <= #[trigger] new_pos[j] < after.len()
                && category_key(after[new_pos[j]]) == id_key(ids@[j]) by {
                if j < g {
                    let x = pos[j];
                    if x >= p {
                        assert(new_pos[j] == x + 1);
                        assert(after[x + 1] == before[x]);
                    } else {
                        assert(new_pos[j] == x);
                        assert(after[x] == before[x]);
                    }
                } else {
                    assert(new_pos[j] == p);
                }
            }
            origin = new_origin;
            pos = new_pos;
        }
        g = g + 1;
    }
    proof {
        assert forall|a: int| 0 <= a < out@.len() implies #[trigger] some_group(out@[a], ids@, labels@, counts@) by {
            assert(is_group(out@[a], ids@, labels@, counts@, origin[a]));
        }
        assert forall|j: int| 0 <= j < ids@.len() implies #[trigger] has_category(out@, id_key(ids@[j])) by {
            assert(category_key(out@[pos[j]]) == id_key(ids@[j]));
        }
    }
    out
}

/// Row refusals depend on the period's day texts only through membership.
proof fn lemma_rows_error_members(rows: Seq<(ReviewTask, Option<String>)>, d1: Seq<Seq<char>>, d2: Seq<Seq<char>>)
    requires
        forall|x: Seq<char>| d1.contains(x) <==> d2.contains(x),
    ensures
        rows_error(rows, d1) == rows_error(rows, d2),
    decreases rows.len(),
{
    if rows.len() > 0 {
        lemma_rows_error_members(rows.drop_last(), d1, d2);
        assert(d1.contains(row_date(rows.last())) <==> d2.contains(row_date(rows.last())));
    }
}

/// The fields of a listed task.
pub open spec fn task_view(t: ReviewTask) -> (Seq<char>, Seq<char>, Option<Seq<char>>, Seq<char>, Seq<char>, Option<i64>, Option<Seq<char>>) {
    (t.id@, t.title@, opt_text(t.category_name), t.status@, t.scheduled_date@, t.completed_at, opt_text(t.carried_from))
}

fn copy_task(t: &ReviewTask) -> (r: ReviewTask)
    ensures
        task_view(r) == task_view(*t),
{
    ReviewTask {
        id: owned(t.id.as_str()),
        title: owned(t.title.as_str()),
        category_name: copy_id(&t.category_name),
        status: owned(t.status.as_str()),
        scheduled_date: owned(t.scheduled_date.as_str()),
        completed_at: t.completed_at,
        carried_from: copy_id(&t.carried_from),
    }
}

fn copy_tasks(rows: &Vec<(ReviewTask, Option<String>)>) -> (r: Vec<ReviewTask>)
    ensures
        r@.len() == rows@.len(),
        forall|i: int| 0 <= i < rows@.len() ==> task_view(#[trigger] r@[i]) == task_view(rows@[i].0),
{
    let mut out: Vec<ReviewTask> = Vec::new();
    let mut i: usize = 0;
    while i < rows.len()
        invariant
            i <= rows@.len(),
            out@.len() == i,
            forall|k: int| 0 <= k < i ==> task_view(#[trigger] out@[k]) == task_view(rows@[k].0),
        decreases rows.len() - i,
    {
        out.push(copy_task(&rows[i].0));
        i = i + 1;
    }
    out
}

fn build_days(dates: &Vec<String>, counts: &Vec<StatusCounts>) -> (r: Vec<ReviewDay>)
    requires
        dates@.len() == counts@.len(),
    ensures
        r@.len() == dates@.len(),
        forall|i: int| 0 <= i < dates@.len() ==> (#[trigger] r@[i]).date@ == dates@[i]@ && r@[i].counts == counts@[i],
{
    let mut out: Vec<ReviewDay> = Vec::new();
    let mut i: usize = 0;
    while i < dates.len()
        invariant
            i <= dates@.len(),
            dates@.len() == counts@.len(),
            out@.len() == i,
            forall|k: int| 0 <= k < i ==> (#[trigger] out@[k]).date@ == dates@[k]@ && out@[k].counts == counts@[k],
        decreases dates.len() - i,
    {
        out.push(ReviewDay { date: owned(dates[i].as_str()), counts: counts[i] });
        i = i + 1;
    }
    out
}

/// Some listed day is written `t`.
pub open spec fn has_day(days: Seq<ReviewDay>, t: Seq<char>) -> bool {
    exists|a: int| 0 <= a < days.len() && #[trigger] days[a].date@ == t
}

/// The days of a report: each day of the period once, in text order, with
/// the counts of the rows scheduled on it.
pub open spec fn days_of(rows: Seq<(ReviewTask, Option<String>)>, period_days: Seq<Seq<char>>, days: Seq<ReviewDay>) -> bool {
    &&& strictly_sorted(days.map_values(|d: ReviewDay| d.date@))
    &&& forall|a: int| 0 <= a < days.len() ==> period_days.contains(#[trigger] days[a].date@)
    &&& forall|a: int| 0 <= a < days.len() ==> #[trigger] days[a].counts == tally(statuses_on(rows, days[a].date@))
    &&& forall|t: Seq<char>| period_days.contains(t) ==> #[trigger] has_day(days, t)
}

/// A category carries the id and label of the first row of its key and the
/// counts of all rows of its key.
pub open spec fn category_matches(rows: Seq<(ReviewTask, Option<String>)>, c: ReviewCategory) -> bool {
    &&& first_of_key(rows, category_key(c)) == Some((opt_text(c.category_id), c.label@))
    &&& c.counts == tally(statuses_in(rows, category_key(c)))
}

/// The categories of a report: one per category key among the rows, in
/// report order.
pub open spec fn categories_of(rows: Seq<(ReviewTask, Option<String>)>, cats: Seq<ReviewCategory>) -> bool {
    &&& in_report_order(cats)
    &&& forall|a: int| 0 <= a < cats.len() ==> #[trigger] category_matches(rows, cats[a])
    &&& forall|k: Seq<char>| #[trigger] first_of_key(rows, k) is Some ==> has_category(cats, k)
}

/// Why no report can be made, checked in order: an invalid anchor or
/// current day, the period's bounds, an invalid bound, walking the period's
/// days, then the first row that cannot be counted.
pub open spec fn report_refusal(
    period: ReviewPeriod,
    anchor: TaskDate,
    current: TaskDate,
    rows: Seq<(ReviewTask, Option<String>)>,
) -> Option<Seq<char>> {
    if !chrono_valid(anchor.year, anchor.month, anchor.day) || !chrono_valid(current.year, current.month, current.day) {
        Some("invalid date"@)
    } else {
        match period_bounds_spec(period, anchor) {
            Err(m) => Some(m),
            Ok((s, e)) => if !chrono_valid(s.year, s.month, s.day) || !chrono_valid(e.year, e.month, e.day) {
                Some("invalid date"@)
            } else {
                match period_texts(s, e) {
                    Err(m) => Some(m),
                    Ok(days) => rows_error(rows, days),
                }
            },
        }
    }
}

/// What a report holds for the given period and rows.
pub open spec fn report_of(
    rep: ReviewReport,
    period: ReviewPeriod,
    anchor: TaskDate,
    current: TaskDate,
    rows: Seq<(ReviewTask, Option<String>)>,
) -> bool {
    match period_bounds_spec(period, anchor) {
        Ok((s, e)) => match period_texts(s, e) {
            Ok(days) => {
                &&& rep.period == period
                &&& rep.anchor_date@ == date_text_of(anchor)
                &&& rep.period_start@ == date_text_of(s)
                &&& rep.period_end@ == date_text_of(e)
                &&& rep.current_task_day@ == date_text_of(current)
                &&& rep.totals == tally(all_statuses(rows))
                &&& days_of(rows, days, rep.days@)
                &&& categories_of(rows, rep.categories@)
                &&& rep.tasks@.len() == rows.len()
                &&& forall|i: int| 0 <= i < rows.len() ==> task_view(#[trigger] rep.tasks@[i]) == task_view(rows[i].0)
            },
            Err(_) => false,
        },
        Err(_) => false,
    }
}

/// Builds the review report of the period around `anchor` from the rows the
/// period's query returned (in the query's order): every day of the period
/// with its counts, the totals, the categories ordered by planned count then
/// label, and the tasks themselves.
pub fn review_report(
    period: ReviewPeriod,
    anchor: TaskDate,
    current: TaskDate,
    rows: &Vec<(ReviewTask, Option<String>)>,
) -> (r: Result<ReviewReport, String>)
    requires
        rows@.len() < 0x4000_0000_0000_0000,
    ensures
        match report_refusal(period, anchor, current, rows@) {
            Some(m) => r matches Err(e) && e@ == m,
            None => r matches Ok(rep) && report_of(rep, period, anchor, current, rows@),
        },
{
    if !date_valid(anchor.year, anchor.month, anchor.day) || !date_valid(current.year, current.month, current.day) {
        return Err("invalid date".to_string());
    }
    let (start, end) = match period_bounds(period, anchor) {
        Ok(b) => b,
        Err(e) => {
            return Err(e);
        },
    };
    if !date_valid(start.year, start.month, start.day) || !date_valid(end.year, end.month, end.day) {
        return Err("invalid date".to_string());
    }
    let walked = match period_day_texts(start, end) {
        Ok(v) => v,
        Err(e) => {
            return Err(e);
        },
    };
    let ghost period_days = texts(walked@);
    let dates = sorted_distinct(&walked);
    proof {
        lemma_rows_error_members(rows@, texts(dates@), period_days);
    }
    let counted = match count_rows(rows, &dates) {
        Ok(c) => c,
        Err(e) => {
            return Err(e);
        },
    };
    let days = build_days(&dates, &counted.day_counts);
    let categories = sort_groups(&counted.ids, &counted.labels, &counted.group_counts);
    let tasks = copy_tasks(rows);
    let rep = ReviewReport {
        period,
        anchor_date: format_date(anchor),
        period_start: format_date(start),
        period_end: format_date(end),
        current_task_day: format_date(current),
        totals: counted.totals,
        days,
        categories,
        tasks,
    };
    proof {
        let ds = rep.days@;
        assert(ds.map_values(|d: ReviewDay| d.date@) =~= texts(dates@));
        assert forall|a: int| 0 <= a < ds.len() implies period_days.contains(#[trigger] ds[a].date@) by {
            assert(texts(dates@)[a] == ds[a].date@);
        }
        assert forall|t: Seq<char>| period_days.contains(t) implies #[trigger] has_day(ds, t) by {
            assert(texts(dates@).contains(t));
            let a = choose|a: int| 0 <= a < texts(dates@).len() && texts(dates@)[a] == t;
            assert(ds[a].date@ == t);
        }
        let cs = rep.categories@;
        assert forall|a: int| 0 <= a < cs.len() implies #[trigger] category_matches(rows@, cs[a]) by {
            assert(some_group(cs[a], counted.ids@, counted.labels@, counted.group_counts@));
            let j = choose|j: int| #[trigger] is_group(cs[a], counted.ids@, counted.labels@, counted.group_counts@, j);
            assert(id_key(counted.ids@[j]) == category_key(cs[a])) by {
                match cs[a].category_id {
                    Some(x) => {},
                    None => {},
                }
            }
        }
        assert forall|k: Seq<char>| #[trigger] first_of_key(rows@, k) is Some implies has_category(cs, k) by {
            let j = choose|j: int| 0 <= j < counted.ids@.len() && id_key(counted.ids@[j]) == k;
            assert(has_category(cs, id_key(counted.ids@[j])));
        }
    }
    Ok(rep)
}

/// Counts as plain numbers: planned, completed, carried, cancelled, pending.
pub open spec fn counts_tuple(c: StatusCounts) -> (int, int, int, int, int) {
    (c.planned as int, c.completed as int, c.carried as int, c.cancelled as int, c.pending as int)
}

/// Field-wise sum of counts.
pub open spec fn counts_sum(cs: Seq<StatusCounts>) -> (int, int, int, int, int)
    decreases cs.len(),
{
    if cs.len() == 0 {
        (0, 0, 0, 0, 0)
    } else {
        let s = counts_sum(cs.drop_last());
        let c = counts_tuple(cs.last());
        (s.0 + c.0, s.1 + c.1, s.2 + c.2, s.3 + c.3, s.4 + c.4)
    }
}

/// What counting one task of `status` adds.
pub open spec fn status_delta(status: Seq<char>) -> (int, int, int, int, int) {
    (
        1,
        if status == "completed"@ { 1 } else { 0 },
        if status == "carried"@ { 1 } else { 0 },
        if status == "cancelled"@ { 1 } else { 0 },
        if status == "pending"@ { 1 } else { 0 },
    )
}

pub open spec fn tuple_add(a: (int, int, int, int, int), b: (int, int, int, int, int)) -> (int, int, int, int, int) {
    (a.0 + b.0, a.1 + b.1, a.2 + b.2, a.3 + b.3, a.4 + b.4)
}

pub open spec fn tuple_sub(a: (int, int, int, int, int), b: (int, int, int, int, int)) -> (int, int, int, int, int) {
    (a.0 - b.0, a.1 - b.1, a.2 - b.2, a.3 - b.3, a.4 - b.4)
}

/// Counting one more task changes the counts by its status alone.
proof fn lemma_recorded_delta(c: StatusCounts, status: Seq<char>)
    requires
        0 <= c.planned < 0x4000_0000_0000_0000,
        0 <= c.completed < 0x4000_0000_0000_0000,
        0 <= c.carried < 0x4000_0000_0000_0000,
        0 <= c.cancelled < 0x4000_0000_0000_0000,
        0 <= c.pending < 0x4000_0000_0000_0000,
    ensures
        counts_tuple(recorded(c, status)) == tuple_add(counts_tuple(c), status_delta(status)),
{
    reveal_strlit("completed");
    reveal_strlit("carried");
    reveal_strlit("cancelled");
    reveal_strlit("pending");
    assert("completed"@.len() != "carried"@.len());
    assert("completed"@.len() != "pending"@.len());
    assert("carried"@[0] != "pending"@[0]);
    assert("completed"@[1] != "cancelled"@[1]);
    assert("carried"@.len() != "cancelled"@.len());
    assert("cancelled"@.len() != "pending"@.len());
}

/// Replacing one element of a list of counts changes the sum by the change.
proof fn lemma_sum_update(cs: Seq<StatusCounts>, k: int, c: StatusCounts)
    requires
        0 <= k < cs.len(),
    ensures
        counts_sum(cs.update(k, c)) == tuple_add(counts_sum(cs), tuple_sub(counts_tuple(c), counts_tuple(cs[k]))),
    decreases cs.len(),
{
    if k == cs.len() - 1 {
        assert(cs.update(k, c).drop_last() =~= cs.drop_last());
    } else {
        assert(cs.update(k, c).drop_last() =~= cs.drop_last().update(k, c));
        lemma_sum_update(cs.drop_last(), k, c);
    }
}

/// The counts of each listed day, recomputed from `rows`.
pub open spec fn day_tallies(days: Seq<ReviewDay>, rows: Seq<(ReviewTask, Option<String>)>) -> Seq<StatusCounts> {
    days.map_values(|d: ReviewDay| tally(statuses_on(rows, d.date@)))
}

/// When every row falls on exactly one listed day, the days' counts add up
/// to the counts of all rows.
proof fn lemma_days_sum(days: Seq<ReviewDay>, rows: Seq<(ReviewTask, Option<String>)>)
    requires
        rows.len() < 0x4000_0000_0000_0000,
        forall|a: int, b: int| 0 <= a < b < days.len() ==> #[trigger] days[a].date@ != #[trigger] days[b].date@,
        forall|i: int| 0 <= i < rows.len() ==> #[trigger] has_day(days, row_date(rows[i])),
    ensures
        counts_sum(day_tallies(days, rows)) == counts_tuple(tally(all_statuses(rows))),
    decreases rows.len(),
{
    if rows.len() == 0 {
        assert forall|j: int| 0 <= j < days.len() implies #[trigger] day_tallies(days, rows)[j] == no_counts() by {}
        lemma_sum_of_zeros(day_tallies(days, rows));
    } else {
        let pre = rows.drop_last();
        let r = rows.last();
        assert forall|i: int| 0 <= i < pre.len() implies #[trigger] has_day(days, row_date(pre[i])) by {
            assert(pre[i] == rows[i]);
            assert(has_day(days, row_date(rows[i])));
        }
        lemma_days_sum(days, pre);
        assert(has_day(days, row_date(rows[rows.len() - 1])));
        let k = choose|a: int| 0 <= a < days.len() && #[trigger] days[a].date@ == row_date(r);
        let before = day_tallies(days, pre);
        let after = day_tallies(days, rows);
        lemma_statuses_len(pre, row_date(r), Seq::empty());
        lemma_tally_bounds(statuses_on(pre, row_date(r)));
        lemma_recorded_delta(before[k], row_status(r));
        lemma_tally_push(statuses_on(pre, row_date(r)), row_status(r));
        lemma_tally_push(all_statuses(pre), row_status(r));
        assert(after =~= before.update(k, recorded(before[k], row_status(r)))) by {
            assert forall|j: int| 0 <= j < days.len() implies #[trigger] after[j] == before.update(k, recorded(before[k], row_status(r)))[j] by {
                if j != k {
                    assert(days[j].date@ != row_date(r)) by {
                        if j < k {
                            assert(days[j].date@ != days[k].date@);
                        } else {
                            assert(days[k].date@ != days[j].date@);
                        }
                    }
                }
            }
        }
        lemma_sum_update(before, k, recorded(before[k], row_status(r)));
        lemma_statuses_len(pre, Seq::empty(), Seq::empty());
        lemma_tally_bounds(all_statuses(pre));
        lemma_recorded_delta(tally(all_statuses(pre)), row_status(r));
    }
}

proof fn lemma_sum_of_zeros(cs: Seq<StatusCounts>)
    requires
        forall|j: int| 0 <= j < cs.len() ==> #[trigger] cs[j] == no_counts(),
    ensures
        counts_sum(cs) == (0int, 0int, 0int, 0int, 0int),
    decreases cs.len(),
{
    if cs.len() > 0 {
        lemma_sum_of_zeros(cs.drop_last());
    }
}

/// Rows without a refusal all fall on a day of the period.
proof fn lemma_rows_on_period_days(rows: Seq<(ReviewTask, Option<String>)>, days: Seq<Seq<char>>)
    requires
        rows_error(rows, days) is None,
    ensures
        forall|i: int| 0 <= i < rows.len() ==> days.contains(row_date(#[trigger] rows[i])),
    decreases rows.len(),
{
    if rows.len() > 0 {
        lemma_rows_on_period_days(rows.drop_last(), days);
        assert forall|i: int| 0 <= i < rows.len() implies days.contains(row_date(#[trigger] rows[i])) by {
            if i < rows.len() - 1 {
                assert(rows[i] == rows.drop_last()[i]);
            }
        }
    }
}

/// A report is factual about its days: every counted task lies on exactly
/// one day of the period, so the days' counts add up to the report's totals.
pub proof fn report_days_add_up_to_totals(
    rep: ReviewReport,
    period: ReviewPeriod,
    anchor: TaskDate,
    current: TaskDate,
    rows: Seq<(ReviewTask, Option<String>)>,
)
    requires
        rows.len() < 0x4000_0000_0000_0000,
        report_refusal(period, anchor, current, rows) is None,
        report_of(rep, period, anchor, current, rows),
    ensures
        counts_sum(rep.days@.map_values(|d: ReviewDay| d.counts)) == counts_tuple(rep.totals),
{
    let (s, e) = period_bounds_spec(period, anchor)->Ok_0;
    let texts = period_texts(s, e)->Ok_0;
    let ds = rep.days@;
    assert(days_of(rows, texts, ds));
    lemma_rows_on_period_days(rows, texts);
    assert forall|a: int, b: int| 0 <= a < b < ds.len() implies #[trigger] ds[a].date@ != #[trigger] ds[b].date@ by {
        let dates = ds.map_values(|d: ReviewDay| d.date@);
        assert(text_before(dates[a], dates[b]));
        crate::text::lemma_text_before_irreflexive(dates[a]);
    }
    assert forall|i: int| 0 <= i < rows.len() implies #[trigger] has_day(ds, row_date(rows[i])) by {
        assert(texts.contains(row_date(rows[i])));
    }
    lemma_days_sum(ds, rows);
    assert(ds.map_values(|d: ReviewDay| d.counts) =~= day_tallies(ds, rows));
}

/// The counts of each listed category, recomputed from `rows`.
pub open spec fn category_tallies(cats: Seq<ReviewCategory>, rows: Seq<(ReviewTask, Option<String>)>) -> Seq<StatusCounts> {
    cats.map_values(|c: ReviewCategory| tally(statuses_in(rows, category_key(c))))
}

/// When every row's category key is listed exactly once, the categories'
/// counts add up to the counts of all rows.
proof fn lemma_categories_sum(cats: Seq<ReviewCategory>, rows: Seq<(ReviewTask, Option<String>)>)
    requires
        rows.len() < 0x4000_0000_0000_0000,
        forall|a: int, b: int| 0 <= a < b < cats.len() ==> category_key(#[trigger] cats[a]) != category_key(#[trigger] cats[b]),
        forall|i: int| 0 <= i < rows.len() ==> #[trigger] has_category(cats, id_key(rows[i].1)),
    ensures
        counts_sum(category_tallies(cats, rows)) == counts_tuple(tally(all_statuses(rows))),
    decreases rows.len(),
{
    if rows.len() == 0 {
        assert forall|j: int| 0 <= j < cats.len() implies #[trigger] category_tallies(cats, rows)[j] == no_counts() by {}
        lemma_sum_of_zeros(category_tallies(cats, rows));
    } else {
        let pre = rows.drop_last();
        let r = rows.last();
        assert forall|i: int| 0 <= i < pre.len() implies #[trigger] has_category(cats, id_key(pre[i].1)) by {
            assert(pre[i] == rows[i]);
            assert(has_category(cats, id_key(rows[i].1)));
        }
        lemma_categories_sum(cats, pre);
        assert(has_category(cats, id_key(rows[rows.len() - 1].1)));
        let k = choose|a: int| 0 <= a < cats.len() && #[trigger] category_key(cats[a]) == id_key(r.1);
        let before = category_tallies(cats, pre);
        let after = category_tallies(cats, rows);
        lemma_statuses_len(pre, Seq::empty(), id_key(r.1));
        lemma_tally_bounds(statuses_in(pre, id_key(r.1)));
        lemma_recorded_delta(before[k], row_status(r));
        lemma_tally_push(statuses_in(pre, id_key(r.1)), row_status(r));
        lemma_tally_push(all_statuses(pre), row_status(r));
        assert(after =~= before.update(k, recorded(before[k], row_status(r)))) by {
            assert forall|j: int| 0 <= j < cats.len() implies #[trigger] after[j] == before.update(k, recorded(before[k], row_status(r)))[j] by {
                if j != k {
                    assert(category_key(cats[j]) != id_key(r.1)) by {
                        if j < k {
                            assert(category_key(cats[j]) != category_key(cats[k]));
                        } else {
                            assert(category_key(cats[k]) != category_key(cats[j]));
                        }
                    }
                }
            }
        }
        lemma_sum_update(before, k, recorded(before[k], row_status(r)));
        lemma_statuses_len(pre, Seq::empty(), Seq::empty());
        lemma_tally_bounds(all_statuses(pre));
        lemma_recorded_delta(tally(all_statuses(pre)), row_status(r));
    }
}

/// Every row's category key has a first row.
proof fn lemma_row_keys_have_heads(rows: Seq<(ReviewTask, Option<String>)>)
    ensures
        forall|i: int| 0 <= i < rows.len() ==> first_of_key(rows, id_key(#[trigger] rows[i].1)) is Some,
    decreases rows.len(),
{
    if rows.len() > 0 {
        lemma_row_keys_have_heads(rows.drop_last());
        assert forall|i: int| 0 <= i < rows.len() implies first_of_key(rows, id_key(#[trigger] rows[i].1)) is Some by {
            if i < rows.len() - 1 {
                assert(rows[i] == rows.drop_last()[i]);
                assert(first_of_key(rows.drop_last(), id_key(rows.drop_last()[i].1)) is Some);
            }
        }
    }
}

/// A report is factual about its categories: every counted task belongs to
/// exactly one listed category (uncategorized tasks included), so the
/// categories' counts add up to the report's totals.
pub proof fn report_categories_add_up_to_totals(
    rep: ReviewReport,
    period: ReviewPeriod,
    anchor: TaskDate,
    current: TaskDate,
    rows: Seq<(ReviewTask, Option<String>)>,
)
    requires
        rows.len() < 0x4000_0000_0000_0000,
        report_refusal(period, anchor, current, rows) is None,
        report_of(rep, period, anchor, current, rows),
    ensures
        counts_sum(rep.categories@.map_values(|c: ReviewCategory| c.counts)) == counts_tuple(rep.totals),
{
    let cs = rep.categories@;
    assert(categories_of(rows, cs));
    assert forall|a: int, b: int| 0 <= a < b < cs.len() implies category_key(#[trigger] cs[a]) != category_key(#[trigger] cs[b]) by {
        assert(category_before(cs[a], cs[b]));
        assert(category_matches(rows, cs[a]));
        assert(category_matches(rows, cs[b]));
        if category_key(cs[a]) == category_key(cs[b]) {
            crate::text::lemma_text_before_irreflexive(cs[a].label@);
            crate::text::lemma_text_before_irreflexive(category_key(cs[a]));
        }
    }
    lemma_row_keys_have_heads(rows);
    assert forall|i: int| 0 <= i < rows.len() implies #[trigger] has_category(cs, id_key(rows[i].1)) by {
        assert(first_of_key(rows, id_key(rows[i].1)) is Some);
    }
    lemma_categories_sum(cs, rows);
    let counts = cs.map_values(|c: ReviewCategory| c.counts);
    assert(counts =~= category_tallies(cs, rows)) by {
        assert forall|j: int| 0 <= j < cs.len() implies #[trigger] counts[j] == category_tallies(cs, rows)[j] by {
            assert(category_matches(rows, cs[j]));
        }
    }
}

} // verus!
