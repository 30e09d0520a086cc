use desktop_todo::report::review_report;
use desktop_todo::reviews::{ReviewPeriod, ReviewTask, StatusCounts};
use desktop_todo::task_day::TaskDate;

fn date(year: i32, month: u32, day: u32) -> TaskDate {
    TaskDate { year, month, day }
}

fn task(id: &str, status: &str, day: &str, category: Option<(&str, &str)>) -> (ReviewTask, Option<String>) {
    (
        ReviewTask {
            id: id.into(),
            title: format!("Task {id}"),
            category_name: category.map(|(_, name)| name.to_string()),
            status: status.into(),
            scheduled_date: day.into(),
            completed_at: if status == "completed" { Some(1_788_000_000) } else { None },
            carried_from: None,
        },
        category.map(|(id, _)| id.to_string()),
    )
}

#[test]
fn daily_report_counts_each_raw_status_once() {
    let day = date(2026, 9, 1);
    let rows = vec![
        task("a", "pending", "2026-09-01", None),
        task("b", "completed", "2026-09-01", None),
        task("c", "carried", "2026-09-01", None),
        task("d", "cancelled", "2026-09-01", None),
    ];
    let report = review_report(ReviewPeriod::Daily, day, day, &rows).expect("report");
    assert_eq!(report.totals, StatusCounts { planned: 4, completed: 1, carried: 1, cancelled: 1, pending: 1 });
    assert!(report.tasks.iter().any(|task| task.status == "completed" && task.completed_at.is_some()));
    assert_eq!(report.days.len(), 1);
    assert_eq!(report.days[0].date, "2026-09-01");
    assert_eq!(report.days[0].counts, report.totals);
    assert_eq!(report.anchor_date, "2026-09-01");
    assert_eq!(report.current_task_day, "2026-09-01");
}

#[test]
fn carry_source_and_successor_belong_to_their_own_task_days() {
    let mut source = task("source", "carried", "2026-09-01", None);
    source.0.carried_from = None;
    let mut successor = task("successor", "completed", "2026-09-02", None);
    successor.0.carried_from = Some("source".into());

    let source_day = date(2026, 9, 1);
    let source_report = review_report(ReviewPeriod::Daily, source_day, source_day, &vec![source]).expect("source report");
    assert_eq!(source_report.totals.planned, 1);
    assert_eq!(source_report.totals.carried, 1);
    assert_eq!(source_report.totals.completed, 0);

    let successor_day = date(2026, 9, 2);
    let successor_report =
        review_report(ReviewPeriod::Daily, successor_day, successor_day, &vec![successor]).expect("successor report");
    assert_eq!(successor_report.totals.planned, 1);
    assert_eq!(successor_report.totals.completed, 1);
    assert_eq!(successor_report.tasks[0].carried_from.as_deref(), Some("source"));
}

#[test]
fn weekly_report_uses_monday_through_sunday_and_includes_empty_days() {
    let rows = vec![task("mon", "pending", "2026-08-31", None), task("sun", "pending", "2026-09-06", None)];
    let report = review_report(ReviewPeriod::Weekly, date(2026, 9, 2), date(2026, 9, 2), &rows).expect("report");
    assert_eq!(report.period_start, "2026-08-31");
    assert_eq!(report.period_end, "2026-09-06");
    assert_eq!(report.days.len(), 7);
    assert_eq!(report.totals.planned, 2);
    let dates: Vec<&str> = report.days.iter().map(|d| d.date.as_str()).collect();
    assert_eq!(
        dates,
        vec!["2026-08-31", "2026-09-01", "2026-09-02", "2026-09-03", "2026-09-04", "2026-09-05", "2026-09-06"]
    );
    assert_eq!(report.days[0].counts.planned, 1);
    assert_eq!(report.days[3].counts.planned, 0);
    assert_eq!(report.days[6].counts.pending, 1);
}

#[test]
fn monthly_report_lists_every_day_of_the_month() {
    let report = review_report(ReviewPeriod::Monthly, date(2028, 2, 12), date(2028, 2, 12), &vec![]).expect("report");
    assert_eq!(report.period_start, "2028-02-01");
    assert_eq!(report.period_end, "2028-02-29");
    assert_eq!(report.days.len(), 29);
    assert_eq!(report.totals, StatusCounts { planned: 0, completed: 0, carried: 0, cancelled: 0, pending: 0 });
    assert!(report.categories.is_empty());
}

#[test]
fn category_breakdown_is_factual_and_includes_uncategorized() {
    let day = date(2026, 9, 1);
    let rows = vec![
        task("read", "pending", "2026-09-01", Some(("cat-research", "Research"))),
        task("loose", "pending", "2026-09-01", None),
    ];
    let report = review_report(ReviewPeriod::Daily, day, day, &rows).expect("report");
    assert_eq!(report.categories.len(), 2);
    assert!(report.categories.iter().any(|item| item.label == "Research"));
    assert!(report.categories.iter().any(|item| item.label == "Uncategorized" && item.category_id.is_none()));
}

#[test]
fn categories_are_ordered_by_planned_count_then_label() {
    let day = date(2026, 9, 1);
    let rows = vec![
        task("1", "pending", "2026-09-01", Some(("z", "Zeta"))),
        task("2", "completed", "2026-09-01", Some(("a", "Alpha"))),
        task("3", "pending", "2026-09-01", Some(("b", "Beta"))),
        task("4", "cancelled", "2026-09-01", Some(("b", "Beta"))),
        task("5", "pending", "2026-09-01", None),
    ];
    let report = review_report(ReviewPeriod::Daily, day, day, &rows).expect("report");
    let labels: Vec<&str> = report.categories.iter().map(|c| c.label.as_str()).collect();
    assert_eq!(labels, vec!["Beta", "Alpha", "Uncategorized", "Zeta"]);
    assert_eq!(report.categories[0].counts, StatusCounts { planned: 2, completed: 0, carried: 0, cancelled: 1, pending: 1 });
    assert_eq!(report.tasks.len(), 5);
    assert_eq!(report.tasks[2].id, "3");
}

#[test]
fn rows_that_cannot_be_counted_refuse_the_report() {
    let day = date(2026, 9, 1);
    let unknown = vec![task("x", "archived", "2026-09-01", None)];
    assert_eq!(review_report(ReviewPeriod::Daily, day, day, &unknown).unwrap_err(), "unsupported task status: archived");
    let outside = vec![task("y", "pending", "2026-09-02", None)];
    assert_eq!(review_report(ReviewPeriod::Daily, day, day, &outside).unwrap_err(), "task date fell outside review period");
    assert_eq!(review_report(ReviewPeriod::Daily, date(2026, 2, 30), day, &vec![]).unwrap_err(), "invalid date");
}

#[test]
fn days_and_categories_add_up_to_the_totals() {
    let rows = vec![
        task("1", "pending", "2026-08-31", Some(("w", "Work"))),
        task("2", "completed", "2026-09-01", Some(("w", "Work"))),
        task("3", "carried", "2026-09-01", None),
        task("4", "cancelled", "2026-09-06", Some(("h", "Home"))),
    ];
    let report = review_report(ReviewPeriod::Weekly, date(2026, 9, 2), date(2026, 9, 2), &rows).expect("report");
    let mut by_day = StatusCounts { planned: 0, completed: 0, carried: 0, cancelled: 0, pending: 0 };
    for day in &report.days {
        by_day.planned += day.counts.planned;
        by_day.completed += day.counts.completed;
        by_day.carried += day.counts.carried;
        by_day.cancelled += day.counts.cancelled;
        by_day.pending += day.counts.pending;
    }
    assert_eq!(by_day, report.totals);
    let planned_by_category: i64 = report.categories.iter().map(|c| c.counts.planned).sum();
    assert_eq!(planned_by_category, report.totals.planned);
    assert_eq!(report.totals.planned, 4);
}
