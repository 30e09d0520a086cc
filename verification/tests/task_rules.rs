use desktop_todo::task_day::TaskDate;
use desktop_todo::tasks::{
    carry_target, today_days, check_reorder, clean_category_name, clean_title, delete_allowed, month_key, reorder_sort_order, require_changed,
    toggled_status,
};
use desktop_todo::weather::{
    cache_age, cache_view, cached_snapshot_matches, checked_status, diagnostic_snapshot, search_query, CacheStatus,
    WeatherError,
};

fn ids(values: &[&str]) -> Vec<String> {
    values.iter().map(|v| v.to_string()).collect()
}

#[test]
fn titles_and_category_names_are_trimmed_and_required() {
    assert_eq!(clean_title("  Buy milk "), Ok("Buy milk"));
    assert!(clean_title("   ").is_err());
    assert_eq!(clean_category_name(" Work\t"), Ok("Work"));
    assert_eq!(clean_category_name(" \n "), Err("category name cannot be empty".to_string()));
}

#[test]
fn toggling_moves_between_pending_and_completed_only() {
    assert_eq!(toggled_status("pending"), Ok("completed"));
    assert_eq!(toggled_status("completed"), Ok("pending"));
    assert_eq!(toggled_status("carried"), Err("only pending or completed tasks can be toggled".to_string()));
    assert_eq!(toggled_status("cancelled"), Err("only pending or completed tasks can be toggled".to_string()));
}

#[test]
fn history_is_deleted_only_when_confirmed() {
    assert!(delete_allowed("pending", false).is_ok());
    assert_eq!(
        delete_allowed("completed", false),
        Err("deleting completed or carried history requires confirmation".to_string())
    );
    assert!(delete_allowed("carried", true).is_ok());
    assert!(require_changed(1, "task").is_ok());
    assert_eq!(require_changed(0, "task"), Err("task not found".to_string()));
    assert_eq!(require_changed(2, "category"), Err("category not found".to_string()));
}

#[test]
fn a_reorder_names_each_pending_task_exactly_once() {
    let existing = ids(&["a", "b", "c"]);
    assert!(check_reorder(&existing, &ids(&["c", "a", "b"])).is_ok());
    let refusal = Err("reorder must contain each pending task exactly once".to_string());
    assert_eq!(check_reorder(&existing, &ids(&["a", "b"])), refusal);
    assert_eq!(check_reorder(&existing, &ids(&["a", "a", "b"])), refusal);
    assert_eq!(check_reorder(&existing, &ids(&["a", "b", "z"])), refusal);
    assert_eq!((reorder_sort_order(0), reorder_sort_order(4)), (10, 50));
    assert_eq!(reorder_sort_order(2_000_000_000), 20_000_000_010);
}

#[test]
fn month_keys_are_zero_padded() {
    assert_eq!(month_key(2026, 3), "2026-03");
    assert_eq!(month_key(987, 11), "0987-11");
}

#[test]
fn weather_cache_freshness_follows_the_age() {
    assert_eq!(cache_age(1_000, 400), 600);
    assert_eq!(cache_age(400, 1_000), 0);
    assert_eq!(cache_age(i64::MAX, i64::MIN), i64::MAX);
    assert_eq!(cache_view(None), (CacheStatus::Missing, true));
    assert_eq!(cache_view(Some(600)), (CacheStatus::Fresh, false));
    assert_eq!(cache_view(Some(3_600)), (CacheStatus::Fresh, true));
    assert_eq!(cache_view(Some(90_000)), (CacheStatus::VeryStale, true));
    assert!(cached_snapshot_matches("30.25,120.17,Asia/Shanghai", true, 77, "30.25,120.17,Asia/Shanghai", 77));
    assert!(!cached_snapshot_matches("30.25,120.17,Asia/Shanghai", true, 77, "30.25,120.17,Asia/Shanghai", 78));
    assert!(!cached_snapshot_matches("x", false, 77, "x", 77));
}

#[test]
fn provider_replies_and_searches_are_screened() {
    assert!(checked_status(200).is_ok());
    assert!(checked_status(299).is_ok());
    assert_eq!(checked_status(503), Err(WeatherError::ProviderError));
    assert_eq!(search_query("  Hangzhou "), Some("Hangzhou".to_string()));
    assert_eq!(search_query(" a "), None);
    assert_eq!(WeatherError::Timeout.diagnostic_label(), "timeout");
    assert_eq!(WeatherError::Cooldown.diagnostic_label(), "cooldown");
    let snapshot = diagnostic_snapshot(true, CacheStatus::VeryStale, Some(90_000), "2026-08-29T10:00:00Z".to_string());
    assert_eq!(snapshot.cache_status, "very-stale");
    assert_eq!(snapshot.cache_age_seconds, Some(90_000));
    assert!(snapshot.configured);
}

#[test]
fn the_today_view_names_its_day_the_day_before_and_the_month() {
    let days = today_days(TaskDate { year: 2026, month: 3, day: 1 }).unwrap();
    assert_eq!(days.task_day, "2026-03-01");
    assert_eq!(days.previous_task_day, "2026-02-28");
    assert_eq!(days.month, "2026-03");
    let leap = today_days(TaskDate { year: 2024, month: 3, day: 1 }).unwrap();
    assert_eq!(leap.previous_task_day, "2024-02-29");
    assert_eq!(today_days(TaskDate { year: 2026, month: 2, day: 30 }).unwrap_err(), "invalid date");
}

#[test]
fn a_carried_task_moves_to_the_next_calendar_day() {
    assert_eq!(carry_target("2026-12-31", "unreadable date"), Ok("2027-01-01".to_string()));
    assert_eq!(carry_target("2024-02-28", "unreadable date"), Ok("2024-02-29".to_string()));
    assert_eq!(carry_target("2026-02-30", "unreadable date"), Err("unreadable date".to_string()));
    assert_eq!(carry_target("yesterday", "unreadable date"), Err("unreadable date".to_string()));
}
