use desktop_todo::reviews::{period_bounds, ReviewPeriod, StatusCounts};
use desktop_todo::task_day::{date_text, parse_date, parse_rollover, task_day_at, LocalDateTime, Rollover, TaskDate};
use desktop_todo::weather::{
    cache_status, condition_from_wmo, forecast_day_index, precipitation_at, CacheStatus, WeatherCondition, WeatherError,
    WeatherRuntime,
};

fn at(year: i32, month: u32, day: u32, hour: u32, minute: u32, second: u32) -> LocalDateTime {
    LocalDateTime { date: TaskDate { year, month, day }, hour, minute, second }
}

fn date(year: i32, month: u32, day: u32) -> TaskDate {
    TaskDate { year, month, day }
}

#[test]
fn midnight_rollover_starts_at_midnight() {
    let rollover = parse_rollover("00:00").expect("rollover");
    assert_eq!(task_day_at(at(2026, 8, 29, 0, 0, 0), rollover), date(2026, 8, 29));
}

#[test]
fn four_am_boundary_is_exact() {
    let rollover = parse_rollover("04:00").expect("rollover");
    assert_eq!(task_day_at(at(2026, 8, 29, 3, 59, 59), rollover), date(2026, 8, 28));
    assert_eq!(task_day_at(at(2026, 8, 29, 4, 0, 0), rollover), date(2026, 8, 29));
}

#[test]
fn rollover_crosses_month_and_year_boundaries() {
    let rollover = parse_rollover("04:00").expect("rollover");
    assert_eq!(task_day_at(at(2026, 5, 1, 2, 0, 0), rollover), date(2026, 4, 30));
    assert_eq!(task_day_at(at(2027, 1, 1, 1, 0, 0), rollover), date(2026, 12, 31));
}

#[test]
fn rollover_format_is_validated() {
    assert!(parse_rollover("4:00").is_err());
    assert!(parse_rollover("25:00").is_err());
    assert_eq!(parse_rollover("23:59"), Ok(Rollover { hour: 23, minute: 59 }));
    assert_eq!(parse_rollover("2359").unwrap_err(), "day rollover must use 24-hour HH:MM format");
}

#[test]
fn dates_parse_and_format_as_year_month_day() {
    assert_eq!(parse_date("2028-02-29", "bad date"), Ok(date(2028, 2, 29)));
    assert_eq!(parse_date("2027-02-29", "bad date").unwrap_err(), "bad date");
    assert_eq!(date_text(date(2026, 8, 9)).as_deref(), Ok("2026-08-09"));
    assert_eq!(date_text(date(2026, 2, 30)).unwrap_err(), "invalid date");
    // Years outside 0..=9999 carry a sign before at least four digits.
    assert_eq!(date_text(date(7, 1, 2)).as_deref(), Ok("0007-01-02"));
    assert_eq!(date_text(date(-1, 12, 31)).as_deref(), Ok("-0001-12-31"));
    assert_eq!(date_text(date(12345, 6, 7)).as_deref(), Ok("+12345-06-07"));
}

#[test]
fn monthly_bounds_cover_leap_day() {
    assert_eq!(
        period_bounds(ReviewPeriod::Monthly, date(2028, 2, 12)).expect("bounds"),
        (date(2028, 2, 1), date(2028, 2, 29))
    );
}

#[test]
fn weekly_bounds_run_monday_through_sunday() {
    // 2026-08-29 is a Saturday.
    assert_eq!(
        period_bounds(ReviewPeriod::Weekly, date(2026, 8, 29)).expect("bounds"),
        (date(2026, 8, 24), date(2026, 8, 30))
    );
    assert_eq!(period_bounds(ReviewPeriod::Daily, date(2026, 8, 29)).expect("bounds"), (date(2026, 8, 29), date(2026, 8, 29)));
    assert_eq!(
        period_bounds(ReviewPeriod::Monthly, date(2026, 12, 31)).expect("bounds"),
        (date(2026, 12, 1), date(2026, 12, 31))
    );
}

#[test]
fn each_status_is_counted_once_and_unknown_statuses_are_refused() {
    let mut counts = StatusCounts::new();
    for status in ["pending", "completed", "carried", "cancelled", "completed"] {
        counts.record(status).expect("known status");
    }
    assert_eq!(counts, StatusCounts { planned: 5, completed: 2, carried: 1, cancelled: 1, pending: 1 });
    assert_eq!(counts.planned, counts.completed + counts.carried + counts.cancelled + counts.pending);
    assert_eq!(counts.record("archived").unwrap_err(), "unsupported task status: archived");
}

#[test]
fn maps_common_wmo_condition_families_and_unknown_codes() {
    for (code, condition) in [
        (0, WeatherCondition::Clear),
        (2, WeatherCondition::PartlyCloudy),
        (3, WeatherCondition::Cloudy),
        (45, WeatherCondition::Fog),
        (53, WeatherCondition::Drizzle),
        (63, WeatherCondition::Rain),
        (75, WeatherCondition::Snow),
        (81, WeatherCondition::Showers),
        (95, WeatherCondition::Thunderstorm),
        (999, WeatherCondition::Unknown),
    ] {
        assert_eq!(condition_from_wmo(code), condition);
    }
}

#[test]
fn cache_reports_missing_fresh_stale_and_very_stale() {
    for (age, expected) in [(60, CacheStatus::Fresh), (3 * 60 * 60, CacheStatus::Stale), (25 * 60 * 60, CacheStatus::VeryStale)] {
        assert_eq!(cache_status(age), expected);
    }
    assert_eq!(cache_status(2 * 60 * 60 - 1), CacheStatus::Fresh);
    assert_eq!(cache_status(2 * 60 * 60), CacheStatus::Stale);
    assert_eq!(cache_status(24 * 60 * 60), CacheStatus::Stale);
    assert_eq!(cache_status(24 * 60 * 60 + 1), CacheStatus::VeryStale);
}

#[test]
fn refresh_runtime_prevents_concurrency_and_manual_spam() {
    let mut runtime = WeatherRuntime::new();
    assert!(runtime.begin_refresh(true, 1_000).is_ok());
    assert!(runtime.refreshing());
    assert!(runtime.begin_refresh(false, 2_000).is_err());
    runtime.finish_refresh();
    assert!(!runtime.refreshing());
    assert!(runtime.begin_refresh(true, 10_000).is_err());
    assert!(runtime.begin_refresh(false, 10_000).is_ok());
    runtime.finish_refresh();
    assert!(runtime.begin_refresh(true, 31_000).is_ok());
}

#[test]
fn forecast_day_is_the_day_of_the_current_observation() {
    let days = vec!["2026-08-28".to_string(), "2026-08-29".to_string()];
    assert_eq!(forecast_day_index(true, "2026-08-29T10:00", &days), Ok(1));
    assert_eq!(forecast_day_index(false, "2026-08-29T10:00", &days), Err(WeatherError::InvalidResponse));
    assert_eq!(forecast_day_index(true, "2026-08", &days), Err(WeatherError::InvalidResponse));
    assert_eq!(forecast_day_index(true, "2026-08-30T00:00", &days), Err(WeatherError::InvalidResponse));
    assert_eq!(precipitation_at(&vec![10, 101], 0), Ok(10));
    assert_eq!(precipitation_at(&vec![10, 101], 1), Err(WeatherError::InvalidResponse));
    assert_eq!(precipitation_at(&vec![10, 101], 2), Err(WeatherError::InvalidResponse));
}
