use desktop_todo::maintenance::paths::{equal, safe_syntax};
use desktop_todo::maintenance::receipt::{canonical_uuid_outcome, hash_valid, version_valid};
use desktop_todo::reviews::category_label;
use desktop_todo::settings::quick_link_url_verdict;
use desktop_todo::task_day::{date_not_after, TaskDate};
use desktop_todo::text::{
    char_is_whitespace, char_to_lower, char_to_upper, chars_vec, contains_char, decimal_string, ends_with, find_first,
    find_last, lower_ascii, parse_unsigned_exec, signed_decimal_string, split_any_exec, starts_with, str_eq,
    str_eq_ignore_case, text_less, trim_exec,
};

#[test]
fn comparisons_and_searches_work_by_character() {
    assert!(str_eq("Tâche", "Tâche"));
    assert!(!str_eq("Tâche", "tâche"));
    assert!(str_eq_ignore_case("C:\\Users\\A", "c:\\users\\a"));
    assert!(!str_eq_ignore_case("É", "é"), "only ASCII letters fold");
    assert_eq!(find_first("a,b,c", ','), Some(1));
    assert_eq!(find_last("a,b,c", ','), Some(3));
    assert_eq!(find_first("日本,語", ','), Some(2));
    assert_eq!(find_last("abc", ','), None);
    assert!(contains_char("x=y", '='));
    assert!(starts_with("key:Enter", "key:") && !starts_with("ke", "key:"));
    assert!(ends_with("2026-01-01T00:00:00Z", "Z") && !ends_with("", "Z"));
    assert_eq!(chars_vec("añ日"), vec!['a', 'ñ', '日']);
}

#[test]
fn splitting_trimming_and_case_mapping() {
    assert_eq!(split_any_exec("en_US.UTF-8@euro", ".@"), vec!["en_US", "UTF-8", "euro"]);
    assert_eq!(split_any_exec("a..b", "."), vec!["a", "", "b"]);
    assert_eq!(split_any_exec("", "."), vec![""]);
    assert_eq!(trim_exec("\u{3000} padded\t\n"), "padded");
    assert_eq!(trim_exec("   "), "");
    assert!(char_is_whitespace('\u{a0}') && !char_is_whitespace('x'));
    assert_eq!(lower_ascii("Desktop-TODO.EXE"), "desktop-todo.exe");
    assert_eq!((char_to_lower('Q'), char_to_upper('q'), char_to_upper('ß')), ('q', 'Q', 'ß'));
}

#[test]
fn numbers_parse_and_print_in_decimal() {
    assert_eq!(parse_unsigned_exec("0042", 100), Some(42));
    assert_eq!(parse_unsigned_exec("+7", 100), Some(7));
    assert_eq!(parse_unsigned_exec("101", 100), None);
    assert_eq!(parse_unsigned_exec("-1", 100), None);
    assert_eq!(parse_unsigned_exec("", 100), None);
    assert_eq!(decimal_string(0), "0");
    assert_eq!(decimal_string(u128::MAX), u128::MAX.to_string());
    assert_eq!(signed_decimal_string(i64::MIN), i64::MIN.to_string());
    assert_eq!(signed_decimal_string(-5), "-5");
}

#[test]
fn texts_order_by_code_point() {
    assert!(text_less("Apple", "apple"));
    assert!(text_less("app", "apple"));
    assert!(!text_less("apple", "apple"));
    assert!(text_less("", "a"));
    assert!(!text_less("z", "Z"));
}

#[test]
fn maintenance_paths_must_be_plain_local_paths() {
    assert!(safe_syntax("C:\\Users\\tester\\AppData").is_ok());
    for unsafe_path in [
        "relative\\dir",
        "\\\\server\\share",
        "C:\\Users\\..\\Windows",
        "C:\\Users\\CON\\x",
        "C:\\Users\\bad|name",
        "C:\\Users\\trailing.",
    ] {
        assert!(safe_syntax(unsafe_path).is_err(), "{unsafe_path} must be refused");
    }
    assert_eq!(safe_syntax("relative\\dir").unwrap_err().detail, "Only absolute local drive paths are supported");
    assert_eq!(safe_syntax("C:\\Users\\bad|name").unwrap_err().detail, "Ambiguous Windows path component");
    assert!(equal("C:\\A\\b", "c:\\a\\B"));
}

#[test]
fn receipt_fields_have_strict_shapes() {
    assert!(hash_valid(&"0123456789abcdef".repeat(4)));
    assert!(!hash_valid(&"0123456789ABCDEF".repeat(4)));
    assert!(!hash_valid("abc"));
    assert!(version_valid("1.12.0"));
    for bad in ["1.2", "01.2.3", "1.2.65536", "1..3", "1.2.3.4"] {
        assert!(!version_valid(bad), "{bad} must be refused");
    }
    let id = "6f1c2a9e-3b4d-4e5f-8a7b-9c0d1e2f3a4b";
    assert!(canonical_uuid_outcome(id, Some((id.to_string(), false))));
    assert!(!canonical_uuid_outcome(&id.to_uppercase(), Some((id.to_string(), false))));
    assert!(!canonical_uuid_outcome(id, Some((id.to_string(), true))));
    assert!(!canonical_uuid_outcome(id, None));
}

#[test]
fn small_rules_of_reports_dates_and_links() {
    assert_eq!(category_label(&Some("Work".to_string())), "Work");
    assert_eq!(category_label(&None), "Uncategorized");
    let day = |year, month, day| TaskDate { year, month, day };
    assert!(date_not_after(day(2026, 1, 31), day(2026, 2, 1)));
    assert!(date_not_after(day(2026, 2, 1), day(2026, 2, 1)));
    assert!(!date_not_after(day(2027, 1, 1), day(2026, 12, 31)));
    assert!(quick_link_url_verdict(Some(("https".to_string(), true))).is_ok());
    assert_eq!(quick_link_url_verdict(None), Err("link URL must be a valid URL".to_string()));
    assert_eq!(
        quick_link_url_verdict(Some(("ftp".to_string(), true))),
        Err("link URL must start with http:// or https://".to_string())
    );
    assert_eq!(quick_link_url_verdict(Some(("http".to_string(), false))), Err("link URL must include a host".to_string()));
}
