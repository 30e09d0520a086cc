use desktop_todo::maintenance::lifecycle::version_greater;
use desktop_todo::maintenance::receipt::version_valid;
use desktop_todo::maintenance::version::{is_downgrade, Version};

fn parse(text: &str) -> Version {
    Version::parse(text).unwrap()
}

fn later(a: &str, b: &str) -> bool {
    parse(a).is_later_than(&parse(b))
}

#[test]
fn stable_versions_parse_and_order_semantically() {
    assert_eq!(parse("1.1.0"), Version::new(1, 1, 0));
    assert!(later("1.10.0", "1.9.0"));
    assert!(later("1.10.0", "1.2.0"));
    assert!(later("2.0.0", "1.99.99"));
    assert!(later("0.0.1", "0.0.0"));
    assert_eq!(parse("1.2.0"), parse("1.2.0"));
}

#[test]
fn malformed_prerelease_leading_zero_overflow_and_short_fail_closed() {
    for text in [
        "1.2",
        "1.2.0.0",
        "1.2.0-beta",
        "1.2.0+build",
        "01.2.0",
        "1.02.0",
        "65536.0.0",
        "banana",
        "1.x.0",
        "",
        "1..0",
        "1.2.0\n",
        "+1.2.0",
        " 1.2.0",
    ] {
        assert!(Version::parse(text).is_err(), "{text:?} must be rejected");
    }
}

#[test]
fn downgrade_detection_fails_closed() {
    assert!(is_downgrade("1.2.0", "1.1.0"));
    assert!(!is_downgrade("1.1.0", "1.2.0"));
    assert!(!is_downgrade("1.1.0", "1.1.0"));
    assert!(is_downgrade("1.10.0", "1.9.0"));
    assert!(is_downgrade("1.2", "1.1.0"));
    assert!(is_downgrade("banana", "1.1.0"));
    assert!(is_downgrade("1.1.0", "banana"));
}

#[test]
fn receipt_versions_read_parts_as_the_standard_parser_does() {
    assert!(version_valid("+1.0.0"));
    assert!(version_valid("0.0.0"));
    assert!(!version_valid("01.2.0"));
    assert!(!version_valid("65536.0.0"));
    assert!(!version_valid("1.2.0-beta"));
    assert!(!version_greater("0.0.0", "01.0.0"));
    assert!(version_greater("4294967295.0.0", "1.0.0"));
    assert!(version_greater("4294967296.0.0", "1.0.0"), "an unreadable version fails closed");
}
