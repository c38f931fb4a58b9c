use multitool::text::{format_decimal, str_eq, trim_trailing_slashes_of};
use multitool::time::{Duration, Timestamp};

#[test]
fn format_decimal_values() {
    assert_eq!(format_decimal(0), "0");
    assert_eq!(format_decimal(7), "7");
    assert_eq!(format_decimal(300), "300");
    assert_eq!(format_decimal(u64::MAX), "18446744073709551615");
}

#[test]
fn trim_trailing_slashes_values() {
    assert_eq!(trim_trailing_slashes_of("a/b//"), "a/b");
    assert_eq!(trim_trailing_slashes_of("///"), "");
    assert_eq!(trim_trailing_slashes_of("/a"), "/a");
}

#[test]
fn str_eq_values() {
    assert!(str_eq("abc", "abc"));
    assert!(!str_eq("abc", "abd"));
    assert!(!str_eq("", "a"));
}

#[test]
fn duration_conversions() {
    let d = Duration::from_millis(2_500);
    assert_eq!(d.as_secs(), 2);
    assert_eq!(d.subsec_nanos(), 500_000_000);
    assert_eq!(d.as_millis(), 2_500);
    assert!(!d.is_zero());
    assert!(Duration::from_secs(0).is_zero());
    assert!(Duration::from_secs(3).at_least(&d));
    assert!(!Duration::from_secs(2).at_least(&d));
    assert!(d.at_least(&d));
}

#[test]
fn timestamp_from_secs() {
    let ts = Timestamp::from_secs(-5);
    assert_eq!(ts.secs, -5);
    assert_eq!(ts.nanos, 0);
    assert_eq!(ts, Timestamp { secs: -5, nanos: 0 });
}
