use at_comments::cursor::{resolve_cursor, resolve_cursor_now, MAX_TIME_US, MIN_TIME_US, STALE_AFTER_US};
use at_comments::decimal::{decimal_string, parse_i64};

const HOUR_US: i64 = 3_600_000_000;
const NOW_US: i64 = 1_760_000_000_000_000;

#[test]
fn cursor_a_day_old_is_dropped() {
    let old = (NOW_US - 25 * HOUR_US).to_string();
    assert_eq!(resolve_cursor(Some(&old), NOW_US), None);
    let exactly_a_day = (NOW_US - STALE_AFTER_US).to_string();
    assert_eq!(resolve_cursor(Some(&exactly_a_day), NOW_US), None);
}

#[test]
fn cursor_an_hour_old_is_kept() {
    let recent = NOW_US - HOUR_US;
    assert_eq!(resolve_cursor(Some(&recent.to_string()), NOW_US), Some(recent));
    let just_under = NOW_US - STALE_AFTER_US + 1;
    assert_eq!(resolve_cursor(Some(&just_under.to_string()), NOW_US), Some(just_under));
}

#[test]
fn cursor_from_the_future_is_kept() {
    let later = NOW_US + HOUR_US;
    assert_eq!(resolve_cursor(Some(&later.to_string()), NOW_US), Some(later));
}

#[test]
fn no_row_or_bad_time_gives_no_cursor() {
    assert_eq!(resolve_cursor(None, NOW_US), None);
    assert_eq!(resolve_cursor(Some("yesterday"), NOW_US), None);
    assert_eq!(resolve_cursor(Some(""), NOW_US), None);
    assert_eq!(resolve_cursor_now(None), None);
    assert_eq!(resolve_cursor_now(Some("12x")), None);
}

#[test]
fn cursor_outside_the_time_range_is_dropped() {
    assert_eq!(resolve_cursor(Some(&MAX_TIME_US.to_string()), NOW_US), Some(MAX_TIME_US));
    assert_eq!(resolve_cursor(Some(&(MAX_TIME_US + 1).to_string()), NOW_US), None);
    assert_eq!(resolve_cursor(Some(&i64::MAX.to_string()), NOW_US), None);
    let min_now = MIN_TIME_US + HOUR_US;
    assert_eq!(resolve_cursor(Some(&MIN_TIME_US.to_string()), min_now), Some(MIN_TIME_US));
    assert_eq!(resolve_cursor(Some(&(MIN_TIME_US - 1).to_string()), min_now), None);
}

#[test]
fn live_clock_keeps_a_fresh_cursor() {
    let now = std::time::SystemTime::now()
        .duration_since(std::time::UNIX_EPOCH)
        .unwrap()
        .as_micros() as i64;
    let recent = now - HOUR_US;
    assert_eq!(resolve_cursor_now(Some(&recent.to_string())), Some(recent));
    assert_eq!(resolve_cursor_now(Some(&(now - 2 * STALE_AFTER_US).to_string())), None);
}

#[test]
fn parses_signed_decimals() {
    assert_eq!(parse_i64("0"), Some(0));
    assert_eq!(parse_i64("1725911162329308"), Some(1725911162329308));
    assert_eq!(parse_i64("-42"), Some(-42));
    assert_eq!(parse_i64("+42"), Some(42));
    assert_eq!(parse_i64("9223372036854775807"), Some(i64::MAX));
    assert_eq!(parse_i64("-9223372036854775808"), Some(i64::MIN));
    assert_eq!(parse_i64("9223372036854775808"), None);
    assert_eq!(parse_i64("-9223372036854775809"), None);
    assert_eq!(parse_i64("99999999999999999999999"), None);
    assert_eq!(parse_i64("-"), None);
    assert_eq!(parse_i64("+"), None);
    assert_eq!(parse_i64(""), None);
    assert_eq!(parse_i64(" 1"), None);
    assert_eq!(parse_i64("1_000"), None);
    assert_eq!(parse_i64("--1"), None);
}

#[test]
fn formats_decimals() {
    assert_eq!(decimal_string(0), "0");
    assert_eq!(decimal_string(9), "9");
    assert_eq!(decimal_string(10), "10");
    assert_eq!(decimal_string(1725911162329308), "1725911162329308");
    assert_eq!(decimal_string(u64::MAX), "18446744073709551615");
}
