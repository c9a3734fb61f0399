use hot_blog::timestamp::{days_in_month, format_dt, now_timestamp, parse_dt, Timestamp};

fn ts(year: u16, month: u8, day: u8, hour: u8, minute: u8) -> Timestamp {
    Timestamp { year, month, day, hour, minute }
}

#[test]
fn parse_accepts_a_plain_datetime() {
    assert_eq!(parse_dt("2024-06-01T12:30"), Some(ts(2024, 6, 1, 12, 30)));
}

#[test]
fn parse_accepts_the_earliest_and_latest_spellable_moments() {
    assert_eq!(parse_dt("0000-01-01T00:00"), Some(ts(0, 1, 1, 0, 0)));
    assert_eq!(parse_dt("9999-12-31T23:59"), Some(ts(9999, 12, 31, 23, 59)));
}

#[test]
fn parse_accepts_a_leap_day_only_in_a_leap_year() {
    assert_eq!(parse_dt("2024-02-29T08:15"), Some(ts(2024, 2, 29, 8, 15)));
    assert_eq!(parse_dt("2023-02-29T08:15"), None);
    assert_eq!(parse_dt("1900-02-29T08:15"), None);
    assert_eq!(parse_dt("2000-02-29T08:15"), Some(ts(2000, 2, 29, 8, 15)));
}

#[test]
fn parse_rejects_texts_of_the_wrong_shape() {
    assert_eq!(parse_dt(""), None);
    assert_eq!(parse_dt("2024-06-01T12:3"), None);
    assert_eq!(parse_dt("2024-06-01T12:300"), None);
    assert_eq!(parse_dt("2024/06/01T12:30"), None);
    assert_eq!(parse_dt("2024-06-01 12:30"), None);
    assert_eq!(parse_dt("2024-06-01T12.30"), None);
    assert_eq!(parse_dt("20x4-06-01T12:30"), None);
}

#[test]
fn parse_rejects_out_of_range_fields() {
    assert_eq!(parse_dt("2024-13-01T12:30"), None);
    assert_eq!(parse_dt("2024-00-01T12:30"), None);
    assert_eq!(parse_dt("2024-06-00T12:30"), None);
    assert_eq!(parse_dt("2024-06-31T12:30"), None);
    assert_eq!(parse_dt("2024-06-01T24:30"), None);
    assert_eq!(parse_dt("2024-06-01T12:60"), None);
}

#[test]
fn format_spells_the_fixed_form() {
    assert_eq!(format_dt(&ts(2024, 6, 1, 12, 30)), "2024-06-01T12:30");
    assert_eq!(format_dt(&ts(7, 11, 30, 0, 5)), "0007-11-30T00:05");
}

#[test]
fn format_then_parse_returns_the_same_timestamp() {
    let t = ts(1999, 12, 31, 23, 59);
    assert_eq!(parse_dt(&format_dt(&t)), Some(t));
}

#[test]
fn try_new_accepts_exactly_real_dates_and_times() {
    assert_eq!(Timestamp::try_new(2024, 6, 1, 12, 30), Some(ts(2024, 6, 1, 12, 30)));
    assert_eq!(Timestamp::try_new(2024, 2, 30, 0, 0), None);
    assert_eq!(Timestamp::try_new(2024, 6, 1, 12, 60), None);
    assert_eq!(Timestamp::try_new(2024, 6, 1, 24, 0), None);
}

#[test]
fn days_in_month_knows_the_calendar() {
    assert_eq!(days_in_month(2024, 1), 31);
    assert_eq!(days_in_month(2024, 2), 29);
    assert_eq!(days_in_month(2023, 2), 28);
    assert_eq!(days_in_month(1900, 2), 28);
    assert_eq!(days_in_month(2000, 2), 29);
    assert_eq!(days_in_month(2024, 4), 30);
    assert_eq!(days_in_month(2024, 12), 31);
}

#[test]
fn le_orders_chronologically() {
    let a = ts(2023, 12, 31, 23, 59);
    let b = ts(2024, 1, 1, 0, 0);
    assert!(a.le(&b));
    assert!(!b.le(&a));
    assert!(a.le(&a));
    let c = ts(2024, 1, 1, 0, 30);
    assert!(b.le(&c));
    assert!(!c.le(&b));
}

#[test]
fn the_clock_reads_a_real_timestamp() {
    let t = now_timestamp().expect("the clock reads within the spellable years");
    assert!(t.year >= 2024);
    assert!((1..=12).contains(&t.month));
    assert!((1..=days_in_month(t.year, t.month)).contains(&t.day));
    assert!(t.hour <= 23);
    assert!(t.minute <= 59);
}
