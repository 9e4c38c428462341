use jujik::entity::date::EntityDate;
use std::time::{Duration, SystemTime};

#[test]
fn epoch_is_the_default() {
    let date = EntityDate::default();
    assert_eq!(date.timestamp(), 0);
    assert_eq!(date.timestamp_subsec_nanos(), 0);
    assert_eq!(date.date_str(), "01/01/1970");
}

#[test]
fn date_str_shows_day_month_year() {
    assert_eq!(EntityDate::from_timestamp(86_400, 0).date_str(), "02/01/1970");
    assert_eq!(EntityDate::from_timestamp(1_431_648_000, 0).date_str(), "15/05/2015");
    assert_eq!(EntityDate::from_timestamp(946_684_799, 999_999_999).date_str(), "31/12/1999");
    assert_eq!(EntityDate::from_timestamp(-1, 0).date_str(), "31/12/1969");
}

#[test]
fn timestamp_without_a_date_gives_the_epoch() {
    assert_eq!(EntityDate::from_timestamp(i64::MAX, 0), EntityDate::default());
    assert_eq!(EntityDate::from_timestamp(i64::MIN, 0), EntityDate::default());
    assert_eq!(EntityDate::from_timestamp(0, 2_000_000_000), EntityDate::default());
    assert_eq!(EntityDate::from_timestamp(10, 1_500_000_000), EntityDate::default());
}

#[test]
fn leap_second_is_a_date() {
    let date = EntityDate::from_timestamp(59, 1_500_000_000);
    assert_eq!(date.timestamp(), 59);
    assert_eq!(date.timestamp_subsec_nanos(), 1_500_000_000);
}

#[test]
fn new_counts_from_the_unix_epoch() {
    let date = EntityDate::new(SystemTime::UNIX_EPOCH + Duration::new(86_400 * 365, 5));
    assert_eq!(date.timestamp(), 86_400 * 365);
    assert_eq!(date.timestamp_subsec_nanos(), 5);
    assert_eq!(date.date_str(), "01/01/1971");
}

#[test]
fn time_before_the_epoch_gives_the_epoch() {
    let date = EntityDate::new(SystemTime::UNIX_EPOCH - Duration::from_secs(10));
    assert_eq!(date, EntityDate::default());
}

#[test]
fn now_is_after_the_year_2020() {
    let now = EntityDate::now();
    assert!(now.timestamp() > 1_577_836_800);
    assert!(EntityDate::default().before(&now));
}

#[test]
fn before_orders_by_seconds_then_nanoseconds() {
    let a = EntityDate::from_timestamp(5, 10);
    let b = EntityDate::from_timestamp(5, 11);
    let c = EntityDate::from_timestamp(6, 0);
    assert!(a.before(&b));
    assert!(b.before(&c));
    assert!(a.before(&c));
    assert!(!b.before(&a));
    assert!(!a.before(&a));
    assert!(EntityDate::from_timestamp(-5, 0).before(&EntityDate::default()));
    assert!(a < b && b < c);
}

#[test]
fn the_calendar_ends_with_the_years_that_chrono_shows() {
    const FIRST: i64 = -8_334_601_228_800;
    const LAST: i64 = 8_210_266_876_799;
    let first = EntityDate::from_timestamp(FIRST, 0);
    assert_eq!(first.timestamp(), FIRST);
    assert_eq!(first.date_str(), "01/01/-262143");
    assert_eq!(EntityDate::from_timestamp(FIRST - 1, 0), EntityDate::default());
    assert_eq!(EntityDate::from_timestamp(FIRST - 1, 999_999_999), EntityDate::default());
    let last = EntityDate::from_timestamp(LAST, 1_999_999_999);
    assert_eq!(last.timestamp(), LAST);
    assert_eq!(last.timestamp_subsec_nanos(), 1_999_999_999);
    assert_eq!(last.date_str(), "31/12/+262142");
    assert_eq!(EntityDate::from_timestamp(LAST + 1, 0), EntityDate::default());
}

#[test]
fn leap_seconds_stand_only_at_the_end_of_a_minute() {
    assert_eq!(EntityDate::from_timestamp(119, 1_000_000_000).timestamp(), 119);
    assert_eq!(EntityDate::from_timestamp(-1, 1_000_000_000).timestamp(), -1);
    assert_eq!(EntityDate::from_timestamp(-61, 1_999_999_999).timestamp(), -61);
    assert_eq!(EntityDate::from_timestamp(-2, 1_000_000_000), EntityDate::default());
    assert_eq!(EntityDate::from_timestamp(58, 1_000_000_000), EntityDate::default());
    assert_eq!(EntityDate::from_timestamp(60, 1_000_000_000), EntityDate::default());
    assert_eq!(EntityDate::from_timestamp(59, 2_000_000_000), EntityDate::default());
    assert_eq!(EntityDate::from_timestamp(59, u32::MAX), EntityDate::default());
    assert_eq!(EntityDate::from_timestamp(59, 999_999_999).timestamp_subsec_nanos(), 999_999_999);
}

#[test]
fn since_epoch_takes_the_time_elapsed() {
    let date = EntityDate::since_epoch(Some((86_400, 9)));
    assert_eq!(date.timestamp(), 86_400);
    assert_eq!(date.timestamp_subsec_nanos(), 9);
    assert_eq!(EntityDate::since_epoch(None), EntityDate::default());
    assert_eq!(EntityDate::since_epoch(Some((0, 0))), EntityDate::default());
    assert_eq!(EntityDate::since_epoch(Some((8_210_266_876_800, 0))), EntityDate::default());
    assert_eq!(EntityDate::since_epoch(Some((u64::MAX, 0))).timestamp(), -1);
    assert_eq!(EntityDate::since_epoch(Some((i64::MAX as u64, 0))), EntityDate::default());
}
