use inacovid::dates::{
    add_cur_date, count_prefix_at, date_from_epoch_ms, datetime_from_epoch_ms, format_date,
    format_date_with_time, offset_date_from, timestamp_to_date, timestamp_to_date_at, Date,
};

#[test]
fn epoch_instant_zero_is_unix_epoch() {
    let d = date_from_epoch_ms(0);
    assert_eq!((d.year, d.month, d.day), (1970, 1, 1));
}

#[test]
fn known_instant_converts_exactly() {
    // 2020-03-21 12:00:00 UTC
    let dt = datetime_from_epoch_ms(1584792000000);
    assert_eq!((dt.date.year, dt.date.month, dt.date.day), (2020, 3, 21));
    assert_eq!((dt.hour, dt.minute, dt.second), (12, 0, 0));
}

#[test]
fn leap_day_converts_exactly() {
    let dt = datetime_from_epoch_ms(1583020799000);
    assert_eq!((dt.date.year, dt.date.month, dt.date.day), (2020, 2, 29));
    assert_eq!((dt.hour, dt.minute, dt.second), (23, 59, 59));
}

#[test]
fn timestamp_to_date_formats_with_time() {
    assert_eq!(timestamp_to_date_at(1100000000123).as_str(), "2004-11-09 11:33:20");
    assert_eq!(timestamp_to_date(Some(1584792000000)).as_str(), "2020-03-21 12:00:00");
}

#[test]
fn negative_timestamps_convert_to_pre_1970_dates() {
    assert_eq!(timestamp_to_date_at(-86400000).as_str(), "1969-12-31 00:00:00");
    // The millisecond reading truncates toward zero, as a second-resolution
    // conversion of milliseconds does.
    assert_eq!(timestamp_to_date_at(-1500).as_str(), "1969-12-31 23:59:59");
    assert_eq!(timestamp_to_date_at(-5).as_str(), "1970-01-01 00:00:00");
    // 0001-01-01 00:00:00 UTC.
    assert_eq!(timestamp_to_date_at(-62135596800000).as_str(), "0001-01-01 00:00:00");
}

#[test]
fn timestamps_clamp_to_the_four_digit_year_window() {
    assert_eq!(timestamp_to_date_at(-70_000_000_000_000).as_str(), "0000-01-01 00:00:00");
    assert!(timestamp_to_date_at(i64::MAX).starts_with("9993-"));
}

#[test]
fn formatting_zero_pads() {
    let d = Date { year: 987, month: 1, day: 5 };
    assert_eq!(format_date(d).as_str(), "0987-01-05");
    let dt = datetime_from_epoch_ms(0);
    assert_eq!(format_date_with_time(dt).as_str(), "1970-01-01 00:00:00");
}

#[test]
fn offsets_cross_month_and_year_boundaries() {
    // 2019-12-31 18:00:00 UTC
    let now = 1577815200000;
    assert_eq!(offset_date_from(now, 0).as_str(), "2019-12-31");
    assert_eq!(offset_date_from(now, 1).as_str(), "2020-01-01");
    assert_eq!(offset_date_from(now, -1).as_str(), "2019-12-30");
    assert_eq!(offset_date_from(now, 60).as_str(), "2020-02-29");
    assert_eq!(offset_date_from(0, -1).as_str(), "1969-12-31");
}

#[test]
fn huge_offset_falls_back_to_today() {
    let now = 1577815200000;
    assert_eq!(offset_date_from(now, i64::MAX - 1).as_str(), "2019-12-31");
    assert_eq!(offset_date_from(now, -4_000_000).as_str(), "2019-12-31");
}

#[test]
fn cutoff_shifts_the_effective_offset() {
    let after_cutoff = 1584792000000; // 12:00 UTC
    let before_cutoff = 1584766800000; // 05:00 UTC, same day
    assert_eq!(count_prefix_at(0, after_cutoff), 0);
    assert_eq!(count_prefix_at(0, before_cutoff), -1);
    assert_eq!(count_prefix_at(5, before_cutoff), 4);
}

#[test]
fn clock_reading_functions_format_like_their_fixed_time_cores() {
    // Today's date from the clock has the fixed shape, and the two entry
    // points agree on it.
    let today = add_cur_date(0);
    assert_eq!(today.len(), 10);
    assert_eq!(today.as_bytes()[4], b'-');
    assert_eq!(today.as_bytes()[7], b'-');
    let now_text = timestamp_to_date(None);
    assert_eq!(now_text.len(), 19);
    assert!(now_text.starts_with(today.as_str()));
}
