use chrono::TimeZone;
use octabot_connectors::error::TimeError;
use octabot_connectors::schedule::{
    day_window, day_window_at, day_window_now, epoch_u32, feed_url, parse_event_time,
    parse_last_modified, single_instant, CivilDate, DayWindow, LocalInstants, EVENT_TIME_FORMAT,
};

#[test]
fn start_is_resolved_in_its_zone() {
    // 2024-05-17T12:00:00 in Moscow is 09:00:00Z.
    assert_eq!(parse_event_time("2024-05-17T12:00:00.0000000", "Europe/Moscow").unwrap(), 1715936400);
    assert_eq!(parse_event_time("2024-05-17T12:00:00", "Europe/Moscow").unwrap(), 1715936400);
    assert_eq!(parse_event_time("2024-05-17T12:00:00.5", "UTC").unwrap(), 1715947200);
    assert_eq!(parse_event_time("1970-01-01T00:00:00", "UTC").unwrap(), 0);
    assert_eq!(parse_event_time("1969-12-31T23:59:59", "UTC").unwrap(), -1);
}

#[test]
fn start_agrees_with_chrono() {
    for (text, zone) in [
        ("2024-01-15T08:30:00.0000000", "America/New_York"),
        ("2023-07-01T23:59:59.999", "Asia/Tokyo"),
        ("2030-12-31T00:00:00", "Australia/Sydney"),
    ] {
        let tz: chrono_tz::Tz = zone.parse().unwrap();
        let naive = chrono::NaiveDateTime::parse_from_str(text, EVENT_TIME_FORMAT).unwrap();
        let expected = tz.from_local_datetime(&naive).single().unwrap().timestamp();
        assert_eq!(parse_event_time(text, zone).unwrap(), expected);
    }
}

#[test]
fn unknown_zone_is_refused_first() {
    match parse_event_time("2024-05-17T12:00:00", "Mars/Olympus") {
        Err(TimeError::UnknownZone(name)) => assert_eq!(name, "Mars/Olympus"),
        other => panic!("unexpected: {:?}", other),
    }
    match parse_event_time("not a time", "Mars/Olympus") {
        Err(TimeError::UnknownZone(name)) => assert_eq!(name, "Mars/Olympus"),
        other => panic!("unexpected: {:?}", other),
    }
    assert!(matches!(parse_event_time("2024-05-17T12:00:00", ""), Err(TimeError::UnknownZone(_))));
}

#[test]
fn unreadable_date_time_is_refused() {
    for text in ["", "2024-05-17", "2024-05-17 12:00:00", "2024-13-01T00:00:00", "2024-05-17T25:00:00", "2024-05-17T12:00:00Z"] {
        match parse_event_time(text, "Europe/Moscow") {
            Err(TimeError::InvalidDateTime(kept)) => assert_eq!(kept, text),
            other => panic!("unexpected for {:?}: {:?}", text, other),
        }
    }
}

#[test]
fn local_time_in_a_gap_is_refused() {
    // Clocks in New York went from 02:00 to 03:00 on 2024-03-10.
    assert!(matches!(
        parse_event_time("2024-03-10T02:30:00", "America/New_York"),
        Err(TimeError::NonexistentLocalTime)
    ));
}

#[test]
fn local_time_in_a_fold_is_refused() {
    // Clocks in New York went from 02:00 back to 01:00 on 2024-11-03.
    assert!(matches!(
        parse_event_time("2024-11-03T01:30:00", "America/New_York"),
        Err(TimeError::AmbiguousLocalTime)
    ));
}

#[test]
fn single_instant_tells_the_three_cases_apart() {
    assert_eq!(single_instant(LocalInstants::Single(42)).unwrap(), 42);
    assert!(matches!(single_instant(LocalInstants::Gap), Err(TimeError::NonexistentLocalTime)));
    assert!(matches!(single_instant(LocalInstants::Fold(1, 2)), Err(TimeError::AmbiguousLocalTime)));
}

#[test]
fn last_modified_is_read_as_rfc3339() {
    assert_eq!(parse_last_modified("2024-05-17T09:00:00Z").unwrap(), 1715936400);
    assert_eq!(parse_last_modified("2024-05-17T12:00:00+03:00").unwrap(), 1715936400);
    assert_eq!(parse_last_modified("2024-05-17T09:00:00.1234567Z").unwrap(), 1715936400);
}

#[test]
fn unreadable_last_modified_is_refused() {
    for text in ["", "2024-05-17T09:00:00", "yesterday", "2024-05-17 09:00:00 UTC"] {
        match parse_last_modified(text) {
            Err(TimeError::InvalidTimestamp(kept)) => assert_eq!(kept, text),
            other => panic!("unexpected for {:?}: {:?}", text, other),
        }
    }
}

#[test]
fn instants_are_truncated_to_32_bits() {
    assert_eq!(epoch_u32(0), 0);
    assert_eq!(epoch_u32(1715936400), 1715936400);
    assert_eq!(epoch_u32(4294967295), 4294967295);
    assert_eq!(epoch_u32(4294967296), 0);
    assert_eq!(epoch_u32(4294967297), 1);
    assert_eq!(epoch_u32(-1), 4294967295);
    assert_eq!(epoch_u32(-4294967296), 0);
    assert_eq!(epoch_u32(-4294967297), 4294967295);
    assert_eq!(epoch_u32(i64::MAX), 4294967295);
    assert_eq!(epoch_u32(i64::MIN), 0);
    for t in [-5_000_000_000i64, -1, 0, 1, 5_000_000_000, 1 << 40, -(1 << 40) + 7] {
        assert_eq!(epoch_u32(t), t as u32);
    }
}

fn window(year: i32, month: u32, day: u32) -> DayWindow {
    day_window(&CivilDate::new(year, month, day).unwrap())
}

#[test]
fn day_needs_a_month_and_a_number_in_range() {
    assert!(CivilDate::new(2024, 1, 1).is_some());
    assert!(CivilDate::new(2024, 12, 31).is_some());
    assert!(CivilDate::new(2024, 0, 1).is_none());
    assert!(CivilDate::new(2024, 13, 1).is_none());
    assert!(CivilDate::new(2024, 1, 0).is_none());
    assert!(CivilDate::new(2024, 1, 32).is_none());
    let d = CivilDate::new(-5, 2, 30).unwrap();
    assert_eq!((d.year, d.month, d.day), (-5, 2, 30));
}

#[test]
fn window_runs_from_first_to_last_second() {
    let w = window(2024, 3, 5);
    assert_eq!(w.start, "2024-03-05T00:00:00");
    assert_eq!(w.end, "2024-03-05T23:59:59");
    let w = window(1999, 12, 31);
    assert_eq!(w.start, "1999-12-31T00:00:00");
    assert_eq!(w.end, "1999-12-31T23:59:59");
}

#[test]
fn years_are_written_as_chrono_writes_them() {
    for year in [0, 1, 99, 100, 999, 1000, 2024, 9999, 10000, 12345, 262142, -1, -99, -9999, -10000, -262143] {
        let date = chrono::NaiveDate::from_ymd_opt(year, 7, 4).unwrap();
        let w = window(year, 7, 4);
        assert_eq!(w.start, date.and_hms_opt(0, 0, 0).unwrap().format("%Y-%m-%dT%H:%M:%S").to_string());
        assert_eq!(w.end, date.and_hms_opt(23, 59, 59).unwrap().format("%Y-%m-%dT%H:%M:%S").to_string());
    }
    assert_eq!(window(-1, 1, 1).start, "-0001-01-01T00:00:00");
    assert_eq!(window(10000, 1, 1).start, "+10000-01-01T00:00:00");
}

#[test]
fn window_is_that_of_the_day_in_the_zone() {
    // 2024-05-17T22:30:00Z is already the 18th in Moscow and still the 17th in New York.
    let instant = 1715985000;
    let w = day_window_at("Europe/Moscow", instant).unwrap();
    assert_eq!(w.start, "2024-05-18T00:00:00");
    assert_eq!(w.end, "2024-05-18T23:59:59");
    let w = day_window_at("America/New_York", instant).unwrap();
    assert_eq!(w.start, "2024-05-17T00:00:00");
    assert_eq!(w.end, "2024-05-17T23:59:59");
    let w = day_window_at("UTC", 0).unwrap();
    assert_eq!(w.start, "1970-01-01T00:00:00");
}

#[test]
fn window_of_an_unknown_zone_is_refused() {
    match day_window_at("Nowhere", 0) {
        Err(TimeError::UnknownZone(name)) => assert_eq!(name, "Nowhere"),
        other => panic!("unexpected: {:?}", other),
    }
    assert!(matches!(day_window_now("Nowhere"), Err(TimeError::UnknownZone(_))));
}

#[test]
fn window_of_an_instant_out_of_range_is_refused() {
    assert!(matches!(day_window_at("UTC", i64::MAX), Err(TimeError::InstantOutOfRange)));
    assert!(matches!(day_window_at("UTC", i64::MIN), Err(TimeError::InstantOutOfRange)));
}

#[test]
fn window_of_now_is_that_of_today() {
    let before = chrono::Utc::now().timestamp();
    let w = day_window_now("Asia/Tokyo").unwrap();
    let after = chrono::Utc::now().timestamp();
    let a = day_window_at("Asia/Tokyo", before).unwrap();
    let b = day_window_at("Asia/Tokyo", after).unwrap();
    assert!(w.start == a.start || w.start == b.start);
    assert!(w.end == a.end || w.end == b.end);
    assert_eq!(w.start.len(), 19);
    assert!(w.start.ends_with("T00:00:00"));
    assert!(w.end.ends_with("T23:59:59"));
    assert_eq!(w.start[..10], w.end[..10]);
}

#[test]
fn feed_address_holds_both_ends_of_the_window() {
    let w = window(2024, 3, 5);
    assert_eq!(
        feed_url("https://mail.example.com", &w),
        "https://mail.example.com/api/v2.0/me/calendarview?startDateTime=2024-03-05T00:00:00&endDateTime=2024-03-05T23:59:59&$select=Subject,Start,Location,Body,LastModifiedDateTime"
    );
}
