use chrono::{Datelike, NaiveDate, TimeZone, Timelike, Utc};
use valu3::prelude::{Date, DateTime, DateTimeBehavior, Duration, Number, Time, UtcDateTime, Value};

fn from_date(date: NaiveDate) -> DateTime {
    DateTime::from_ymd_opt(date.year(), date.month(), date.day())
}

fn from_utc(at: chrono::LocalResult<chrono::DateTime<Utc>>) -> DateTime {
    from_instant(at.unwrap())
}

fn from_instant(at: chrono::DateTime<Utc>) -> DateTime {
    DateTime::DateTime(UtcDateTime {
        date: Date::from_ymd_opt(at.year(), at.month(), at.day()).unwrap(),
        time: Time::from_hms_nano_opt(at.hour(), at.minute(), at.second(), at.nanosecond()).unwrap(),
    })
}

#[test]
fn test_add_duration() {
    let dt_date = DateTime::from_ymd_opt(2023, 4, 5);
    let dt_datetime = DateTime::with_ymd_and_hms(2023, 4, 5, 12, 34, 56);

    assert_eq!(
        dt_date.add_duration(Duration::days(1)),
        Some(from_date(NaiveDate::from_ymd_opt(2023, 4, 6).unwrap()))
    );
    assert_eq!(
        dt_datetime.add_duration(Duration::days(1)),
        Some(from_utc(Utc.with_ymd_and_hms(2023, 4, 6, 12, 34, 56)))
    );
}

#[test]
fn test_subtract_duration() {
    let date = NaiveDate::from_ymd_opt(2023, 4, 5).unwrap();
    let datetime = Utc.with_ymd_and_hms(2023, 4, 5, 12, 34, 56);

    let dt_date = from_date(date);
    let dt_datetime = from_utc(datetime);

    assert_eq!(
        dt_date.subtract_duration(Duration::days(1)),
        Some(from_date(NaiveDate::from_ymd_opt(2023, 4, 4).unwrap()))
    );
    assert_eq!(
        dt_datetime.subtract_duration(Duration::days(1)),
        Some(from_utc(Utc.with_ymd_and_hms(2023, 4, 4, 12, 34, 56)))
    );
}

#[test]
fn test_duration_between() {
    let date1 = NaiveDate::from_ymd_opt(2023, 4, 5).unwrap();
    let date2 = NaiveDate::from_ymd_opt(2023, 4, 6).unwrap();
    let datetime1 = Utc.with_ymd_and_hms(2023, 4, 5, 12, 34, 56);
    let datetime2 = Utc.with_ymd_and_hms(2023, 4, 6, 12, 34, 56);

    let dt_date1 = from_date(date1);
    let dt_date2 = from_date(date2);
    let dt_datetime1 = from_utc(datetime1);
    let dt_datetime2 = from_utc(datetime2);

    assert_eq!(
        dt_date1.duration_between(&dt_date2),
        Some(Duration::days(1))
    );
    assert_eq!(
        dt_datetime1.duration_between(&dt_datetime2),
        Some(Duration::days(1))
    );
}

#[test]
fn test_timestamp() {
    let date = NaiveDate::from_ymd_opt(2023, 4, 5).unwrap();
    let datetime = Utc.with_ymd_and_hms(2023, 4, 5, 12, 34, 56);

    let dt_date = from_date(date);
    let dt_datetime = from_utc(datetime);

    assert_eq!(
        dt_date.timestamp(),
        Some(date.and_hms_opt(0, 0, 0).unwrap().and_utc().timestamp())
    );
    assert_eq!(dt_datetime.timestamp(), Some(datetime.unwrap().timestamp()));
}

#[test]
fn test_timezone() {
    let datetime = Utc.with_ymd_and_hms(2023, 4, 5, 12, 34, 56);
    let dt_datetime = from_utc(datetime);

    assert_eq!(dt_datetime.timezone(), Some(Utc));
}

#[test]
fn test_to_iso8601() {
    let date = NaiveDate::from_ymd_opt(2023, 4, 5).unwrap();
    let datetime = Utc.with_ymd_and_hms(2023, 4, 5, 12, 34, 56);

    let dt_date = from_date(date);
    let dt_datetime = from_utc(datetime);

    assert_eq!(dt_date.to_iso8601(), "2023-04-05");
    assert_eq!(dt_datetime.to_iso8601(), "2023-04-05T12:34:56");
}

#[test]
fn test_from_i64() {
    let timestamp_nanos = 1672539296000000000;
    let dt_datetime = DateTime::from_nanos(timestamp_nanos);

    assert_eq!(
        dt_datetime,
        from_instant(Utc.timestamp_nanos(timestamp_nanos))
    );
}

#[test]
fn a_day_later_and_a_day_earlier() {
    let date = DateTime::from_ymd_opt(2023, 4, 5);
    assert_eq!(date.add_duration(Duration::days(1)), Some(DateTime::from_ymd_opt(2023, 4, 6)));
    assert_eq!(date.subtract_duration(Duration::days(5)), Some(DateTime::from_ymd_opt(2023, 3, 31)));
    // A date moves by whole days only.
    assert_eq!(date.add_duration(Duration::seconds(86_399)), Some(date));
    assert_eq!(date.add_duration(Duration::seconds(-86_400)), Some(DateTime::from_ymd_opt(2023, 4, 4)));

    let time = DateTime::Time(Time::from_hms_opt(12, 34, 56).unwrap());
    assert_eq!(time.add_duration(Duration::days(1)), None);
    assert_eq!(time.subtract_duration(Duration::days(1)), None);
    assert_eq!(time.duration_between(&time), None);
    assert_eq!(time.duration_between(&date), None);
    assert_eq!(date.duration_between(&time), None);

    let stamp = DateTime::with_ymd_and_hms(2023, 12, 31, 23, 59, 59);
    let span = Duration::new(1, 500_000_000).unwrap();
    let later = stamp.add_duration(span).unwrap();
    assert_eq!(later.year(), Some(2024));
    assert_eq!(later.month(), Some(1));
    assert_eq!(later.day(), Some(1));
    assert_eq!(later.hour(), Some(0));
    assert_eq!(later.minute(), Some(0));
    assert_eq!(later.second(), Some(0));
    assert_eq!(later.as_date_time().unwrap().time.nanosecond(), 500_000_000);
    assert_eq!(later.timestamp(), stamp.timestamp().map(|seconds| seconds + 1));
    assert_eq!(later.subtract_duration(span), Some(stamp));
    assert_eq!(stamp.duration_between(&later), Some(span));
    assert_eq!(later.duration_between(&stamp), Some(Duration::new(-1, -500_000_000).unwrap()));
}

#[test]
fn the_calendar_has_two_ends() {
    let last = DateTime::from_ymd_opt(262142, 12, 31);
    assert_eq!(last.add_duration(Duration::days(1)), None);
    assert_eq!(last.add_duration(Duration::days(0)), Some(last));
    let first = DateTime::from_ymd_opt(-262143, 1, 1);
    assert_eq!(first.subtract_duration(Duration::days(1)), None);
    let stamp = DateTime::with_ymd_and_hms(262142, 12, 31, 23, 59, 59);
    assert_eq!(stamp.add_duration(Duration::seconds(1)), None);
    let far = first.duration_between(&last).unwrap();
    assert_eq!(far.num_days(), (NaiveDate::MAX - NaiveDate::MIN).num_days());
    assert_eq!(far.num_days(), 191_491_528);
}

#[test]
fn dates_are_made_of_days_that_exist() {
    assert!(Date::from_ymd_opt(2023, 4, 31).is_none());
    assert!(Date::from_ymd_opt(2023, 2, 29).is_none());
    assert!(Date::from_ymd_opt(2024, 2, 29).is_some());
    assert!(Date::from_ymd_opt(1900, 2, 29).is_none());
    assert!(Date::from_ymd_opt(2000, 2, 29).is_some());
    assert!(Date::from_ymd_opt(-4, 2, 29).is_some());
    assert!(Date::from_ymd_opt(0, 2, 29).is_some());
    assert!(Date::from_ymd_opt(-100, 2, 29).is_none());
    assert!(Date::from_ymd_opt(2023, 0, 1).is_none());
    assert!(Date::from_ymd_opt(2023, 13, 1).is_none());
    assert!(Date::from_ymd_opt(2023, 1, 0).is_none());
    assert!(Date::from_ymd_opt(262142, 12, 31).is_some());
    assert!(Date::from_ymd_opt(262143, 1, 1).is_none());
    assert!(Date::from_ymd_opt(-262143, 1, 1).is_some());
    assert!(Date::from_ymd_opt(-262144, 12, 31).is_none());
    for year in [-401, -400, -100, -4, -1, 0, 1, 4, 100, 400, 1900, 2000, 2023, 2024] {
        for month in 0..14 {
            for day in 0..33 {
                assert_eq!(
                    Date::from_ymd_opt(year, month, day).is_some(),
                    NaiveDate::from_ymd_opt(year, month, day).is_some()
                );
            }
        }
    }
    let date = Date::from_ymd_opt(2023, 4, 5).unwrap();
    assert_eq!((date.year(), date.month(), date.day()), (2023, 4, 5));
}

fn leap(year: i32) -> bool {
    year.rem_euclid(4) == 0 && (year.rem_euclid(100) != 0 || year.rem_euclid(400) == 0)
}

fn days_in(year: i32, month: u32) -> u32 {
    match month {
        2 if leap(year) => 29,
        2 => 28,
        4 | 6 | 9 | 11 => 30,
        _ => 31,
    }
}

#[test]
fn a_date_is_there_just_where_the_calendar_has_the_day() {
    let years = [
        -262144, -262143, -262142, -2001, -2000, -401, -400, -399, -101, -100, -5, -4, -3, -1, 0, 1,
        4, 100, 399, 400, 1582, 1899, 1900, 1970, 1999, 2000, 2023, 2024, 2100, 262141, 262142,
        262143,
    ];
    for year in years {
        for month in 0..15 {
            for day in 0..34 {
                let expected = (-262143..=262142).contains(&year)
                    && (1..=12).contains(&month)
                    && day >= 1
                    && day <= days_in(year, month);
                assert_eq!(
                    Date::from_ymd_opt(year, month, day).is_some(),
                    expected,
                    "{year}-{month}-{day}"
                );
            }
        }
    }
    assert!(Date::from_ymd_opt(i32::MAX, 1, 1).is_none());
    assert!(Date::from_ymd_opt(i32::MIN, 1, 1).is_none());
    assert!(Date::from_ymd_opt(2023, u32::MAX, 1).is_none());
    assert!(Date::from_ymd_opt(2023, 1, u32::MAX).is_none());
}

#[test]
fn times_are_made_of_fields_on_the_clock() {
    assert!(Time::from_hms_opt(23, 59, 59).is_some());
    assert!(Time::from_hms_opt(24, 0, 0).is_none());
    assert!(Time::from_hms_opt(0, 60, 0).is_none());
    assert!(Time::from_hms_opt(0, 0, 60).is_none());
    assert!(Time::from_hms_nano_opt(23, 59, 59, 1_999_999_999).is_some());
    assert!(Time::from_hms_nano_opt(23, 59, 59, 2_000_000_000).is_none());
    assert!(Time::from_hms_nano_opt(23, 59, 58, 1_000_000_000).is_none());
    for (h, m, s, n) in [(0, 0, 0, 0), (23, 59, 59, 1_500_000_000), (12, 0, 59, 999_999_999), (1, 2, 3, 1_000_000_000)] {
        assert_eq!(
            Time::from_hms_nano_opt(h, m, s, n).is_some(),
            chrono::NaiveTime::from_hms_nano_opt(h, m, s, n).is_some()
        );
    }
    let time = Time::from_hms_nano_opt(1, 2, 3, 4).unwrap();
    assert_eq!((time.hour(), time.minute(), time.second(), time.nanosecond()), (1, 2, 3, 4));
}

#[test]
fn durations_stay_within_their_bounds() {
    assert!(Duration::new(0, 0).is_some());
    assert!(Duration::new(1, -1).is_none());
    assert!(Duration::new(-1, 1).is_none());
    assert!(Duration::new(0, -999_999_999).is_some());
    assert!(Duration::new(0, 1_000_000_000).is_none());
    assert!(Duration::new(9_223_372_036_854_775, 807_000_000).is_some());
    assert!(Duration::new(9_223_372_036_854_775, 807_000_001).is_none());
    assert!(Duration::new(-9_223_372_036_854_775, -807_000_000).is_some());
    assert!(Duration::new(-9_223_372_036_854_775, -807_000_001).is_none());
    assert!(Duration::new(9_223_372_036_854_776, 0).is_none());
    assert_eq!(Duration::days(2).num_seconds(), 172_800);
    assert_eq!(Duration::days(2).num_days(), 2);
    assert_eq!(Duration::seconds(-86_401).num_days(), -1);
    assert_eq!(Duration::seconds(-86_399).num_days(), 0);
    assert_eq!(Duration::seconds(86_399).num_days(), 0);
    assert_eq!(Duration::new(-5, -7).unwrap().subsec_nanos(), -7);
    assert_eq!(Duration::days(106_751_991_167).num_days(), chrono::TimeDelta::days(106_751_991_167).num_days());
    assert!(chrono::TimeDelta::try_days(106_751_991_168).is_none());
    assert_eq!(Duration::try_days(106_751_991_168), None);
    assert_eq!(Duration::try_days(-106_751_991_168), None);
    assert_eq!(Duration::try_days(-106_751_991_167), Some(Duration::days(-106_751_991_167)));
    assert_eq!(Duration::try_days(3), Some(Duration::seconds(259_200)));
    for (s, n) in [(0i64, 0i32), (5, 999_999_999), (-5, -999_999_999), (0, -1), (9_223_372_036_854_775, 807_000_000)] {
        let ours = Duration::new(s, n).unwrap();
        let theirs = chrono::TimeDelta::try_seconds(s).unwrap() + chrono::TimeDelta::nanoseconds(n as i64);
        assert_eq!(ours.num_seconds(), theirs.num_seconds());
        assert_eq!(ours.subsec_nanos(), theirs.subsec_nanos());
        assert_eq!(ours.num_days(), theirs.num_days());
    }
}

#[test]
fn parts_are_there_for_the_shapes_that_have_them() {
    let date = DateTime::from_ymd_opt(2023, 4, 5);
    let time = DateTime::Time(Time::from_hms_opt(12, 34, 56).unwrap());
    let stamp = DateTime::with_ymd_and_hms(2023, 4, 5, 12, 34, 56);

    assert_eq!((date.year(), date.month(), date.day()), (Some(2023), Some(4), Some(5)));
    assert_eq!((date.hour(), date.minute(), date.second()), (None, None, None));
    assert_eq!((time.year(), time.month(), time.day()), (None, None, None));
    assert_eq!((time.hour(), time.minute(), time.second()), (Some(12), Some(34), Some(56)));
    assert_eq!((stamp.year(), stamp.month(), stamp.day()), (Some(2023), Some(4), Some(5)));
    assert_eq!((stamp.hour(), stamp.minute(), stamp.second()), (Some(12), Some(34), Some(56)));

    assert!(date.as_date().is_some() && date.as_time().is_none() && date.as_date_time().is_none());
    assert!(time.as_date().is_none() && time.as_time().is_some() && time.as_date_time().is_none());
    assert!(stamp.as_date().is_none() && stamp.as_time().is_none() && stamp.as_date_time().is_some());

    assert_eq!(date.timezone(), None);
    assert_eq!(time.timezone(), None);
    assert_eq!(stamp.timezone(), Some(Utc));

    assert_eq!(time.timestamp(), Some(12 * 3600 + 34 * 60 + 56));
    assert_eq!(DateTime::from_ymd_opt(1970, 1, 2).timestamp(), Some(86_400));
    assert_eq!(DateTime::with_ymd_and_hms(1969, 12, 31, 23, 59, 59).timestamp(), Some(-1));
    let leap = DateTime::Time(Time::from_hms_nano_opt(23, 59, 59, 1_200_000_000).unwrap());
    assert_eq!(leap.timestamp(), Some(86_399));
}

#[test]
fn texts_come_in_two_forms() {
    let date = DateTime::from_ymd_opt(2023, 4, 5);
    let time = DateTime::Time(Time::from_hms_nano_opt(12, 34, 56, 250_000_000).unwrap());
    let stamp = DateTime::with_ymd_and_hms(2023, 4, 5, 12, 34, 56);

    assert_eq!(date.to_iso8601(), "2023-04-05");
    assert_eq!(time.to_iso8601(), "12:34:56.250");
    assert_eq!(stamp.to_iso8601(), "2023-04-05T12:34:56");
    assert_eq!(date.to_rfc3339(), "");
    assert_eq!(time.to_rfc3339(), "");
    assert_eq!(stamp.to_rfc3339(), "2023-04-05T12:34:56+00:00");

    assert_eq!(date.display(), "2023-04-05");
    assert_eq!(time.display(), "12:34:56.250");
    assert_eq!(stamp.display(), "2023-04-05T12:34:56+00:00");
    assert_eq!(DateTime::from_ymd_opt(-1, 1, 1).display(), "-0001-01-01");
    assert_eq!(DateTime::from_ymd_opt(10000, 12, 31).display(), "+10000-12-31");
}

#[test]
fn a_text_is_read_as_a_date_then_a_time_then_both() {
    assert_eq!(DateTime::from_text("2023-04-05"), DateTime::from_ymd_opt(2023, 4, 5));
    assert_eq!(
        DateTime::from_text("12:34:56"),
        DateTime::Time(Time::from_hms_opt(12, 34, 56).unwrap())
    );
    assert_eq!(
        DateTime::from_text("2023-04-05T00:00:00Z"),
        DateTime::with_ymd_and_hms(2023, 4, 5, 0, 0, 0)
    );
    assert_eq!(
        DateTime::from_text("2023-04-05T02:00:00+02:00"),
        DateTime::with_ymd_and_hms(2023, 4, 5, 0, 0, 0)
    );
    assert_eq!(DateTime::try_from_text("2023-04-05"), Some(DateTime::from_ymd_opt(2023, 4, 5)));
    assert_eq!(DateTime::try_from_text("2023-04-31"), None);
    assert_eq!(DateTime::try_from_text("not a date"), None);
    assert_eq!(DateTime::try_from_text(""), None);
    assert!(DateTime::reads("23:59:59"));
    assert!(!DateTime::reads("24:00:00"));
}

#[test]
fn nanoseconds_are_counted_from_1970() {
    assert_eq!(DateTime::from_nanos(0), DateTime::with_ymd_and_hms(1970, 1, 1, 0, 0, 0));
    assert_eq!(DateTime::from_nanos(-1_000_000_000), DateTime::with_ymd_and_hms(1969, 12, 31, 23, 59, 59));
    let stamp = DateTime::from_nanos(1_672_539_296_000_000_123);
    assert_eq!(stamp.timestamp(), Some(1_672_539_296));
    assert_eq!(stamp.as_date_time().unwrap().time.nanosecond(), 123);
    assert_eq!(DateTime::from_nanos(i64::MAX).year(), Some(2262));
    assert_eq!(DateTime::from_nanos(i64::MIN).year(), Some(1677));
}

#[test]
fn a_value_gives_up_its_date() {
    let date = DateTime::from_ymd_opt(2023, 4, 5);
    assert_eq!(DateTime::held_by(Value::DateTime(date)), date);
    assert_ne!(Value::DateTime(date), Value::Number(Number::from(20230405)));
}

fn padded(n: u64, width: usize) -> String {
    let digits = n.to_string();
    if digits.len() >= width {
        digits
    } else {
        format!("{}{}", "0".repeat(width - digits.len()), digits)
    }
}

fn year_text(year: i32) -> String {
    if (0..=9999).contains(&year) {
        padded(year as u64, 4)
    } else if year < 0 {
        format!("-{}", padded(-(year as i64) as u64, 4))
    } else {
        format!("+{}", padded(year as u64, 4))
    }
}

fn date_text(date: &Date) -> String {
    format!(
        "{}-{}-{}",
        year_text(date.year()),
        padded(date.month() as u64, 2),
        padded(date.day() as u64, 2)
    )
}

fn clock_text(time: &Time) -> String {
    let second = if time.nanosecond() >= 1_000_000_000 { time.second() + 1 } else { time.second() };
    format!(
        "{}:{}:{}",
        padded(time.hour() as u64, 2),
        padded(time.minute() as u64, 2),
        padded(second as u64, 2)
    )
}

fn fraction_text(time: &Time) -> String {
    let nanos = (time.nanosecond() % 1_000_000_000) as u64;
    if nanos == 0 {
        String::new()
    } else if nanos % 1_000_000 == 0 {
        format!(".{}", padded(nanos / 1_000_000, 3))
    } else if nanos % 1_000 == 0 {
        format!(".{}", padded(nanos / 1_000, 6))
    } else {
        format!(".{}", padded(nanos, 9))
    }
}

fn time_text(time: &Time) -> String {
    format!("{}{}", clock_text(time), fraction_text(time))
}

fn sample_dates() -> Vec<Date> {
    let mut dates = Vec::new();
    for (y, m, d) in [
        (2023, 4, 5),
        (0, 1, 1),
        (-1, 12, 31),
        (1, 1, 1),
        (9, 9, 9),
        (99, 10, 10),
        (999, 2, 28),
        (1000, 1, 1),
        (9999, 12, 31),
        (10000, 1, 1),
        (-9999, 6, 15),
        (-10000, 6, 15),
        (262142, 12, 31),
        (-262143, 1, 1),
        (123456, 7, 8),
        (-4, 2, 29),
    ] {
        dates.push(Date::from_ymd_opt(y, m, d).unwrap());
    }
    let mut seed: u64 = 7;
    while dates.len() < 3000 {
        seed = seed.wrapping_mul(6364136223846793005).wrapping_add(1442695040888963407);
        let year = ((seed >> 33) % 524286) as i32 - 262143;
        let month = ((seed >> 20) % 12) as u32 + 1;
        let day = ((seed >> 8) % 31) as u32 + 1;
        if let Some(date) = Date::from_ymd_opt(year, month, day) {
            dates.push(date);
        }
    }
    dates
}

fn sample_times() -> Vec<Time> {
    let mut times = Vec::new();
    for (h, m, s, n) in [
        (0, 0, 0, 0),
        (23, 59, 59, 999_999_999),
        (23, 59, 59, 1_000_000_000),
        (23, 59, 59, 1_999_999_999),
        (12, 0, 59, 1_500_000_000),
        (1, 2, 3, 4),
        (1, 2, 3, 4_000),
        (1, 2, 3, 4_000_000),
        (1, 2, 3, 40_000_000),
        (1, 2, 3, 400_000_000),
        (1, 2, 3, 123_456_000),
        (1, 2, 3, 100),
        (9, 9, 9, 1),
    ] {
        times.push(Time::from_hms_nano_opt(h, m, s, n).unwrap());
    }
    let mut seed: u64 = 11;
    while times.len() < 3000 {
        seed = seed.wrapping_mul(6364136223846793005).wrapping_add(1442695040888963407);
        let hour = ((seed >> 40) % 24) as u32;
        let minute = ((seed >> 30) % 60) as u32;
        let second = ((seed >> 20) % 60) as u32;
        let unit = [1u64, 1_000, 1_000_000, 100_000_000][(seed >> 5) as usize % 4];
        let nanos = ((seed >> 3) % 1_000_000_000 / unit * unit) as u32;
        if let Some(time) = Time::from_hms_nano_opt(hour, minute, second, nanos) {
            times.push(time);
        }
    }
    times
}

#[test]
fn dates_are_written_with_year_month_and_day() {
    for date in sample_dates() {
        let expected = date_text(&date);
        assert_eq!(DateTime::Date(date).display(), expected);
        assert_eq!(DateTime::Date(date).to_iso8601(), expected);
        assert_eq!(DateTime::try_from_text(&expected), Some(DateTime::Date(date)));
    }
    assert_eq!(DateTime::from_ymd_opt(7, 8, 9).display(), "0007-08-09");
    assert_eq!(DateTime::from_ymd_opt(-262143, 1, 1).display(), "-262143-01-01");
    assert_eq!(DateTime::from_ymd_opt(123456, 7, 8).to_iso8601(), "+123456-07-08");
}

#[test]
fn times_are_written_to_the_fraction_that_they_have() {
    for time in sample_times() {
        let expected = time_text(&time);
        assert_eq!(DateTime::Time(time).display(), expected);
        assert_eq!(DateTime::Time(time).to_iso8601(), expected);
    }
    let leap = Time::from_hms_nano_opt(23, 59, 59, 1_250_000_000).unwrap();
    assert_eq!(DateTime::Time(leap).display(), "23:59:60.250");
    let exact = Time::from_hms_nano_opt(1, 2, 3, 4).unwrap();
    assert_eq!(DateTime::Time(exact).to_iso8601(), "01:02:03.000000004");
    let micro = Time::from_hms_nano_opt(1, 2, 3, 4_000).unwrap();
    assert_eq!(DateTime::Time(micro).to_iso8601(), "01:02:03.000004");
}

#[test]
fn dates_with_times_are_written_in_both_forms() {
    let dates = sample_dates();
    let times = sample_times();
    for (date, time) in dates.iter().zip(times.iter()) {
        let at = DateTime::DateTime(UtcDateTime { date: *date, time: *time });
        assert_eq!(at.to_iso8601(), format!("{}T{}", date_text(date), clock_text(time)));
        let rfc3339 = format!("{}T{}+00:00", date_text(date), time_text(time));
        assert_eq!(at.to_rfc3339(), rfc3339);
        assert_eq!(at.display(), rfc3339);
    }
    let leap = DateTime::DateTime(UtcDateTime {
        date: Date::from_ymd_opt(2016, 12, 31).unwrap(),
        time: Time::from_hms_nano_opt(23, 59, 59, 1_000_000_000).unwrap(),
    });
    assert_eq!(leap.to_iso8601(), "2016-12-31T23:59:60");
    assert_eq!(leap.to_rfc3339(), "2016-12-31T23:59:60+00:00");
}

#[test]
fn what_is_added_is_measured_back() {
    let dates = sample_dates();
    let times: Vec<Time> = sample_times().into_iter().filter(|t| t.nanosecond() < 1_000_000_000).collect();
    let mut seed: u64 = 23;
    let mut moved = 0;
    for (i, date) in dates.iter().enumerate() {
        seed = seed.wrapping_mul(6364136223846793005).wrapping_add(1442695040888963407);
        let sign: i64 = if seed & 1 == 0 { 1 } else { -1 };
        let seconds = sign * ((seed >> 8) % [1u64, 100, 100_000, 10_000_000_000][(seed >> 2) as usize % 4]) as i64;
        let nanos = sign as i32 * ((seed >> 30) % 1_000_000_000) as i32;
        let span = Duration::new(seconds, nanos).unwrap();
        let time = times[i % times.len()];
        let start = DateTime::DateTime(UtcDateTime { date: *date, time });
        if let Some(end) = start.add_duration(span) {
            moved += 1;
            assert_eq!(start.duration_between(&end), Some(span), "{start:?} {span:?}");
            assert!(end.as_date_time().unwrap().time.nanosecond() < 1_000_000_000);
        }
        let day = DateTime::Date(*date);
        if let Some(end) = day.add_duration(span) {
            assert_eq!(day.duration_between(&end), Some(Duration::days(span.num_days())));
        }
    }
    assert!(moved > 2500);
}

#[test]
fn within_a_leap_second_the_measure_differs() {
    let start = DateTime::DateTime(UtcDateTime {
        date: Date::from_ymd_opt(2016, 12, 31).unwrap(),
        time: Time::from_hms_nano_opt(23, 59, 59, 1_500_000_000).unwrap(),
    });
    let span = Duration::seconds(1);
    let end = start.add_duration(span).unwrap();
    assert_eq!(
        end,
        DateTime::DateTime(UtcDateTime {
            date: Date::from_ymd_opt(2017, 1, 1).unwrap(),
            time: Time::from_hms_nano_opt(0, 0, 0, 500_000_000).unwrap(),
        })
    );
    assert_eq!(start.duration_between(&end), Some(Duration::seconds(0)));
}
