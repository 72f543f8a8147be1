//! Dates and times, held by their calendar and clock fields.
//!
//! The arithmetic of the calendar, the reading of texts and the writing of
//! them are the work of the `chrono` crate. The library keeps the fields that
//! its own logic reads, hands them to `chrono` call by call, and takes fields
//! back.

use chrono::Datelike;
use chrono::NaiveDate;
use chrono::NaiveTime;
use chrono::TimeDelta;
use chrono::TimeZone;
use chrono::Timelike;
use chrono::Utc;
use vstd::prelude::*;
use crate::decimal::decimal;
use crate::value::Value;

verus! {

/// The first year that a date can have.
pub const MIN_YEAR: i32 = -262143;

/// The last year that a date can have.
pub const MAX_YEAR: i32 = 262142;

/// Whether a year has a 29th of February: every fourth year, but of the
/// hundreds only every fourth. The year 0 is one, and the rule runs on below
/// it.
pub open spec fn is_leap_year(year: int) -> bool {
    year % 4 == 0 && (year % 100 != 0 || year % 400 == 0)
}

/// The number of days of a month, for a month from 1 to 12.
pub open spec fn days_in_month(year: int, month: int) -> int {
    if month == 2 {
        if is_leap_year(year) {
            29
        } else {
            28
        }
    } else if month == 4 || month == 6 || month == 9 || month == 11 {
        30
    } else {
        31
    }
}

/// Whether a year, a month and a day name a day of the calendar that a date
/// can hold.
pub open spec fn valid_date(year: int, month: int, day: int) -> bool {
    &&& MIN_YEAR <= year <= MAX_YEAR
    &&& 1 <= month <= 12
    &&& 1 <= day <= days_in_month(year, month)
}

/// Whether four numbers name a time of day. The nanoseconds reach a second
/// or more only within a leap second, which is written as the second 59 of a
/// minute with the nanoseconds running on from 1,000,000,000.
pub open spec fn valid_time(hour: int, minute: int, second: int, nanosecond: int) -> bool {
    &&& 0 <= hour < 24
    &&& 0 <= minute < 60
    &&& 0 <= second < 60
    &&& 0 <= nanosecond < 2_000_000_000
    &&& nanosecond >= 1_000_000_000 ==> second == 59
}

/// The most seconds that a duration can have: those of `i64::MAX`
/// milliseconds.
pub const MAX_SECONDS: i64 = 9_223_372_036_854_775;

/// The most nanoseconds that a duration of `MAX_SECONDS` seconds can have
/// beside them.
pub const MAX_SECONDS_NANOS: i32 = 807_000_000;

/// The most days that a duration can have.
pub const MAX_DAYS: i64 = 106_751_991_167;

/// Whether whole seconds and the nanoseconds beside them make a duration. The
/// two agree in sign, the nanoseconds stay below a second, and the whole stays
/// within `i64::MAX` milliseconds either way.
pub open spec fn valid_duration(seconds: int, nanoseconds: int) -> bool {
    &&& -1_000_000_000 < nanoseconds < 1_000_000_000
    &&& seconds > 0 ==> nanoseconds >= 0
    &&& seconds < 0 ==> nanoseconds <= 0
    &&& -MAX_SECONDS <= seconds <= MAX_SECONDS
    &&& seconds == MAX_SECONDS ==> nanoseconds <= MAX_SECONDS_NANOS
    &&& seconds == -MAX_SECONDS ==> nanoseconds >= -MAX_SECONDS_NANOS
}

/// The quotient of two integers, rounded towards zero.
pub open spec fn quotient_towards_zero(a: int, b: int) -> int
    recommends
        b > 0,
{
    if a >= 0 {
        a / b
    } else {
        -((-a) / b)
    }
}

/// Whether six fields, without nanoseconds, name a date and a time of day.
pub open spec fn valid_date_time(
    year: i32,
    month: u32,
    day: u32,
    hour: u32,
    minute: u32,
    second: u32,
) -> bool {
    valid_date(year as int, month as int, day as int) && valid_time(
        hour as int,
        minute as int,
        second as int,
        0,
    )
}

/// A day of the calendar.
#[derive(Debug, Clone, Copy, PartialEq, Eq, Structural)]
pub struct Date {
    year: i32,
    month: u32,
    day: u32,
}

/// A time of day.
#[derive(Debug, Clone, Copy, PartialEq, Eq, Structural)]
pub struct Time {
    hour: u32,
    minute: u32,
    second: u32,
    nanosecond: u32,
}

/// A span of time with a sign: whole seconds, and nanoseconds beside them.
#[derive(Debug, Clone, Copy, PartialEq, Eq, Structural)]
pub struct Duration {
    seconds: i64,
    nanoseconds: i32,
}

/// A date and a time of day in UTC.
#[derive(Debug, Clone, Copy, PartialEq, Eq, Structural)]
pub struct UtcDateTime {
    pub date: Date,
    pub time: Time,
}

/// A date, a time of day, or a date and a time of day in UTC. A value keeps
/// the shape that it was made with.
#[derive(Debug, Clone, Copy, PartialEq, Eq, Structural)]
pub enum DateTime {
    Date(Date),
    Time(Time),
    DateTime(UtcDateTime),
}

/// The time zone of every date with a time: UTC.
#[verifier::external_type_specification]
#[verifier::external_body]
pub struct ExUtc(chrono::Utc);

impl Date {
    #[verifier::type_invariant]
    spec fn in_calendar(self) -> bool {
        valid_date(self.year as int, self.month as int, self.day as int)
    }

    pub closed spec fn year_of(self) -> int {
        self.year as int
    }

    pub closed spec fn month_of(self) -> int {
        self.month as int
    }

    pub closed spec fn day_of(self) -> int {
        self.day as int
    }

    /// Whether the fields name a day of the calendar, as those of every date
    /// at hand do.
    pub open spec fn valid(self) -> bool {
        valid_date(self.year_of(), self.month_of(), self.day_of())
    }

    /// The date of a year, a month and a day, if there is such a day.
    pub fn from_ymd_opt(year: i32, month: u32, day: u32) -> (r: Option<Date>)
        ensures
            r is Some <==> valid_date(year as int, month as int, day as int),
            r matches Some(d) ==> d.year_of() == year && d.month_of() == month && d.day_of() == day,
    {
        calendar_date(year, month, day)
    }

    pub fn year(&self) -> (r: i32)
        ensures
            r == self.year_of(),
            self.valid(),
    {
        proof {
            use_type_invariant(self);
        }
        self.year
    }

    pub fn month(&self) -> (r: u32)
        ensures
            r == self.month_of(),
            self.valid(),
    {
        proof {
            use_type_invariant(self);
        }
        self.month
    }

    pub fn day(&self) -> (r: u32)
        ensures
            r == self.day_of(),
            self.valid(),
    {
        proof {
            use_type_invariant(self);
        }
        self.day
    }
}

impl Time {
    #[verifier::type_invariant]
    spec fn on_clock(self) -> bool {
        valid_time(self.hour as int, self.minute as int, self.second as int, self.nanosecond as int)
    }

    pub closed spec fn hour_of(self) -> int {
        self.hour as int
    }

    pub closed spec fn minute_of(self) -> int {
        self.minute as int
    }

    pub closed spec fn second_of(self) -> int {
        self.second as int
    }

    pub closed spec fn nanosecond_of(self) -> int {
        self.nanosecond as int
    }

    /// Whether the fields name a time of day, as those of every time at hand
    /// do.
    pub open spec fn valid(self) -> bool {
        valid_time(self.hour_of(), self.minute_of(), self.second_of(), self.nanosecond_of())
    }

    /// Whether the time lies within a leap second: the nanoseconds have run
    /// on past the end of second 59.
    pub open spec fn in_leap_second(self) -> bool {
        self.nanosecond_of() >= 1_000_000_000
    }

    /// The time of an hour, a minute, a second and the nanoseconds within the
    /// second, if there is such a time.
    pub fn from_hms_nano_opt(
        hour: u32,
        minute: u32,
        second: u32,
        nanosecond: u32,
    ) -> (r: Option<Time>)
        ensures
            r is Some <==> valid_time(
                hour as int,
                minute as int,
                second as int,
                nanosecond as int,
            ),
            r matches Some(t) ==> t.hour_of() == hour && t.minute_of() == minute && t.second_of()
                == second && t.nanosecond_of() == nanosecond,
    {
        if hour >= 24 || minute >= 60 || second >= 60 || nanosecond >= 2_000_000_000 || (nanosecond
            >= 1_000_000_000 && second != 59) {
            None
        } else {
            Some(Time { hour, minute, second, nanosecond })
        }
    }

    /// The time of an hour, a minute and a second, if there is such a time.
    pub fn from_hms_opt(hour: u32, minute: u32, second: u32) -> (r: Option<Time>)
        ensures
            r is Some <==> valid_time(hour as int, minute as int, second as int, 0),
            r matches Some(t) ==> t.hour_of() == hour && t.minute_of() == minute && t.second_of()
                == second && t.nanosecond_of() == 0,
    {
        Time::from_hms_nano_opt(hour, minute, second, 0)
    }

    pub fn hour(&self) -> (r: u32)
        ensures
            r == self.hour_of(),
            self.valid(),
    {
        proof {
            use_type_invariant(self);
        }
        self.hour
    }

    pub fn minute(&self) -> (r: u32)
        ensures
            r == self.minute_of(),
            self.valid(),
    {
        proof {
            use_type_invariant(self);
        }
        self.minute
    }

    pub fn second(&self) -> (r: u32)
        ensures
            r == self.second_of(),
            self.valid(),
    {
        proof {
            use_type_invariant(self);
        }
        self.second
    }

    pub fn nanosecond(&self) -> (r: u32)
        ensures
            r == self.nanosecond_of(),
            self.valid(),
    {
        proof {
            use_type_invariant(self);
        }
        self.nanosecond
    }
}

impl UtcDateTime {
    /// Whether the date and the time have the given fields, and no
    /// nanoseconds.
    pub open spec fn has_fields(
        self,
        year: i32,
        month: u32,
        day: u32,
        hour: u32,
        minute: u32,
        second: u32,
    ) -> bool {
        &&& self.date.year_of() == year
        &&& self.date.month_of() == month
        &&& self.date.day_of() == day
        &&& self.time.hour_of() == hour
        &&& self.time.minute_of() == minute
        &&& self.time.second_of() == second
        &&& self.time.nanosecond_of() == 0
    }
}

impl Duration {
    #[verifier::type_invariant]
    spec fn in_bounds(self) -> bool {
        valid_duration(self.seconds as int, self.nanoseconds as int)
    }

    pub closed spec fn seconds_of(self) -> int {
        self.seconds as int
    }

    pub closed spec fn nanoseconds_of(self) -> int {
        self.nanoseconds as int
    }

    /// Whether the fields make a duration, as those of every duration at hand
    /// do.
    pub open spec fn valid(self) -> bool {
        valid_duration(self.seconds_of(), self.nanoseconds_of())
    }

    /// The duration of a number of whole days.
    pub closed spec fn whole_days(days: int) -> Duration {
        Duration { seconds: (days * 86_400) as i64, nanoseconds: 0 }
    }

    /// The whole days of the duration, rounded towards zero.
    pub open spec fn days_of(self) -> int {
        quotient_towards_zero(self.seconds_of(), 86_400)
    }

    /// The duration of whole seconds and the nanoseconds beside them, if the
    /// two make one.
    pub fn new(seconds: i64, nanoseconds: i32) -> (r: Option<Duration>)
        ensures
            r is Some <==> valid_duration(seconds as int, nanoseconds as int),
            r matches Some(d) ==> d.seconds_of() == seconds && d.nanoseconds_of() == nanoseconds,
    {
        if nanoseconds <= -1_000_000_000 || nanoseconds >= 1_000_000_000 || (seconds > 0
            && nanoseconds < 0) || (seconds < 0 && nanoseconds > 0) || seconds > MAX_SECONDS
            || seconds < -MAX_SECONDS || (seconds == MAX_SECONDS && nanoseconds > MAX_SECONDS_NANOS)
            || (seconds == -MAX_SECONDS && nanoseconds < -MAX_SECONDS_NANOS) {
            None
        } else {
            Some(Duration { seconds, nanoseconds })
        }
    }

    /// The duration of a number of whole days, if there is one so long.
    pub fn try_days(days: i64) -> (r: Option<Duration>)
        ensures
            r is Some <==> -MAX_DAYS <= days <= MAX_DAYS,
            r matches Some(d) ==> d.seconds_of() == days * 86_400 && d.nanoseconds_of() == 0,
    {
        if days < -MAX_DAYS || days > MAX_DAYS {
            None
        } else {
            Some(Duration::days(days))
        }
    }

    /// The duration of a number of whole days.
    pub fn days(days: i64) -> (r: Duration)
        requires
            -MAX_DAYS <= days <= MAX_DAYS,
        ensures
            r == Duration::whole_days(days as int),
            r.seconds_of() == days * 86_400,
            r.nanoseconds_of() == 0,
    {
        Duration { seconds: days * 86_400, nanoseconds: 0 }
    }

    /// The duration of a number of whole seconds.
    pub fn seconds(seconds: i64) -> (r: Duration)
        requires
            -MAX_SECONDS <= seconds <= MAX_SECONDS,
        ensures
            r.seconds_of() == seconds,
            r.nanoseconds_of() == 0,
    {
        Duration { seconds, nanoseconds: 0 }
    }

    /// The whole seconds of the duration, rounded towards zero.
    pub fn num_seconds(&self) -> (r: i64)
        ensures
            r == self.seconds_of(),
            self.valid(),
    {
        proof {
            use_type_invariant(self);
        }
        self.seconds
    }

    /// The nanoseconds beside the whole seconds, with the sign of the
    /// duration.
    pub fn subsec_nanos(&self) -> (r: i32)
        ensures
            r == self.nanoseconds_of(),
            self.valid(),
    {
        proof {
            use_type_invariant(self);
        }
        self.nanoseconds
    }

    /// The whole days of the duration, rounded towards zero.
    pub fn num_days(&self) -> (r: i64)
        ensures
            r == self.days_of(),
            -MAX_DAYS <= r <= MAX_DAYS,
    {
        proof {
            use_type_invariant(self);
        }
        if self.seconds >= 0 {
            self.seconds / 86_400
        } else {
            -((-self.seconds) / 86_400)
        }
    }
}

/// The duration of a number of whole days, where there is one so long, has
/// the seconds of those days and no nanoseconds, and its whole days are
/// those days.
pub proof fn lemma_whole_days(days: int)
    requires
        -MAX_DAYS <= days <= MAX_DAYS,
    ensures
        Duration::whole_days(days).seconds_of() == days * 86_400,
        Duration::whole_days(days).nanoseconds_of() == 0,
        Duration::whole_days(days).valid(),
        Duration::whole_days(days).days_of() == days,
{
}

/// Two dates with the same fields are the same date.
pub proof fn lemma_same_date(a: Date, b: Date)
    requires
        a.year_of() == b.year_of(),
        a.month_of() == b.month_of(),
        a.day_of() == b.day_of(),
    ensures
        a == b,
{
}

/// Two times of day with the same fields are the same time.
pub proof fn lemma_same_time(a: Time, b: Time)
    requires
        a.hour_of() == b.hour_of(),
        a.minute_of() == b.minute_of(),
        a.second_of() == b.second_of(),
        a.nanosecond_of() == b.nanosecond_of(),
    ensures
        a == b,
{
}

/// The seconds from the start of 1970 in UTC to a time of day on a date,
/// leap seconds not counted.
pub uninterp spec fn epoch_seconds(
    year: int,
    month: int,
    day: int,
    hour: int,
    minute: int,
    second: int,
) -> i64;

/// The digits of a number with zeros before them until they are as many as
/// a width asks for.
pub open spec fn zero_padded(n: nat, width: nat) -> Seq<char> {
    if decimal(n).len() >= width {
        decimal(n)
    } else {
        Seq::new((width - decimal(n).len()) as nat, |i: int| '0') + decimal(n)
    }
}

/// A year as it is written: with four digits from 0 to 9999, and with a
/// sign and four digits or more outside of that.
pub open spec fn year_text(year: int) -> Seq<char> {
    if 0 <= year <= 9999 {
        zero_padded(year as nat, 4)
    } else if year < 0 {
        seq!['-'] + zero_padded((-year) as nat, 4)
    } else {
        seq!['+'] + zero_padded(year as nat, 4)
    }
}

/// A date as it is written: year, month and day with hyphens between, month
/// and day with two digits each.
pub open spec fn date_text(date: Date) -> Seq<char> {
    year_text(date.year_of()) + seq!['-'] + zero_padded(date.month_of() as nat, 2) + seq!['-']
        + zero_padded(date.day_of() as nat, 2)
}

/// The second that is written for a time: that of the clock, and 60 within a
/// leap second.
pub open spec fn written_second(time: Time) -> nat {
    if time.nanosecond_of() >= 1_000_000_000 {
        (time.second_of() + 1) as nat
    } else {
        time.second_of() as nat
    }
}

/// The nanoseconds that are written for a time: those within the second that
/// is written.
pub open spec fn written_nanos(time: Time) -> nat {
    if time.nanosecond_of() >= 1_000_000_000 {
        (time.nanosecond_of() - 1_000_000_000) as nat
    } else {
        time.nanosecond_of() as nat
    }
}

/// The fraction of a second as it is written: nothing for none, else a point
/// and three, six or nine digits, as few as hold it.
pub open spec fn fraction_text(nanos: nat) -> Seq<char> {
    if nanos == 0 {
        Seq::empty()
    } else if nanos % 1_000_000 == 0 {
        seq!['.'] + zero_padded(nanos / 1_000_000, 3)
    } else if nanos % 1_000 == 0 {
        seq!['.'] + zero_padded(nanos / 1_000, 6)
    } else {
        seq!['.'] + zero_padded(nanos, 9)
    }
}

/// A time of day to the second: hour, minute and second with colons between,
/// two digits each.
pub open spec fn clock_text(time: Time) -> Seq<char> {
    zero_padded(time.hour_of() as nat, 2) + seq![':'] + zero_padded(time.minute_of() as nat, 2)
        + seq![':'] + zero_padded(written_second(time), 2)
}

/// A time of day as it is written: to the second, and the fraction of the
/// second after it.
pub open spec fn time_text(time: Time) -> Seq<char> {
    clock_text(time) + fraction_text(written_nanos(time))
}

/// A date and time in UTC in the extended form of ISO 8601: the date, a `T`
/// and the time to the second, with nothing after it.
pub open spec fn utc_iso_text(at: UtcDateTime) -> Seq<char> {
    date_text(at.date) + seq!['T'] + clock_text(at.time)
}

/// A date and time in UTC as RFC 3339 writes it: the date, a `T`, the time
/// with its fraction, and the offset of UTC.
pub open spec fn rfc3339_text(at: UtcDateTime) -> Seq<char> {
    date_text(at.date) + seq!['T'] + time_text(at.time) + seq!['+', '0', '0', ':', '0', '0']
}

/// The date a number of days after a date, if the calendar reaches that far.
pub uninterp spec fn date_after_days(date: Date, days: i64) -> Option<Date>;

/// The date a number of days before a date, if the calendar reaches that far.
pub uninterp spec fn date_before_days(date: Date, days: i64) -> Option<Date>;

/// The date and time a duration after a date and time, if the calendar
/// reaches that far.
pub uninterp spec fn utc_after(at: UtcDateTime, duration: Duration) -> Option<UtcDateTime>;

/// The date and time a duration before a date and time, if the calendar
/// reaches that far.
pub uninterp spec fn utc_before(at: UtcDateTime, duration: Duration) -> Option<UtcDateTime>;

/// The days from one date to another.
pub uninterp spec fn days_from_to(from: Date, to: Date) -> i64;

/// The duration from one date and time to another.
pub uninterp spec fn utc_from_to(from: UtcDateTime, to: UtcDateTime) -> Duration;

/// The date that a text reads as, if it reads as one.
pub uninterp spec fn date_of_text(text: Seq<char>) -> Option<Date>;

/// The time of day that a text reads as, if it reads as one.
pub uninterp spec fn time_of_text(text: Seq<char>) -> Option<Time>;

/// The date and time in UTC that a text reads as, if it reads as one.
pub uninterp spec fn utc_of_text(text: Seq<char>) -> Option<UtcDateTime>;

/// The date and time in UTC that lies a number of nanoseconds after the
/// start of 1970.
pub uninterp spec fn utc_of_nanos(nanos: i64) -> UtcDateTime;

/// `NaiveDate::from_ymd_opt`: the date of a year, a month and a day. It gives
/// a date just where the month is from 1 to 12, the day is one of that month
/// in that year, and the year is within the range of the calendar.
#[verifier::external_body]
fn calendar_date(year: i32, month: u32, day: u32) -> (r: Option<Date>)
    ensures
        r is Some <==> valid_date(year as int, month as int, day as int),
        r matches Some(d) ==> d.year == year && d.month == month && d.day == day,
{
    NaiveDate::from_ymd_opt(year, month, day).map(
        |d| Date { year: d.year(), month: d.month(), day: d.day() },
    )
}

/// `TimeZone::with_ymd_and_hms` on `Utc`: the date and time of six fields.
/// It gives one just where the first three make a date and the last three a
/// time of day: the hour below 24, the minute and the second below 60.
#[verifier::external_body]
fn utc_date_time(
    year: i32,
    month: u32,
    day: u32,
    hour: u32,
    minute: u32,
    second: u32,
) -> (r: Option<UtcDateTime>)
    ensures
        r is Some <==> valid_date_time(year, month, day, hour, minute, second),
        r matches Some(at) ==> at.has_fields(year, month, day, hour, minute, second),
{
    let x = Utc.with_ymd_and_hms(year, month, day, hour, minute, second).single()?;
    let date = Date { year: x.year(), month: x.month(), day: x.day() };
    let time = Time { hour: x.hour(), minute: x.minute(), second: x.second(), nanosecond: x.nanosecond() };
    Some(UtcDateTime { date, time })
}

/// `DateTime::<Utc>::timestamp`, on the date and time of the six fields: the
/// seconds from the start of 1970. The result depends on the fields alone and
/// goes by the name `epoch_seconds`.
#[verifier::external_body]
fn utc_timestamp(year: i32, month: u32, day: u32, hour: u32, minute: u32, second: u32) -> (r: i64)
    requires
        valid_date_time(year, month, day, hour, minute, second),
    ensures
        r == epoch_seconds(year as int, month as int, day as int, hour as int, minute as int, second as int),
{
    let date = NaiveDate::from_ymd_opt(year, month, day).unwrap();
    date.and_hms_opt(hour, minute, second).unwrap().and_utc().timestamp()
}

/// `Utc`: the one value of the time zone UTC. Nothing is claimed of it.
#[verifier::external_body]
fn utc() -> (r: chrono::Utc) {
    Utc
}

/// `NaiveDate::format` with the pattern `%Y-%m-%d`, written to a `String`:
/// the year with four digits, or with a sign and four digits or more where it
/// is not from 0 to 9999; month and day with two digits each.
#[verifier::external_body]
fn date_iso(date: Date) -> (r: String)
    ensures
        r@ == date_text(date),
{
    NaiveDate::from_ymd_opt(date.year, date.month, date.day).unwrap().format("%Y-%m-%d").to_string()
}

/// `NaiveTime::format` with the pattern `%H:%M:%S%.f`, written to a `String`:
/// hour, minute and second with two digits each, the second of a leap second
/// as 60; then the fraction, if there is one, with three, six or nine digits.
#[verifier::external_body]
fn time_iso(time: Time) -> (r: String)
    ensures
        r@ == time_text(time),
{
    let t = time;
    let x = NaiveTime::from_hms_nano_opt(t.hour, t.minute, t.second, t.nanosecond).unwrap();
    x.format("%H:%M:%S%.f").to_string()
}

/// `DateTime::<Utc>::format` with the pattern `%Y-%m-%dT%H:%M:%S`, written to
/// a `String`: the date as `%Y-%m-%d` writes it, a `T`, and the time to the
/// second.
#[verifier::external_body]
fn utc_iso(at: UtcDateTime) -> (r: String)
    ensures
        r@ == utc_iso_text(at),
{
    let date = NaiveDate::from_ymd_opt(at.date.year, at.date.month, at.date.day).unwrap();
    let t = at.time;
    let x = date.and_hms_nano_opt(t.hour, t.minute, t.second, t.nanosecond).unwrap().and_utc();
    x.format("%Y-%m-%dT%H:%M:%S").to_string()
}

/// `DateTime::<Utc>::to_rfc3339`: the date, a `T`, the time with its
/// fraction in three, six or nine digits, and `+00:00` for the offset.
#[verifier::external_body]
fn utc_rfc3339(at: UtcDateTime) -> (r: String)
    ensures
        r@ == rfc3339_text(at),
{
    let date = NaiveDate::from_ymd_opt(at.date.year, at.date.month, at.date.day).unwrap();
    let t = at.time;
    date.and_hms_nano_opt(t.hour, t.minute, t.second, t.nanosecond).unwrap().and_utc().to_rfc3339()
}

/// The `Display` of `NaiveDate`, through `to_string`: the same text as the
/// pattern `%Y-%m-%d` gives.
#[verifier::external_body]
fn date_display(date: Date) -> (r: String)
    ensures
        r@ == date_text(date),
{
    NaiveDate::from_ymd_opt(date.year, date.month, date.day).unwrap().to_string()
}

/// The `Display` of `NaiveTime`, through `to_string`: the same text as the
/// pattern `%H:%M:%S%.f` gives.
#[verifier::external_body]
fn time_display(time: Time) -> (r: String)
    ensures
        r@ == time_text(time),
{
    let t = time;
    NaiveTime::from_hms_nano_opt(t.hour, t.minute, t.second, t.nanosecond).unwrap().to_string()
}

/// `NaiveDate::checked_add_signed` with the `TimeDelta` of a number of whole
/// days. Whether there is a date so much later, and which, depends on the
/// date and the days alone and goes by the name `date_after_days`. The date
/// that comes back lies that many days after the one handed in, as
/// `NaiveDate::signed_duration_since` counts them.
#[verifier::external_body]
fn date_plus_days(date: Date, days: i64) -> (r: Option<Date>)
    ensures
        r == date_after_days(date, days),
        r matches Some(moved) ==> days_from_to(date, moved) == days,
{
    let start = NaiveDate::from_ymd_opt(date.year, date.month, date.day)?;
    let x = start.checked_add_signed(TimeDelta::try_days(days)?)?;
    Some(Date { year: x.year(), month: x.month(), day: x.day() })
}

/// `NaiveDate::checked_sub_signed` with the `TimeDelta` of a number of whole
/// days. The result depends on the date and the days alone and goes by the
/// name `date_before_days`.
#[verifier::external_body]
fn date_minus_days(date: Date, days: i64) -> (r: Option<Date>)
    ensures
        r == date_before_days(date, days),
{
    let start = NaiveDate::from_ymd_opt(date.year, date.month, date.day)?;
    let x = start.checked_sub_signed(TimeDelta::try_days(days)?)?;
    Some(Date { year: x.year(), month: x.month(), day: x.day() })
}

/// `DateTime::<Utc>::checked_add_signed` with the `TimeDelta` of the
/// duration. The result depends on the date and time and on the duration
/// alone and goes by the name `utc_after`. From a time that lies in no leap
/// second, the date and time that comes back lies just the duration after
/// the one handed in, as `DateTime::<Utc>::signed_duration_since` measures
/// it. Within a leap second chrono reckons otherwise, and nothing is claimed.
#[verifier::external_body]
fn utc_plus(at: UtcDateTime, duration: Duration) -> (r: Option<UtcDateTime>)
    ensures
        r == utc_after(at, duration),
        r matches Some(moved) ==> at.time.in_leap_second() || utc_from_to(at, moved) == duration,
{
    let t = at.time;
    let start = NaiveDate::from_ymd_opt(at.date.year, at.date.month, at.date.day)?
        .and_hms_nano_opt(t.hour, t.minute, t.second, t.nanosecond)?.and_utc();
    let part = TimeDelta::nanoseconds(i64::from(duration.nanoseconds));
    let span = TimeDelta::try_seconds(duration.seconds)?.checked_add(&part)?;
    let x = start.checked_add_signed(span)?;
    let date = Date { year: x.year(), month: x.month(), day: x.day() };
    let time = Time { hour: x.hour(), minute: x.minute(), second: x.second(), nanosecond: x.nanosecond() };
    Some(UtcDateTime { date, time })
}

/// `DateTime::<Utc>::checked_sub_signed` with the `TimeDelta` of the
/// duration. The result depends on the date and time and on the duration
/// alone and goes by the name `utc_before`.
#[verifier::external_body]
fn utc_minus(at: UtcDateTime, duration: Duration) -> (r: Option<UtcDateTime>)
    ensures
        r == utc_before(at, duration),
{
    let t = at.time;
    let start = NaiveDate::from_ymd_opt(at.date.year, at.date.month, at.date.day)?
        .and_hms_nano_opt(t.hour, t.minute, t.second, t.nanosecond)?.and_utc();
    let part = TimeDelta::nanoseconds(i64::from(duration.nanoseconds));
    let span = TimeDelta::try_seconds(duration.seconds)?.checked_add(&part)?;
    let x = start.checked_sub_signed(span)?;
    let date = Date { year: x.year(), month: x.month(), day: x.day() };
    let time = Time { hour: x.hour(), minute: x.minute(), second: x.second(), nanosecond: x.nanosecond() };
    Some(UtcDateTime { date, time })
}

/// `NaiveDate::signed_duration_since`, in whole days by `num_days`. The days
/// depend on the two dates alone and go by the name `days_from_to`. The
/// calendar spans fewer days than a duration can hold.
#[verifier::external_body]
fn date_days_between(from: Date, to: Date) -> (r: i64)
    ensures
        r == days_from_to(from, to),
        -MAX_DAYS <= r <= MAX_DAYS,
{
    let a = NaiveDate::from_ymd_opt(from.year, from.month, from.day).unwrap();
    let b = NaiveDate::from_ymd_opt(to.year, to.month, to.day).unwrap();
    b.signed_duration_since(a).num_days()
}

/// `DateTime::<Utc>::signed_duration_since`, taken apart by `num_seconds` and
/// `subsec_nanos`. The duration depends on the two dates and times alone and
/// goes by the name `utc_from_to`.
#[verifier::external_body]
fn utc_between(from: UtcDateTime, to: UtcDateTime) -> (r: Duration)
    ensures
        r == utc_from_to(from, to),
{
    let (t, u) = (from.time, to.time);
    let a = NaiveDate::from_ymd_opt(from.date.year, from.date.month, from.date.day).unwrap()
        .and_hms_nano_opt(t.hour, t.minute, t.second, t.nanosecond).unwrap().and_utc();
    let b = NaiveDate::from_ymd_opt(to.date.year, to.date.month, to.date.day).unwrap()
        .and_hms_nano_opt(u.hour, u.minute, u.second, u.nanosecond).unwrap().and_utc();
    let x = b.signed_duration_since(a);
    Duration { seconds: x.num_seconds(), nanoseconds: x.subsec_nanos() }
}

/// The `FromStr` of `NaiveDate`, through `parse`. Whether the text reads as
/// a date, and as which, depends on the text alone and goes by the name
/// `date_of_text`.
#[verifier::external_body]
fn read_date(text: &str) -> (r: Option<Date>)
    ensures
        r == date_of_text(text@),
{
    let x = text.parse::<NaiveDate>().ok()?;
    Some(Date { year: x.year(), month: x.month(), day: x.day() })
}

/// The `FromStr` of `NaiveTime`, through `parse`. The result depends on the
/// text alone and goes by the name `time_of_text`.
#[verifier::external_body]
fn read_time(text: &str) -> (r: Option<Time>)
    ensures
        r == time_of_text(text@),
{
    let x = text.parse::<NaiveTime>().ok()?;
    Some(Time { hour: x.hour(), minute: x.minute(), second: x.second(), nanosecond: x.nanosecond() })
}

/// The `FromStr` of `DateTime<Utc>`, through `parse`. The result depends on
/// the text alone and goes by the name `utc_of_text`.
#[verifier::external_body]
fn read_utc(text: &str) -> (r: Option<UtcDateTime>)
    ensures
        r == utc_of_text(text@),
{
    let x = text.parse::<chrono::DateTime<Utc>>().ok()?;
    let date = Date { year: x.year(), month: x.month(), day: x.day() };
    let time = Time { hour: x.hour(), minute: x.minute(), second: x.second(), nanosecond: x.nanosecond() };
    Some(UtcDateTime { date, time })
}

/// `DateTime::from_timestamp_nanos`: the date and time in UTC a number of
/// nanoseconds after the start of 1970. Every `i64` has one. It depends on
/// the number alone and goes by the name `utc_of_nanos`.
#[verifier::external_body]
fn utc_from_nanos(nanos: i64) -> (r: UtcDateTime)
    ensures
        r == utc_of_nanos(nanos),
{
    let x = chrono::DateTime::from_timestamp_nanos(nanos);
    let date = Date { year: x.year(), month: x.month(), day: x.day() };
    let time = Time { hour: x.hour(), minute: x.minute(), second: x.second(), nanosecond: x.nanosecond() };
    UtcDateTime { date, time }
}

/// What a text reads as: a date where it reads as one, else a time of day
/// where it reads as one, else a date and time in UTC where it reads as one.
pub open spec fn of_text(text: Seq<char>) -> Option<DateTime> {
    match date_of_text(text) {
        Some(date) => Some(DateTime::Date(date)),
        None => match time_of_text(text) {
            Some(time) => Some(DateTime::Time(time)),
            None => match utc_of_text(text) {
                Some(at) => Some(DateTime::DateTime(at)),
                None => None,
            },
        },
    }
}

impl DateTime {
    /// The date and time in UTC that lies a number of nanoseconds after the
    /// start of 1970.
    pub fn from_nanos(nanos: i64) -> (r: DateTime)
        ensures
            r == DateTime::DateTime(utc_of_nanos(nanos)),
    {
        DateTime::DateTime(utc_from_nanos(nanos))
    }

    /// The date or time that a value holds. The value must hold one.
    pub fn held_by(value: Value) -> (r: DateTime)
        requires
            value is DateTime,
        ensures
            value == Value::DateTime(r),
    {
        match value {
            Value::DateTime(inner) => inner,
            _ => {
                assert(false);
                DateTime::Time(Time { hour: 0, minute: 0, second: 0, nanosecond: 0 })
            },
        }
    }

    /// Reads a text: as a date, else as a time of day, else as a date and
    /// time in UTC. Gives nothing where the text reads as none of them.
    pub fn try_from_text(text: &str) -> (r: Option<DateTime>)
        ensures
            r == of_text(text@),
    {
        if DateTime::reads(text) {
            Some(DateTime::from_text(text))
        } else {
            None
        }
    }

    /// Whether a text reads as a date or a time.
    pub fn reads(text: &str) -> (r: bool)
        ensures
            r == of_text(text@) is Some,
    {
        read_date(text).is_some() || read_time(text).is_some() || read_utc(text).is_some()
    }

    /// Reads a text that reads as a date or a time: as a date, else as a
    /// time of day, else as a date and time in UTC.
    pub fn from_text(text: &str) -> (r: DateTime)
        requires
            of_text(text@) is Some,
        ensures
            Some(r) == of_text(text@),
    {
        match read_date(text) {
            Some(date) => DateTime::Date(date),
            None => match read_time(text) {
                Some(time) => DateTime::Time(time),
                None => DateTime::DateTime(read_utc(text).unwrap()),
            },
        }
    }

    /// What the value is written as by default: a date as `date_text` has
    /// it, a time of day as `time_text`, a date and time in UTC as RFC 3339
    /// writes it.
    pub open spec fn shown(self) -> Seq<char> {
        match self {
            DateTime::Date(date) => date_text(date),
            DateTime::Time(time) => time_text(time),
            DateTime::DateTime(at) => rfc3339_text(at),
        }
    }

    /// Writes the value.
    pub fn display(&self) -> (r: String)
        ensures
            r@ == self.shown(),
    {
        match self {
            DateTime::Date(date) => date_display(*date),
            DateTime::Time(time) => time_display(*time),
            DateTime::DateTime(at) => utc_rfc3339(*at),
        }
    }
}

/// The value a duration after a value: a date moves by the whole days of the
/// duration, a date and time by all of it, and a time of day alone has no
/// later. There is none either where the calendar does not reach that far.
pub open spec fn later(value: DateTime, duration: Duration) -> Option<DateTime> {
    match value {
        DateTime::Date(date) => match date_after_days(date, duration.days_of() as i64) {
            Some(moved) => Some(DateTime::Date(moved)),
            None => None,
        },
        DateTime::Time(_) => None,
        DateTime::DateTime(at) => match utc_after(at, duration) {
            Some(moved) => Some(DateTime::DateTime(moved)),
            None => None,
        },
    }
}

/// The value a duration before a value, as `later` gives the one after it.
pub open spec fn earlier(value: DateTime, duration: Duration) -> Option<DateTime> {
    match value {
        DateTime::Date(date) => match date_before_days(date, duration.days_of() as i64) {
            Some(moved) => Some(DateTime::Date(moved)),
            None => None,
        },
        DateTime::Time(_) => None,
        DateTime::DateTime(at) => match utc_before(at, duration) {
            Some(moved) => Some(DateTime::DateTime(moved)),
            None => None,
        },
    }
}

/// The duration from a value to another of its shape: between two dates,
/// their days; between two dates with times, all of it. Two times of day, or
/// two values of different shapes, have none.
pub open spec fn between(from: DateTime, to: DateTime) -> Option<Duration> {
    match (from, to) {
        (DateTime::Date(a), DateTime::Date(b)) => Some(
            Duration::whole_days(days_from_to(a, b) as int),
        ),
        (DateTime::DateTime(a), DateTime::DateTime(b)) => Some(utc_from_to(a, b)),
        _ => None,
    }
}

/// What of a duration moves a value: its whole days move a date, and all of
/// it moves a date with a time.
pub open spec fn moving_part(value: DateTime, duration: Duration) -> Duration {
    match value {
        DateTime::Date(_) => Duration::whole_days(duration.days_of()),
        _ => duration,
    }
}

/// Whether a value is a date with a time that lies within a leap second.
pub open spec fn within_leap_second(value: DateTime) -> bool {
    value matches DateTime::DateTime(at) && at.time.in_leap_second()
}

/// A time of day alone has no later and no earlier. What has one keeps its
/// shape: a date stays a date, and a date with a time stays one.
pub proof fn lemma_shape_is_kept(value: DateTime, duration: Duration)
    ensures
        value is Time ==> later(value, duration) is None && earlier(value, duration) is None,
        later(value, duration) matches Some(moved) ==> (moved is Date <==> value is Date) && (
        moved is DateTime <==> value is DateTime),
        earlier(value, duration) matches Some(moved) ==> (moved is Date <==> value is Date) && (
        moved is DateTime <==> value is DateTime),
{
}

/// The seconds from the start of 1970 to a value: to a date and time; to the
/// midnight of a date; to a time of day on the first day of 1970. The
/// nanoseconds have no part in it.
pub open spec fn seconds_since_1970(value: DateTime) -> i64 {
    match value {
        DateTime::DateTime(at) => epoch_seconds(
            at.date.year_of(),
            at.date.month_of(),
            at.date.day_of(),
            at.time.hour_of(),
            at.time.minute_of(),
            at.time.second_of(),
        ),
        DateTime::Date(date) => epoch_seconds(
            date.year_of(),
            date.month_of(),
            date.day_of(),
            0,
            0,
            0,
        ),
        DateTime::Time(time) => epoch_seconds(
            1970,
            1,
            1,
            time.hour_of(),
            time.minute_of(),
            time.second_of(),
        ),
    }
}

/// The value in the extended form of ISO 8601.
pub open spec fn iso8601_text(value: DateTime) -> Seq<char> {
    match value {
        DateTime::Date(date) => date_text(date),
        DateTime::Time(time) => time_text(time),
        DateTime::DateTime(at) => utc_iso_text(at),
    }
}

/// The date of a value that has one.
pub open spec fn date_part(value: DateTime) -> Option<Date> {
    match value {
        DateTime::Date(date) => Some(date),
        DateTime::DateTime(at) => Some(at.date),
        DateTime::Time(_) => None,
    }
}

/// The time of day of a value that has one.
pub open spec fn time_part(value: DateTime) -> Option<Time> {
    match value {
        DateTime::Time(time) => Some(time),
        DateTime::DateTime(at) => Some(at.time),
        DateTime::Date(_) => None,
    }
}

/// What a date or time offers: its parts, its texts, and arithmetic with
/// durations.
pub trait DateTimeBehavior: Sized {
    /// The date or time that the value is.
    spec fn date_time(&self) -> DateTime;

    fn as_date(&self) -> (r: Option<&Date>)
        ensures
            match self.date_time() {
                DateTime::Date(date) => r == Some(&date),
                _ => r is None,
            },
    ;

    fn as_time(&self) -> (r: Option<&Time>)
        ensures
            match self.date_time() {
                DateTime::Time(time) => r == Some(&time),
                _ => r is None,
            },
    ;

    fn as_date_time(&self) -> (r: Option<&UtcDateTime>)
        ensures
            match self.date_time() {
                DateTime::DateTime(at) => r == Some(&at),
                _ => r is None,
            },
    ;

    /// The year, of what has a date.
    fn year(&self) -> (r: Option<i32>)
        ensures
            match date_part(self.date_time()) {
                Some(date) => r matches Some(y) && y == date.year_of(),
                None => r is None,
            },
    ;

    /// The month, of what has a date.
    fn month(&self) -> (r: Option<u32>)
        ensures
            match date_part(self.date_time()) {
                Some(date) => r matches Some(m) && m == date.month_of(),
                None => r is None,
            },
    ;

    /// The day of the month, of what has a date.
    fn day(&self) -> (r: Option<u32>)
        ensures
            match date_part(self.date_time()) {
                Some(date) => r matches Some(d) && d == date.day_of(),
                None => r is None,
            },
    ;

    /// The hour, of what has a time of day.
    fn hour(&self) -> (r: Option<u32>)
        ensures
            match time_part(self.date_time()) {
                Some(time) => r matches Some(h) && h == time.hour_of(),
                None => r is None,
            },
    ;

    /// The minute, of what has a time of day.
    fn minute(&self) -> (r: Option<u32>)
        ensures
            match time_part(self.date_time()) {
                Some(time) => r matches Some(m) && m == time.minute_of(),
                None => r is None,
            },
    ;

    /// The second, of what has a time of day.
    fn second(&self) -> (r: Option<u32>)
        ensures
            match time_part(self.date_time()) {
                Some(time) => r matches Some(s) && s == time.second_of(),
                None => r is None,
            },
    ;

    /// The seconds from the start of 1970, as `seconds_since_1970` has them.
    /// Every value has them.
    fn timestamp(&self) -> (r: Option<i64>)
        ensures
            r == Some(seconds_since_1970(self.date_time())),
    ;

    /// The time zone, of a date and time: UTC.
    fn timezone(&self) -> (r: Option<chrono::Utc>)
        ensures
            r is Some <==> self.date_time() is DateTime,
    ;

    /// The value in the extended form of ISO 8601. A date and time comes
    /// without its offset.
    fn to_iso8601(&self) -> (r: String)
        ensures
            r@ == iso8601_text(self.date_time()),
    ;

    /// The value as RFC 3339 writes it: of a date and time, its text; of a
    /// date or a time alone, the empty text.
    fn to_rfc3339(&self) -> (r: String)
        ensures
            match self.date_time() {
                DateTime::DateTime(at) => r@ == rfc3339_text(at),
                _ => r@ == Seq::<char>::empty(),
            },
    ;

    /// The value a duration later, as `later` has it. The duration from the
    /// value to the later one is then the part of the duration that moved
    /// it: measured back, what was added comes out again. A date with a time
    /// within a leap second is left out of that, since the arithmetic of
    /// `chrono` counts the leap second in one direction only.
    fn add_duration(&self, duration: Duration) -> (r: Option<Self>)
        ensures
            match later(self.date_time(), duration) {
                Some(moved) => r matches Some(x) && x.date_time() == moved,
                None => r is None,
            },
            r matches Some(x) ==> within_leap_second(self.date_time()) || between(
                self.date_time(),
                x.date_time(),
            ) == Some(moving_part(self.date_time(), duration)),
    ;

    /// The value a duration earlier, as `earlier` has it.
    fn subtract_duration(&self, duration: Duration) -> (r: Option<Self>)
        ensures
            match earlier(self.date_time(), duration) {
                Some(moved) => r matches Some(x) && x.date_time() == moved,
                None => r is None,
            },
    ;

    /// The duration from this value to another of its shape: between two
    /// dates, whole days; between two dates with times, all of it. Two times
    /// of day, or two values of different shapes, have none.
    fn duration_between(&self, other: &Self) -> (r: Option<Duration>)
        ensures
            r == between(self.date_time(), other.date_time()),
            match (self.date_time(), other.date_time()) {
                (DateTime::Date(a), DateTime::Date(b)) => r matches Some(d) && d.seconds_of()
                    == days_from_to(a, b) * 86_400 && d.nanoseconds_of() == 0,
                (DateTime::DateTime(a), DateTime::DateTime(b)) => r == Some(utc_from_to(a, b)),
                _ => r is None,
            },
    ;

    /// The date of a year, a month and a day, which must make one.
    fn from_ymd_opt(year: i32, month: u32, day: u32) -> (r: Self)
        requires
            valid_date(year as int, month as int, day as int),
        ensures
            r.date_time() matches DateTime::Date(d) && d.year_of() == year && d.month_of() == month
                && d.day_of() == day,
    ;

    /// The date and time in UTC of six fields, which must make one: the
    /// first three a date, the hour below 24, minute and second below 60.
    fn with_ymd_and_hms(
        year: i32,
        month: u32,
        day: u32,
        hour: u32,
        minute: u32,
        second: u32,
    ) -> (r: Self)
        requires
            valid_date_time(year, month, day, hour, minute, second),
        ensures
            r.date_time() matches DateTime::DateTime(at) && at.has_fields(
                year,
                month,
                day,
                hour,
                minute,
                second,
            ),
    ;
}

impl DateTimeBehavior for DateTime {
    open spec fn date_time(&self) -> DateTime {
        *self
    }

    fn as_date(&self) -> (r: Option<&Date>) {
        match self {
            DateTime::Date(date) => Some(date),
            _ => None,
        }
    }

    fn as_time(&self) -> (r: Option<&Time>) {
        match self {
            DateTime::Time(time) => Some(time),
            _ => None,
        }
    }

    fn as_date_time(&self) -> (r: Option<&UtcDateTime>) {
        match self {
            DateTime::DateTime(at) => Some(at),
            _ => None,
        }
    }

    fn year(&self) -> (r: Option<i32>) {
        match self {
            DateTime::Date(date) => Some(date.year()),
            DateTime::DateTime(at) => Some(at.date.year()),
            _ => None,
        }
    }

    fn month(&self) -> (r: Option<u32>) {
        match self {
            DateTime::Date(date) => Some(date.month()),
            DateTime::DateTime(at) => Some(at.date.month()),
            _ => None,
        }
    }

    fn day(&self) -> (r: Option<u32>) {
        match self {
            DateTime::Date(date) => Some(date.day()),
            DateTime::DateTime(at) => Some(at.date.day()),
            _ => None,
        }
    }

    fn hour(&self) -> (r: Option<u32>) {
        match self {
            DateTime::Time(time) => Some(time.hour()),
            DateTime::DateTime(at) => Some(at.time.hour()),
            _ => None,
        }
    }

    fn minute(&self) -> (r: Option<u32>) {
        match self {
            DateTime::Time(time) => Some(time.minute()),
            DateTime::DateTime(at) => Some(at.time.minute()),
            _ => None,
        }
    }

    fn second(&self) -> (r: Option<u32>) {
        match self {
            DateTime::Time(time) => Some(time.second()),
            DateTime::DateTime(at) => Some(at.time.second()),
            _ => None,
        }
    }

    fn timestamp(&self) -> (r: Option<i64>) {
        match self {
            DateTime::DateTime(at) => {
                let (date, time) = (at.date, at.time);
                Some(
                    utc_timestamp(
                        date.year(),
                        date.month(),
                        date.day(),
                        time.hour(),
                        time.minute(),
                        time.second(),
                    ),
                )
            },
            DateTime::Date(date) => Some(
                utc_timestamp(date.year(), date.month(), date.day(), 0, 0, 0),
            ),
            DateTime::Time(time) => Some(
                utc_timestamp(1970, 1, 1, time.hour(), time.minute(), time.second()),
            ),
        }
    }

    fn timezone(&self) -> (r: Option<chrono::Utc>) {
        match self {
            DateTime::DateTime(_) => Some(utc()),
            _ => None,
        }
    }

    fn to_iso8601(&self) -> (r: String) {
        match self {
            DateTime::Date(date) => date_iso(*date),
            DateTime::Time(time) => time_iso(*time),
            DateTime::DateTime(at) => utc_iso(*at),
        }
    }

    fn to_rfc3339(&self) -> (r: String) {
        match self {
            DateTime::DateTime(at) => utc_rfc3339(*at),
            _ => String::new(),
        }
    }

    fn add_duration(&self, duration: Duration) -> (r: Option<DateTime>) {
        match self {
            DateTime::Date(date) => match date_plus_days(*date, duration.num_days()) {
                Some(moved) => Some(DateTime::Date(moved)),
                None => None,
            },
            DateTime::Time(_) => None,
            DateTime::DateTime(at) => match utc_plus(*at, duration) {
                Some(moved) => Some(DateTime::DateTime(moved)),
                None => None,
            },
        }
    }

    fn subtract_duration(&self, duration: Duration) -> (r: Option<DateTime>) {
        match self {
            DateTime::Date(date) => match date_minus_days(*date, duration.num_days()) {
                Some(moved) => Some(DateTime::Date(moved)),
                None => None,
            },
            DateTime::Time(_) => None,
            DateTime::DateTime(at) => match utc_minus(*at, duration) {
                Some(moved) => Some(DateTime::DateTime(moved)),
                None => None,
            },
        }
    }

    fn duration_between(&self, other: &DateTime) -> (r: Option<Duration>) {
        match (self, other) {
            (DateTime::Date(a), DateTime::Date(b)) => Some(
                Duration::days(date_days_between(*a, *b)),
            ),
            (DateTime::DateTime(a), DateTime::DateTime(b)) => Some(utc_between(*a, *b)),
            _ => None,
        }
    }

    fn from_ymd_opt(year: i32, month: u32, day: u32) -> (r: DateTime) {
        DateTime::Date(calendar_date(year, month, day).unwrap())
    }

    fn with_ymd_and_hms(
        year: i32,
        month: u32,
        day: u32,
        hour: u32,
        minute: u32,
        second: u32,
    ) -> (r: DateTime) {
        DateTime::DateTime(utc_date_time(year, month, day, hour, minute, second).unwrap())
    }
}

} // verus!
