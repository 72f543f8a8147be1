//! The order of dates and times.
//!
//! Dates stand in the order of the calendar and times in that of the clock. Of
//! values of different shapes, a date comes before a time, and a time before
//! a date with a time.

use std::cmp::Ordering;
use vstd::prelude::*;
use vstd::std_specs::cmp::PartialOrdSpecImpl;
use crate::float_order::order_of;
use crate::types::datetime::Date;
use crate::types::datetime::lemma_same_date;
use crate::types::datetime::lemma_same_time;
use crate::types::datetime::DateTime;
use crate::types::datetime::Time;

verus! {

/// The first of two outcomes unless it is `Equal`, then the second.
pub open spec fn or_else(first: Ordering, second: Ordering) -> Ordering {
    match first {
        Ordering::Equal => second,
        _ => first,
    }
}

/// How two dates stand to each other.
pub open spec fn date_order(a: Date, b: Date) -> Ordering {
    or_else(
        order_of(a.year_of(), b.year_of()),
        or_else(order_of(a.month_of(), b.month_of()), order_of(a.day_of(), b.day_of())),
    )
}

/// How two times of day stand to each other.
pub open spec fn time_order(a: Time, b: Time) -> Ordering {
    or_else(
        order_of(a.hour_of(), b.hour_of()),
        or_else(
            order_of(a.minute_of(), b.minute_of()),
            or_else(
                order_of(a.second_of(), b.second_of()),
                order_of(a.nanosecond_of(), b.nanosecond_of()),
            ),
        ),
    )
}

/// How two values of date and time stand to each other.
pub open spec fn date_time_order(a: DateTime, b: DateTime) -> Ordering {
    match (a, b) {
        (DateTime::Date(x), DateTime::Date(y)) => date_order(x, y),
        (DateTime::Date(_), _) => Ordering::Less,
        (DateTime::Time(_), DateTime::Date(_)) => Ordering::Greater,
        (DateTime::Time(x), DateTime::Time(y)) => time_order(x, y),
        (DateTime::Time(_), DateTime::DateTime(_)) => Ordering::Less,
        (DateTime::DateTime(x), DateTime::DateTime(y)) => or_else(
            date_order(x.date, y.date),
            time_order(x.time, y.time),
        ),
        (DateTime::DateTime(_), _) => Ordering::Greater,
    }
}

/// Two dates stand as equal just where they are the same date.
pub proof fn lemma_date_order_equal(a: Date, b: Date)
    ensures
        date_order(a, b) == Ordering::Equal <==> a == b,
{
    if date_order(a, b) == Ordering::Equal {
        lemma_same_date(a, b);
    }
}

/// Two times of day stand as equal just where they are the same time.
pub proof fn lemma_time_order_equal(a: Time, b: Time)
    ensures
        time_order(a, b) == Ordering::Equal <==> a == b,
{
    if time_order(a, b) == Ordering::Equal {
        lemma_same_time(a, b);
    }
}

/// Two values of date and time stand as equal just where they are the same.
pub proof fn lemma_date_time_order_equal(a: DateTime, b: DateTime)
    ensures
        date_time_order(a, b) == Ordering::Equal <==> a == b,
{
    match (a, b) {
        (DateTime::Date(x), DateTime::Date(y)) => {
            lemma_date_order_equal(x, y);
        },
        (DateTime::Time(x), DateTime::Time(y)) => {
            lemma_time_order_equal(x, y);
        },
        (DateTime::DateTime(x), DateTime::DateTime(y)) => {
            lemma_date_order_equal(x.date, y.date);
            lemma_time_order_equal(x.time, y.time);
        },
        _ => {},
    }
}

fn order_of_i32(a: i32, b: i32) -> (r: Ordering)
    ensures
        (r == Ordering::Less) == (a < b),
        (r == Ordering::Equal) == (a == b),
        (r == Ordering::Greater) == (a > b),
{
    if a < b {
        Ordering::Less
    } else if a == b {
        Ordering::Equal
    } else {
        Ordering::Greater
    }
}

fn order_of_u32(a: u32, b: u32) -> (r: Ordering)
    ensures
        (r == Ordering::Less) == (a < b),
        (r == Ordering::Equal) == (a == b),
        (r == Ordering::Greater) == (a > b),
{
    if a < b {
        Ordering::Less
    } else if a == b {
        Ordering::Equal
    } else {
        Ordering::Greater
    }
}

fn then_order(first: Ordering, second: Ordering) -> (r: Ordering)
    ensures
        r == or_else(first, second),
{
    match first {
        Ordering::Equal => second,
        _ => first,
    }
}

/// Compares two dates.
pub fn compare_dates(a: &Date, b: &Date) -> (r: Ordering)
    ensures
        r == date_order(*a, *b),
{
    then_order(
        order_of_i32(a.year(), b.year()),
        then_order(order_of_u32(a.month(), b.month()), order_of_u32(a.day(), b.day())),
    )
}

/// Compares two times of day.
pub fn compare_times(a: &Time, b: &Time) -> (r: Ordering)
    ensures
        r == time_order(*a, *b),
{
    then_order(
        order_of_u32(a.hour(), b.hour()),
        then_order(
            order_of_u32(a.minute(), b.minute()),
            then_order(
                order_of_u32(a.second(), b.second()),
                order_of_u32(a.nanosecond(), b.nanosecond()),
            ),
        ),
    )
}

/// Compares two values of date and time.
pub fn compare_date_times(a: &DateTime, b: &DateTime) -> (r: Ordering)
    ensures
        r == date_time_order(*a, *b),
{
    match (a, b) {
        (DateTime::Date(x), DateTime::Date(y)) => compare_dates(x, y),
        (DateTime::Date(_), _) => Ordering::Less,
        (DateTime::Time(_), DateTime::Date(_)) => Ordering::Greater,
        (DateTime::Time(x), DateTime::Time(y)) => compare_times(x, y),
        (DateTime::Time(_), DateTime::DateTime(_)) => Ordering::Less,
        (DateTime::DateTime(x), DateTime::DateTime(y)) => then_order(
            compare_dates(&x.date, &y.date),
            compare_times(&x.time, &y.time),
        ),
        (DateTime::DateTime(_), _) => Ordering::Greater,
    }
}

impl PartialOrd for Date {
    fn partial_cmp(&self, other: &Self) -> (r: Option<Ordering>) {
        Some(compare_dates(self, other))
    }
}

impl PartialOrdSpecImpl for Date {
    open spec fn obeys_partial_cmp_spec() -> bool {
        true
    }

    open spec fn partial_cmp_spec(&self, other: &Self) -> Option<Ordering> {
        Some(date_order(*self, *other))
    }
}

impl PartialOrd for Time {
    fn partial_cmp(&self, other: &Self) -> (r: Option<Ordering>) {
        Some(compare_times(self, other))
    }
}

impl PartialOrdSpecImpl for Time {
    open spec fn obeys_partial_cmp_spec() -> bool {
        true
    }

    open spec fn partial_cmp_spec(&self, other: &Self) -> Option<Ordering> {
        Some(time_order(*self, *other))
    }
}

impl PartialOrd for DateTime {
    fn partial_cmp(&self, other: &Self) -> (r: Option<Ordering>) {
        Some(compare_date_times(self, other))
    }
}

impl PartialOrdSpecImpl for DateTime {
    open spec fn obeys_partial_cmp_spec() -> bool {
        true
    }

    open spec fn partial_cmp_spec(&self, other: &Self) -> Option<Ordering> {
        Some(date_time_order(*self, *other))
    }
}

} // verus!
