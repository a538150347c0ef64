//! Points in time as the search parameters give them: a date and a time of day, or
//! a date alone, read as UTC. A point in time stands here as its number of whole
//! seconds since 1970-01-01 00:00:00 UTC and the nanoseconds after that second.

use chrono::Datelike;
use vstd::prelude::*;

verus! {

/// The form of a date with a time of day.
pub const DATETIME_FORMAT: &'static str = "%Y-%m-%d %H:%M:%S";

/// The form of a date alone.
pub const DATE_FORMAT: &'static str = "%Y-%m-%d";

/// The number of 1970-01-01 among the days counted from 0001-01-01 as day 1.
pub const EPOCH_DAY: i64 = 719_163;

/// The seconds of a day.
pub const SECONDS_PER_DAY: i64 = 86_400;

/// A point in time.
#[derive(Clone, Copy, Debug, PartialEq, Eq, Structural)]
pub struct Instant {
    /// The whole seconds since the epoch, leap seconds not counted.
    pub seconds: i64,
    /// The nanoseconds since the last whole second. Within a leap second, which
    /// belongs to second 59 of its minute, they are 1,000,000,000 and more.
    pub nanos: u32,
}

/// The point in time that `text` gives when read in the form `format`, if `text`
/// has that form: its whole seconds since the epoch, and its nanoseconds since the
/// last whole second.
pub uninterp spec fn datetime_in(text: Seq<char>, format: Seq<char>) -> Option<(i64, u32)>;

/// The day that `text` gives when read in the form `format`, counted from
/// 0001-01-01 as day 1, if `text` has that form.
pub uninterp spec fn date_in(text: Seq<char>, format: Seq<char>) -> Option<i32>;

/// Calls `NaiveDateTime::parse_from_str` of the crate chrono and hands back the
/// parsed value as the two numbers from which chrono makes the same value again,
/// its seconds since the epoch and its nanoseconds since the last whole second, or
/// nothing where chrono refuses the text. The contract names that result
/// `datetime_in(text, format)`: which texts chrono accepts and what they mean is not
/// stated here.
#[verifier::external_body]
fn parse_datetime_in(text: &str, format: &str) -> (parsed: Option<(i64, u32)>)
    ensures
        parsed == datetime_in(text@, format@),
{
    match chrono::NaiveDateTime::parse_from_str(text, format) {
        Ok(t) => Some((t.and_utc().timestamp(), t.and_utc().timestamp_subsec_nanos())),
        Err(_) => None,
    }
}

/// Calls `NaiveDate::parse_from_str` of the crate chrono and hands back the parsed
/// day as its number counted from 0001-01-01, or nothing where chrono refuses the
/// text. The contract names that result `date_in(text, format)`.
#[verifier::external_body]
fn parse_date_in(text: &str, format: &str) -> (day: Option<i32>)
    ensures
        day == date_in(text@, format@),
{
    match chrono::NaiveDate::parse_from_str(text, format) {
        Ok(d) => Some(d.num_days_from_ce()),
        Err(_) => None,
    }
}

/// The start of `day`.
pub open spec fn midnight_of(day: i32) -> Instant {
    Instant { seconds: ((day - EPOCH_DAY) * SECONDS_PER_DAY) as i64, nanos: 0 }
}

/// The point in time that a text stands for, given what it gives as a date with a
/// time of day and what it gives as a date alone: the former where there is one,
/// as it is, else the start of the latter.
pub open spec fn instant_from(datetime: Option<(i64, u32)>, day: Option<i32>) -> Option<
    Instant,
> {
    match datetime {
        Some(parsed) => Some(Instant { seconds: parsed.0, nanos: parsed.1 }),
        None => match day {
            Some(d) => Some(midnight_of(d)),
            None => None,
        },
    }
}

/// The point in time that `text` stands for, if it stands for one.
pub open spec fn instant_of(text: Seq<char>) -> Option<Instant> {
    instant_from(datetime_in(text, DATETIME_FORMAT@), date_in(text, DATE_FORMAT@))
}

/// The start of `day`.
pub fn midnight(day: i32) -> (start: Instant)
    ensures
        start == midnight_of(day),
{
    Instant { seconds: (day as i64 - EPOCH_DAY) * SECONDS_PER_DAY, nanos: 0 }
}

/// The point in time that a text stands for, given what it gives as a date with a
/// time of day and what it gives as a date alone.
pub fn pick_instant(datetime: Option<(i64, u32)>, day: Option<i32>) -> (instant: Option<
    Instant,
>)
    ensures
        instant == instant_from(datetime, day),
{
    match datetime {
        Some(parsed) => Some(Instant { seconds: parsed.0, nanos: parsed.1 }),
        None => match day {
            Some(d) => Some(midnight(d)),
            None => None,
        },
    }
}

/// The point in time that `text` stands for: `text` is a date with a time of day,
/// as in `2024-01-15 10:30:00`, or a date alone, as in `2024-01-15`, which stands
/// for its start. Any other text stands for none.
pub fn parse_datetime(text: &str) -> (instant: Option<Instant>)
    ensures
        instant == instant_of(text@),
{
    match parse_datetime_in(text, DATETIME_FORMAT) {
        Some(parsed) => pick_instant(Some(parsed), None),
        None => pick_instant(None, parse_date_in(text, DATE_FORMAT)),
    }
}

} // verus!
