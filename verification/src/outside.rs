//! The calls into other crates. Their contracts are taken on trust from
//! the crates' documentation and source; nothing here is proved.

use std::fmt::Write;
use chrono::{TimeZone, Timelike};
use vstd::prelude::*;

verus! {

/// The text that `humantime::format_duration` writes for a duration of
/// this many whole seconds. It depends on the number alone.
pub uninterp spec fn duration_text(seconds: u64) -> Seq<char>;

/// Calls `humantime::format_duration` on a duration of whole seconds and
/// returns what it displays, such as `2h 37m`.
#[verifier::external_body]
pub(crate) fn humantime_format(seconds: u64) -> (text: String)
    ensures
        text@ == duration_text(seconds),
{
    humantime::format_duration(std::time::Duration::from_secs(seconds)).to_string()
}

/// The text that `textwrap::fill` returns for `text` at line width
/// `width`, with the crate's default options. It depends on the two
/// arguments alone.
pub uninterp spec fn wrapped_text(text: Seq<char>, width: usize) -> Seq<char>;

/// Calls `textwrap::fill`, which breaks `text` into lines of at most
/// `width` columns where it can.
#[verifier::external_body]
pub(crate) fn textwrap_fill(text: &str, width: usize) -> (wrapped: String)
    ensures
        wrapped@ == wrapped_text(text@, width),
{
    textwrap::fill(text, width)
}

/// A reading of the clock: the seconds since the epoch and the time of
/// day in the local time zone.
pub struct LocalClock {
    pub timestamp: i64,
    pub hour: u32,
    pub minute: u32,
    pub second: u32,
}

/// Calls `chrono::Local::now` and takes the reading apart. Hour, minute
/// and second are in the ranges that `chrono::Timelike` documents; of the
/// timestamp nothing is claimed. The call fails if the system clock
/// stands before 1970.
#[verifier::external_body]
pub(crate) fn local_clock() -> (now: LocalClock)
    ensures
        now.hour < 24,
        now.minute < 60,
        now.second < 60,
{
    let now = chrono::Local::now();
    LocalClock {
        timestamp: now.timestamp(),
        hour: now.hour(),
        minute: now.minute(),
        second: now.second(),
    }
}

/// The number of seconds that chrono holds after
/// `chrono::DateTime::from_timestamp` was given `seconds`. It depends on
/// that number alone.
pub uninterp spec fn calendar_seconds(seconds: i64) -> i64;

/// A moment as the local time zone sees it: its seconds since the epoch
/// and the seconds by which local time is ahead of UTC at that moment.
pub struct LocalMoment {
    pub timestamp: i64,
    pub offset: i32,
}

/// Calls `chrono::DateTime::from_timestamp` and moves the moment into the
/// local time zone with `chrono::DateTime::with_timezone`. A number of
/// seconds that chrono can hold comes back unchanged; for any other
/// chrono's default stands in, the epoch. The offset depends on the zone
/// of the machine; it is within a day, as `chrono::FixedOffset` documents.
#[verifier::external_body]
pub(crate) fn local_moment(seconds: i64) -> (moment: LocalMoment)
    ensures
        moment.timestamp == calendar_seconds(seconds),
        moment.timestamp == seconds || moment.timestamp == 0,
        -86_400 < moment.offset < 86_400,
{
    let utc = chrono::DateTime::from_timestamp(seconds, 0).unwrap_or_default();
    let local = utc.with_timezone(&chrono::Local);
    LocalMoment { timestamp: local.timestamp(), offset: local.offset().local_minus_utc() }
}

/// The text that `chrono::DateTime::format` writes with `pattern` for the
/// moment `seconds` after the epoch, in a zone that is `offset` seconds
/// ahead of UTC; `None` where chrono cannot hold the offset or the moment
/// or cannot format with the pattern. It depends on the three arguments
/// alone.
pub uninterp spec fn time_text(seconds: i64, offset: i32, pattern: Seq<char>) -> Option<Seq<char>>;

/// Calls `chrono::FixedOffset::east_opt` for the zone,
/// `chrono::TimeZone::timestamp_opt` for the moment in it and
/// `chrono::DateTime::format` on that moment.
#[verifier::external_body]
pub(crate) fn offset_time_text(seconds: i64, offset: i32, pattern: &str) -> (text: Option<String>)
    ensures
        match text {
            Some(text) => time_text(seconds, offset, pattern@) == Some(text@),
            None => time_text(seconds, offset, pattern@) is None,
        },
{
    let zone = chrono::FixedOffset::east_opt(offset)?;
    let moment = zone.timestamp_opt(seconds, 0).single()?;
    let mut text = String::new();
    write!(text, "{}", moment.format(pattern)).ok()?;
    Some(text)
}

} // verus!
