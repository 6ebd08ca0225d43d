//! Time stamps and durations, as the log and the panels show them.

use chrono::{DateTime, Datelike, Local, NaiveDate, NaiveDateTime};
use std::time::{Duration, SystemTime, UNIX_EPOCH};
use vstd::prelude::*;
use vstd::string::*;
use crate::text::{decimal2_spec, decimal_spec, push_decimal, push_decimal2};

verus! {

#[verifier::external_type_specification]
#[verifier::external_body]
pub struct ExSystemTime(SystemTime);

/// `SystemTime::now`: the time of the system clock. Nothing is claimed of it.
#[verifier::external_body]
fn clock_now() -> SystemTime {
    SystemTime::now()
}

/// `SystemTime::duration_since`, with the Unix epoch as the earlier time:
/// the time that has passed since the epoch, or nothing for a clock set
/// before it. Nothing is claimed of it.
#[verifier::external_body]
fn since_epoch(t: &SystemTime) -> Option<Duration> {
    t.duration_since(UNIX_EPOCH).ok()
}

/// `Duration::as_secs`: the whole seconds of a duration. Nothing is claimed
/// of the number.
#[verifier::external_body]
fn whole_seconds(d: &Duration) -> u64 {
    d.as_secs()
}

/// The time stamp for a clock that reads `elapsed` whole seconds since the
/// Unix epoch, or `None` where it is set before the epoch: those seconds,
/// or 0.
pub fn ts_from(elapsed: Option<u64>) -> (out: u64)
    ensures
        out == match elapsed {
            Some(seconds) => seconds,
            None => 0,
        },
{
    match elapsed {
        Some(seconds) => seconds,
        None => 0,
    }
}

/// The time of the system clock, in seconds since the Unix epoch; 0 for a
/// clock set before the epoch: the result of [`ts_from`] for what the clock
/// reads. Nothing is claimed of the number, which the clock decides.
pub fn ts() -> u64 {
    let elapsed = match since_epoch(&clock_now()) {
        Some(d) => Some(whole_seconds(&d)),
        None => None,
    };
    ts_from(elapsed)
}

/// The last second that the formatting functions take: the end of the year
/// 9999.
pub const MAX_TS: u64 = 253_402_300_799;

/// The pattern for the time of day.
pub const TIME_PATTERN: &'static str = "%H:%M:%S";

/// The pattern for date, time and offset.
pub const FULL_PATTERN: &'static str = "%Y-%m-%d %H:%M:%S %:z";

/// The pattern for date and time.
pub const LOCAL_PATTERN: &'static str = "%Y-%m-%d %H:%M:%S";

/// `chrono`: the second `ts` of Unix time (`DateTime::from_timestamp`), seen
/// in the time zone of this machine (`with_timezone(&Local)`) and written in
/// the given pattern (`format`). The text depends on the time zone of
/// the machine: nothing is claimed of it. The three patterns admitted are the
/// ones used here; all are valid, so that formatting cannot fail.
#[verifier::external_body]
fn format_local(ts: u64, pattern: &str) -> (out: String)
    requires
        ts <= MAX_TS,
        pattern@ == TIME_PATTERN@ || pattern@ == FULL_PATTERN@ || pattern@ == LOCAL_PATTERN@,
{
    let utc = DateTime::from_timestamp(ts as i64, 0).unwrap_or_default();
    utc.with_timezone(&Local).format(pattern).to_string()
}

/// The time of day of `ts` in the time zone of this machine, as `HH:MM:SS`.
pub fn ts_str(ts: u64) -> (out: String)
    requires
        ts <= MAX_TS,
{
    format_local(ts, TIME_PATTERN)
}

/// Date, time and offset of `ts` in the time zone of this machine, as
/// `YYYY-MM-DD HH:MM:SS +HH:MM`.
pub fn ts_str_full(ts: u64) -> (out: String)
    requires
        ts <= MAX_TS,
{
    format_local(ts, FULL_PATTERN)
}

/// Date and time of `ts` in the time zone of this machine, as
/// `YYYY-MM-DD HH:MM:SS`.
pub fn ts_str_local(ts: u64) -> (out: String)
    requires
        ts <= MAX_TS,
{
    format_local(ts, LOCAL_PATTERN)
}

/// The pattern of a date with the time of day, as the weather service
/// writes them: `2024-05-01T13:45`.
pub const DATETIME_PATTERN: &'static str = "%Y-%m-%dT%H:%M";

/// The pattern of a date, as the weather service writes it: `2024-05-01`.
pub const DATE_PATTERN: &'static str = "%Y-%m-%d";

/// The seconds from the Unix epoch to the date and time of day that `text`
/// holds in the form `2024-05-01T13:45`, taken as UTC; `None` where `text`
/// holds no such date and time.
pub uninterp spec fn datetime_seconds(text: Seq<char>) -> Option<int>;

/// `chrono`: reads a date and time of day (`NaiveDateTime::parse_from_str`),
/// takes it as UTC (`and_utc`) and counts the seconds since the Unix epoch
/// (`timestamp`). The number depends on the text alone; which number it is,
/// and which texts are read, is not stated here.
#[verifier::external_body]
pub fn datetime_str_to_ts(datetime_str: &str) -> (out: Option<i64>)
    ensures
        out matches Some(t) ==> datetime_seconds(datetime_str@) == Some(t as int),
        out is None ==> datetime_seconds(datetime_str@) is None,
{
    match NaiveDateTime::parse_from_str(datetime_str, DATETIME_PATTERN) {
        Ok(t) => Some(t.and_utc().timestamp()),
        Err(_) => None,
    }
}

/// The date that `text` holds in the form `2024-05-01`, written as month and
/// day with its day of the week (`05/01 Wed`); `None` where `text` holds no
/// date.
pub uninterp spec fn date_label(text: Seq<char>) -> Option<Seq<char>>;

/// `chrono`: reads a date (`NaiveDate::parse_from_str`) and writes its month
/// and day (`format`) and its day of the week (`weekday`). The text depends
/// on the date alone; which text it is is not stated here.
#[verifier::external_body]
pub(crate) fn format_date(input: &str) -> (out: Option<String>)
    ensures
        out matches Some(label) ==> date_label(input@) == Some(label@),
        out is None ==> date_label(input@) is None,
{
    match NaiveDate::parse_from_str(input, DATE_PATTERN) {
        Ok(date) => Some(format!("{} {}", date.format("%m/%d"), date.weekday())),
        Err(_) => None,
    }
}

/// How long a process has been up, as `<days>d HH:MM:SS`.
pub open spec fn uptime_str_spec(uptime: nat) -> Seq<char> {
    let in_day = uptime % 86400;
    let in_hour = in_day % 3600;
    decimal_spec(uptime / 86400) + "d "@ + decimal2_spec(in_day / 3600) + ":"@ + decimal2_spec(
        in_hour / 60,
    ) + ":"@ + decimal2_spec(in_hour % 60)
}

/// Formats a number of seconds as days, hours, minutes and seconds.
pub fn uptime_str(uptime: u64) -> (out: String)
    ensures
        out@ == uptime_str_spec(uptime as nat),
{
    let days: u64 = uptime / 86400;
    let in_day: u64 = uptime % 86400;
    let hours: u64 = in_day / 3600;
    let in_hour: u64 = in_day % 3600;
    let minutes: u64 = in_hour / 60;
    let seconds: u64 = in_hour % 60;
    let mut out = String::new();
    push_decimal(&mut out, days);
    out.append("d ");
    push_decimal2(&mut out, hours);
    out.append(":");
    push_decimal2(&mut out, minutes);
    out.append(":");
    push_decimal2(&mut out, seconds);
    out
}

} // verus!
