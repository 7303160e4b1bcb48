//! Points in time as texts.

use vstd::prelude::*;

verus! {

/// The time `millis` milliseconds after the Unix epoch, in UTC, as RFC 3339
/// writes it; none for a time that no calendar date stands for.
pub uninterp spec fn rfc3339_text(millis: i64) -> Option<Seq<char>>;

/// The same time as a log shows it: date, time of day, and milliseconds.
pub uninterp spec fn log_time_text(millis: i64) -> Option<Seq<char>>;

/// The text of an optional text.
pub open spec fn optional_text(text: Option<String>) -> Option<Seq<char>> {
    match text {
        Some(t) => Some(t@),
        None => None,
    }
}

/// Trusted: `DateTime::from_timestamp_millis`, then `DateTime::to_rfc3339_opts`
/// with as many digits of the second as are needed and `Z` for UTC. The text is
/// a function of the number alone.
#[verifier::external_body]
pub(crate) fn utc_rfc3339(millis: i64) -> (text: Option<String>)
    ensures
        optional_text(text) == rfc3339_text(millis),
{
    match chrono::DateTime::from_timestamp_millis(millis) {
        Some(time) => Some(time.to_rfc3339_opts(chrono::SecondsFormat::AutoSi, true)),
        None => None,
    }
}

/// Trusted: `DateTime::from_timestamp_millis`, then `DateTime::format` with
/// year, month, day, hour, minute, second and milliseconds. The text is a
/// function of the number alone.
#[verifier::external_body]
pub(crate) fn utc_log_time(millis: i64) -> (text: Option<String>)
    ensures
        optional_text(text) == log_time_text(millis),
{
    match chrono::DateTime::from_timestamp_millis(millis) {
        Some(time) => Some(time.format("%Y-%m-%d %H:%M:%S%.3f").to_string()),
        None => None,
    }
}

/// A time in milliseconds as a signed number, where it fits one.
pub open spec fn signed_millis(millis: u64) -> Option<i64> {
    if millis <= i64::MAX {
        Some(millis as i64)
    } else {
        None
    }
}

/// The time `millis` as RFC 3339 writes it, where a calendar date stands for
/// it.
pub open spec fn timestamp_text(millis: u64) -> Option<Seq<char>> {
    match signed_millis(millis) {
        Some(n) => rfc3339_text(n),
        None => None,
    }
}

/// The time `millis` as a log shows it, where a calendar date stands for it.
pub open spec fn timestamp_log_text(millis: u64) -> Option<Seq<char>> {
    match signed_millis(millis) {
        Some(n) => log_time_text(n),
        None => None,
    }
}

/// The time `millis` milliseconds after the Unix epoch, in UTC, as RFC 3339
/// writes it.
pub fn format_rfc3339(millis: u64) -> (text: Option<String>)
    ensures
        optional_text(text) == timestamp_text(millis),
{
    if millis <= i64::MAX as u64 {
        utc_rfc3339(millis as i64)
    } else {
        None
    }
}

/// The time `millis` milliseconds after the Unix epoch, in UTC, as a log shows
/// it.
pub fn format_log_time(millis: u64) -> (text: Option<String>)
    ensures
        optional_text(text) == timestamp_log_text(millis),
{
    if millis <= i64::MAX as u64 {
        utc_log_time(millis as i64)
    } else {
        None
    }
}

} // verus!
