//! Conversions of raw upstream field values into the values the models hold.
//!
//! Durations are held as whole seconds and points in time as seconds since the
//! Unix epoch, UTC.
use vstd::prelude::*;
use crate::error::LookupError;
use crate::text::{bounded_value, parse_bounded};

verus! {

/// Seconds since the Unix epoch of RFC 3339 text (any offset, taken to UTC), if
/// the text is one.
pub uninterp spec fn utc_seconds_of(text: Seq<char>) -> Option<i64>;

/// Calendar date, in UTC, of a point given in seconds since the Unix epoch, if the
/// point is within the supported range: `YYYY-MM-DD` for years 0 to 9999, with a
/// signed year of at least four digits outside them.
pub uninterp spec fn utc_date_of(seconds: i64) -> Option<Seq<char>>;

/// Relies on chrono's `FromStr` for `DateTime<Utc>` and on `DateTime::timestamp`:
/// the parsed point in time as seconds since the Unix epoch.
#[verifier::external_body]
fn parse_utc_seconds(text: &str) -> (r: Option<i64>)
    ensures
        r == utc_seconds_of(text@),
{
    match text.parse::<chrono::DateTime<chrono::Utc>>() {
        Ok(t) => Some(t.timestamp()),
        Err(_) => None,
    }
}

/// Relies on chrono's `DateTime::from_timestamp` (`None` out of range) and on the
/// `Display` of `NaiveDate` for the calendar date of the point.
#[verifier::external_body]
pub(crate) fn utc_date_text(seconds: i64) -> (r: Option<String>)
    ensures
        r is None <==> utc_date_of(seconds) is None,
        r matches Some(s) ==> utc_date_of(seconds) == Some(s@),
{
    match chrono::DateTime::from_timestamp(seconds, 0) {
        Some(t) => Some(t.date_naive().to_string()),
        None => None,
    }
}

/// Relies on std's `SystemTime::now` and chrono's `From<SystemTime>` for
/// `DateTime<Utc>` with `DateTime::timestamp`: the current time in seconds since
/// the Unix epoch, negative for a clock set before 1970.
#[verifier::external_body]
pub(crate) fn now_seconds() -> (r: i64) {
    chrono::DateTime::<chrono::Utc>::from(std::time::SystemTime::now()).timestamp()
}

/// Whole seconds in a number of milliseconds, rounded toward zero.
pub open spec fn millis_to_seconds(ms: int) -> int {
    if ms >= 0 {
        ms / 1000
    } else {
        -((-ms) / 1000)
    }
}

/// Seconds of a millisecond field; a missing value counts as zero.
pub fn deserialize_millis(data: Option<i64>) -> (r: i64)
    ensures
        data is None ==> r == 0,
        data matches Some(ms) ==> r == millis_to_seconds(ms as int),
{
    match data {
        Some(ms) => {
            if ms >= 0 {
                ms / 1000
            } else if ms > -1000 {
                0
            } else {
                // `-ms` overflows for the least value, so step one second in first.
                let q: i64 = -(ms + 1000);
                -(q / 1000) - 1
            }
        },
        None => 0,
    }
}

/// Seconds of a second field; a missing value counts as zero.
pub fn deserialize_seconds(data: Option<i64>) -> (r: i64)
    ensures
        data is None ==> r == 0,
        data matches Some(s) ==> r == s,
{
    match data {
        Some(s) => s,
        None => 0,
    }
}

/// Seconds of a minute field; a missing value counts as zero.
pub fn deserialize_minutes(data: Option<i64>) -> (r: i64)
    requires
        data matches Some(m) ==> i64::MIN <= m * 60 <= i64::MAX,
    ensures
        data is None ==> r == 0,
        data matches Some(m) ==> r == m * 60,
{
    match data {
        Some(m) => m * 60,
        None => 0,
    }
}

/// Whether a stream status field says the stream is live: only the text `live`
/// does; a missing value counts as offline.
pub fn deserialize_stream_status(data: Option<&str>) -> (r: bool)
    ensures
        r == (data matches Some(s) && s@ == "live"@),
{
    match data {
        Some(s) => {
            let live = "live";
            proof {
                reveal_strlit("live");
            }
            if s.unicode_len() != 4 {
                return false;
            }
            let ok = s.get_char(0) == 'l' && s.get_char(1) == 'i' && s.get_char(2) == 'v'
                && s.get_char(3) == 'e';
            proof {
                if ok {
                    assert(s@ =~= live@);
                }
            }
            ok
        },
        None => false,
    }
}

/// The point in time that RFC 3339 text names, in seconds since the Unix epoch.
pub fn deserialize_date_time(data: &str) -> (r: Result<i64, LookupError>)
    ensures
        utc_seconds_of(data@) matches Some(t) ==> r == Ok::<i64, LookupError>(t),
        utc_seconds_of(data@) is None ==> r == Err::<i64, LookupError>(
            LookupError::InvalidTimestamp,
        ),
{
    match parse_utc_seconds(data) {
        Some(t) => Ok(t),
        None => Err(LookupError::InvalidTimestamp),
    }
}

/// Numeric user id of an id field; text that is not a `u32` number gives zero.
pub fn deserialize_uid(data: &str) -> (r: u32)
    ensures
        bounded_value(data@, u32::MAX as nat) matches Some(v) ==> r == v,
        bounded_value(data@, u32::MAX as nat) is None ==> r == 0,
{
    match parse_bounded(data, u32::MAX as u64) {
        Some(v) => v as u32,
        None => 0,
    }
}

} // verus!
