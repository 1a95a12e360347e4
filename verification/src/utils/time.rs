//! Time utilities: unit conversions, the system clock and ISO 8601 text.

use vstd::prelude::*;
use std::time::{Duration, SystemTime, SystemTimeError};

verus! {

/// Microsecond timestamp type
pub type TimestampUs = u64;

/// Millisecond timestamp type
pub type TimestampMs = u64;

/// Second timestamp type
pub type TimestampSec = u64;

#[verifier::external_type_specification]
#[verifier::external_body]
pub struct ExSystemTime(SystemTime);

#[verifier::external_type_specification]
#[verifier::external_body]
pub struct ExSystemTimeError(SystemTimeError);

/// Convert microseconds to milliseconds (rounding down).
pub fn us_to_ms(us: TimestampUs) -> (r: TimestampMs)
    ensures
        r == us / 1000,
{
    us / 1000
}

/// Convert milliseconds to microseconds.
pub fn ms_to_us(ms: TimestampMs) -> (r: TimestampUs)
    requires
        ms * 1000 <= u64::MAX,
    ensures
        r == ms * 1000,
{
    ms * 1000
}

/// Convert microseconds to seconds (rounding down).
pub fn us_to_sec(us: TimestampUs) -> (r: TimestampSec)
    ensures
        r == us / 1_000_000,
{
    us / 1_000_000
}

/// Convert seconds to microseconds.
pub fn sec_to_us(sec: TimestampSec) -> (r: TimestampUs)
    requires
        sec * 1_000_000 <= u64::MAX,
    ensures
        r == sec * 1_000_000,
{
    sec * 1_000_000
}

/// Milliseconds converted to microseconds and back are unchanged; microseconds
/// converted to milliseconds and back lose only the sub-millisecond part.
pub proof fn lemma_ms_us_roundtrip(ms: u64, us: u64)
    requires
        ms * 1000 <= u64::MAX,
    ensures
        (ms * 1000) / 1000 == ms,
        (us / 1000) * 1000 <= us,
        us - (us / 1000) * 1000 < 1000,
{
}

/// Seconds converted to microseconds and back are unchanged; microseconds
/// converted to seconds and back lose only the sub-second part.
pub proof fn lemma_sec_us_roundtrip(sec: u64, us: u64)
    requires
        sec * 1_000_000 <= u64::MAX,
    ensures
        (sec * 1_000_000) / 1_000_000 == sec,
        (us / 1_000_000) * 1_000_000 <= us,
        us - (us / 1_000_000) * 1_000_000 < 1_000_000,
{
}

/// `std::time::SystemTime::now`: reads the system clock. Nothing is claimed of the reading.
#[verifier::external_body]
fn system_time_now() -> SystemTime {
    SystemTime::now()
}

/// `SystemTime::duration_since(UNIX_EPOCH)`: the time elapsed since the Unix
/// epoch, or an error when the reading lies before it. Nothing is claimed of either.
#[verifier::external_body]
fn elapsed_since_unix_epoch(t: &SystemTime) -> Result<Duration, SystemTimeError> {
    t.duration_since(std::time::UNIX_EPOCH)
}

/// `Duration::as_micros`: whole microseconds of a duration. Nothing is claimed
/// of the value, which depends on the clock reading it came from.
#[verifier::external_body]
fn duration_as_micros(d: &Duration) -> u128 {
    d.as_micros()
}

/// The timestamp for a clock reading: the microseconds elapsed since the Unix
/// epoch truncated to 64 bits, or 0 when the clock reads earlier than the epoch
/// (`None`).
pub open spec fn clock_timestamp(elapsed_micros: Option<u128>) -> u64 {
    match elapsed_micros {
        Some(m) => (m % 18446744073709551616) as u64,
        None => 0,
    }
}

/// The timestamp for a clock reading given as the microseconds elapsed since
/// the Unix epoch, or `None` when the clock reads earlier than the epoch.
pub fn timestamp_from_elapsed(elapsed_micros: Option<u128>) -> (r: TimestampUs)
    ensures
        r == clock_timestamp(elapsed_micros),
{
    match elapsed_micros {
        Some(m) => {
            let t = #[verifier::truncate] (m as u64);
            assert(t == m % 18446744073709551616) by (bit_vector)
                requires
                    t == m as u64,
            ;
            t
        },
        None => 0,
    }
}

/// Current timestamp in microseconds since the Unix epoch: `timestamp_from_elapsed`
/// of the clock reading. The value depends on the clock.
pub fn now_us() -> TimestampUs {
    let now = system_time_now();
    let elapsed = match elapsed_since_unix_epoch(&now) {
        Ok(d) => Some(duration_as_micros(&d)),
        Err(_) => None,
    };
    timestamp_from_elapsed(elapsed)
}

/// Current timestamp in milliseconds since the Unix epoch: a microsecond
/// timestamp divided by 1000. The value depends on the clock.
pub fn now_ms() -> (r: TimestampMs)
    ensures
        r <= u64::MAX / 1000,
{
    let us = now_us();
    let r = us_to_ms(us);
    assert(r == us / 1000);
    r
}

/// The strftime pattern of ISO 8601 timestamps with microseconds in UTC.
pub open spec fn iso8601_micros_pattern() -> Seq<char> {
    seq!['%', 'Y', '-', '%', 'm', '-', '%', 'd', 'T', '%', 'H', ':', '%', 'M', ':', '%', 'S', '%', '.', '6', 'f', 'Z']
}

/// What chrono renders for the UTC instant `micros` microseconds after the
/// Unix epoch under a strftime pattern; `None` when chrono rejects the
/// timestamp as out of its range.
pub uninterp spec fn chrono_utc_format(micros: i64, pattern: Seq<char>) -> Option<Seq<char>>;

/// `chrono::DateTime::<Utc>::from_timestamp_micros` followed by
/// `DateTime::format(pattern).to_string()`. The contract only ties the result
/// to the name `chrono_utc_format` of the micros and the pattern; the calendar
/// arithmetic is not stated. The pattern is the ISO one, whose rendering cannot fail.
#[verifier::external_body]
fn chrono_format_utc_micros(micros: i64, pattern: &str) -> (r: Option<String>)
    requires
        pattern@ == iso8601_micros_pattern(),
    ensures
        match r {
            Some(s) => chrono_utc_format(micros, pattern@) == Some(s@),
            None => chrono_utc_format(micros, pattern@) is None,
        },
{
    match chrono::DateTime::<chrono::Utc>::from_timestamp_micros(micros) {
        Some(dt) => Some(dt.format(pattern).to_string()),
        None => None,
    }
}

/// The timestamp, in microseconds since the Unix epoch, that chrono reads from
/// an RFC 3339 text as a `DateTime<Utc>`; `None` when chrono rejects the text.
pub uninterp spec fn chrono_utc_parse_micros(text: Seq<char>) -> Option<i64>;

/// `str::parse::<chrono::DateTime<Utc>>` followed by `DateTime::timestamp_micros`.
/// The contract only ties the result to the name `chrono_utc_parse_micros` of the text.
#[verifier::external_body]
fn chrono_parse_utc_micros(s: &str) -> (r: Option<i64>)
    ensures
        r == chrono_utc_parse_micros(s@),
{
    match s.parse::<chrono::DateTime<chrono::Utc>>() {
        Ok(dt) => Some(dt.timestamp_micros()),
        Err(_) => None,
    }
}

/// The text `format_timestamp_us` gives for a timestamp.
pub open spec fn formatted_timestamp(us: u64, invalid: Seq<char>) -> Seq<char> {
    match chrono_utc_format(us as i64, iso8601_micros_pattern()) {
        Some(s) => s,
        None => invalid,
    }
}

/// Format a timestamp as ISO 8601 text (`%Y-%m-%dT%H:%M:%S%.6fZ`), or
/// "Invalid timestamp" when chrono rejects it. The timestamp is read as a
/// signed 64-bit count of microseconds.
pub fn format_timestamp_us(us: TimestampUs) -> (r: String)
    ensures
        r@ == formatted_timestamp(us, "Invalid timestamp"@),
{
    let pattern = "%Y-%m-%dT%H:%M:%S%.6fZ";
    proof {
        reveal_strlit("%Y-%m-%dT%H:%M:%S%.6fZ");
        assert(pattern@ =~= iso8601_micros_pattern());
    }
    match chrono_format_utc_micros(us as i64, pattern) {
        Some(s) => s,
        None => String::from_str("Invalid timestamp"),
    }
}

/// The timestamp `parse_timestamp_us` gives for a text.
pub open spec fn parsed_timestamp(text: Seq<char>) -> u64 {
    match chrono_utc_parse_micros(text) {
        Some(m) => m as u64,
        None => 0,
    }
}

/// Parse an RFC 3339 / ISO 8601 timestamp to microseconds since the Unix
/// epoch; 0 when the text is not a timestamp chrono accepts. Instants before
/// the epoch wrap around as unsigned values.
pub fn parse_timestamp_us(s: &str) -> (r: TimestampUs)
    ensures
        r == parsed_timestamp(s@),
{
    match chrono_parse_utc_micros(s) {
        Some(m) => m as u64,
        None => 0,
    }
}

/// `end - start`, or 0 when `end` is earlier.
pub fn duration_us(start: TimestampUs, end: TimestampUs) -> (r: TimestampUs)
    ensures
        r == if end >= start { end - start } else { 0 },
{
    end.saturating_sub(start)
}

/// Whether `timestamp` lies within `window` microseconds before `now` (or later).
pub open spec fn recent_at(timestamp: u64, window: u64, now: u64) -> bool {
    timestamp >= if now >= window { now - window } else { 0 }
}

/// Whether `timestamp` lies within `window` microseconds before `now` (or later).
pub fn is_recent_at(timestamp: TimestampUs, window_us: TimestampUs, now: TimestampUs) -> (r: bool)
    ensures
        r == recent_at(timestamp, window_us, now),
{
    timestamp >= now.saturating_sub(window_us)
}

/// Whether `timestamp` lies within `window_us` microseconds before the current
/// time (or later). The answer depends on the clock reading.
pub fn is_recent(timestamp: TimestampUs, window_us: TimestampUs) -> (r: bool)
    ensures
        exists|now: u64| r == recent_at(timestamp, window_us, now),
{
    let now = now_us();
    is_recent_at(timestamp, window_us, now)
}

} // verus!
