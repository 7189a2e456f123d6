//! Wall-clock and monotonic time, which verified code takes as opaque values.
use vstd::prelude::*;

verus! {

#[verifier::external_type_specification]
#[verifier::external_body]
pub struct ExInstant(std::time::Instant);

/// Calls `std::time::Instant::now`. Nothing is stated of the instant.
#[verifier::external_body]
pub(crate) fn instant_now() -> std::time::Instant {
    std::time::Instant::now()
}

/// Calls `Instant::elapsed` on `start` and gives the whole milliseconds as a `u64`.
/// Nothing is stated of the value: it depends on the time.
#[verifier::external_body]
pub(crate) fn millis_since(start: &std::time::Instant) -> u64 {
    start.elapsed().as_millis() as u64
}

/// Calls `SystemTime::now().duration_since(UNIX_EPOCH)` and gives the whole seconds (0 if
/// the clock is before the epoch). Nothing is stated of the value: it depends on the time.
#[verifier::external_body]
pub(crate) fn unix_now_secs() -> u64 {
    match std::time::SystemTime::now().duration_since(std::time::UNIX_EPOCH) {
        Ok(d) => d.as_secs(),
        Err(_) => 0,
    }
}

/// Calls `SystemTime::now().duration_since(UNIX_EPOCH)` and gives the whole milliseconds as
/// a `u64` (0 if the clock is before the epoch). Nothing is stated of the value: it depends
/// on the time.
#[verifier::external_body]
pub(crate) fn unix_now_millis() -> u64 {
    match std::time::SystemTime::now().duration_since(std::time::UNIX_EPOCH) {
        Ok(d) => d.as_millis() as u64,
        Err(_) => 0,
    }
}

/// The instant an RFC 3339 timestamp denotes, in microseconds since the Unix epoch, as
/// `chrono::DateTime::parse_from_rfc3339` and `timestamp_micros` give it (`None` when the
/// text does not parse).
pub uninterp spec fn rfc3339_micros(text: Seq<char>) -> Option<int>;

/// Calls `chrono::DateTime::parse_from_rfc3339` and, on success, `timestamp_micros`.
#[verifier::external_body]
pub(crate) fn parse_rfc3339_micros(text: &str) -> (r: Option<i64>)
    ensures
        r is None <==> rfc3339_micros(text@) is None,
        r matches Some(m) ==> rfc3339_micros(text@) == Some(m as int),
{
    match chrono::DateTime::parse_from_rfc3339(text) {
        Ok(dt) => Some(dt.timestamp_micros()),
        Err(_) => None,
    }
}

/// Calls `chrono::Utc::now().timestamp_micros()`: the current time in microseconds since
/// the Unix epoch. Nothing is stated of the value: it depends on the clock.
#[verifier::external_body]
pub(crate) fn utc_now_micros() -> i64 {
    chrono::Utc::now().timestamp_micros()
}

/// The RFC 3339 text (UTC, written with `Z`, fractions of a second as needed) of an instant
/// given in microseconds since the Unix epoch, as `DateTime::from_timestamp_micros` and
/// `to_rfc3339_opts(SecondsFormat::AutoSi, true)` write it (`None` outside the calendar's
/// range).
pub uninterp spec fn rfc3339_text(micros: int) -> Option<Seq<char>>;

/// Calls `DateTime::from_timestamp_micros` and `to_rfc3339_opts(SecondsFormat::AutoSi, true)`.
/// The text has the date and time apart by `T` and ends in `Z`; where it parses back (years
/// 0 to 9999 written without a sign), it denotes the same instant.
#[verifier::external_body]
pub(crate) fn rfc3339_of_micros(micros: i64) -> (r: Option<String>)
    ensures
        match r {
            Some(t) => rfc3339_text(micros as int) == Some(t@),
            None => rfc3339_text(micros as int) is None,
        },
        r matches Some(t) ==> t@.len() > 0 && t@.last() == 'Z' && t@.contains('T'),
        r matches Some(t) ==> (rfc3339_micros(t@) is Some ==> rfc3339_micros(t@) == Some(micros as int)),
{
    match chrono::DateTime::from_timestamp_micros(micros) {
        Some(d) => Some(d.to_rfc3339_opts(chrono::SecondsFormat::AutoSi, true)),
        None => None,
    }
}

} // verus!
