//! What the library asks of the machine it runs on and of the time library:
//! the reading of the system clock, and the text of an instant. Nothing is
//! proved of these answers; the functions that use them are verified for
//! every answer.

use vstd::prelude::*;

verus! {

/// Declares `std::time::SystemTime`, a reading of the system clock, as a
/// type whose values are carried and not looked into.
#[verifier::external_type_specification]
#[verifier::external_body]
pub struct ExSystemTime(std::time::SystemTime);

/// The reading of the system clock.
///
/// Calls `std::time::SystemTime::now`. The reading depends on the clock of
/// the machine, so nothing is claimed of it.
#[verifier::external_body]
pub(crate) fn system_time() -> std::time::SystemTime {
    std::time::SystemTime::now()
}

/// How far `time` stands from the beginning of 1970, in whole seconds and
/// the nanoseconds beyond them: `Ok` where it stands at or behind that
/// beginning, `Err` where it stands before it.
///
/// Calls `std::time::SystemTime::duration_since` with
/// `std::time::UNIX_EPOCH`, which gives the distance in either case, and
/// takes the distance apart with `Duration::as_secs` and
/// `Duration::subsec_nanos`. Nothing is claimed of the numbers.
#[verifier::external_body]
pub(crate) fn since_epoch(time: &std::time::SystemTime) -> Result<(u64, u32), (u64, u32)> {
    match time.duration_since(std::time::UNIX_EPOCH) {
        Ok(after) => Ok((after.as_secs(), after.subsec_nanos())),
        Err(before) => Err((before.duration().as_secs(), before.duration().subsec_nanos())),
    }
}

/// The instant that lies `seconds` and `nanoseconds` behind the beginning
/// of 1970 in universal time, as a text in the format of RFC 3339, where the
/// time library can represent the instant.
///
/// Calls `chrono::DateTime::<Utc>::from_timestamp`, which gives nothing for
/// an instant out of its range, and `chrono::DateTime::to_rfc3339` on what
/// it gives. Nothing is claimed of the text.
#[verifier::external_body]
pub(crate) fn utc_rfc3339(seconds: i64, nanoseconds: u32) -> Option<String> {
    match chrono::DateTime::<chrono::Utc>::from_timestamp(seconds, nanoseconds) {
        Some(instant) => Some(instant.to_rfc3339()),
        None => None,
    }
}

} // verus!
