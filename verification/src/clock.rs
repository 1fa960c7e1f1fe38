//! The time of the build and of its steps.
//!
//! Times are read from the system clock and written in universal time, in
//! the format of RFC 3339. A clock that stands before 1970 is read as it
//! stands; an instant that cannot be written gives an empty text, so that
//! no state of the clock keeps a build from running.

use vstd::prelude::*;
use crate::host::{since_epoch, system_time, utc_rfc3339};

verus! {

/// The number of nanoseconds in a second.
pub const NANOSECONDS: u32 = 1_000_000_000;

/// The instant of a clock reading, in seconds and nanoseconds behind the
/// beginning of 1970. A reading is the distance from that beginning: `Ok`
/// for a clock that stands at or behind it, `Err` for one that stands
/// before it. The seconds of an instant before 1970 are negative and its
/// nanoseconds count forward from them. A reading that no instant can hold
/// has none.
pub open spec fn signed_instant(reading: Result<(u64, u32), (u64, u32)>) -> Option<(i64, u32)> {
    match reading {
        Ok((seconds, nanoseconds)) => if seconds <= i64::MAX {
            Some((seconds as i64, nanoseconds))
        } else {
            None
        },
        Err((seconds, nanoseconds)) => if seconds >= i64::MAX {
            None
        } else if nanoseconds == 0 {
            Some(((-(seconds as int)) as i64, 0u32))
        } else if nanoseconds < NANOSECONDS {
            Some(((-(seconds as int) - 1) as i64, (NANOSECONDS - nanoseconds) as u32))
        } else {
            None
        },
    }
}

/// The instant of a clock reading.
pub fn instant(reading: Result<(u64, u32), (u64, u32)>) -> (r: Option<(i64, u32)>)
    ensures
        r == signed_instant(reading),
{
    match reading {
        Ok((seconds, nanoseconds)) => {
            if seconds <= 0x7fff_ffff_ffff_ffff {
                Some((seconds as i64, nanoseconds))
            } else {
                None
            }
        },
        Err((seconds, nanoseconds)) => {
            if seconds >= 0x7fff_ffff_ffff_ffff {
                None
            } else if nanoseconds == 0 {
                Some((-(seconds as i64), 0))
            } else if nanoseconds < NANOSECONDS {
                Some((-(seconds as i64) - 1, NANOSECONDS - nanoseconds))
            } else {
                None
            }
        },
    }
}

/// The time at which it is called, as a text, or an empty text where the
/// clock stands at an instant that cannot be written. The text depends on
/// the clock of the machine; nothing is stated of it.
pub(crate) fn timestamp_now() -> String {
    let time = system_time();
    match instant(since_epoch(&time)) {
        Some((seconds, nanoseconds)) => match utc_rfc3339(seconds, nanoseconds) {
            Some(text) => text,
            None => String::new(),
        },
        None => String::new(),
    }
}

} // verus!
