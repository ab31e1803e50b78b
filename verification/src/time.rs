//! Local wall-clock timestamps at a fixed offset from UTC, resolved to
//! absolute instants.

use vstd::prelude::*;
use crate::error::Error;

verus! {

/// An absolute point in time, in whole seconds since 1970-01-01T00:00:00Z.
#[derive(Clone, Copy, Debug, PartialEq, Eq, Structural)]
pub struct Instant {
    pub epoch_seconds: i64,
}

/// The offset, in hours east of UTC, at which every range bound is read.
pub const RANGE_OFFSET_HOURS: i32 = 8;

/// The form of a local timestamp: `YYYY-MM-DD HH:MM:SS`, without a zone.
pub open spec fn local_pattern() -> Seq<char> {
    "%Y-%m-%d %H:%M:%S"@
}

/// What `chrono` reads out of `text` under `pattern`: the seconds between
/// 1970-01-01 00:00:00 and the date and time written there, both taken on the
/// same clock, or `None` where `text` does not follow `pattern`.
pub uninterp spec fn naive_seconds(text: Seq<char>, pattern: Seq<char>) -> Option<i64>;

/// Calls `chrono::NaiveDateTime::parse_from_str` and, on success, takes the
/// seconds since the epoch of the date and time it read, as
/// `and_utc().timestamp()` gives them. The contract claims only that the
/// outcome is determined by the two texts.
#[verifier::external_body]
fn read_naive_seconds(text: &str, pattern: &str) -> (seconds: Option<i64>)
    ensures
        seconds == naive_seconds(text@, pattern@),
{
    match chrono::NaiveDateTime::parse_from_str(text, pattern) {
        Ok(read) => Some(read.and_utc().timestamp()),
        Err(_) => None,
    }
}

/// The instant that a reading of a local clock stands for, where the clock
/// runs `offset_hours` ahead of UTC. `None` where the text was not a
/// timestamp, or where the instant is beyond what 64 bits of seconds hold.
pub open spec fn resolved(local: Option<i64>, offset_hours: int) -> Option<int> {
    match local {
        Some(seconds) => {
            let shifted = seconds - offset_hours * 3600;
            if i64::MIN <= shifted <= i64::MAX {
                Some(shifted)
            } else {
                None
            }
        },
        None => None,
    }
}

/// Moves a reading of a local clock, in seconds, to UTC.
///
/// `local` is what the text of a timestamp was read as, `None` for a text
/// that is no timestamp.
pub fn resolve_local_seconds(local: Option<i64>, offset_hours: i32) -> (r: Result<Instant, Error>)
    ensures
        r is Ok <==> resolved(local, offset_hours as int) is Some,
        r is Ok ==> r->Ok_0.epoch_seconds == resolved(local, offset_hours as int)->Some_0,
        r is Err ==> r->Err_0 is MalformedTimestamp,
{
    match local {
        Some(seconds) => {
            let shift: i64 = (offset_hours as i64) * 3600;
            match seconds.checked_sub(shift) {
                Some(shifted) => Ok(Instant { epoch_seconds: shifted }),
                None => Err(Error::MalformedTimestamp),
            }
        },
        None => Err(Error::MalformedTimestamp),
    }
}

/// Resolves a local timestamp of the form `YYYY-MM-DD HH:MM:SS`, read at
/// `timezone_offset` hours east of UTC, to the instant it names.
pub fn parse_date_time_with_timezone(date_str: &str, timezone_offset: i32) -> (r: Result<
    Instant,
    Error,
>)
    ensures
        r is Ok <==> resolved(naive_seconds(date_str@, local_pattern()), timezone_offset as int)
            is Some,
        r is Ok ==> r->Ok_0.epoch_seconds == resolved(
            naive_seconds(date_str@, local_pattern()),
            timezone_offset as int,
        )->Some_0,
        r is Err ==> r->Err_0 is MalformedTimestamp,
{
    let local = read_naive_seconds(date_str, "%Y-%m-%d %H:%M:%S");
    resolve_local_seconds(local, timezone_offset)
}

} // verus!
