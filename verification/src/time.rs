//! Wall-clock times on the wire: milliseconds since the UNIX epoch.

use std::time::{Duration, SystemTime};
use vstd::prelude::*;

verus! {

#[verifier::external_type_specification]
#[verifier::external_body]
pub struct ExSystemTime(std::time::SystemTime);

/// How long after the UNIX epoch a time is; `None` for a time before it.
pub uninterp spec fn since_epoch(t: SystemTime) -> Option<Duration>;

/// The whole milliseconds of a duration.
pub uninterp spec fn whole_millis(d: Duration) -> u128;

/// Calls `std::time::SystemTime::duration_since` with the UNIX epoch: the
/// elapsed time, named by [`since_epoch`], or none if the time lies before the
/// epoch.
#[verifier::external_body]
fn elapsed(t: SystemTime) -> (r: Option<Duration>)
    ensures
        r == since_epoch(t),
{
    t.duration_since(std::time::UNIX_EPOCH).ok()
}

/// Calls `std::time::Duration::as_millis`: the whole milliseconds, named by
/// [`whole_millis`].
#[verifier::external_body]
fn millis(d: Duration) -> (r: u128)
    ensures
        r == whole_millis(d),
{
    d.as_millis()
}

/// A time in milliseconds since the UNIX epoch, of which the low 64 bits are
/// kept; zero for a time before the epoch.
pub open spec fn ms_of(t: SystemTime) -> u64 {
    match since_epoch(t) {
        Some(d) => whole_millis(d) as u64,
        None => 0,
    }
}

/// A time in milliseconds since the UNIX epoch.
pub fn system_time_to_ms(t: SystemTime) -> (ms: u64)
    ensures
        ms == ms_of(t),
{
    match elapsed(t) {
        Some(d) => millis(d) as u64,
        None => 0,
    }
}

}
