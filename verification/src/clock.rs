//! The current time, in seconds since the Unix epoch.

use vstd::prelude::*;
use std::time::{Duration, SystemTime, SystemTimeError, UNIX_EPOCH};

verus! {

#[verifier::external_type_specification]
#[verifier::external_body]
pub struct ExSystemTime(SystemTime);

#[verifier::external_type_specification]
#[verifier::external_body]
pub struct ExSystemTimeError(SystemTimeError);

/// Calls `SystemTime::now`. What the clock says is left unsaid.
#[verifier::external_body]
fn system_time_now() -> SystemTime {
    SystemTime::now()
}

/// Calls `SystemTime::duration_since` with `UNIX_EPOCH`: an error where the
/// time lies before the epoch. Which of the two comes back depends on the
/// clock, and is left unsaid.
#[verifier::external_body]
fn since_unix_epoch(t: &SystemTime) -> Result<Duration, SystemTimeError> {
    t.duration_since(UNIX_EPOCH)
}

/// Calls `Duration::as_secs`. The duration is opaque here, so nothing is said
/// of the whole seconds it holds.
#[verifier::external_body]
fn whole_seconds(d: &Duration) -> u64 {
    d.as_secs()
}

/// A count of seconds as the `i64` timestamp that the database stores: the
/// value cast, as `as i64` casts it.
pub fn timestamp_of(secs: u64) -> (t: i64)
    ensures
        t == secs as i64,
{
    secs as i64
}

/// The current Unix time in whole seconds; `None` where the clock is set
/// before 1970. What the clock reads is not a function of anything here, so
/// no clause speaks of the value; `timestamp_of` states the conversion.
pub fn now() -> (r: Option<i64>) {
    match since_unix_epoch(&system_time_now()) {
        Ok(d) => Some(timestamp_of(whole_seconds(&d))),
        Err(_) => None,
    }
}

} // verus!
