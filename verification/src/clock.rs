//! The wall clock, read as milliseconds since the Unix epoch.
//!
//! Of a reading only its range is known: two readings may be equal, and a
//! clock that was set back gives a smaller one.

use vstd::prelude::*;
use std::time::{Duration, SystemTime, SystemTimeError, UNIX_EPOCH};

verus! {

#[verifier::external_type_specification]
#[verifier::external_body]
pub struct ExSystemTime(SystemTime);

#[verifier::external_type_specification]
#[verifier::external_body]
pub struct ExSystemTimeError(SystemTimeError);

/// `SystemTime::now`: the current reading of the system clock.
#[verifier::external_body]
fn now() -> SystemTime {
    SystemTime::now()
}

/// `SystemTime::duration_since`, taken against `UNIX_EPOCH`: the time that has
/// passed since the epoch, or an error where the reading lies before it.
#[verifier::external_body]
fn since_epoch(reading: &SystemTime) -> Result<Duration, SystemTimeError> {
    reading.duration_since(UNIX_EPOCH)
}

/// `Duration::as_secs`: the whole seconds of a duration.
#[verifier::external_body]
fn whole_secs(span: &Duration) -> u64 {
    span.as_secs()
}

/// `Duration::subsec_millis`: the part of a duration beyond its whole
/// seconds, in whole milliseconds, which is below one thousand.
#[verifier::external_body]
fn sub_millis(span: &Duration) -> (millis: u32)
    ensures
        millis < 1000,
{
    span.subsec_millis()
}

/// The largest reading in milliseconds: the most seconds that a duration
/// holds, and 999 milliseconds.
pub const MAX_MILLIS: u128 = 18_446_744_073_709_551_615_999;

/// A time in milliseconds, given in whole seconds and the milliseconds
/// beyond them.
pub open spec fn millis_in(secs: u64, sub: u32) -> int {
    secs * 1000 + sub
}

/// Later times give larger readings: the milliseconds follow the order of
/// seconds first, milliseconds second.
pub proof fn lemma_millis_follow_time(secs: u64, sub: u32, later_secs: u64, later_sub: u32)
    requires
        sub < 1000,
        later_sub < 1000,
        secs < later_secs || (secs == later_secs && sub <= later_sub),
    ensures
        millis_in(secs, sub) <= millis_in(later_secs, later_sub),
        millis_in(later_secs, later_sub) <= MAX_MILLIS,
{
}

/// The milliseconds of a time given in whole seconds and the milliseconds
/// beyond them.
pub fn millis_of(secs: u64, sub: u32) -> (millis: u128)
    requires
        sub < 1000,
    ensures
        millis == millis_in(secs, sub),
        millis <= MAX_MILLIS,
{
    let secs: u128 = secs as u128;
    let sub: u128 = sub as u128;
    secs * 1000 + sub
}

/// Milliseconds since the Unix epoch, or `None` where the clock reads a time
/// before the epoch. A reading is the milliseconds of some whole seconds and
/// less than a thousand milliseconds beyond them.
pub fn unix_millis() -> (millis: Option<u128>)
    ensures
        millis matches Some(m) ==> m <= MAX_MILLIS && exists|secs: u64, sub: u32|
            sub < 1000 && m == #[trigger] millis_in(secs, sub),
{
    let reading = now();
    match since_epoch(&reading) {
        Ok(span) => Some(millis_of(whole_secs(&span), sub_millis(&span))),
        Err(_) => None,
    }
}

} // verus!
