//! Wall-clock timestamps for newly created messages.

use std::time::{Duration, SystemTime, SystemTimeError};
use vstd::prelude::*;

verus! {

/// Milliseconds since the Unix epoch at which the sample timeline starts, and the
/// timestamp used when the clock reads earlier than the epoch.
pub const BASE_TS: u64 = 1_747_000_000_000u64;

#[verifier::external_type_specification]
#[verifier::external_body]
pub struct ExSystemTime(SystemTime);

#[verifier::external_type_specification]
#[verifier::external_body]
pub struct ExSystemTimeError(SystemTimeError);

/// Calls `SystemTime::now`. The reading comes from the machine's clock, so
/// nothing is stated of it.
#[verifier::external_body]
fn clock_now() -> SystemTime {
    SystemTime::now()
}

/// Calls `SystemTime::duration_since` with `UNIX_EPOCH` as the earlier time.
/// Whether it fails depends on the clock reading, so nothing is stated of the
/// outcome.
#[verifier::external_body]
fn elapsed_since_epoch(t: &SystemTime) -> Result<Duration, SystemTimeError> {
    t.duration_since(std::time::UNIX_EPOCH)
}

/// Calls `Duration::as_millis`. A `Duration` is opaque here, so nothing is stated
/// of the count it returns.
#[verifier::external_body]
fn whole_millis(d: &Duration) -> u128 {
    d.as_millis()
}

/// Reads the clock: the whole milliseconds since the Unix epoch, or `None` when
/// the clock reads earlier than the epoch.
pub fn epoch_millis_reading() -> Option<u128> {
    let now = clock_now();
    match elapsed_since_epoch(&now) {
        Ok(d) => Some(whole_millis(&d)),
        Err(_) => None,
    }
}

/// The timestamp for a clock reading: the reading cut to its low 64 bits, or
/// `BASE_TS` when there is none.
pub fn millis_or_base(reading: Option<u128>) -> (ms: u64)
    ensures
        ms == match reading {
            Some(m) => m as u64,
            None => BASE_TS,
        },
{
    match reading {
        Some(m) => m as u64,
        None => BASE_TS,
    }
}

/// Milliseconds since the Unix epoch now, or `BASE_TS` when the clock reads
/// earlier than the epoch. The value depends on the clock alone.
pub fn now_ms() -> u64 {
    millis_or_base(epoch_millis_reading())
}

} // verus!
