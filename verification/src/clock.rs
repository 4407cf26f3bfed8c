//! The wall clock, in milliseconds since the Unix epoch.

use std::time::{Duration, SystemTime, SystemTimeError};
use vstd::prelude::*;

verus! {

#[verifier::external_type_specification]
#[verifier::external_body]
pub struct ExSystemTime(std::time::SystemTime);

#[verifier::external_type_specification]
#[verifier::external_body]
pub struct ExSystemTimeError(std::time::SystemTimeError);

/// Calls `SystemTime::now`. Nothing is claimed of the time that comes back.
#[verifier::external_body]
fn system_now() -> (t: SystemTime) {
    SystemTime::now()
}

/// Calls `SystemTime::duration_since` with the Unix epoch. Nothing is claimed of the result: the
/// clock may stand anywhere, before the epoch too.
#[verifier::external_body]
fn since_epoch(t: &SystemTime) -> (r: Result<Duration, SystemTimeError>) {
    t.duration_since(std::time::UNIX_EPOCH)
}

/// Calls `Duration::as_millis`. Nothing is claimed of the number: the durations it is asked for
/// come from the clock.
#[verifier::external_body]
fn whole_millis(d: &Duration) -> (n: u128) {
    d.as_millis()
}

/// The number reduced to 64 bits.
pub fn low_64_bits(n: u128) -> (r: u64)
    ensures
        r == n % 0x1_0000_0000_0000_0000,
{
    let m: u128 = n % 0x1_0000_0000_0000_0000;
    m as u64
}

/// The time that a reading of the clock gives: its milliseconds since the Unix epoch, reduced to 64
/// bits, or 0 where the clock stands before the epoch and there are none.
pub fn reading_millis(since_epoch_ms: Option<u128>) -> (ms: u64)
    ensures
        ms == (match since_epoch_ms {
            Some(n) => n % 0x1_0000_0000_0000_0000,
            None => 0,
        }),
{
    match since_epoch_ms {
        Some(n) => low_64_bits(n),
        None => 0,
    }
}

/// The clock's reading in milliseconds since the Unix epoch, 0 where it stands before the epoch.
/// Nothing is stated of it: the clock may stand anywhere, so every number can come back, and the
/// number is not a function of anything the program holds. `reading_millis` says what each reading
/// gives.
pub fn now_millis() -> (ms: u64) {
    let now = system_now();
    let reading: Option<u128> = match since_epoch(&now) {
        Ok(d) => Some(whole_millis(&d)),
        Err(_) => None,
    };
    reading_millis(reading)
}

} // verus!
