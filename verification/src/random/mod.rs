//! Secure random generation from the operating system.

use vstd::prelude::*;
use rand::RngCore;

verus! {

/// A fresh random 12-byte nonce.
///
/// Trusted: fills the array with `rand::rngs::OsRng::fill_bytes`. The bytes
/// are random, so nothing is stated of them.
#[verifier::external_body]
pub fn generate_nonce() -> [u8; 12] {
    let mut nonce = [0u8; 12];
    rand::rngs::OsRng.fill_bytes(&mut nonce);
    nonce
}

/// Trusted: 32 random bytes from `rand::rngs::OsRng::fill_bytes`; nothing is
/// stated of them.
#[verifier::external_body]
pub(crate) fn random_bytes_32() -> [u8; 32] {
    let mut bytes = [0u8; 32];
    rand::rngs::OsRng.fill_bytes(&mut bytes);
    bytes
}

/// The standard library's wall-clock time, carried opaquely.
#[verifier::external_type_specification]
#[verifier::external_body]
pub struct ExSystemTime(std::time::SystemTime);

/// Trusted: `std::time::SystemTime::now`. The time is read from the machine,
/// so nothing is stated of it.
#[verifier::external_body]
fn system_time_now() -> std::time::SystemTime {
    std::time::SystemTime::now()
}

/// Trusted: `SystemTime::duration_since(UNIX_EPOCH)`, or `None` for a time
/// before the epoch. Nothing is stated of the value, which depends on the
/// clock.
#[verifier::external_body]
fn duration_since_unix_epoch(t: &std::time::SystemTime) -> Option<std::time::Duration> {
    t.duration_since(std::time::UNIX_EPOCH).ok()
}

/// Trusted: `Duration::as_secs`, the whole seconds of a duration. The
/// duration is opaque here, so nothing is stated of the result.
#[verifier::external_body]
fn duration_whole_secs(d: &std::time::Duration) -> u64 {
    d.as_secs()
}

/// A timestamp from a clock reading in seconds since the Unix epoch: the
/// reading itself, or 0 when the clock is set before the epoch.
pub(crate) fn timestamp_from_reading(reading: Option<u64>) -> (secs: u64)
    ensures
        secs == match reading {
            Some(s) => s,
            None => 0u64,
        },
{
    match reading {
        Some(s) => s,
        None => 0,
    }
}

/// The current time in whole seconds since the Unix epoch; 0 if the clock
/// is set before the epoch. The reading comes from the machine's clock, so
/// nothing is stated of the value; how it is turned into a timestamp is
/// stated by [`timestamp_from_reading`].
pub(crate) fn unix_time_secs() -> u64 {
    let now = system_time_now();
    let reading = match duration_since_unix_epoch(&now) {
        Some(d) => Some(duration_whole_secs(&d)),
        None => None,
    };
    timestamp_from_reading(reading)
}

} // verus!
