//! The wall clock.

use vstd::prelude::*;

verus! {

/// Trusted: makes `time::OffsetDateTime` known as an opaque type.
#[verifier::external_type_specification]
#[verifier::external_body]
pub struct ExOffsetDateTime(::time::OffsetDateTime);

/// The current date and time in the local offset, where the offset can be
/// determined.
///
/// Trusted: stands for `time::OffsetDateTime::now_local`, whose error
/// becomes `None`. Nothing is claimed of the result, which depends on the
/// clock and the machine.
#[verifier::external_body]
fn now_local() -> (r: Option<::time::OffsetDateTime>) {
    ::time::OffsetDateTime::now_local().ok()
}

/// The current date and time in UTC.
///
/// Trusted: stands for `time::OffsetDateTime::now_utc`. Nothing is
/// claimed of the result, which depends on the clock.
#[verifier::external_body]
fn now_utc() -> (r: ::time::OffsetDateTime) {
    ::time::OffsetDateTime::now_utc()
}

/// The seconds between the Unix epoch and `t`.
///
/// Trusted: stands for `time::OffsetDateTime::unix_timestamp`. Nothing is
/// claimed of the result, since `t` is opaque here.
#[verifier::external_body]
fn unix_timestamp(t: ::time::OffsetDateTime) -> (r: i64) {
    t.unix_timestamp()
}

/// Seconds since the Unix epoch as an unsigned number; a time before the
/// epoch wraps around.
pub open spec fn unsigned_seconds(seconds: i64) -> u64 {
    if seconds >= 0 {
        seconds as u64
    } else {
        (seconds + 0x1_0000_0000_0000_0000) as u64
    }
}

/// Turns signed seconds since the epoch into the unsigned number that the
/// store keeps.
pub fn to_unsigned_seconds(seconds: i64) -> (r: u64)
    ensures
        r == unsigned_seconds(seconds),
{
    if seconds >= 0 {
        seconds as u64
    } else {
        // -2^63 <= seconds < 0, so the sum below is in range.
        let below: u64 = (-(seconds + 1)) as u64;
        0xffff_ffff_ffff_ffff - below
    }
}

/// The current time in seconds since the Unix epoch. The time is taken in
/// the local offset where that can be determined, in UTC otherwise. Never
/// fails.
pub fn now() -> (r: Result<u64, ()>)
    ensures
        r is Ok,
{
    let odt = match now_local() {
        Some(t) => t,
        None => now_utc(),
    };
    Ok(to_unsigned_seconds(unix_timestamp(odt)))
}

} // verus!
