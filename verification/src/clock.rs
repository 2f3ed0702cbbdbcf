//! The wall clock, read through std.  What it reads depends on the time, so
//! nothing is stated of its value: the logic that uses it takes the time as
//! an argument and is verified for every value of it.
use vstd::prelude::*;

verus! {

#[verifier::external_type_specification]
#[verifier::external_body]
pub struct ExSystemTime(std::time::SystemTime);

/// Calls `std::time::SystemTime::now`.  The result is the current time; no
/// property of it is claimed.
#[verifier::external_body]
pub(crate) fn system_time_now() -> std::time::SystemTime {
    std::time::SystemTime::now()
}

/// Calls `SystemTime::duration_since(UNIX_EPOCH)`.  `None` stands for the
/// error that std returns when the time lies before the epoch; no property of
/// the duration is claimed.
#[verifier::external_body]
pub(crate) fn duration_since_unix_epoch(t: &std::time::SystemTime) -> Option<std::time::Duration> {
    t.duration_since(std::time::UNIX_EPOCH).ok()
}

/// Calls `Duration::as_secs`: the whole seconds of the duration.  The
/// duration is opaque here, so no property of the number is claimed.
#[verifier::external_body]
pub(crate) fn whole_seconds(d: &std::time::Duration) -> u64 {
    d.as_secs()
}

/// Seconds since the Unix epoch, or 0 when the clock lies before it.
pub fn unix_time_now() -> u64 {
    let t = system_time_now();
    match duration_since_unix_epoch(&t) {
        Some(d) => whole_seconds(&d),
        None => 0,
    }
}

} // verus!
