use vstd::prelude::*;

verus! {

/// Nanoseconds in one second.
pub const SECOND: u128 = 1_000_000_000;

/// An absolute point in wall-clock time, in nanoseconds since the Unix epoch.
#[derive(Debug, Clone, Copy, PartialEq, Eq)]
pub struct Timestamp {
    pub nanos: u128,
}

/// Relies on `std::time::SystemTime::elapsed` applied to the Unix epoch: the
/// current wall-clock time as a duration since the epoch. A clock set before
/// the epoch reads as the epoch itself. Nothing is promised of the value.
#[verifier::external_body]
pub(crate) fn clock_now() -> (r: Timestamp) {
    match std::time::UNIX_EPOCH.elapsed() {
        Ok(d) => Timestamp { nanos: d.as_nanos() },
        Err(_) => Timestamp { nanos: 0 },
    }
}

} // verus!
