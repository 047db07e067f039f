//! Times and durations, in nanoseconds.

use vstd::prelude::*;

verus! {

/// The nanoseconds of a day.
pub const DAY: u128 = 86_400_000_000_000;

/// A duration of so many seconds.
pub open spec fn seconds(n: u64) -> u128 {
    (n * 1_000_000_000) as u128
}

/// A duration of so many seconds.
pub fn from_secs(n: u64) -> (r: u128)
    ensures
        r == seconds(n),
        r == n * 1_000_000_000,
{
    n as u128 * 1_000_000_000
}

/// The time that lies so many seconds and nanoseconds after the Unix epoch.
pub open spec fn since_epoch(secs: i64, nanos: u32) -> i128 {
    (secs * 1_000_000_000 + nanos) as i128
}

/// The time that lies so many seconds and nanoseconds after the Unix epoch.
pub fn at(secs: i64, nanos: u32) -> (r: i128)
    ensures
        r == since_epoch(secs, nanos),
        r == secs * 1_000_000_000 + nanos,
{
    secs as i128 * 1_000_000_000 + nanos as i128
}

/// A second has a thousand million nanoseconds, and so have all of them.
pub proof fn law_seconds(n: u64, secs: i64, nanos: u32)
    ensures
        seconds(n) == n * 1_000_000_000,
        since_epoch(secs, nanos) == secs * 1_000_000_000 + nanos,
{
}

} // verus!
