//! Wall-clock time and lease expiry, in milliseconds since the Unix epoch.

use std::time::Duration;
use vstd::prelude::*;

verus! {

/// The whole milliseconds that a duration holds, as `Duration::as_millis`
/// counts them.
pub uninterp spec fn duration_millis(d: Duration) -> u128;

/// The instant at which a lease of `ttl_millis` milliseconds that starts at
/// `now` ends. An end past the last instant that the database can store is
/// that last instant.
pub open spec fn expiry_of(now: int, ttl_millis: int) -> int {
    if now + ttl_millis > i64::MAX {
        i64::MAX as int
    } else {
        now + ttl_millis
    }
}

/// Calls `Duration::as_millis`: the duration in whole milliseconds. The
/// contract only gives that number its name.
#[verifier::external_body]
fn whole_millis(ttl: Duration) -> (millis: u128)
    ensures
        millis == duration_millis(ttl),
{
    ttl.as_millis()
}

/// Calls `mongodb::bson::DateTime::now` and `DateTime::timestamp_millis`: the
/// current wall-clock time in the database's precision. Nothing is promised
/// of the value: two readings may differ in either direction.
#[verifier::external_body]
fn wall_clock_millis() -> (now: i64) {
    mongodb::bson::DateTime::now().timestamp_millis()
}

/// The end of a lease of `ttl_millis` milliseconds that starts at `now`.
pub fn expires_at(now: i64, ttl_millis: u128) -> (end: i64)
    ensures
        end == expiry_of(now as int, ttl_millis as int),
        now <= end,
{
    if ttl_millis > u64::MAX as u128 {
        i64::MAX
    } else {
        let sum: i128 = now as i128 + ttl_millis as i128;
        if sum > i64::MAX as i128 {
            i64::MAX
        } else {
            sum as i64
        }
    }
}

/// Reads the clock once and returns that instant together with the end of a
/// lease of `ttl` that starts at it.
pub fn now_and_expires_at(ttl: Duration) -> (times: (i64, i64))
    ensures
        times.1 == expiry_of(times.0 as int, duration_millis(ttl) as int),
        times.0 <= times.1,
{
    let now: i64 = wall_clock_millis();
    let end: i64 = expires_at(now, whole_millis(ttl));
    (now, end)
}

} // verus!
