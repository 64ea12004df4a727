//! The wall clock, in milliseconds since the Unix epoch.

use vstd::prelude::*;

verus! {

#[verifier::external_type_specification]
#[verifier::external_body]
pub struct ExSystemTime(std::time::SystemTime);

/// The current time: calls `std::time::SystemTime::now`. Nothing is stated
/// of it.
#[verifier::external_body]
fn system_time_now() -> (t: std::time::SystemTime) {
    std::time::SystemTime::now()
}

/// The time elapsed from the Unix epoch to `t`, when `t` is not earlier:
/// calls `SystemTime::duration_since` with `UNIX_EPOCH`.
#[verifier::external_body]
fn since_unix_epoch(t: &std::time::SystemTime) -> (d: Option<core::time::Duration>) {
    t.duration_since(std::time::UNIX_EPOCH).ok()
}

/// Whole milliseconds of `d`: calls `Duration::as_millis`.
#[verifier::external_body]
fn whole_millis(d: &core::time::Duration) -> (ms: u128) {
    d.as_millis()
}

/// Milliseconds as the application stores them: an `i64` (truncated as `as`
/// does), or 0 when the clock is before the epoch.
pub fn millis_to_i64(elapsed: Option<u128>) -> (r: i64)
    ensures
        r == match elapsed {
            Some(ms) => ms as i64,
            None => 0,
        },
{
    match elapsed {
        Some(ms) => ms as i64,
        None => 0,
    }
}

/// The current time in milliseconds since the Unix epoch (0 when the clock
/// reads earlier than the epoch).
pub fn now_ms() -> (r: i64)
    ensures
        exists|elapsed: Option<u128>| r == millis_to_i64_spec(elapsed),
{
    let t = system_time_now();
    let elapsed = match since_unix_epoch(&t) {
        Some(d) => Some(whole_millis(&d)),
        None => None,
    };
    let r = millis_to_i64(elapsed);
    assert(r == millis_to_i64_spec(elapsed));
    r
}

/// The value [`millis_to_i64`] computes.
pub open spec fn millis_to_i64_spec(elapsed: Option<u128>) -> i64 {
    match elapsed {
        Some(ms) => ms as i64,
        None => 0,
    }
}

} // verus!
