//! The rules behind the interface's commands: the refresh interval the user
//! picks, and the reports of the debug commands.

use vstd::prelude::*;
use crate::keychain::{div_toward_zero, seconds_until};
use crate::models::{ClaudeCredentials, ClaudeOAuthBlob, Settings};
use crate::text::{str_eq, string_of};

verus! {

/// Seconds per unit of the interval picker: 60 for `minutes`, 3600 for
/// `hours`, 1 for anything else (seconds).
pub open spec fn unit_seconds(unit: Seq<char>) -> nat {
    if unit == "minutes"@ {
        60
    } else if unit == "hours"@ {
        3600
    } else {
        1
    }
}

/// The shortest poll interval allowed, in seconds.
pub const MIN_POLL_INTERVAL_SECS: u64 = 10;

/// The poll interval, in seconds, for `value` of `unit`: never below 10.
pub open spec fn poll_interval(value: u64, unit: Seq<char>) -> int {
    let total = value * unit_seconds(unit);
    if total >= MIN_POLL_INTERVAL_SECS { total } else { MIN_POLL_INTERVAL_SECS as int }
}

/// The multiplier for `unit`.
pub fn interval_unit_seconds(unit: &str) -> (r: u64)
    ensures
        r == unit_seconds(unit@),
{
    if str_eq(unit, "minutes") {
        60
    } else if str_eq(unit, "hours") {
        3600
    } else {
        1
    }
}

/// The poll interval in seconds for `interval_value` of `interval_unit`.
pub fn poll_interval_seconds(interval_value: u64, interval_unit: &str) -> (r: u64)
    requires
        interval_value * unit_seconds(interval_unit@) <= u64::MAX,
    ensures
        r == poll_interval(interval_value, interval_unit@),
        r >= MIN_POLL_INTERVAL_SECS,
{
    let multiplier = interval_unit_seconds(interval_unit);
    let total = interval_value * multiplier;
    if total >= MIN_POLL_INTERVAL_SECS { total } else { MIN_POLL_INTERVAL_SECS }
}

/// Stores a new poll interval in `settings` and returns it; the display
/// mode is kept.
pub fn save_poll_interval(settings: &mut Settings, interval_value: u64, interval_unit: &str) -> (r: u64)
    requires
        interval_value * unit_seconds(interval_unit@) <= u64::MAX,
    ensures
        r == poll_interval(interval_value, interval_unit@),
        final(settings).poll_interval_seconds == r,
        final(settings).display_mode == old(settings).display_mode,
{
    let total = poll_interval_seconds(interval_value, interval_unit);
    settings.poll_interval_seconds = total;
    total
}

/// The refresh token a forced refresh uses.
pub fn forced_refresh_token(blob: &ClaudeOAuthBlob) -> (r: Result<String, String>)
    ensures
        match blob.refresh_token {
            Some(t) => r matches Ok(x) && x@ == t@,
            None => r matches Err(e) && e@ == "No refresh token stored."@,
        },
{
    match &blob.refresh_token {
        Some(t) => Ok(t.clone()),
        None => Err(string_of("No refresh token stored.")),
    }
}

/// What the forced-refresh command reports.
#[derive(PartialEq, Eq, Structural, Clone, Copy, Debug)]
pub struct ForceRefreshReport {
    pub success: bool,
    pub has_new_access_token: bool,
    pub has_new_refresh_token: bool,
    pub new_expires_at: Option<i64>,
    pub expires_in_seconds: Option<i64>,
}

/// The report after a forced refresh that returned `result`, the store then
/// holding `new_blob`, at `now` (milliseconds).
pub fn force_refresh_report(result: &ClaudeCredentials, new_blob: &ClaudeOAuthBlob, now: i64) -> (r: ForceRefreshReport)
    requires
        new_blob.expires_at matches Some(e) ==> i64::MIN <= e - now <= i64::MAX,
    ensures
        r.success,
        r.has_new_access_token == result.access_token.is_some(),
        r.has_new_refresh_token == new_blob.refresh_token.is_some(),
        r.new_expires_at == new_blob.expires_at,
        r.expires_in_seconds == (match new_blob.expires_at {
            Some(e) => Some(div_toward_zero(e - now, 1000) as i64),
            None => None,
        }),
{
    ForceRefreshReport {
        success: true,
        has_new_access_token: result.access_token.is_some(),
        has_new_refresh_token: new_blob.refresh_token.is_some(),
        new_expires_at: new_blob.expires_at,
        expires_in_seconds: match new_blob.expires_at {
            Some(e) => Some(seconds_until(e, now)),
            None => None,
        },
    }
}

} // verus!
