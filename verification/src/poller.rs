//! Decisions of the background poller: how long to wait before the next
//! usage fetch, given what the previous fetches returned.
//!
//! The loop itself (timers, the control channel, emitting events) runs
//! outside; it hands each outcome to [`poller_after_tick`] or each control
//! message to [`poller_on_signal`] and performs the returned action.

use vstd::prelude::*;

verus! {

/// Cap on the error backoff, in seconds (15 minutes).
pub const MAX_BACKOFF_SECS: u64 = 900;
/// First rate-limit backoff when the server gives no `Retry-After`.
pub const RATE_LIMIT_INITIAL_BACKOFF_SECS: u64 = 30;
/// Cap on the exponential rate-limit backoff, before jitter (10 minutes).
pub const MAX_RATE_LIMIT_BACKOFF_SECS: u64 = 600;
/// Floor on a server-given `Retry-After` (a zero period is not allowed).
pub const MIN_RETRY_AFTER_SECS: u64 = 5;

/// Why a usage fetch failed.
#[derive(Debug)]
pub enum FetchError {
    RateLimit { retry_after_secs: Option<u64> },
    /// The credentials were refused and could not be renewed (the token
    /// endpoint rejected the refresh token); polling cannot recover.
    Auth(String),
    Other(String),
}

/// What one poll reported.
#[derive(PartialEq, Eq, Structural, Clone, Copy, Debug)]
pub enum PollOutcome {
    Success,
    RateLimit { retry_after_secs: Option<u64> },
    /// The credentials were refused and could not be renewed.
    AuthFailure,
    Error,
}

/// An event the poller announces to the interface.
#[derive(PartialEq, Eq, Structural, Clone, Copy, Debug)]
pub enum PollerNotice {
    RateLimited { retry_after_secs: u64 },
    RateLimitCleared,
}

/// What the loop does after a step: announce a notice, and/or restart its
/// timer with a new period, or stop (and clear the tray title).
#[derive(PartialEq, Eq, Structural, Clone, Copy, Debug)]
pub struct PollerAction {
    pub notice: Option<PollerNotice>,
    pub reset_period_secs: Option<u64>,
    pub stop: bool,
}

/// The poller's counters between ticks.
#[derive(PartialEq, Eq, Structural, Clone, Copy, Debug)]
pub struct PollerState {
    /// The interval the user configured.
    pub base_interval_secs: u64,
    /// Failed polls in a row (rate limits excluded).
    pub consecutive_failures: u32,
    /// Rate-limited polls since the last reconfiguration or the success that
    /// lifted a rate limit.
    pub rate_limit_failures: u32,
    pub is_rate_limited: bool,
    /// The period the timer currently runs with.
    pub period_secs: u64,
}

impl PollerState {
    /// No timer period is ever zero (a zero period is refused by the timer).
    pub open spec fn wf(self) -> bool {
        self.base_interval_secs >= 1 && self.period_secs >= 1
    }
}

/// `2^k`.
pub open spec fn pow2(k: nat) -> nat
    decreases k,
{
    if k == 0 { 1 } else { 2 * pow2((k - 1) as nat) }
}

pub open spec fn min_nat(a: int, b: int) -> int {
    if a <= b { a } else { b }
}

pub open spec fn max_int(a: int, b: int) -> int {
    if a >= b { a } else { b }
}

/// Backoff after the `failures`-th consecutive error (for `failures > 1`):
/// the base interval doubled per failure beyond the first, at most five
/// times, and never above [`MAX_BACKOFF_SECS`].
pub open spec fn error_backoff(base: nat, failures: nat) -> int {
    let k = min_nat(failures as int, 6) - 1;
    min_nat((base * pow2(k as nat)) as int, MAX_BACKOFF_SECS as int)
}

/// Rate-limit backoff before jitter, after the `failures`-th rate limit:
/// 30 s doubled per rate limit beyond the first, at most five times, capped
/// at [`MAX_RATE_LIMIT_BACKOFF_SECS`].
pub open spec fn rate_limit_exponential(failures: nat) -> int {
    let k = min_nat(if failures >= 1 { failures - 1 } else { 0 }, 5);
    min_nat((RATE_LIMIT_INITIAL_BACKOFF_SECS * pow2(k as nat)) as int, MAX_RATE_LIMIT_BACKOFF_SECS as int)
}

/// Largest jitter added to an exponential rate-limit backoff: a quarter of
/// it, at least one second.
pub open spec fn jitter_cap(backoff: int) -> int {
    max_int(backoff / 4, 1)
}

/// The wait after a server-given `Retry-After`.
pub open spec fn retry_after_wait(secs: u64) -> int {
    max_int(secs as int, MIN_RETRY_AFTER_SECS as int)
}

/// `2^k` for small `k`.
fn pow2_exec(k: u32) -> (r: u64)
    requires
        k <= 6,
    ensures
        r == pow2(k as nat),
        r <= 64,
{
    let mut r: u64 = 1;
    let mut i: u32 = 0;
    while i < k
        invariant
            i <= k <= 6,
            r == pow2(i as nat),
            r <= pow2(i as nat),
            pow2(i as nat) <= 64,
        decreases k - i,
    {
        proof {
            lemma_pow2_small(i as nat + 1);
        }
        r = r * 2;
        i = i + 1;
    }
    r
}

proof fn lemma_pow2_small(k: nat)
    requires
        k <= 6,
    ensures
        1 <= pow2(k) <= 64,
        k <= 5 ==> pow2(k) <= 32,
{
    reveal_with_fuel(pow2, 7);
}

/// Draws the jitter for a rate-limit backoff: a number from `0` to `max`,
/// inclusive. Calls `rand::random_range` (the thread-local generator) with
/// the range `0..=max`, which is never empty; the value depends on chance,
/// so only its range is stated.
#[verifier::external_body]
fn random_jitter(max: u64) -> (j: u64)
    ensures
        j <= max,
{
    rand::random_range(0..=max)
}

/// The exponential rate-limit backoff before jitter.
pub fn rate_limit_exponential_backoff(failures: u32) -> (r: u64)
    ensures
        r == rate_limit_exponential(failures as nat),
        RATE_LIMIT_INITIAL_BACKOFF_SECS <= r <= MAX_RATE_LIMIT_BACKOFF_SECS,
{
    let k = if failures >= 1 { failures - 1 } else { 0 };
    let k = if k < 5 { k } else { 5 };
    let p = pow2_exec(k);
    proof {
        lemma_pow2_small(k as nat);
    }
    let b = RATE_LIMIT_INITIAL_BACKOFF_SECS * p;
    if b < MAX_RATE_LIMIT_BACKOFF_SECS { b } else { MAX_RATE_LIMIT_BACKOFF_SECS }
}

/// The backoff after `failures` consecutive errors (`failures > 1`).
pub fn error_backoff_secs(base: u64, failures: u32) -> (r: u64)
    requires
        failures >= 1,
        base * pow2((min_nat(failures as int, 6) - 1) as nat) <= u64::MAX,
    ensures
        r == error_backoff(base as nat, failures as nat),
        r <= MAX_BACKOFF_SECS,
{
    let k = if failures < 6 { failures } else { 6 };
    let p = pow2_exec(k - 1);
    proof {
        lemma_pow2_small((k - 1) as nat);
    }
    let b = base * p;
    if b < MAX_BACKOFF_SECS { b } else { MAX_BACKOFF_SECS }
}

/// The state right after the first poll, which runs as soon as the poller
/// starts. A rate limit on that first poll waits the server's `Retry-After`
/// (30 s when absent, at least 5 s) and is announced; refused credentials
/// stop the poller; any other outcome starts the regular interval. An error
/// on the first poll is not counted.
pub fn poller_start(initial_interval_secs: u64, first: PollOutcome) -> (res: (PollerState, PollerAction))
    requires
        initial_interval_secs >= 1,
    ensures
        res.0.wf(),
        res.0.base_interval_secs == initial_interval_secs,
        res.0.consecutive_failures == 0,
        res.1.reset_period_secs == Some(res.0.period_secs),
        res.1.stop <==> first is AuthFailure,
        match first {
            PollOutcome::RateLimit { retry_after_secs } => {
                let secs = retry_after_wait(
                    match retry_after_secs {
                        Some(s) => s,
                        None => RATE_LIMIT_INITIAL_BACKOFF_SECS,
                    },
                );
                &&& res.0.is_rate_limited
                &&& res.0.rate_limit_failures == 1
                &&& res.0.period_secs == secs
                &&& res.1.notice == Some(PollerNotice::RateLimited { retry_after_secs: secs as u64 })
            },
            _ => {
                &&& !res.0.is_rate_limited
                &&& res.0.rate_limit_failures == 0
                &&& res.0.period_secs == initial_interval_secs
                &&& res.1.notice.is_none()
            },
        },
{
    match first {
        PollOutcome::RateLimit { retry_after_secs } => {
            let raw = match retry_after_secs {
                Some(s) => s,
                None => RATE_LIMIT_INITIAL_BACKOFF_SECS,
            };
            let secs = if raw > MIN_RETRY_AFTER_SECS { raw } else { MIN_RETRY_AFTER_SECS };
            let st = PollerState {
                base_interval_secs: initial_interval_secs,
                consecutive_failures: 0,
                rate_limit_failures: 1,
                is_rate_limited: true,
                period_secs: secs,
            };
            (st, PollerAction {
                notice: Some(PollerNotice::RateLimited { retry_after_secs: secs }),
                reset_period_secs: Some(secs),
                stop: false,
            })
        },
        _ => {
            let st = PollerState {
                base_interval_secs: initial_interval_secs,
                consecutive_failures: 0,
                rate_limit_failures: 0,
                is_rate_limited: false,
                period_secs: initial_interval_secs,
            };
            let stop = match first {
                PollOutcome::AuthFailure => true,
                _ => false,
            };
            (st, PollerAction { notice: None, reset_period_secs: Some(initial_interval_secs), stop })
        },
    }
}

/// The state after a tick whose poll failed with an error: the rate limit
/// is no longer in force, the error is counted, and from the second error
/// in a row on the period is the error backoff.
pub open spec fn after_error(s: PollerState) -> PollerState {
    let failures = s.consecutive_failures + 1;
    PollerState {
        consecutive_failures: failures as u32,
        is_rate_limited: false,
        period_secs: if failures > 1 {
            error_backoff(s.base_interval_secs as nat, failures as nat) as u64
        } else {
            s.period_secs
        },
        ..s
    }
}

/// The state after `k` ticks in a row whose polls failed with an error.
pub open spec fn after_errors(s: PollerState, k: nat) -> PollerState
    decreases k,
{
    if k == 0 {
        s
    } else {
        after_error(after_errors(s, (k - 1) as nat))
    }
}

/// Whether a state can take one more tick with `outcome` without a counter
/// or the error backoff overflowing.
pub open spec fn can_tick(s: PollerState, outcome: PollOutcome) -> bool {
    &&& s.wf()
    &&& match outcome {
        PollOutcome::Success => true,
        PollOutcome::AuthFailure => true,
        PollOutcome::RateLimit { .. } => s.rate_limit_failures < u32::MAX,
        PollOutcome::Error => {
            &&& s.consecutive_failures < u32::MAX
            &&& s.base_interval_secs * pow2(
                (min_nat(s.consecutive_failures + 1, 6) - 1) as nat,
            ) <= u64::MAX
        },
    }
}

/// The largest jitter drawn after the `failures`-th rate limit without a
/// `Retry-After`.
pub fn rate_limit_jitter_cap(failures: u32) -> (r: u64)
    ensures
        r == jitter_cap(rate_limit_exponential(failures as nat)),
{
    let e = rate_limit_exponential_backoff(failures);
    let quarter = e / 4;
    if quarter > 1 { quarter } else { 1 }
}

/// The step after a regular tick's poll, given the jitter drawn for a rate
/// limit without `Retry-After` (ignored otherwise).
///
/// - Success: the error count goes to zero; a rate limit in force is lifted
///   and announced as cleared; a backed-off timer returns to the base interval.
/// - Rate limit: counted; the wait is the server's `Retry-After` (at least
///   5 s), or else the exponential rate-limit backoff plus `jitter`; the
///   wait is announced and the timer restarts.
/// - Error: the rate limit is no longer in force and the error is counted;
///   from the second error in a row on, the timer backs off exponentially.
pub fn poller_after_tick_with_jitter(s: PollerState, outcome: PollOutcome, jitter: u64) -> (res: (
    PollerState,
    PollerAction,
))
    requires
        can_tick(s, outcome),
        outcome matches PollOutcome::RateLimit { retry_after_secs: None } ==> jitter <= jitter_cap(
            rate_limit_exponential(s.rate_limit_failures as nat + 1),
        ),
    ensures
        res.0.wf(),
        res.0.base_interval_secs == s.base_interval_secs,
        res.1.reset_period_secs.is_some() ==> res.0.period_secs == res.1.reset_period_secs.unwrap(),
        res.1.reset_period_secs.is_none() ==> res.0.period_secs == s.period_secs,
        res.1.stop <==> outcome is AuthFailure,
        match outcome {
            PollOutcome::AuthFailure => res.0 == s && res.1.notice.is_none() && res.1.reset_period_secs.is_none(),
            PollOutcome::Success => {
                &&& res.0.consecutive_failures == 0
                &&& !res.0.is_rate_limited
                &&& res.0.rate_limit_failures == (if s.is_rate_limited { 0 } else { s.rate_limit_failures })
                &&& res.1.notice == (if s.is_rate_limited { Some(PollerNotice::RateLimitCleared) } else { None })
                &&& res.1.reset_period_secs == (if s.period_secs != s.base_interval_secs {
                    Some(s.base_interval_secs)
                } else {
                    None
                })
            },
            PollOutcome::RateLimit { retry_after_secs } => {
                &&& res.0.is_rate_limited
                &&& res.0.rate_limit_failures == s.rate_limit_failures + 1
                &&& res.0.consecutive_failures == s.consecutive_failures
                &&& res.1.reset_period_secs is Some
                &&& res.1.notice == Some(PollerNotice::RateLimited { retry_after_secs: res.0.period_secs })
                &&& match retry_after_secs {
                    Some(secs) => res.0.period_secs == retry_after_wait(secs),
                    None => res.0.period_secs == rate_limit_exponential(res.0.rate_limit_failures as nat)
                        + jitter,
                }
            },
            PollOutcome::Error => {
                &&& res.0 == after_error(s)
                &&& !res.0.is_rate_limited
                &&& res.0.consecutive_failures == s.consecutive_failures + 1
                &&& res.0.rate_limit_failures == s.rate_limit_failures
                &&& res.1.notice.is_none()
                &&& res.1.reset_period_secs == (if res.0.consecutive_failures > 1 {
                    Some(error_backoff(s.base_interval_secs as nat, res.0.consecutive_failures as nat) as u64)
                } else {
                    None
                })
            },
        },
{
    match outcome {
        PollOutcome::AuthFailure => (s, PollerAction { notice: None, reset_period_secs: None, stop: true }),
        PollOutcome::Success => {
            let cleared = s.is_rate_limited;
            let reset = if s.period_secs != s.base_interval_secs {
                Some(s.base_interval_secs)
            } else {
                None
            };
            let st = PollerState {
                base_interval_secs: s.base_interval_secs,
                consecutive_failures: 0,
                rate_limit_failures: if cleared { 0 } else { s.rate_limit_failures },
                is_rate_limited: false,
                period_secs: s.base_interval_secs,
            };
            (st, PollerAction {
                notice: if cleared { Some(PollerNotice::RateLimitCleared) } else { None },
                reset_period_secs: reset,
                stop: false,
            })
        },
        PollOutcome::RateLimit { retry_after_secs } => {
            let failures = s.rate_limit_failures + 1;
            let wait = match retry_after_secs {
                Some(secs) => if secs > MIN_RETRY_AFTER_SECS { secs } else { MIN_RETRY_AFTER_SECS },
                None => {
                    let e = rate_limit_exponential_backoff(failures);
                    e + jitter
                },
            };
            let st = PollerState {
                base_interval_secs: s.base_interval_secs,
                consecutive_failures: s.consecutive_failures,
                rate_limit_failures: failures,
                is_rate_limited: true,
                period_secs: wait,
            };
            (st, PollerAction {
                notice: Some(PollerNotice::RateLimited { retry_after_secs: wait }),
                reset_period_secs: Some(wait),
                stop: false,
            })
        },
        PollOutcome::Error => {
            let failures = s.consecutive_failures + 1;
            let reset = if failures > 1 {
                let b = error_backoff_secs(s.base_interval_secs, failures);
                proof {
                    lemma_error_backoff_positive(s.base_interval_secs as nat, failures as nat);
                }
                Some(b)
            } else {
                None
            };
            let st = PollerState {
                base_interval_secs: s.base_interval_secs,
                consecutive_failures: failures,
                rate_limit_failures: s.rate_limit_failures,
                is_rate_limited: false,
                period_secs: match reset {
                    Some(b) => b,
                    None => s.period_secs,
                },
            };
            (st, PollerAction { notice: None, reset_period_secs: reset, stop: false })
        },
    }
}

/// The step after a regular tick's poll, as
/// [`poller_after_tick_with_jitter`] says, with the jitter of a rate limit
/// without `Retry-After` drawn at random, from 0 to a quarter of the
/// exponential backoff (at least 1 s).
pub fn poller_after_tick(s: PollerState, outcome: PollOutcome) -> (res: (PollerState, PollerAction))
    requires
        can_tick(s, outcome),
    ensures
        res.0.wf(),
        res.0.base_interval_secs == s.base_interval_secs,
        res.1.reset_period_secs.is_some() ==> res.0.period_secs == res.1.reset_period_secs.unwrap(),
        res.1.reset_period_secs.is_none() ==> res.0.period_secs == s.period_secs,
        res.1.stop <==> outcome is AuthFailure,
        match outcome {
            PollOutcome::AuthFailure => res.0 == s && res.1.notice.is_none() && res.1.reset_period_secs.is_none(),
            PollOutcome::Success => {
                &&& res.0.consecutive_failures == 0
                &&& !res.0.is_rate_limited
                &&& res.0.rate_limit_failures == (if s.is_rate_limited { 0 } else { s.rate_limit_failures })
                &&& res.1.notice == (if s.is_rate_limited { Some(PollerNotice::RateLimitCleared) } else { None })
                &&& res.1.reset_period_secs == (if s.period_secs != s.base_interval_secs {
                    Some(s.base_interval_secs)
                } else {
                    None
                })
            },
            PollOutcome::RateLimit { retry_after_secs } => {
                &&& res.0.is_rate_limited
                &&& res.0.rate_limit_failures == s.rate_limit_failures + 1
                &&& res.0.consecutive_failures == s.consecutive_failures
                &&& res.1.reset_period_secs is Some
                &&& res.1.notice == Some(PollerNotice::RateLimited { retry_after_secs: res.0.period_secs })
                &&& match retry_after_secs {
                    Some(secs) => res.0.period_secs == retry_after_wait(secs),
                    None => {
                        let e = rate_limit_exponential(res.0.rate_limit_failures as nat);
                        e <= res.0.period_secs <= e + jitter_cap(e)
                    },
                }
            },
            PollOutcome::Error => {
                &&& res.0 == after_error(s)
                &&& !res.0.is_rate_limited
                &&& res.0.consecutive_failures == s.consecutive_failures + 1
                &&& res.0.rate_limit_failures == s.rate_limit_failures
                &&& res.1.notice.is_none()
                &&& res.1.reset_period_secs == (if res.0.consecutive_failures > 1 {
                    Some(error_backoff(s.base_interval_secs as nat, res.0.consecutive_failures as nat) as u64)
                } else {
                    None
                })
            },
        },
{
    let jitter = match outcome {
        PollOutcome::RateLimit { retry_after_secs: None } => random_jitter(
            rate_limit_jitter_cap(s.rate_limit_failures + 1),
        ),
        _ => 0,
    };
    poller_after_tick_with_jitter(s, outcome, jitter)
}

/// The step after a message on the control channel: `None` stops the
/// poller (the result is `None`); `Some(secs)` makes `secs` the new base
/// interval, clears every counter and restarts the timer with it.
pub fn poller_on_signal(s: PollerState, signal: Option<u64>) -> (res: Option<(PollerState, PollerAction)>)
    requires
        signal matches Some(secs) ==> secs >= 1,
    ensures
        signal.is_none() <==> res.is_none(),
        signal matches Some(secs) ==> res == Some((
            PollerState {
                base_interval_secs: secs,
                consecutive_failures: 0,
                rate_limit_failures: 0,
                is_rate_limited: false,
                period_secs: secs,
            },
            PollerAction { notice: None, reset_period_secs: Some(secs), stop: false },
        )),
{
    match signal {
        None => None,
        Some(secs) => Some((
            PollerState {
                base_interval_secs: secs,
                consecutive_failures: 0,
                rate_limit_failures: 0,
                is_rate_limited: false,
                period_secs: secs,
            },
            PollerAction { notice: None, reset_period_secs: Some(secs), stop: false },
        )),
    }
}

/// What a poll's fetch result means to the poller.
pub fn poll_outcome_of<T>(result: &Result<T, FetchError>) -> (o: PollOutcome)
    ensures
        o == match result {
            Ok(_) => PollOutcome::Success,
            Err(FetchError::RateLimit { retry_after_secs }) => PollOutcome::RateLimit { retry_after_secs: *retry_after_secs },
            Err(FetchError::Auth(_)) => PollOutcome::AuthFailure,
            Err(FetchError::Other(_)) => PollOutcome::Error,
        },
{
    match result {
        Ok(_) => PollOutcome::Success,
        Err(FetchError::RateLimit { retry_after_secs }) => PollOutcome::RateLimit { retry_after_secs: *retry_after_secs },
        Err(FetchError::Auth(_)) => PollOutcome::AuthFailure,
        Err(FetchError::Other(_)) => PollOutcome::Error,
    }
}

proof fn lemma_error_backoff_positive(base: nat, failures: nat)
    requires
        base >= 1,
        failures >= 1,
    ensures
        error_backoff(base, failures) >= 1,
{
    let k = min_nat(failures as int, 6) - 1;
    lemma_pow2_small(k as nat);
    assert(base * pow2(k as nat) >= 1) by (nonlinear_arith)
        requires base >= 1, pow2(k as nat) >= 1;
}


proof fn lemma_pow2_monotone(a: nat, b: nat)
    requires
        a <= b,
    ensures
        pow2(a) <= pow2(b),
    decreases b,
{
    if a < b {
        lemma_pow2_monotone(a, (b - 1) as nat);
    }
}

/// The error backoff never exceeds 15 minutes, never drops below one
/// The error backoff over a streak of `f` errors: the base interval for the
/// first, doubled by each further error up to the sixth and unchanged after
/// it, and never above 15 minutes (900 s). In particular the second error
/// in a row doubles the base interval, whatever the base, up to 900 s.
pub proof fn law_error_backoff_doubles(base: nat, f: nat)
    requires
        base >= 1,
        f >= 1,
    ensures
        error_backoff(base, 1) == (if base <= 900 { base as int } else { 900 }),
        error_backoff(base, 2) == (if 2 * base <= 900 { 2 * base } else { 900 }),
        f < 6 ==> error_backoff(base, f + 1) == (if 2 * error_backoff(base, f) <= 900 {
            2 * error_backoff(base, f)
        } else {
            900
        }),
        f >= 6 ==> error_backoff(base, f) == error_backoff(base, 6),
        error_backoff(base, f) <= 900,
        error_backoff(base, f) >= (if base <= 900 { base as int } else { 900 }),
{
    reveal_with_fuel(pow2, 3);
    lemma_pow2_small(0);
    lemma_pow2_small(1);
    assert(pow2(0) == 1 && pow2(1) == 2);
    assert(min_nat(1, 6) - 1 == 0 && min_nat(2, 6) - 1 == 1);
    assert(base * pow2(0) == base && base * pow2(1) == 2 * base) by (nonlinear_arith)
        requires pow2(0) == 1, pow2(1) == 2;
    assert(error_backoff(base, 1) == min_nat(base as int, 900));
    assert(error_backoff(base, 2) == min_nat((2 * base) as int, 900));
    if f < 6 {
        let k = (f - 1) as nat;
        let p = pow2(k);
        assert(pow2(k + 1) == 2 * p);
        assert(base * pow2(k + 1) == 2 * (base * p)) by (nonlinear_arith)
            requires pow2(k + 1) == 2 * p;
    }
    let k = (min_nat(f as int, 6) - 1) as nat;
    lemma_pow2_monotone(0, k);
    assert(base * pow2(k) >= base) by (nonlinear_arith)
        requires pow2(k) >= 1;
}

/// On a fresh streak (after a start, a success or a new interval), the
/// second error in a row restarts the timer with twice the base interval,
/// at most 900 s.
pub proof fn law_second_error_doubles_interval(s: PollerState)
    requires
        s.consecutive_failures == 0,
        s.base_interval_secs >= 1,
    ensures
        after_errors(s, 2).period_secs == (if 2 * s.base_interval_secs <= 900 {
            2 * s.base_interval_secs
        } else {
            900
        }),
        after_errors(s, 1).period_secs == s.period_secs,
{
    law_error_backoff_over_ticks(s, 1);
    law_error_backoff_over_ticks(s, 2);
    law_error_backoff_doubles(s.base_interval_secs as nat, 2);
}

/// Errors in a row, counted from a state without errors (the start, a
/// success or a new interval): the `k`-th error counts `k`; the first
/// leaves the period as it was, and from the second on the period is the
/// base interval doubled per error beyond the first, at most five times,
/// and never above 15 minutes.
pub proof fn law_error_backoff_over_ticks(s: PollerState, k: nat)
    requires
        s.consecutive_failures == 0,
        1 <= k < u32::MAX,
    ensures
        after_errors(s, k).consecutive_failures == k,
        after_errors(s, k).base_interval_secs == s.base_interval_secs,
        !after_errors(s, k).is_rate_limited,
        after_errors(s, k).period_secs == (if k == 1 {
            s.period_secs as int
        } else {
            error_backoff(s.base_interval_secs as nat, k)
        }),
    decreases k,
{
    if k > 1 {
        law_error_backoff_over_ticks(s, (k - 1) as nat);
        lemma_error_backoff_range(s.base_interval_secs as nat, k);
    } else {
        assert(after_errors(s, 0) == s);
        assert(after_errors(s, 1) == after_error(s));
    }
}

proof fn lemma_error_backoff_range(base: nat, f: nat)
    ensures
        0 <= error_backoff(base, f) <= MAX_BACKOFF_SECS,
{
    let k = min_nat(f as int, 6) - 1;
    assert(base * pow2(k as nat) >= 0) by (nonlinear_arith);
}

/// second, and never shrinks as errors keep coming.
pub proof fn law_error_backoff_bounded_and_monotone(base: nat, f: nat, g: nat)
    requires
        base >= 1,
        1 <= f <= g,
    ensures
        1 <= error_backoff(base, f) <= error_backoff(base, g) <= MAX_BACKOFF_SECS,
{
    lemma_error_backoff_positive(base, f);
    let kf = min_nat(f as int, 6) - 1;
    let kg = min_nat(g as int, 6) - 1;
    lemma_pow2_monotone(kf as nat, kg as nat);
    assert(base * pow2(kf as nat) <= base * pow2(kg as nat)) by (nonlinear_arith)
        requires pow2(kf as nat) <= pow2(kg as nat);
}

/// The exponential rate-limit backoff stays between 30 s and 10 min and
/// never shrinks as rate limits keep coming; with its jitter the wait never
/// exceeds 750 s.
pub proof fn law_rate_limit_backoff_bounded_and_monotone(f: nat, g: nat)
    requires
        f <= g,
    ensures
        RATE_LIMIT_INITIAL_BACKOFF_SECS <= rate_limit_exponential(f) <= rate_limit_exponential(g)
            <= MAX_RATE_LIMIT_BACKOFF_SECS,
        rate_limit_exponential(g) + jitter_cap(rate_limit_exponential(g)) <= 750,
{
    let kf = min_nat(if f >= 1 { f - 1 } else { 0 }, 5);
    let kg = min_nat(if g >= 1 { g - 1 } else { 0 }, 5);
    lemma_pow2_small(kf as nat);
    lemma_pow2_monotone(kf as nat, kg as nat);
}

/// Whatever a rate-limited poll reports, the poller waits at least 5 s
/// before polling again; when the server names no wait, at least 30 s and at
/// most 750 s.
pub proof fn law_rate_limit_wait_bounds(retry_after_secs: Option<u64>, failures: nat, wait: int)
    requires
        match retry_after_secs {
            Some(secs) => wait == retry_after_wait(secs),
            None => {
                let e = rate_limit_exponential(failures);
                e <= wait <= e + jitter_cap(e)
            },
        },
    ensures
        wait >= MIN_RETRY_AFTER_SECS,
        retry_after_secs.is_none() ==> RATE_LIMIT_INITIAL_BACKOFF_SECS <= wait <= 750,
{
    if retry_after_secs.is_none() {
        law_rate_limit_backoff_bounded_and_monotone(failures, failures);
    }
}

} // verus!
