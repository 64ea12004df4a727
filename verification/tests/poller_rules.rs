use claude_usage::poller::{
    error_backoff_secs, poll_outcome_of, poller_after_tick, poller_after_tick_with_jitter, poller_on_signal,
    poller_start, rate_limit_exponential_backoff, rate_limit_jitter_cap, FetchError, PollOutcome, PollerAction, PollerNotice,
    PollerState,
};

fn state(base: u64, cf: u32, rlf: u32, rl: bool, period: u64) -> PollerState {
    PollerState {
        base_interval_secs: base,
        consecutive_failures: cf,
        rate_limit_failures: rlf,
        is_rate_limited: rl,
        period_secs: period,
    }
}

#[test]
fn start_with_success_uses_base_interval() {
    let (s, a) = poller_start(60, PollOutcome::Success);
    assert_eq!(s, state(60, 0, 0, false, 60));
    assert_eq!(a, PollerAction { notice: None, reset_period_secs: Some(60), stop: false });
}

#[test]
fn start_with_error_is_not_counted() {
    let (s, _) = poller_start(60, PollOutcome::Error);
    assert_eq!(s.consecutive_failures, 0);
    assert_eq!(s.period_secs, 60);
}

#[test]
fn start_rate_limited_without_retry_after_waits_thirty_seconds() {
    let (s, a) = poller_start(60, PollOutcome::RateLimit { retry_after_secs: None });
    assert_eq!(s, state(60, 0, 1, true, 30));
    assert_eq!(a.notice, Some(PollerNotice::RateLimited { retry_after_secs: 30 }));
}

#[test]
fn start_rate_limited_retry_after_zero_is_clamped() {
    let (s, a) = poller_start(60, PollOutcome::RateLimit { retry_after_secs: Some(0) });
    assert_eq!(s.period_secs, 5);
    assert_eq!(a.reset_period_secs, Some(5));
}

#[test]
fn error_backoff_doubles_and_caps() {
    assert_eq!(error_backoff_secs(60, 2), 120);
    assert_eq!(error_backoff_secs(60, 3), 240);
    assert_eq!(error_backoff_secs(60, 4), 480);
    assert_eq!(error_backoff_secs(60, 5), 900);
    assert_eq!(error_backoff_secs(10, 6), 320);
    assert_eq!(error_backoff_secs(10, 50), 320);
}

#[test]
fn rate_limit_backoff_doubles_and_caps() {
    let got: Vec<u64> = (0..9).map(rate_limit_exponential_backoff).collect();
    assert_eq!(got, vec![30, 30, 60, 120, 240, 480, 600, 600, 600]);
}

#[test]
fn first_error_keeps_interval_second_backs_off() {
    let s0 = state(60, 0, 0, false, 60);
    let (s1, a1) = poller_after_tick(s0, PollOutcome::Error);
    assert_eq!(s1.consecutive_failures, 1);
    assert_eq!(a1.reset_period_secs, None);
    let (s2, a2) = poller_after_tick(s1, PollOutcome::Error);
    assert_eq!(s2.consecutive_failures, 2);
    assert_eq!(a2.reset_period_secs, Some(120));
    assert_eq!(s2.period_secs, 120);
}

#[test]
fn success_after_backoff_restores_base_and_clears_rate_limit() {
    let s = state(60, 3, 2, true, 240);
    let (n, a) = poller_after_tick(s, PollOutcome::Success);
    assert_eq!(n, state(60, 0, 0, false, 60));
    assert_eq!(a, PollerAction { notice: Some(PollerNotice::RateLimitCleared), reset_period_secs: Some(60), stop: false });
}

#[test]
fn success_at_base_interval_changes_nothing() {
    let (n, a) = poller_after_tick(state(60, 0, 0, false, 60), PollOutcome::Success);
    assert_eq!(n, state(60, 0, 0, false, 60));
    assert_eq!(a, PollerAction { notice: None, reset_period_secs: None, stop: false });
}

#[test]
fn rate_limit_with_retry_after_is_respected() {
    let (n, a) = poller_after_tick(state(60, 1, 0, false, 60), PollOutcome::RateLimit { retry_after_secs: Some(42) });
    assert_eq!(n, state(60, 1, 1, true, 42));
    assert_eq!(a.notice, Some(PollerNotice::RateLimited { retry_after_secs: 42 }));
}

#[test]
fn rate_limit_without_retry_after_adds_bounded_jitter() {
    for _ in 0..50 {
        let (n, a) = poller_after_tick(state(60, 0, 2, true, 60), PollOutcome::RateLimit { retry_after_secs: None });
        assert_eq!(n.rate_limit_failures, 3);
        assert!(n.period_secs >= 120 && n.period_secs <= 150, "{}", n.period_secs);
        assert_eq!(a.reset_period_secs, Some(n.period_secs));
    }
}

#[test]
fn error_lifts_rate_limit_but_keeps_its_count() {
    let (n, _) = poller_after_tick(state(60, 0, 4, true, 480), PollOutcome::Error);
    assert!(!n.is_rate_limited);
    assert_eq!(n.rate_limit_failures, 4);
}

#[test]
fn signal_reconfigures_or_stops() {
    let s = state(60, 3, 2, true, 240);
    assert!(poller_on_signal(s, None).is_none());
    let (n, a) = poller_on_signal(s, Some(300)).unwrap();
    assert_eq!(n, state(300, 0, 0, false, 300));
    assert_eq!(a.reset_period_secs, Some(300));
}

#[test]
fn fetch_results_map_to_outcomes() {
    let ok: Result<u8, FetchError> = Ok(1);
    assert_eq!(poll_outcome_of(&ok), PollOutcome::Success);
    let rl: Result<u8, FetchError> = Err(FetchError::RateLimit { retry_after_secs: Some(9) });
    assert_eq!(poll_outcome_of(&rl), PollOutcome::RateLimit { retry_after_secs: Some(9) });
    let other: Result<u8, FetchError> = Err(FetchError::Other("x".to_string()));
    assert_eq!(poll_outcome_of(&other), PollOutcome::Error);
    let auth: Result<u8, FetchError> = Err(FetchError::Auth("refused".to_string()));
    assert_eq!(poll_outcome_of(&auth), PollOutcome::AuthFailure);
}

#[test]
fn drawn_jitter_is_added_exactly() {
    assert_eq!(rate_limit_jitter_cap(1), 7);
    assert_eq!(rate_limit_jitter_cap(3), 30);
    assert_eq!(rate_limit_jitter_cap(9), 150);
    let (n, a) = poller_after_tick_with_jitter(state(60, 0, 2, true, 60), PollOutcome::RateLimit { retry_after_secs: None }, 17);
    assert_eq!(n.period_secs, 137);
    assert_eq!(a.notice, Some(PollerNotice::RateLimited { retry_after_secs: 137 }));
    // the jitter is ignored when the server names the wait
    let (n, _) = poller_after_tick_with_jitter(state(60, 0, 2, true, 60), PollOutcome::RateLimit { retry_after_secs: Some(40) }, 17);
    assert_eq!(n.period_secs, 40);
}

#[test]
fn large_base_interval_only_matters_for_error_backoff() {
    let big = u64::MAX / 2;
    let (n, a) = poller_after_tick(state(big, 0, 0, false, big), PollOutcome::Success);
    assert_eq!(n.period_secs, big);
    assert_eq!(a.reset_period_secs, None);
    // the first error does not back off, so nothing is multiplied
    let (n, a) = poller_after_tick(state(big, 0, 0, false, big), PollOutcome::Error);
    assert_eq!(n.consecutive_failures, 1);
    assert_eq!(a.reset_period_secs, None);
}

#[test]
fn refused_credentials_stop_the_poller() {
    let (_, a) = poller_start(60, PollOutcome::AuthFailure);
    assert!(a.stop);
    let s = state(60, 2, 0, false, 120);
    let (n, a) = poller_after_tick(s, PollOutcome::AuthFailure);
    assert_eq!(n, s);
    assert_eq!(a, PollerAction { notice: None, reset_period_secs: None, stop: true });
    let (_, a) = poller_after_tick(s, PollOutcome::Error);
    assert!(!a.stop);
}

#[test]
fn errors_in_a_row_back_off_from_the_second() {
    let mut s = state(60, 0, 0, false, 60);
    let mut periods = Vec::new();
    for _ in 0..8 {
        let (n, _) = poller_after_tick(s, PollOutcome::Error);
        s = n;
        periods.push(s.period_secs);
    }
    assert_eq!(periods, vec![60, 120, 240, 480, 900, 900, 900, 900]);
    assert_eq!(s.consecutive_failures, 8);
}
