use claude_usage::commands::{force_refresh_report, forced_refresh_token, poll_interval_seconds, save_poll_interval};
use claude_usage::keychain::{
    blob_for_saved_token, load_claude_credentials_from_keychain_sync, seconds_until, store,
    token_info, validate_claude_oauth_access_token, CredentialError, TokenStoreKind,
};
use claude_usage::models::{
    default_display_mode, default_poll_interval, ClaudeCredentials, ClaudeOAuthBlob, SaveTokenInput, Settings,
};
use claude_usage::clock::{millis_to_i64, now_ms};

fn blob(access: Option<&str>, refresh: Option<&str>, expires_at: Option<i64>) -> ClaudeOAuthBlob {
    ClaudeOAuthBlob {
        access_token: access.map(|s| s.to_string()),
        refresh_token: refresh.map(|s| s.to_string()),
        expires_at,
        scopes: None,
        subscription_type: None,
        rate_limit_tier: None,
    }
}

#[test]
fn oauth_tokens_are_accepted() {
    assert!(validate_claude_oauth_access_token("sk-ant-oat01-abc", "keychain").is_ok());
}

#[test]
fn api_keys_are_refused_with_source() {
    let e = validate_claude_oauth_access_token("sk-ant-api03-xyz", "user input").unwrap_err();
    assert_eq!(e.source, "user input");
    assert!(validate_claude_oauth_access_token("", "x").is_err());
    assert!(validate_claude_oauth_access_token("sk-ant-oa", "x").is_err());
}

#[test]
fn saved_token_becomes_blob() {
    let b = blob_for_saved_token(SaveTokenInput {
        access_token: "sk-ant-oat-1".to_string(),
        refresh_token: Some("rt".to_string()),
        expires_at: Some(5),
    })
    .unwrap();
    assert_eq!(b.access_token.as_deref(), Some("sk-ant-oat-1"));
    assert_eq!(b.refresh_token.as_deref(), Some("rt"));
    assert_eq!(b.expires_at, Some(5));
    assert!(b.scopes.is_none() && b.subscription_type.is_none() && b.rate_limit_tier.is_none());
}

#[test]
fn saved_token_must_be_oauth() {
    let r = blob_for_saved_token(SaveTokenInput { access_token: "nope".to_string(), refresh_token: None, expires_at: None });
    assert_eq!(r.err().map(|e| e.source), Some("user input".to_string()));
}

#[test]
fn store_depends_on_build() {
    assert_eq!(store(true), TokenStoreKind::File);
    assert_eq!(store(false), TokenStoreKind::Keychain);
}

#[test]
fn keychain_sync_is_macos_only() {
    assert!(matches!(load_claude_credentials_from_keychain_sync(), Err(CredentialError::KeychainUnsupported)));
}

#[test]
fn settings_defaults() {
    assert_eq!(default_display_mode(), "remaining");
    assert_eq!(default_poll_interval(), 60);
    let s = Settings::default();
    assert_eq!(s.display_mode, "remaining");
    assert_eq!(s.poll_interval_seconds, 60);
}

#[test]
fn poll_interval_units_and_floor() {
    assert_eq!(poll_interval_seconds(5, "minutes"), 300);
    assert_eq!(poll_interval_seconds(2, "hours"), 7200);
    assert_eq!(poll_interval_seconds(45, "seconds"), 45);
    assert_eq!(poll_interval_seconds(3, "seconds"), 10);
    assert_eq!(poll_interval_seconds(0, "hours"), 10);
    let mut s = Settings::default();
    assert_eq!(save_poll_interval(&mut s, 1, "minutes"), 60);
    assert_eq!(s.poll_interval_seconds, 60);
    assert_eq!(s.display_mode, "remaining");
}

#[test]
fn seconds_round_toward_zero() {
    assert_eq!(seconds_until(2_500, 0), 2);
    assert_eq!(seconds_until(0, 2_500), -2);
    assert_eq!(seconds_until(0, 999), 0);
    assert_eq!(seconds_until(0, 1_000), -1);
    assert_eq!(seconds_until(i64::MIN, 0), i64::MIN / 1000);
}

#[test]
fn debug_view_of_token() {
    let info = token_info(&blob(Some("a"), None, Some(100_000)), 50_000);
    assert!(info.has_access_token && !info.has_refresh_token);
    assert_eq!(info.expires_in_seconds, Some(50));
    assert_eq!(info.is_expired, Some(true));
    let info = token_info(&blob(None, Some("r"), Some(200_000)), 50_000);
    assert_eq!(info.is_expired, Some(false));
    let mut tiered = blob(None, None, None);
    tiered.rate_limit_tier = Some("default_max_5x".to_string());
    assert_eq!(token_info(&tiered, 1).rate_limit_tier, Some("default_max_5x".to_string()));
    assert_eq!(token_info(&blob(None, None, Some(5)), 0).rate_limit_tier, None);
    assert!(token_info(&blob(None, None, None), i64::MAX).is_expired.is_none());
    let info = token_info(&blob(None, None, None), 1);
    assert_eq!(info.expires_in_seconds, None);
    assert_eq!(info.is_expired, None);
}

#[test]
fn force_refresh_needs_refresh_token() {
    assert_eq!(forced_refresh_token(&blob(Some("a"), None, None)).err(), Some("No refresh token stored.".to_string()));
    assert_eq!(forced_refresh_token(&blob(None, Some("r1"), None)), Ok("r1".to_string()));
    let report = force_refresh_report(
        &ClaudeCredentials { access_token: Some("a".to_string()), rate_limit_tier: None },
        &blob(Some("a"), Some("r2"), Some(10_000)),
        4_000,
    );
    assert!(report.success && report.has_new_access_token && report.has_new_refresh_token);
    assert_eq!(report.expires_in_seconds, Some(6));
}

#[test]
fn clock_reads_after_epoch() {
    assert!(now_ms() > 1_600_000_000_000);
    assert_eq!(millis_to_i64(None), 0);
    assert_eq!(millis_to_i64(Some(12)), 12);
    assert_eq!(millis_to_i64(Some(u128::MAX)), -1);
}
