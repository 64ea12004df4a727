use claude_usage::usage::{usage_fetch_next, UsageFetchAction, UsageFetchPhase};
use claude_usage::json::Json;
use claude_usage::keychain::CredentialError;
use claude_usage::models::{ClaudeCredentials, ClaudeOAuthBlob, ClaudeProfileOrganization, UsageWindowResets};
use claude_usage::usage::{
    bearer, credentials_access_token, extract_reset_from_window_value, extract_window_reset,
    needs_token_retry, plan_display_from_profile, refreshed_access_token, retry_refresh_token,
    server_error_message, usage_api_error, usage_window_reset, UsageApiError,
};

fn s(x: &str) -> String {
    x.to_string()
}

fn obj(members: Vec<(&str, Json)>) -> Json {
    Json::Object(members.into_iter().map(|(k, v)| (k.to_string(), v)).collect())
}

fn org(t: Option<&str>, tier: Option<&str>) -> ClaudeProfileOrganization {
    ClaudeProfileOrganization { organization_type: t.map(s), rate_limit_tier: tier.map(s) }
}

#[test]
fn plan_names_with_multiplier() {
    assert_eq!(plan_display_from_profile(&org(Some("claude_max"), Some("default_claude_max_20x"))), Some(s("Max 20X")));
    assert_eq!(plan_display_from_profile(&org(None, Some("max_5x_y"))), Some(s("Max 5X")));
    assert_eq!(plan_display_from_profile(&org(None, Some("max_+7x"))), Some(s("Max +7X")));
    assert_eq!(plan_display_from_profile(&org(None, Some("max_x"))), Some(s("Max")));
    assert_eq!(plan_display_from_profile(&org(None, Some("max_99999999999x"))), Some(s("Max")));
}

#[test]
fn plan_names_without_multiplier() {
    assert_eq!(plan_display_from_profile(&org(None, Some("default_claude_pro"))), Some(s("Pro")));
    assert_eq!(plan_display_from_profile(&org(Some("claude_team"), None)), Some(s("Team")));
    assert_eq!(plan_display_from_profile(&org(Some("enterprise"), Some("pro"))), Some(s("Pro")));
    assert_eq!(plan_display_from_profile(&org(Some("enterprise"), None)), Some(s("Enterprise")));
    assert_eq!(plan_display_from_profile(&org(Some("business"), Some("basic_2x"))), Some(s("business")));
    assert_eq!(plan_display_from_profile(&org(None, None)), None);
    assert_eq!(plan_display_from_profile(&org(Some(""), Some("free"))), None);
}

#[test]
fn typed_window_reset_order() {
    let w = UsageWindowResets { reset_at: None, resets_at: Some(s("b")), reset_time: Some(s("c")) };
    assert_eq!(usage_window_reset(&w), Some(s("b")));
    let w = UsageWindowResets { reset_at: Some(s("a")), resets_at: Some(s("b")), reset_time: None };
    assert_eq!(usage_window_reset(&w), Some(s("a")));
    let w = UsageWindowResets { reset_at: None, resets_at: None, reset_time: None };
    assert_eq!(usage_window_reset(&w), None);
}

#[test]
fn loose_window_reset_skips_non_strings() {
    let w = obj(vec![("resets_at", Json::Number(s("5"))), ("reset_time", Json::Str(s("t")))]);
    assert_eq!(extract_reset_from_window_value(&w), Some(s("t")));
    let w = obj(vec![("resets_in", Json::Str(s("2h")))]);
    assert_eq!(extract_reset_from_window_value(&w), Some(s("2h")));
    assert_eq!(extract_reset_from_window_value(&Json::Number(s("40"))), None);
}

#[test]
fn window_reset_falls_through_keys() {
    let root = obj(vec![
        ("five_hour", obj(vec![("utilization", Json::Number(s("12")))])),
        ("current_session", obj(vec![("reset_at", Json::Str(s("r")))])),
    ]);
    assert_eq!(extract_window_reset(&root, &["five_hour", "current_session"]), Some(s("r")));
    assert_eq!(extract_window_reset(&root, &["seven_day", "current_week"]), None);
}

#[test]
fn usage_errors_are_classified() {
    let scope = Some(obj(vec![("error", obj(vec![("message", Json::Str(s("missing scope user:profile")))]))]));
    match usage_api_error("403 Forbidden", "{}", &scope) {
        UsageApiError::MissingScope(m) => assert_eq!(m, "missing scope user:profile"),
        other => panic!("{:?}", other),
    }
    let api = Some(obj(vec![("error", obj(vec![("message", Json::Str(s("boom")))]))]));
    assert!(matches!(usage_api_error("500", "{}", &api), UsageApiError::Api(m) if m == "boom"));
    let body = "x".repeat(300);
    match usage_api_error("502 Bad Gateway", &body, &None) {
        UsageApiError::Http { status_text, quoted_body } => {
            assert_eq!(status_text, "502 Bad Gateway");
            assert_eq!(quoted_body.len(), 200);
        },
        other => panic!("{:?}", other),
    }
    let no_msg = Some(obj(vec![("error", Json::Str(s("flat")))]));
    assert!(matches!(usage_api_error("500", "e", &no_msg), UsageApiError::Http { .. }));
}

#[test]
fn retry_helpers() {
    assert!(needs_token_retry(401));
    assert!(!needs_token_retry(403));
    let none = ClaudeCredentials { access_token: None, rate_limit_tier: None };
    assert!(matches!(credentials_access_token(&none), Err(CredentialError::MissingAccessToken)));
    assert_eq!(refreshed_access_token(&none).unwrap_err(), "Refresh succeeded but no access token returned.");
    let some = ClaudeCredentials { access_token: Some(s("tok")), rate_limit_tier: None };
    assert_eq!(credentials_access_token(&some).unwrap(), "tok");
    let b = ClaudeOAuthBlob { access_token: None, refresh_token: None, expires_at: None, scopes: None, subscription_type: None, rate_limit_tier: None };
    assert_eq!(retry_refresh_token(&b).unwrap_err(), "No refresh token available for retry.");
    assert_eq!(bearer("abc"), "Bearer abc");
}

#[test]
fn server_message_is_used_without_cutting_the_body() {
    // byte 200 falls inside a two-byte character; the body is not cut
    // because the server's message is reported instead
    let body = format!("{}{}", "a".repeat(199), "é".repeat(60));
    assert!(!body.is_char_boundary(200));
    let parsed = Some(obj(vec![("error", obj(vec![("message", Json::Str(s("quota exceeded")))]))]));
    assert_eq!(server_error_message(&parsed), Some(s("quota exceeded")));
    assert!(matches!(usage_api_error("429", &body, &parsed), UsageApiError::Api(m) if m == "quota exceeded"));
    assert_eq!(server_error_message(&None), None);
}

#[test]
fn multiplier_digits_follow_u32_grammar() {
    let org = |tier: &str| ClaudeProfileOrganization { organization_type: None, rate_limit_tier: Some(s(tier)) };
    assert_eq!(plan_display_from_profile(&org("default_max_+5x")), Some(s("Max +5X")));
    assert_eq!(plan_display_from_profile(&org("default_max_4294967295x")), Some(s("Max 4294967295X")));
    assert_eq!(plan_display_from_profile(&org("default_max_4294967296x")), Some(s("Max")));
    assert_eq!(plan_display_from_profile(&org("default_max_x")), Some(s("Max")));
    assert_eq!(plan_display_from_profile(&org("default_max_2a0x")), Some(s("Max")));
}

#[test]
fn usage_fetch_retries_once_after_401() {
    assert_eq!(usage_fetch_next(UsageFetchPhase::FirstAnswer, 401), UsageFetchAction::RefreshAndRetry);
    assert_eq!(usage_fetch_next(UsageFetchPhase::FirstAnswer, 200), UsageFetchAction::Report { success: true });
    assert_eq!(usage_fetch_next(UsageFetchPhase::FirstAnswer, 403), UsageFetchAction::Report { success: false });
    assert_eq!(usage_fetch_next(UsageFetchPhase::RetriedAnswer, 401), UsageFetchAction::Report { success: false });
    assert_eq!(usage_fetch_next(UsageFetchPhase::RetriedAnswer, 299), UsageFetchAction::Report { success: true });
    assert_eq!(usage_fetch_next(UsageFetchPhase::RetriedAnswer, 300), UsageFetchAction::Report { success: false });
}
