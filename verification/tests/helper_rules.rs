use claude_usage::helper::{
    account_plan_type, claude_config_roots, claude_session_keys, cursor_cookie_header,
    cursor_status_error, extract_org_id, file_credential_step, first_web_usage,
    helper_status_error, keychain_credential_step, oauth_from_keychain_payload, plan_type_from_rate_tier,
    BrowserCookie, CookieError, WebAttempt,
};
use claude_usage::json::Json;
use claude_usage::keychain::CredentialError;
use claude_usage::models::{ClaudeCredentials, ClaudeOAuthBlob};
use claude_usage::oauth::{refresh_request_body, CredentialStep};

fn s(x: &str) -> String {
    x.to_string()
}

fn obj(members: Vec<(&str, Json)>) -> Json {
    Json::Object(members.into_iter().map(|(k, v)| (k.to_string(), v)).collect())
}

fn cookie(n: &str, v: &str) -> BrowserCookie {
    BrowserCookie { name: s(n), value: s(v) }
}

fn blob(access: Option<&str>, refresh: Option<&str>, expires_at: Option<i64>, scopes: Option<Vec<&str>>) -> ClaudeOAuthBlob {
    ClaudeOAuthBlob {
        access_token: access.map(s),
        refresh_token: refresh.map(s),
        expires_at,
        scopes: scopes.map(|v| v.into_iter().map(s).collect()),
        subscription_type: None,
        rate_limit_tier: Some(s("tier")),
    }
}

#[test]
fn plan_type_precedence() {
    assert_eq!(plan_type_from_rate_tier(Some("Default_Claude_MAX_20x")), Some(s("max")));
    assert_eq!(plan_type_from_rate_tier(Some("enterprise_team")), Some(s("enterprise")));
    assert_eq!(plan_type_from_rate_tier(Some("team_pro")), Some(s("team")));
    assert_eq!(plan_type_from_rate_tier(Some("PRO")), Some(s("pro")));
    assert_eq!(plan_type_from_rate_tier(Some("Basic")), Some(s("basic")));
    assert_eq!(plan_type_from_rate_tier(None), None);
}

#[test]
fn org_id_locations() {
    let arr = Json::Array(vec![obj(vec![("uuid", Json::Str(s(""))), ("id", Json::Str(s("o1")))])]);
    assert_eq!(extract_org_id(&arr), Some(s("o1")));
    let nested = obj(vec![("organizations", Json::Array(vec![obj(vec![("organizationId", Json::Str(s("z")))])]))]);
    assert_eq!(extract_org_id(&nested), Some(s("z")));
    assert_eq!(extract_org_id(&obj(vec![("uuid", Json::Str(s("u")))])), Some(s("u")));
    assert_eq!(extract_org_id(&Json::Array(vec![])), None);
    assert_eq!(extract_org_id(&obj(vec![("organizations", Json::Array(vec![]))])), None);
    assert_eq!(extract_org_id(&obj(vec![("id", Json::Number(s("3")))])), None);
}

#[test]
fn account_plan_first_present_key() {
    assert_eq!(account_plan_type(&obj(vec![("plan_type", Json::Str(s("pro")))])), Some(s("pro")));
    assert_eq!(account_plan_type(&obj(vec![("plan", Json::Null), ("plan_type", Json::Str(s("pro")))])), None);
    assert_eq!(account_plan_type(&Json::Null), None);
}

#[test]
fn cursor_cookies_need_a_session() {
    let cs = vec![cookie("a", "1"), cookie("WorkosCursorSessionToken", "tok"), cookie("b", "2")];
    assert_eq!(cursor_cookie_header(&cs), Ok(s("a=1; WorkosCursorSessionToken=tok; b=2")));
    assert_eq!(cursor_cookie_header(&vec![cookie("next-auth.session-token", "x")]), Ok(s("next-auth.session-token=x")));
    assert_eq!(cursor_cookie_header(&vec![cookie("a", "1")]), Err(CookieError::NoCursorSession));
    assert_eq!(cursor_cookie_header(&vec![]), Err(CookieError::NoCursorSession));
}

#[test]
fn session_keys_are_non_empty_values() {
    let cs = vec![cookie("sessionKey", ""), cookie("other", "x"), cookie("sessionKey", "k1"), cookie("sessionKey", "k2")];
    assert_eq!(claude_session_keys(cs), Ok(vec![s("k1"), s("k2")]));
    assert_eq!(claude_session_keys(vec![cookie("sessionKey", "")]), Err(CookieError::NoSessionKey));
}

#[test]
fn cursor_status_classes() {
    assert_eq!(
        cursor_status_error(401, "401 Unauthorized"),
        Some(s("Not logged in. Please log into cursor.com in your browser and try again."))
    );
    assert!(cursor_status_error(403, "403").is_some());
    assert_eq!(cursor_status_error(500, "500 Internal Server Error"), Some(s("Cursor API returned HTTP 500 Internal Server Error")));
    assert_eq!(cursor_status_error(204, "204"), None);
}

#[test]
fn config_roots_are_trimmed_and_non_blank() {
    assert_eq!(claude_config_roots(" /a , ,/b"), vec![s("/a"), s("/b")]);
    assert_eq!(claude_config_roots(""), Vec::<String>::new());
    assert_eq!(claude_config_roots("\t/c\n"), vec![s("/c")]);
    assert_eq!(claude_config_roots("\u{3000}/d\u{a0},\u{85}"), vec![s("/d")]);
}

#[test]
fn refresh_body_is_json_with_client_id() {
    match refresh_request_body("rt1") {
        Json::Object(m) => {
            let pairs: Vec<(String, String)> = m
                .into_iter()
                .map(|(k, v)| match v {
                    Json::Str(x) => (k, x),
                    other => panic!("{:?}", other),
                })
                .collect();
            assert_eq!(
                pairs,
                vec![
                    (s("grant_type"), s("refresh_token")),
                    (s("refresh_token"), s("rt1")),
                    (s("client_id"), s("9d1c250a-e61b-44d9-88ed-5944d1962f5e")),
                ]
            );
        }
        other => panic!("{:?}", other),
    }
}

#[test]
fn keychain_blob_needs_profile_scope() {
    assert!(matches!(
        keychain_credential_step(&blob(Some("sk-ant-oat-1"), None, None, Some(vec!["user:inference"])), 0),
        CredentialStep::Failed(CredentialError::MissingProfileScope)
    ));
    assert!(matches!(
        keychain_credential_step(&blob(Some("sk-ant-oat-1"), None, None, Some(vec!["user:inference", "user:profile"])), 0),
        CredentialStep::Ready(_)
    ));
    assert!(matches!(
        keychain_credential_step(&blob(Some("sk-ant-oat-1"), None, None, None), 0),
        CredentialStep::Ready(_)
    ));
    assert!(matches!(
        keychain_credential_step(&blob(Some("sk-ant-oat-1"), Some("r"), Some(10), None), 0),
        CredentialStep::Refresh(t) if t == "r"
    ));
    assert!(matches!(
        keychain_credential_step(&blob(Some("sk-ant-oat-1"), None, Some(10), None), 0),
        CredentialStep::Failed(CredentialError::ExpiredWithoutRefreshToken)
    ));
}

#[test]
fn credentials_file_layouts() {
    let flat_ok = || Ok(ClaudeCredentials { access_token: Some(s("sk-ant-oat-flat")), rate_limit_tier: None });
    // the nested layout is preferred and may have no scopes
    match file_credential_step(Some(blob(Some("sk-ant-oat-1"), None, None, Some(vec![]))), flat_ok(), 0) {
        CredentialStep::Ready(c) => assert_eq!(c.access_token.as_deref(), Some("sk-ant-oat-1")),
        other => panic!("{:?}", other),
    }
    assert!(matches!(
        file_credential_step(Some(blob(None, None, None, None)), flat_ok(), 0),
        CredentialStep::Failed(CredentialError::MissingAccessToken)
    ));
    match file_credential_step(None, flat_ok(), 0) {
        CredentialStep::Ready(c) => assert_eq!(c.access_token.as_deref(), Some("sk-ant-oat-flat")),
        other => panic!("{:?}", other),
    }
    assert!(matches!(
        file_credential_step(None, Err(s("bad json")), 0),
        CredentialStep::Failed(CredentialError::Unparsable(e)) if e == "bad json"
    ));
    match file_credential_step(None, Ok(ClaudeCredentials { access_token: Some(s("k")), rate_limit_tier: None }), 0) {
        CredentialStep::Failed(CredentialError::NotOAuthToken(e)) => assert_eq!(e.source, "credentials file"),
        other => panic!("{:?}", other),
    }
}

#[test]
fn keychain_payload_object() {
    assert!(matches!(oauth_from_keychain_payload(None), Err(CredentialError::MissingOAuthObject)));
    assert!(oauth_from_keychain_payload(Some(blob(None, None, None, None))).is_ok());
}

#[test]
fn status_errors_name_the_endpoint() {
    assert_eq!(helper_status_error("Svc OAuth API", 200, "200 OK"), None);
    assert_eq!(helper_status_error("Svc OAuth API", 299, "299"), None);
    assert_eq!(
        helper_status_error("Svc OAuth API", 401, "401 Unauthorized"),
        Some(s("Svc OAuth API returned HTTP 401 Unauthorized"))
    );
    assert_eq!(helper_status_error("Svc usage endpoint", 199, "199"), Some(s("Svc usage endpoint returned HTTP 199")));
}

#[test]
fn web_fallback_takes_first_usage() {
    let tries: Vec<WebAttempt<u32>> =
        vec![WebAttempt::Rejected(s("first refused")), WebAttempt::Usage(7), WebAttempt::Failed(s("late"))];
    assert_eq!(first_web_usage(tries).unwrap(), 7);
    let tries: Vec<WebAttempt<u32>> = vec![WebAttempt::Rejected(s("a")), WebAttempt::Failed(s("broken"))];
    assert_eq!(first_web_usage(tries).unwrap_err(), Some(s("broken")));
    let tries: Vec<WebAttempt<u32>> = vec![WebAttempt::Rejected(s("a")), WebAttempt::Rejected(s("b"))];
    assert_eq!(first_web_usage(tries).unwrap_err(), Some(s("b")));
    assert_eq!(first_web_usage(Vec::<WebAttempt<u32>>::new()).unwrap_err(), None);
}

#[test]
fn plan_type_is_idempotent() {
    for tier in ["default_claude_max_20x", "Enterprise_Tier", "TEAM", "pro_plan", "Free", "weird-Tier"] {
        let once = plan_type_from_rate_tier(Some(tier));
        assert_eq!(plan_type_from_rate_tier(once.as_deref()), once);
    }
    assert_eq!(plan_type_from_rate_tier(Some("Free")), Some(s("free")));
}

#[test]
fn expiry_free_blobs_need_no_clock_margin() {
    assert!(matches!(
        keychain_credential_step(&blob(Some("sk-ant-oat-1"), None, None, None), i64::MAX),
        CredentialStep::Ready(_)
    ));
    let flat = Ok(ClaudeCredentials { access_token: Some(s("sk-ant-oat-flat")), rate_limit_tier: None });
    assert!(matches!(file_credential_step(None, flat, i64::MAX), CredentialStep::Ready(_)));
}
