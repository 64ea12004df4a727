use claude_usage::helper::CookieError;
use claude_usage::keychain::{CredentialError, CredentialOrigin, NotOAuthToken};
use claude_usage::oauth::RefreshError;
use claude_usage::usage::UsageApiError;

fn s(x: &str) -> String {
    x.to_string()
}

#[test]
fn not_oauth_sentence_names_the_source() {
    let e = NotOAuthToken { source: s("keychain") };
    assert_eq!(e.message("Acme"), "Acme OAuth token from keychain is not an OAuth access token.");
}

#[test]
fn credential_sentences_follow_origin() {
    let m = CredentialError::MissingAccessToken;
    assert_eq!(m.message("Acme", CredentialOrigin::AppStore), "Keychain entry missing access token.");
    assert_eq!(m.message("Acme", CredentialOrigin::CliKeychain), "Acme keychain entry missing access token.");
    assert_eq!(m.message("Acme", CredentialOrigin::CliFile), "Acme credentials file has no accessToken.");
    assert_eq!(m.message("Acme", CredentialOrigin::UsageFetch), "Acme credentials are missing accessToken.");
    let x = CredentialError::ExpiredWithoutRefreshToken;
    assert_eq!(
        x.message("Acme", CredentialOrigin::AppStore),
        "Acme token is expired and no refresh token available."
    );
    assert_eq!(
        x.message("Acme", CredentialOrigin::CliKeychain),
        "Acme keychain token is expired and no refresh token available."
    );
    assert_eq!(
        x.message("Acme", CredentialOrigin::CliFile),
        "Acme file token is expired and no refresh token available."
    );
    assert_eq!(
        CredentialError::MissingProfileScope.message("Acme", CredentialOrigin::CliKeychain),
        "Acme OAuth token from keychain is missing user:profile scope."
    );
    assert_eq!(
        CredentialError::Unparsable(s("eof")).message("Acme", CredentialOrigin::CliFile),
        "Failed to parse Acme credentials JSON: eof"
    );
    assert_eq!(
        CredentialError::MissingOAuthObject.message("Acme", CredentialOrigin::CliKeychain),
        "Acme keychain entry missing claudeAiOauth object."
    );
    assert_eq!(
        CredentialError::KeychainUnsupported.message("Acme", CredentialOrigin::CliKeychain),
        "Acme keychain OAuth is only supported on macOS."
    );
    assert_eq!(
        CredentialError::NotOAuthToken(NotOAuthToken { source: s("credentials file") })
            .message("Acme", CredentialOrigin::CliFile),
        "Acme OAuth token from credentials file is not an OAuth access token."
    );
}

#[test]
fn refresh_and_usage_sentences() {
    assert_eq!(RefreshError::MissingAccessToken.message("Acme"), "Token refresh response missing access_token.");
    assert_eq!(
        UsageApiError::MissingScope(s("needs scope")).message("Acme", "acme"),
        "Token missing required scope. needs scope. Re-run `acme login` or create a token with the user:profile scope."
    );
    assert_eq!(UsageApiError::Api(s("boom")).message("Acme", "acme"), "Acme API error: boom");
    assert_eq!(
        UsageApiError::Http { status_text: s("502 Bad Gateway"), quoted_body: s("oops") }.message("Acme", "acme"),
        "Acme OAuth API returned HTTP 502 Bad Gateway. oops"
    );
}

#[test]
fn cookie_sentences() {
    assert_eq!(
        CookieError::NoCursorSession.message("x.ai"),
        "No Cursor session cookie found. Make sure you are logged into cursor.com in your browser."
    );
    assert_eq!(
        CookieError::NoSessionKey.message("x.ai"),
        "No x.ai sessionKey cookie found. Log into x.ai in your browser."
    );
}
