//! Rules on stored OAuth tokens: which tokens are accepted, where the blob
//! is kept, and what the debug view reports about it.

use vstd::prelude::*;
use crate::models::{ClaudeOAuthBlob, SaveTokenInput, clone_opt, opt_view};
use crate::text::{has_prefix, starts_with, string_of};
use vstd::string::StringExecFns;

verus! {

/// Every OAuth access token of the service starts with this.
pub open spec fn oauth_token_prefix() -> Seq<char> {
    "sk-ant-oat"@
}

/// A token that is not an OAuth access token; `source` names where it came
/// from (`keychain`, `user input`, `refreshed token`, `credentials file`).
#[derive(Debug)]
pub struct NotOAuthToken {
    pub source: String,
}

/// Accepts `access_token` exactly when it is an OAuth access token (it
/// starts with `sk-ant-oat`); the refusal names `source`.
pub fn validate_claude_oauth_access_token(access_token: &str, source: &str) -> (r: Result<(), NotOAuthToken>)
    ensures
        r.is_ok() <==> has_prefix(access_token@, oauth_token_prefix()),
        r matches Err(e) ==> e.source@ == source@,
{
    proof {
        reveal_strlit("sk-ant-oat");
    }
    if starts_with(access_token, "sk-ant-oat") {
        return Ok(());
    }
    Err(NotOAuthToken { source: string_of(source) })
}

/// The refusal of a token that is not an OAuth access token, for the
/// service named `product`.
pub open spec fn not_oauth_text(product: Seq<char>, source: Seq<char>) -> Seq<char> {
    product + " OAuth token from "@ + source + " is not an OAuth access token."@
}

impl NotOAuthToken {
    /// The refusal as the user reads it, `product` naming the service.
    pub fn message(&self, product: &str) -> (r: String)
        ensures
            r@ == not_oauth_text(product@, self.source@),
    {
        let mut r = string_of(product);
        r.append(" OAuth token from ");
        r.append(self.source.as_str());
        r.append(" is not an OAuth access token.");
        r
    }
}

/// Where the OAuth blob is kept.
#[derive(PartialEq, Eq, Structural, Clone, Copy, Debug)]
pub enum TokenStoreKind {
    /// A JSON file in the user's configuration directory.
    File,
    /// The macOS keychain.
    Keychain,
}

/// Development builds keep the token in a file (no keychain prompt on every
/// rebuild); release builds keep it in the keychain.
pub fn store(debug_build: bool) -> (k: TokenStoreKind)
    ensures
        k == (if debug_build { TokenStoreKind::File } else { TokenStoreKind::Keychain }),
{
    if debug_build { TokenStoreKind::File } else { TokenStoreKind::Keychain }
}

/// Why stored credentials cannot be used.
#[derive(Debug)]
pub enum CredentialError {
    /// The entry holds no access token.
    MissingAccessToken,
    /// The access token is not an OAuth access token.
    NotOAuthToken(NotOAuthToken),
    /// Scopes are listed, and `user:profile` is not among them.
    MissingProfileScope,
    /// The token expires within a minute and no refresh token is stored.
    ExpiredWithoutRefreshToken,
    /// The credentials file could not be read as credentials (the parser's
    /// message).
    Unparsable(String),
    /// The command-line client's keychain entry lacks its `claudeAiOauth`
    /// object.
    MissingOAuthObject,
    /// There is no keychain to read on this platform.
    KeychainUnsupported,
}

/// Where credentials were being loaded from; the wording of an error
/// differs with it.
#[derive(PartialEq, Eq, Structural, Clone, Copy, Debug)]
pub enum CredentialOrigin {
    /// The application's own token store.
    AppStore,
    /// The command-line client's keychain entry.
    CliKeychain,
    /// The command-line client's credentials file.
    CliFile,
    /// Credentials handed to the usage fetch.
    UsageFetch,
}

/// The sentence reporting `e` for credentials from `origin`, `product`
/// naming the service.
pub open spec fn credential_error_text(e: CredentialError, product: Seq<char>, origin: CredentialOrigin) -> Seq<char> {
    match e {
        CredentialError::MissingAccessToken => match origin {
            CredentialOrigin::AppStore => "Keychain entry missing access token."@,
            CredentialOrigin::CliKeychain => product + " keychain entry missing access token."@,
            CredentialOrigin::CliFile => product + " credentials file has no accessToken."@,
            CredentialOrigin::UsageFetch => product + " credentials are missing accessToken."@,
        },
        CredentialError::NotOAuthToken(t) => not_oauth_text(product, t.source@),
        CredentialError::MissingProfileScope => product
            + " OAuth token from keychain is missing user:profile scope."@,
        CredentialError::ExpiredWithoutRefreshToken => match origin {
            CredentialOrigin::CliKeychain => product
                + " keychain token is expired and no refresh token available."@,
            CredentialOrigin::CliFile => product + " file token is expired and no refresh token available."@,
            _ => product + " token is expired and no refresh token available."@,
        },
        CredentialError::Unparsable(m) => "Failed to parse "@ + product + " credentials JSON: "@ + m@,
        CredentialError::MissingOAuthObject => product + " keychain entry missing claudeAiOauth object."@,
        CredentialError::KeychainUnsupported => product + " keychain OAuth is only supported on macOS."@,
    }
}

fn with_product(product: &str, rest: &str) -> (r: String)
    ensures
        r@ == product@ + rest@,
{
    let mut r = string_of(product);
    r.append(rest);
    r
}

impl CredentialError {
    /// The error as the user reads it, for credentials from `origin`,
    /// `product` naming the service.
    pub fn message(&self, product: &str, origin: CredentialOrigin) -> (r: String)
        ensures
            r@ == credential_error_text(*self, product@, origin),
    {
        match self {
            CredentialError::MissingAccessToken => match origin {
                CredentialOrigin::AppStore => string_of("Keychain entry missing access token."),
                CredentialOrigin::CliKeychain => with_product(product, " keychain entry missing access token."),
                CredentialOrigin::CliFile => with_product(product, " credentials file has no accessToken."),
                CredentialOrigin::UsageFetch => with_product(product, " credentials are missing accessToken."),
            },
            CredentialError::NotOAuthToken(t) => t.message(product),
            CredentialError::MissingProfileScope => with_product(
                product,
                " OAuth token from keychain is missing user:profile scope.",
            ),
            CredentialError::ExpiredWithoutRefreshToken => match origin {
                CredentialOrigin::CliKeychain => with_product(
                    product,
                    " keychain token is expired and no refresh token available.",
                ),
                CredentialOrigin::CliFile => with_product(
                    product,
                    " file token is expired and no refresh token available.",
                ),
                _ => with_product(product, " token is expired and no refresh token available."),
            },
            CredentialError::Unparsable(m) => {
                let mut r = string_of("Failed to parse ");
                r.append(product);
                r.append(" credentials JSON: ");
                r.append(m.as_str());
                r
            },
            CredentialError::MissingOAuthObject => with_product(
                product,
                " keychain entry missing claudeAiOauth object.",
            ),
            CredentialError::KeychainUnsupported => with_product(
                product,
                " keychain OAuth is only supported on macOS.",
            ),
        }
    }
}

/// Reading the command-line client's own keychain entry, off macOS: there
/// is no keychain to read.
pub fn load_claude_credentials_from_keychain_sync() -> (r: Result<(ClaudeOAuthBlob, String), CredentialError>)
    ensures
        r matches Err(CredentialError::KeychainUnsupported),
{
    Err(CredentialError::KeychainUnsupported)
}

/// The blob stored for a token the user pasted in: refused unless it is an
/// OAuth access token; otherwise the token, refresh token and expiry as
/// given, nothing else.
pub fn blob_for_saved_token(input: SaveTokenInput) -> (r: Result<ClaudeOAuthBlob, NotOAuthToken>)
    ensures
        r.is_ok() <==> has_prefix(input.access_token@, oauth_token_prefix()),
        r matches Err(e) ==> e.source@ == "user input"@,
        r matches Ok(b) ==> b@.access_token == Some(input.access_token@)
            && b@.refresh_token == opt_view(input.refresh_token)
            && b@.expires_at == input.expires_at
            && b@.scopes.is_none()
            && b@.subscription_type.is_none()
            && b@.rate_limit_tier.is_none(),
{
    match validate_claude_oauth_access_token(input.access_token.as_str(), "user input") {
        Err(e) => Err(e),
        Ok(()) => Ok(ClaudeOAuthBlob {
            access_token: Some(input.access_token),
            refresh_token: input.refresh_token,
            expires_at: input.expires_at,
            scopes: None,
            subscription_type: None,
            rate_limit_tier: None,
        }),
    }
}

/// A token expiring within this many milliseconds counts as expired.
pub const EXPIRY_MARGIN_MS: i64 = 60_000;

/// A token expiring at `expires_at` is due for refresh at `now` (both in
/// milliseconds): it expires within the next minute, or already has.
pub open spec fn is_expiring(expires_at: i64, now: i64) -> bool {
    expires_at <= now + EXPIRY_MARGIN_MS
}

/// A token is due for refresh exactly when it expires within the next
/// minute or already has: one expired long ago is due too, and once due a
/// token stays due as time goes on.
pub proof fn law_expired_tokens_are_due(e: i64, now: i64, later: i64)
    ensures
        is_expiring(e, now) <==> e <= now + 60_000,
        e <= now ==> is_expiring(e, now),
        is_expiring(e, now) && now <= later ==> is_expiring(e, later),
        now + 60_000 < e ==> !is_expiring(e, now),
{
}

/// Integer division rounding toward zero, as Rust's `/` on integers.
pub open spec fn div_toward_zero(x: int, d: int) -> int {
    if x >= 0 { x / d } else { -((-x) / d) }
}

/// Seconds from `now` to `expires_at` (milliseconds), rounded toward zero.
pub fn seconds_until(expires_at: i64, now: i64) -> (r: i64)
    requires
        i64::MIN <= expires_at - now <= i64::MAX,
    ensures
        r == div_toward_zero(expires_at - now, 1000),
{
    let diff = expires_at - now;
    if diff >= 0 {
        diff / 1000
    } else {
        // rounds toward zero without negating `i64::MIN`
        let pos = -(diff + 1);
        let q = pos / 1000 + if pos % 1000 == 999 { 1 } else { 0 };
        proof {
            assert((pos + 1) / 1000 == pos / 1000 + if pos % 1000 == 999 { 1int } else { 0int })
                by (nonlinear_arith)
                requires pos >= 0;
        }
        -q
    }
}

/// What the debug view reports about the stored token (never the token).
#[derive(Clone, Debug)]
pub struct TokenInfo {
    pub has_access_token: bool,
    pub has_refresh_token: bool,
    pub expires_at: Option<i64>,
    pub now: i64,
    pub expires_in_seconds: Option<i64>,
    pub is_expired: Option<bool>,
    /// The stored rate-limit tier.
    pub rate_limit_tier: Option<String>,
}

/// The debug view of `blob` at time `now` (milliseconds).
pub fn token_info(blob: &ClaudeOAuthBlob, now: i64) -> (r: TokenInfo)
    requires
        blob.expires_at matches Some(e) ==> now + EXPIRY_MARGIN_MS <= i64::MAX && i64::MIN <= e
            - now <= i64::MAX,
    ensures
        r.has_access_token == blob.access_token.is_some(),
        r.has_refresh_token == blob.refresh_token.is_some(),
        r.expires_at == blob.expires_at,
        r.now == now,
        r.expires_in_seconds == (match blob.expires_at {
            Some(e) => Some(div_toward_zero(e - now, 1000) as i64),
            None => None,
        }),
        r.is_expired == (match blob.expires_at {
            Some(e) => Some(is_expiring(e, now)),
            None => None,
        }),
        opt_view(r.rate_limit_tier) == opt_view(blob.rate_limit_tier),
{
    TokenInfo {
        has_access_token: blob.access_token.is_some(),
        has_refresh_token: blob.refresh_token.is_some(),
        expires_at: blob.expires_at,
        now,
        expires_in_seconds: match blob.expires_at {
            Some(e) => Some(seconds_until(e, now)),
            None => None,
        },
        is_expired: match blob.expires_at {
            Some(e) => Some(e <= now + EXPIRY_MARGIN_MS),
            None => None,
        },
        rate_limit_tier: clone_opt(&blob.rate_limit_tier),
    }
}

} // verus!
