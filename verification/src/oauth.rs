//! The OAuth side of the application: when stored credentials can be used
//! as they are, what a token refresh stores, the authorization URL of the
//! PKCE login, and what the browser's callback is worth.

use vstd::prelude::*;
use vstd::string::StringSliceAdditionalSpecFns;
use vstd::utf8::encode_utf8;
use crate::json::{Json, json_get, json_str};
use crate::keychain::{
    CredentialError, EXPIRY_MARGIN_MS, NotOAuthToken, is_expiring, oauth_token_prefix,
    validate_claude_oauth_access_token,
};
use crate::models::{
    ClaudeCredentials, ClaudeOAuthBlob, OAuthTokenResponse, clone_opt, opt_view,
};
use crate::text::{
    byte_prefix, concat, cut_len, decimal, decimal_string, has_prefix, str_eq, string_of,
};
use vstd::utf8::is_char_boundary;

verus! {

/// The command-line client's public OAuth client id, which this
/// application uses too.
pub open spec fn oauth_client_id() -> Seq<char> {
    "9d1c250a-e61b-44d9-88ed-5944d1962f5e"@
}

// ---------------------------------------------------------------------------
// Using stored credentials
// ---------------------------------------------------------------------------

/// What to do with the stored blob before fetching usage.
#[derive(Debug)]
pub enum CredentialStep {
    /// Use these credentials as they are.
    Ready(ClaudeCredentials),
    /// The access token is expiring: refresh it with this refresh token.
    Refresh(String),
    /// The blob cannot be used.
    Failed(CredentialError),
}

/// The decision on a stored blob at time `now` (milliseconds): it must hold
/// an OAuth access token; one that expires within the next minute is
/// refreshed when a refresh token is stored and refused otherwise; any
/// other is used with the stored rate-limit tier.
pub fn credential_step(blob: &ClaudeOAuthBlob, now: i64) -> (r: CredentialStep)
    requires
        blob.expires_at is Some ==> now + EXPIRY_MARGIN_MS <= i64::MAX,
    ensures
        match blob.access_token {
            None => r matches CredentialStep::Failed(CredentialError::MissingAccessToken),
            Some(tok) => if !has_prefix(tok@, oauth_token_prefix()) {
                r matches CredentialStep::Failed(CredentialError::NotOAuthToken(e)) && e.source@ == "keychain"@
            } else if blob.expires_at is Some && is_expiring(blob.expires_at.unwrap(), now) {
                match blob.refresh_token {
                    Some(rt) => r matches CredentialStep::Refresh(t) && t@ == rt@,
                    None => r matches CredentialStep::Failed(CredentialError::ExpiredWithoutRefreshToken),
                }
            } else {
                r matches CredentialStep::Ready(c) && opt_view(c.access_token) == Some(tok@)
                    && opt_view(c.rate_limit_tier) == opt_view(blob.rate_limit_tier)
            },
        },
{
    let access_token = match &blob.access_token {
        None => return CredentialStep::Failed(CredentialError::MissingAccessToken),
        Some(t) => t,
    };
    match validate_claude_oauth_access_token(access_token.as_str(), "keychain") {
        Err(e) => return CredentialStep::Failed(CredentialError::NotOAuthToken(e)),
        Ok(()) => {},
    }
    match blob.expires_at {
        Some(expires_at_ms) => {
            if expires_at_ms <= now + EXPIRY_MARGIN_MS {
                return match &blob.refresh_token {
                    Some(rt) => CredentialStep::Refresh(rt.clone()),
                    None => CredentialStep::Failed(CredentialError::ExpiredWithoutRefreshToken),
                };
            }
        },
        None => {},
    }
    CredentialStep::Ready(ClaudeCredentials {
        access_token: Some(access_token.clone()),
        rate_limit_tier: clone_opt(&blob.rate_limit_tier),
    })
}

// ---------------------------------------------------------------------------
// Token endpoint answers
// ---------------------------------------------------------------------------

/// The first of `keys` that `value` has as a member, with its value.
pub open spec fn first_member(value: Json, keys: Seq<Seq<char>>) -> Option<Json>
    decreases keys.len(),
{
    if keys.len() == 0 {
        None
    } else {
        match json_get(value, keys[0]) {
            Some(v) => Some(v),
            None => first_member(value, keys.drop_first()),
        }
    }
}

/// The member names under which the token endpoint may report the account's
/// tier, in the order they are tried.
pub open spec fn tier_keys() -> Seq<Seq<char>> {
    seq!["rate_limit_tier"@, "rateLimitTier"@, "membership_type"@, "subscription_type"@]
}

/// The rate-limit tier in a token endpoint answer: the first of
/// `rate_limit_tier`, `rateLimitTier`, `membership_type`, `subscription_type`
/// that is present, if it is a string (a present non-string member hides the
/// ones after it).
pub fn token_response_tier(value: &Json) -> (r: Option<String>)
    ensures
        opt_view(r) == match first_member(*value, tier_keys()) {
            Some(v) => json_str(v),
            None => None,
        },
{
    proof {
        reveal_strlit("rate_limit_tier");
        reveal_strlit("rateLimitTier");
        reveal_strlit("membership_type");
        reveal_strlit("subscription_type");
        let k = tier_keys();
        assert(k.drop_first() =~= seq!["rateLimitTier"@, "membership_type"@, "subscription_type"@]);
        assert(k.drop_first().drop_first() =~= seq!["membership_type"@, "subscription_type"@]);
        assert(k.drop_first().drop_first().drop_first() =~= seq!["subscription_type"@]);
        assert(k.drop_first().drop_first().drop_first().drop_first() =~= Seq::<Seq<char>>::empty());
        reveal_with_fuel(first_member, 5);
    }
    let found = match value.get("rate_limit_tier") {
        Some(v) => Some(v),
        None => match value.get("rateLimitTier") {
            Some(v) => Some(v),
            None => match value.get("membership_type") {
                Some(v) => Some(v),
                None => value.get("subscription_type"),
            },
        },
    };
    match found {
        Some(v) => match v.as_str() {
            Some(s) => Some(s.clone()),
            None => None,
        },
        None => None,
    }
}

/// `now + secs * 1000`, the expiry of a token that lives `secs` seconds.
pub open spec fn expiry_after(now: i64, secs: i64) -> int {
    now + secs * 1000
}

/// The expiry arithmetic of a token answer stays within `i64`.
pub open spec fn expiry_fits(now: i64, expires_in: Option<i64>) -> bool {
    expires_in matches Some(secs) ==> i64::MIN <= secs * 1000 <= i64::MAX && i64::MIN
        <= expiry_after(now, secs) <= i64::MAX
}

fn expiry_exec(now: i64, secs: i64) -> (r: i64)
    requires
        expiry_fits(now, Some(secs)),
    ensures
        r == expiry_after(now, secs),
{
    now + secs * 1000
}

/// Why a refresh answer cannot be used.
#[derive(Debug)]
pub enum RefreshError {
    /// The answer carries no access token.
    MissingAccessToken,
    /// The new access token is not an OAuth access token.
    NotOAuthToken(NotOAuthToken),
}

/// The sentence reporting a refused refresh answer, `product` naming the
/// service.
pub open spec fn refresh_error_text(e: RefreshError, product: Seq<char>) -> Seq<char> {
    match e {
        RefreshError::MissingAccessToken => "Token refresh response missing access_token."@,
        RefreshError::NotOAuthToken(t) => crate::keychain::not_oauth_text(product, t.source@),
    }
}

impl RefreshError {
    /// The error as the user reads it, `product` naming the service.
    pub fn message(&self, product: &str) -> (r: String)
        ensures
            r@ == refresh_error_text(*self, product@),
    {
        match self {
            RefreshError::MissingAccessToken => string_of("Token refresh response missing access_token."),
            RefreshError::NotOAuthToken(t) => t.message(product),
        }
    }
}

/// The blob stored after a successful refresh of `blob` with `refresh_token`,
/// and the credentials handed back, given the endpoint's answer,
/// the tier found in it and the time `now` (milliseconds).
///
/// The answer must carry an OAuth access token. The new expiry is `now`
/// plus the reported lifetime, or the old expiry when none is reported; the
/// refresh token is the rotated one, or the one just used when none is
/// returned; the tier is replaced only when the answer names one. Scopes and
/// subscription type are kept.
pub fn refreshed_credentials(
    blob: &ClaudeOAuthBlob,
    refresh_token: &str,
    response: OAuthTokenResponse,
    refreshed_tier: Option<String>,
    now: i64,
) -> (r: Result<(ClaudeOAuthBlob, ClaudeCredentials), RefreshError>)
    requires
        expiry_fits(now, response.expires_in),
    ensures
        match response.access_token {
            None => r matches Err(RefreshError::MissingAccessToken),
            Some(tok) => if !has_prefix(tok@, oauth_token_prefix()) {
                r matches Err(RefreshError::NotOAuthToken(e)) && e.source@ == "refreshed token"@
            } else {
                r matches Ok((nb, c)) && {
                    &&& nb@.access_token == Some(tok@)
                    &&& nb@.refresh_token == Some(
                        match response.refresh_token {
                            Some(t) => t@,
                            None => refresh_token@,
                        },
                    )
                    &&& nb@.expires_at == match response.expires_in {
                        Some(secs) => Some(expiry_after(now, secs) as i64),
                        None => blob.expires_at,
                    }
                    &&& nb@.rate_limit_tier == (if refreshed_tier.is_some() {
                        opt_view(refreshed_tier)
                    } else {
                        blob@.rate_limit_tier
                    })
                    &&& nb@.scopes == blob@.scopes
                    &&& nb@.subscription_type == blob@.subscription_type
                    &&& opt_view(c.access_token) == Some(tok@)
                    &&& opt_view(c.rate_limit_tier) == nb@.rate_limit_tier
                }
            },
        },
{
    let new_access_token = match response.access_token {
        None => return Err(RefreshError::MissingAccessToken),
        Some(t) => t,
    };
    match validate_claude_oauth_access_token(new_access_token.as_str(), "refreshed token") {
        Err(e) => return Err(RefreshError::NotOAuthToken(e)),
        Ok(()) => {},
    }
    let new_expires_at = match response.expires_in {
        Some(secs) => Some(expiry_exec(now, secs)),
        None => blob.expires_at,
    };
    let new_refresh = match response.refresh_token {
        Some(t) => t,
        None => string_of(refresh_token),
    };
    let mut updated = blob.duplicate();
    updated.access_token = Some(new_access_token.clone());
    updated.refresh_token = Some(new_refresh);
    updated.expires_at = new_expires_at;
    if refreshed_tier.is_some() {
        updated.rate_limit_tier = refreshed_tier;
    }
    let creds = ClaudeCredentials {
        access_token: Some(new_access_token),
        rate_limit_tier: clone_opt(&updated.rate_limit_tier),
    };
    Ok((updated, creds))
}

/// The scopes the login asks for.
pub open spec fn login_scopes() -> Seq<Seq<char>> {
    seq!["user:profile"@, "user:inference"@]
}

/// The blob stored after a successful login, given the token endpoint's
/// answer, the tier found in it and the time `now` (milliseconds): the
/// answer must carry an access token; the expiry is `now` plus the reported
/// lifetime; the scopes are those asked for.
pub fn login_blob(response: OAuthTokenResponse, rate_limit_tier: Option<String>, now: i64) -> (r: Result<
    ClaudeOAuthBlob,
    String,
>)
    requires
        expiry_fits(now, response.expires_in),
    ensures
        match response.access_token {
            None => r matches Err(e) && e@ == "Token response missing access_token."@,
            Some(tok) => r matches Ok(b) && {
                &&& b@.access_token == Some(tok@)
                &&& b@.refresh_token == opt_view(response.refresh_token)
                &&& b@.expires_at == match response.expires_in {
                    Some(secs) => Some(expiry_after(now, secs) as i64),
                    None => None,
                }
                &&& b@.scopes == Some(login_scopes())
                &&& b@.subscription_type.is_none()
                &&& b@.rate_limit_tier == opt_view(rate_limit_tier)
            },
        },
{
    let access_token = match response.access_token {
        None => return Err(string_of("Token response missing access_token.")),
        Some(t) => t,
    };
    let expires_at = match response.expires_in {
        Some(secs) => Some(expiry_exec(now, secs)),
        None => None,
    };
    let scopes = vec![string_of("user:profile"), string_of("user:inference")];
    assert(crate::text::views(scopes@) =~= login_scopes());
    Ok(ClaudeOAuthBlob {
        access_token: Some(access_token),
        refresh_token: response.refresh_token,
        expires_at,
        scopes: Some(scopes),
        subscription_type: None,
        rate_limit_tier,
    })
}

/// The members of a JSON object, each with its value when that is a string.
pub open spec fn member_strs(members: Seq<(String, Json)>) -> Seq<(Seq<char>, Option<Seq<char>>)> {
    members.map_values(|m: (String, Json)| (m.0@, json_str(m.1)))
}

/// A string member of a request body.
fn str_member(key: &str, value: &str) -> (r: (String, Json))
    ensures
        r.0@ == key@,
        r.1 == Json::Str(r.1->Str_0),
        r.1->Str_0@ == value@,
{
    (string_of(key), Json::Str(string_of(value)))
}

/// The JSON body of the refresh request: grant type `refresh_token`, the
/// refresh token and the client id, in that order.
pub fn refresh_request_body(refresh_token: &str) -> (r: Json)
    ensures
        r matches Json::Object(m) && member_strs(m@) == seq![
            ("grant_type"@, Some("refresh_token"@)),
            ("refresh_token"@, Some(refresh_token@)),
            ("client_id"@, Some(oauth_client_id())),
        ],
{
    let members = vec![
        str_member("grant_type", "refresh_token"),
        str_member("refresh_token", refresh_token),
        str_member("client_id", "9d1c250a-e61b-44d9-88ed-5944d1962f5e"),
    ];
    assert(member_strs(members@) =~= seq![
        ("grant_type"@, Some("refresh_token"@)),
        ("refresh_token"@, Some(refresh_token@)),
        ("client_id"@, Some(oauth_client_id())),
    ]);
    Json::Object(members)
}

/// The JSON body of the login's code exchange: grant type
/// `authorization_code`, the code, the redirect URI, the PKCE verifier, the
/// client id and the state, in that order.
pub fn exchange_request_body(code: &str, redirect_uri: &str, code_verifier: &str, state: &str) -> (r: Json)
    ensures
        r matches Json::Object(m) && member_strs(m@) == seq![
            ("grant_type"@, Some("authorization_code"@)),
            ("code"@, Some(code@)),
            ("redirect_uri"@, Some(redirect_uri@)),
            ("code_verifier"@, Some(code_verifier@)),
            ("client_id"@, Some(oauth_client_id())),
            ("state"@, Some(state@)),
        ],
{
    let members = vec![
        str_member("grant_type", "authorization_code"),
        str_member("code", code),
        str_member("redirect_uri", redirect_uri),
        str_member("code_verifier", code_verifier),
        str_member("client_id", "9d1c250a-e61b-44d9-88ed-5944d1962f5e"),
        str_member("state", state),
    ];
    assert(member_strs(members@) =~= seq![
        ("grant_type"@, Some("authorization_code"@)),
        ("code"@, Some(code@)),
        ("redirect_uri"@, Some(redirect_uri@)),
        ("code_verifier"@, Some(code_verifier@)),
        ("client_id"@, Some(oauth_client_id())),
        ("state"@, Some(state@)),
    ]);
    Json::Object(members)
}

// ---------------------------------------------------------------------------
// The authorization URL
// ---------------------------------------------------------------------------

/// A byte that `application/x-www-form-urlencoded` serialization keeps:
/// `*`, `-`, `.`, `_` and ASCII letters and digits.
pub open spec fn form_keeps_byte(b: u8) -> bool {
    b == 42 || b == 45 || b == 46 || b == 95 || (48 <= b <= 57) || (65 <= b <= 90) || (97 <= b
        <= 122)
}

/// An upper-case hexadecimal digit.
pub open spec fn hex_digit(n: int) -> char {
    if n < 10 {
        (48 + n) as char
    } else {
        (55 + n) as char
    }
}

/// One byte, form-urlencoded: kept, space as `+`, anything else as `%XX`.
pub open spec fn form_encode_byte(b: u8) -> Seq<char> {
    if form_keeps_byte(b) {
        seq![b as char]
    } else if b == 32 {
        seq!['+']
    } else {
        seq!['%', hex_digit(b as int / 16), hex_digit(b as int % 16)]
    }
}

/// Bytes, form-urlencoded one by one.
pub open spec fn form_encoded(bytes: Seq<u8>) -> Seq<char>
    decreases bytes.len(),
{
    if bytes.len() == 0 {
        Seq::<char>::empty()
    } else {
        form_encode_byte(bytes[0]) + form_encoded(bytes.drop_first())
    }
}

/// Text, form-urlencoded by its UTF-8 bytes.
pub open spec fn form_encode(s: Seq<char>) -> Seq<char> {
    form_encoded(encode_utf8(s))
}

/// Form-urlencodes `s`: collects `form_urlencoded::byte_serialize` (as
/// re-exported by the `url` crate) of its UTF-8 bytes, which maps each byte
/// as [`form_encode_byte`] says.
#[verifier::external_body]
fn form_urlencode(s: &str) -> (r: String)
    ensures
        r@ == form_encode(s@),
{
    url::form_urlencoded::byte_serialize(s.as_bytes()).collect::<String>()
}

/// `key=value`, both form-urlencoded.
pub open spec fn query_pair(key: Seq<char>, value: Seq<char>) -> Seq<char> {
    form_encode(key) + "="@ + form_encode(value)
}

/// Appends `sep` then the pair `key=value` to `url`.
fn append_pair(url: &mut String, sep: &str, key: &str, value: &str)
    ensures
        final(url)@ == old(url)@ + sep@ + query_pair(key@, value@),
{
    let k = form_urlencode(key);
    let v = form_urlencode(value);
    <String as vstd::string::StringExecFns>::append(url, sep);
    <String as vstd::string::StringExecFns>::append(url, k.as_str());
    <String as vstd::string::StringExecFns>::append(url, "=");
    <String as vstd::string::StringExecFns>::append(url, v.as_str());
    assert(final(url)@ =~= old(url)@ + sep@ + query_pair(key@, value@));
}

/// The redirect URI of a login listening on `port`.
pub open spec fn redirect_uri_spec(port: u16) -> Seq<char> {
    "http://localhost:"@ + decimal(port as nat) + "/callback"@
}

/// `http://localhost:{port}/callback`.
pub fn redirect_uri(port: u16) -> (r: String)
    ensures
        r@ == redirect_uri_spec(port),
{
    let head = concat("http://localhost:", decimal_string(port as u64).as_str());
    <String as vstd::string::StringExecFns>::concat(head, "/callback")
}

/// The authorization URL of a PKCE login.
pub open spec fn authorization_url_spec(
    endpoint: Seq<char>,
    challenge: Seq<char>,
    state: Seq<char>,
    port: u16,
) -> Seq<char> {
    endpoint + "?"@ + query_pair("response_type"@, "code"@) + "&"@
        + query_pair("client_id"@, oauth_client_id()) + "&"@ + query_pair(
        "redirect_uri"@,
        redirect_uri_spec(port),
    ) + "&"@ + query_pair("scope"@, requested_scope()) + "&"@ + query_pair(
        "code_challenge"@,
        challenge,
    ) + "&"@ + query_pair("code_challenge_method"@, "S256"@) + "&"@ + query_pair("state"@, state)
}

/// The URL the browser opens to log in: the authorization `endpoint` with
/// the response type, client id, redirect URI on `port`, the scopes
/// `user:profile user:inference`, the S256 `challenge` and the CSRF `state`
/// as query parameters, in that order.
pub fn authorization_url(endpoint: &str, challenge: &str, state: &str, port: u16) -> (r: String)
    ensures
        r@ == authorization_url_spec(endpoint@, challenge@, state@, port),
{
    let redirect = redirect_uri(port);
    let mut url = string_of(endpoint);
    append_pair(&mut url, "?", "response_type", "code");
    append_pair(&mut url, "&", "client_id", "9d1c250a-e61b-44d9-88ed-5944d1962f5e");
    append_pair(&mut url, "&", "redirect_uri", redirect.as_str());
    append_pair(&mut url, "&", "scope", "user:profile user:inference");
    append_pair(&mut url, "&", "code_challenge", challenge);
    append_pair(&mut url, "&", "code_challenge_method", "S256");
    append_pair(&mut url, "&", "state", state);
    url
}

// ---------------------------------------------------------------------------
// The browser's callback
// ---------------------------------------------------------------------------

/// Query pairs, by their characters.
pub open spec fn pair_views(v: Seq<(String, String)>) -> Seq<(Seq<char>, Seq<char>)> {
    v.map_values(|p: (String, String)| (p.0@, p.1@))
}

/// The value of the first pair named `key`.
pub open spec fn first_value(pairs: Seq<(Seq<char>, Seq<char>)>, key: Seq<char>) -> Option<Seq<char>>
    decreases pairs.len(),
{
    if pairs.len() == 0 {
        None
    } else if pairs[0].0 == key {
        Some(pairs[0].1)
    } else {
        first_value(pairs.drop_first(), key)
    }
}

/// The value of the first pair named `key`: the pair at `i` when it is so
/// named and no earlier pair is; nothing when no pair is named `key`.
pub proof fn law_first_value_is_first(pairs: Seq<(Seq<char>, Seq<char>)>, key: Seq<char>, i: int)
    ensures
        0 <= i < pairs.len() && pairs[i].0 == key && (forall|j: int| 0 <= j < i ==> (#[trigger] pairs[j]).0
            != key) ==> first_value(pairs, key) == Some(pairs[i].1),
        (forall|j: int| 0 <= j < pairs.len() ==> (#[trigger] pairs[j]).0 != key) ==> first_value(pairs, key)
            is None,
    decreases pairs.len(),
{
    if pairs.len() > 0 {
        law_first_value_is_first(pairs.drop_first(), key, i - 1);
        if i > 0 && 0 <= i < pairs.len() && pairs[i].0 == key && (forall|j: int| 0 <= j < i ==> (#[trigger] pairs[j]).0 != key) {
            assert(pairs[0].0 != key);
            assert(pairs.drop_first()[i - 1] == pairs[i]);
            assert forall|j: int| 0 <= j < i - 1 implies (#[trigger] pairs.drop_first()[j]).0 != key by {
                assert(pairs.drop_first()[j] == pairs[j + 1]);
            }
        }
        if forall|j: int| 0 <= j < pairs.len() ==> (#[trigger] pairs[j]).0 != key {
            assert(pairs[0].0 != key);
            assert forall|j: int| 0 <= j < pairs.drop_first().len() implies (#[trigger] pairs.drop_first()[j]).0 != key by {
                assert(pairs.drop_first()[j] == pairs[j + 1]);
            }
        }
    }
}

proof fn lemma_first_value_skip(pairs: Seq<(Seq<char>, Seq<char>)>, key: Seq<char>, i: int)
    requires
        0 <= i < pairs.len(),
    ensures
        first_value(pairs.subrange(i, pairs.len() as int), key) == (if pairs[i].0 == key {
            Some(pairs[i].1)
        } else {
            first_value(pairs.subrange(i + 1, pairs.len() as int), key)
        }),
{
    assert(pairs.subrange(i, pairs.len() as int).drop_first() =~= pairs.subrange(
        i + 1,
        pairs.len() as int,
    ));
}

/// The value of the first pair named `key`.
pub fn find_value(pairs: &Vec<(String, String)>, key: &str) -> (r: Option<String>)
    ensures
        opt_view(r) == first_value(pair_views(pairs@), key@),
{
    let ghost pv = pair_views(pairs@);
    let mut i: usize = 0;
    assert(pv.subrange(0, pv.len() as int) =~= pv);
    while i < pairs.len()
        invariant
            pv == pair_views(pairs@),
            i <= pairs.len(),
            first_value(pv, key@) == first_value(pv.subrange(i as int, pv.len() as int), key@),
        decreases pairs.len() - i,
    {
        proof {
            lemma_first_value_skip(pv, key@, i as int);
        }
        if str_eq(pairs[i].0.as_str(), key) {
            return Some(pairs[i].1.clone());
        }
        i = i + 1;
    }
    None
}

/// What a callback with these query pairs yields, the `state` sent being
/// `expected_state`: an `error` parameter means the user refused (its
/// `error_description`, or else the error itself, is reported); otherwise
/// the `state` must be present and equal to the one sent, and a `code`
/// present, which is the result.
pub open spec fn callback_outcome(pairs: Seq<(Seq<char>, Seq<char>)>, expected_state: Seq<char>) -> Result<
    Seq<char>,
    Seq<char>,
> {
    match first_value(pairs, "error"@) {
        Some(err) => Err(
            "Authorization denied: "@ + match first_value(pairs, "error_description"@) {
                Some(d) => d,
                None => err,
            },
        ),
        None => match first_value(pairs, "state"@) {
            None => Err("Missing state parameter in callback."@),
            Some(st) => if st != expected_state {
                Err("State parameter mismatch — possible CSRF attack."@)
            } else {
                match first_value(pairs, "code"@) {
                    None => Err("No authorization code received."@),
                    Some(code) => Ok(code),
                }
            },
        },
    }
}

/// Result views.
pub open spec fn result_view(r: Result<String, String>) -> Result<Seq<char>, Seq<char>> {
    match r {
        Ok(s) => Ok(s@),
        Err(e) => Err(e@),
    }
}

/// The authorization code in a callback's query pairs, checked as
/// [`callback_outcome`] says.
pub fn callback_code_from_pairs(pairs: &Vec<(String, String)>, expected_state: &str) -> (r: Result<
    String,
    String,
>)
    ensures
        result_view(r) == callback_outcome(pair_views(pairs@), expected_state@),
{
    if let Some(error) = find_value(pairs, "error") {
        let desc = match find_value(pairs, "error_description") {
            Some(d) => d,
            None => error,
        };
        return Err(concat("Authorization denied: ", desc.as_str()));
    }
    let returned_state = match find_value(pairs, "state") {
        Some(s) => s,
        None => return Err(string_of("Missing state parameter in callback.")),
    };
    if !str_eq(returned_state.as_str(), expected_state) {
        return Err(string_of("State parameter mismatch — possible CSRF attack."));
    }
    match find_value(pairs, "code") {
        Some(code) => Ok(code),
        None => Err(string_of("No authorization code received.")),
    }
}


/// Splits `s` at white space: collects `str::split_whitespace` (which
/// splits at characters with the Unicode `White_Space` property and yields
/// no empty word) into owned strings.
#[verifier::external_body]
fn split_whitespace_words(s: &str) -> (r: Vec<String>)
    ensures
        crate::text::views(r@) == crate::text::whitespace_words(s@),
{
    s.split_whitespace().map(|w| w.to_string()).collect()
}

/// The query pairs of the URL that `url::Url::parse` makes of `text`,
/// percent- and plus-decoded, in order; or the parser's error message.
pub uninterp spec fn url_query_pairs(text: Seq<char>) -> Result<Seq<(Seq<char>, Seq<char>)>, Seq<char>>;

/// Parses `text` with `url::Url::parse` and collects `Url::query_pairs`
/// into owned strings; on a parse error, its `Display` text.
#[verifier::external_body]
fn parse_url_query_pairs(text: &str) -> (r: Result<Vec<(String, String)>, String>)
    ensures
        match r {
            Ok(v) => url_query_pairs(text@) == Ok::<Seq<(Seq<char>, Seq<char>)>, Seq<char>>(pair_views(v@)),
            Err(e) => url_query_pairs(text@) == Err::<Seq<(Seq<char>, Seq<char>)>, Seq<char>>(e@),
        },
{
    match url::Url::parse(text) {
        Ok(u) => Ok(u.query_pairs().map(|(k, v)| (k.into_owned(), v.into_owned())).collect()),
        Err(e) => Err(e.to_string()),
    }
}

/// The authorization code carried by the first line of the browser's
/// callback request (`GET /callback?code=...&state=... HTTP/1.1`): the
/// request target is its second word, read as a path on `http://localhost`.
pub fn callback_code(request_line: &str, expected_state: &str) -> (r: Result<String, String>)
    ensures
        ({
            let words = crate::text::whitespace_words(request_line@);
            if words.len() < 2 {
                r matches Err(e) && e@ == "Invalid HTTP request"@
            } else {
                match url_query_pairs("http://localhost"@ + words[1]) {
                    Err(pe) => r matches Err(e) && e@ == "Failed to parse callback URL: "@ + pe,
                    Ok(pairs) => result_view(r) == callback_outcome(pairs, expected_state@),
                }
            }
        }),
{
    let words = split_whitespace_words(request_line);
    if words.len() < 2 {
        return Err(string_of("Invalid HTTP request"));
    }
    let full_url = concat("http://localhost", words[1].as_str());
    match parse_url_query_pairs(full_url.as_str()) {
        Err(pe) => Err(concat("Failed to parse callback URL: ", pe.as_str())),
        Ok(pairs) => callback_code_from_pairs(&pairs, expected_state),
    }
}

/// A code handed out by the callback always comes with the `state` that was
/// sent, and never with an `error` parameter.
pub proof fn law_callback_code_needs_state(pairs: Seq<(Seq<char>, Seq<char>)>, expected_state: Seq<char>)
    requires
        callback_outcome(pairs, expected_state) is Ok,
    ensures
        first_value(pairs, "state"@) == Some(expected_state),
        first_value(pairs, "error"@).is_none(),
        first_value(pairs, "code"@) == Some(callback_outcome(pairs, expected_state)->Ok_0),
{
}


/// The converse: a callback without `error` that carries the `state` that
/// was sent (of any length) and a `code` yields that code; one whose state
/// differs is refused as a possible forgery.
pub proof fn law_matching_state_yields_code(
    pairs: Seq<(Seq<char>, Seq<char>)>,
    expected_state: Seq<char>,
    code: Seq<char>,
)
    requires
        first_value(pairs, "error"@) is None,
    ensures
        first_value(pairs, "state"@) == Some(expected_state) && first_value(pairs, "code"@) == Some(code)
            ==> callback_outcome(pairs, expected_state) == Ok::<Seq<char>, Seq<char>>(code),
        first_value(pairs, "state"@) matches Some(st) && st != expected_state ==> callback_outcome(
            pairs,
            expected_state,
        ) == Err::<Seq<char>, Seq<char>>("State parameter mismatch — possible CSRF attack."@),
        first_value(pairs, "state"@) is None ==> callback_outcome(pairs, expected_state) is Err,
{
}

/// The error when the token endpoint refuses a refresh: its status and the
/// first 200 bytes of its answer.
pub fn refresh_http_error(status_text: &str, body: &str) -> (r: String)
    requires
        body.spec_bytes().len() <= usize::MAX,
        is_char_boundary(body.spec_bytes(), cut_len(body, 200)),
    ensures
        exists|quoted: Seq<char>|
            encode_utf8(quoted) == body.spec_bytes().subrange(0, cut_len(body, 200)) && r@
                == "Token refresh failed (HTTP "@ + status_text@ + "): "@ + quoted,
{
    let quoted = byte_prefix(body, 200);
    assert(encode_utf8(quoted@) == body.spec_bytes().subrange(0, cut_len(body, 200)));
    let head = concat("Token refresh failed (HTTP ", status_text);
    let head = <String as vstd::string::StringExecFns>::concat(head, "): ");
    <String as vstd::string::StringExecFns>::concat(head, quoted)
}

/// The error when the token endpoint refuses the login's code exchange.
pub fn token_exchange_http_error(status_text: &str) -> (r: String)
    ensures
        r@ == "Token exchange failed (HTTP "@ + status_text@ + "). Please try again."@,
{
    let head = concat("Token exchange failed (HTTP ", status_text);
    <String as vstd::string::StringExecFns>::concat(head, "). Please try again.")
}


/// A token stored with a lifetime of more than a minute, by a login or a
/// refresh at `now`, is not due for refresh at `now`: loading the blob right
/// after uses it as it is.
pub proof fn law_fresh_token_not_expiring(now: i64, secs: i64)
    requires
        expiry_fits(now, Some(secs)),
        now + EXPIRY_MARGIN_MS <= i64::MAX,
        secs > 60,
    ensures
        !is_expiring(expiry_after(now, secs) as i64, now),
{
    assert(secs * 1000 > 60_000) by (nonlinear_arith)
        requires secs > 60;
}


/// The scope parameter the login sends.
pub open spec fn requested_scope() -> Seq<char> {
    "user:profile user:inference"@
}

/// The scopes a login stores are exactly the space-separated scopes its
/// authorization URL asks for.
pub proof fn law_login_scopes_match_request()
    ensures
        crate::text::split_on(requested_scope(), ' ') == login_scopes(),
{
    reveal_strlit("user:profile user:inference");
    reveal_strlit("user:profile");
    reveal_strlit("user:inference");
    let x = "user:profile"@;
    let y = "user:inference"@;
    assert(requested_scope() =~= x + seq![' '] + y);
    crate::text::lemma_split_on_single(x, ' ');
    crate::text::lemma_split_on_append(x, y, ' ');
    assert(seq![x].push(y) =~= login_scopes());
}

} // verus!
