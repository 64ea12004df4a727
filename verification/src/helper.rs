//! Decisions of the desktop-widget helper, which reads the command-line
//! client's own credentials (keychain or credentials file) and browser
//! cookies.

use vstd::prelude::*;
use vstd::string::StringExecFns;
use crate::json::{Json, json_get, json_get_str, json_str};
use crate::keychain::{
    CredentialError, EXPIRY_MARGIN_MS, is_expiring, oauth_token_prefix,
    validate_claude_oauth_access_token,
};
use crate::models::{ClaudeCredentials, ClaudeOAuthBlob, clone_opt, opt_view};
use crate::oauth::{CredentialStep, first_member};
use crate::text::{
    ascii_lower_char, concat, contains_str, has_prefix, has_substring, is_ascii_text, lower_text, occurs_at, split_char, split_on, str_eq,
    string_of, to_lowercase, trim, trimmed, views,
};

verus! {

// ---------------------------------------------------------------------------
// Credentials
// ---------------------------------------------------------------------------

/// Whether `scopes` includes `user:profile`.
fn has_profile_scope(scopes: &Vec<String>) -> (r: bool)
    ensures
        r == views(scopes@).contains("user:profile"@),
{
    let mut i: usize = 0;
    while i < scopes.len()
        invariant
            i <= scopes.len(),
            forall|j: int| 0 <= j < i ==> views(scopes@)[j] != "user:profile"@,
        decreases scopes.len() - i,
    {
        if str_eq(scopes[i].as_str(), "user:profile") {
            assert(views(scopes@)[i as int] == "user:profile"@);
            return true;
        }
        i = i + 1;
    }
    false
}

/// The decision on the command-line client's keychain blob at `now` (milliseconds): it
/// must hold an OAuth access token; when scopes are listed, `user:profile`
/// must be among them; a token expiring within the next minute is refreshed
/// when a refresh token is stored, refused otherwise; any other is used.
pub fn keychain_credential_step(oauth: &ClaudeOAuthBlob, now: i64) -> (r: CredentialStep)
    requires
        oauth.expires_at is Some ==> now + EXPIRY_MARGIN_MS <= i64::MAX,
    ensures
        match oauth.access_token {
            None => r matches CredentialStep::Failed(CredentialError::MissingAccessToken),
            Some(tok) => if !has_prefix(tok@, oauth_token_prefix()) {
                r matches CredentialStep::Failed(CredentialError::NotOAuthToken(e)) && e.source@ == "keychain"@
            } else if oauth@.scopes is Some && !oauth@.scopes.unwrap().contains("user:profile"@) {
                r matches CredentialStep::Failed(CredentialError::MissingProfileScope)
            } else if oauth.expires_at is Some && is_expiring(oauth.expires_at.unwrap(), now) {
                match oauth.refresh_token {
                    Some(rt) => r matches CredentialStep::Refresh(t) && t@ == rt@,
                    None => r matches CredentialStep::Failed(CredentialError::ExpiredWithoutRefreshToken),
                }
            } else {
                r matches CredentialStep::Ready(c) && opt_view(c.access_token) == Some(tok@)
                    && opt_view(c.rate_limit_tier) == opt_view(oauth.rate_limit_tier)
            },
        },
{
    let access_token = match &oauth.access_token {
        None => return CredentialStep::Failed(CredentialError::MissingAccessToken),
        Some(t) => t,
    };
    match validate_claude_oauth_access_token(access_token.as_str(), "keychain") {
        Err(e) => return CredentialStep::Failed(CredentialError::NotOAuthToken(e)),
        Ok(()) => {},
    }
    match &oauth.scopes {
        Some(scopes) => {
            if !has_profile_scope(scopes) {
                return CredentialStep::Failed(CredentialError::MissingProfileScope);
            }
        },
        None => {},
    }
    match oauth.expires_at {
        Some(expires_at_ms) => {
            if expires_at_ms <= now + EXPIRY_MARGIN_MS {
                return match &oauth.refresh_token {
                    Some(rt) => CredentialStep::Refresh(rt.clone()),
                    None => CredentialStep::Failed(CredentialError::ExpiredWithoutRefreshToken),
                };
            }
        },
        None => {},
    }
    CredentialStep::Ready(ClaudeCredentials {
        access_token: Some(access_token.clone()),
        rate_limit_tier: clone_opt(&oauth.rate_limit_tier),
    })
}

/// The decision on the command-line client's credentials file at `now`. `oauth` is its
/// `claudeAiOauth` object when the file has that layout; `flat` is the file
/// read as flat credentials (or the parser's message). The OAuth layout is
/// preferred and checked like the keychain's (without the scope check);
/// flat credentials carry no expiry and are used as read when their token
/// is an OAuth access token.
pub fn file_credential_step(
    oauth: Option<ClaudeOAuthBlob>,
    flat: Result<ClaudeCredentials, String>,
    now: i64,
) -> (r: CredentialStep)
    requires
        oauth matches Some(b) && b.expires_at is Some ==> now + EXPIRY_MARGIN_MS <= i64::MAX,
    ensures
        match oauth {
            Some(b) => match b.access_token {
                None => r matches CredentialStep::Failed(CredentialError::MissingAccessToken),
                Some(tok) => if !has_prefix(tok@, oauth_token_prefix()) {
                    r matches CredentialStep::Failed(CredentialError::NotOAuthToken(e))
                        && e.source@ == "credentials file"@
                } else if b.expires_at is Some && is_expiring(b.expires_at.unwrap(), now) {
                    match b.refresh_token {
                        Some(rt) => r matches CredentialStep::Refresh(t) && t@ == rt@,
                        None => r matches CredentialStep::Failed(CredentialError::ExpiredWithoutRefreshToken),
                    }
                } else {
                    r matches CredentialStep::Ready(c) && opt_view(c.access_token) == Some(tok@)
                        && opt_view(c.rate_limit_tier) == opt_view(b.rate_limit_tier)
                },
            },
            None => match flat {
                Err(pe) => r matches CredentialStep::Failed(CredentialError::Unparsable(e)) && e@ == pe@,
                Ok(c) => match c.access_token {
                    None => r matches CredentialStep::Failed(CredentialError::MissingAccessToken),
                    Some(tok) => if !has_prefix(tok@, oauth_token_prefix()) {
                        r matches CredentialStep::Failed(CredentialError::NotOAuthToken(e))
                            && e.source@ == "credentials file"@
                    } else {
                        r matches CredentialStep::Ready(rc) && opt_view(rc.access_token) == Some(tok@)
                            && opt_view(rc.rate_limit_tier) == opt_view(c.rate_limit_tier)
                    },
                },
            },
        },
{
    match oauth {
        Some(b) => {
            let access_token = match &b.access_token {
                None => return CredentialStep::Failed(CredentialError::MissingAccessToken),
                Some(t) => t,
            };
            match validate_claude_oauth_access_token(access_token.as_str(), "credentials file") {
                Err(e) => return CredentialStep::Failed(CredentialError::NotOAuthToken(e)),
                Ok(()) => {},
            }
            match b.expires_at {
                Some(expires_at_ms) => {
                    if expires_at_ms <= now + EXPIRY_MARGIN_MS {
                        return match &b.refresh_token {
                            Some(rt) => CredentialStep::Refresh(rt.clone()),
                            None => CredentialStep::Failed(CredentialError::ExpiredWithoutRefreshToken),
                        };
                    }
                },
                None => {},
            }
            CredentialStep::Ready(ClaudeCredentials {
                access_token: Some(access_token.clone()),
                rate_limit_tier: clone_opt(&b.rate_limit_tier),
            })
        },
        None => match flat {
            Err(pe) => CredentialStep::Failed(CredentialError::Unparsable(pe)),
            Ok(c) => {
                match &c.access_token {
                    Some(tok) => match validate_claude_oauth_access_token(tok.as_str(), "credentials file") {
                        Err(e) => return CredentialStep::Failed(CredentialError::NotOAuthToken(e)),
                        Ok(()) => {},
                    },
                    None => return CredentialStep::Failed(CredentialError::MissingAccessToken),
                }
                CredentialStep::Ready(c)
            },
        },
    }
}

/// The `claudeAiOauth` object of the command-line client's keychain entry.
pub fn oauth_from_keychain_payload(claude_ai_oauth: Option<ClaudeOAuthBlob>) -> (r: Result<ClaudeOAuthBlob, CredentialError>)
    ensures
        match claude_ai_oauth {
            Some(b) => r matches Ok(x) && x == b,
            None => r matches Err(CredentialError::MissingOAuthObject),
        },
{
    match claude_ai_oauth {
        Some(b) => Ok(b),
        None => Err(CredentialError::MissingOAuthObject),
    }
}

/// The non-blank entries of a comma-separated `CLAUDE_CONFIG_DIR`, trimmed,
/// in order.
pub open spec fn config_roots(pieces: Seq<Seq<char>>) -> Seq<Seq<char>>
    decreases pieces.len(),
{
    if pieces.len() == 0 {
        Seq::<Seq<char>>::empty()
    } else {
        let rest = config_roots(pieces.drop_last());
        if trimmed(pieces.last()).len() == 0 {
            rest
        } else {
            rest.push(trimmed(pieces.last()))
        }
    }
}

/// The directories `CLAUDE_CONFIG_DIR` names, to be searched in order for
/// `.credentials.json`.
pub fn claude_config_roots(config_dir_var: &str) -> (r: Vec<String>)
    ensures
        views(r@) == config_roots(split_on(config_dir_var@, ',')),
{
    let pieces = split_char(config_dir_var, ',');
    let mut roots: Vec<String> = Vec::new();
    let mut i: usize = 0;
    while i < pieces.len()
        invariant
            i <= pieces.len(),
            views(pieces@) == split_on(config_dir_var@, ','),
            views(roots@) == config_roots(views(pieces@).take(i as int)),
        decreases pieces.len() - i,
    {
        let t = trim(pieces[i].as_str());
        let ghost prefix = views(pieces@).take(i + 1);
        assert(prefix.drop_last() =~= views(pieces@).take(i as int));
        assert(prefix.last() == pieces@[i as int]@);
        if !t.as_str().is_empty() {
            roots.push(t);
            assert(views(roots@) =~= config_roots(views(pieces@).take(i as int)).push(t@));
        }
        i = i + 1;
    }
    assert(views(pieces@).take(pieces.len() as int) =~= views(pieces@));
    roots
}

// ---------------------------------------------------------------------------
// Plans and organizations
// ---------------------------------------------------------------------------

/// The plan family named by a rate-limit tier, checked in this order:
/// enterprise, team, max, pro; otherwise the lower-cased tier itself.
pub open spec fn plan_type_from_tier(tier: Seq<char>) -> Seq<char> {
    let t = lower_text(tier);
    if has_substring(t, "enterprise"@) {
        "enterprise"@
    } else if has_substring(t, "team"@) {
        "team"@
    } else if has_substring(t, "max"@) {
        "max"@
    } else if has_substring(t, "pro"@) {
        "pro"@
    } else {
        t
    }
}

/// The plan family of a rate-limit tier, as [`plan_type_from_tier`]; none
/// without a tier.
pub fn plan_type_from_rate_tier(rate_limit_tier: Option<&str>) -> (r: Option<String>)
    ensures
        match rate_limit_tier {
            None => r.is_none(),
            Some(t) => r matches Some(p) && p@ == plan_type_from_tier(t@),
        },
{
    let tier = match rate_limit_tier {
        None => return None,
        Some(t) => to_lowercase(t),
    };
    if contains_str(tier.as_str(), "enterprise") {
        Some(string_of("enterprise"))
    } else if contains_str(tier.as_str(), "team") {
        Some(string_of("team"))
    } else if contains_str(tier.as_str(), "max") {
        Some(string_of("max"))
    } else if contains_str(tier.as_str(), "pro") {
        Some(string_of("pro"))
    } else {
        Some(tier)
    }
}

proof fn lemma_lower_keyword(w: Seq<char>)
    requires
        forall|i: int| 0 <= i < w.len() ==> 97 <= (#[trigger] w[i]) as int <= 122,
    ensures
        lower_text(w) == w,
        has_substring(w, w),
{
    assert(is_ascii_text(w));
    assert(w.map_values(|c: char| ascii_lower_char(c)) =~= w);
    assert(occurs_at(w, w, 0)) by {
        assert(w.subrange(0, w.len() as int) =~= w);
    }
}

proof fn lemma_not_substring_longer(s: Seq<char>, pat: Seq<char>)
    requires
        pat.len() > s.len(),
    ensures
        !has_substring(s, pat),
{
}

proof fn lemma_pro_lacks_max()
    ensures
        !has_substring("pro"@, "max"@),
{
    reveal_strlit("pro");
    reveal_strlit("max");
    assert forall|i: int| !occurs_at("pro"@, "max"@, i) by {
        if occurs_at("pro"@, "max"@, i) {
            assert(i == 0);
            assert("pro"@.subrange(0, 3)[0] == "max"@[0]);
        }
    }
}

#[verifier::spinoff_prover]
#[verifier::rlimit(50)]
proof fn lemma_plan_keywords_keep_case()
    ensures
        lower_text("enterprise"@) == "enterprise"@,
        lower_text("team"@) == "team"@,
        lower_text("max"@) == "max"@,
        lower_text("pro"@) == "pro"@,
        has_substring("enterprise"@, "enterprise"@),
        has_substring("team"@, "team"@),
        has_substring("max"@, "max"@),
        has_substring("pro"@, "pro"@),
{
    reveal_strlit("enterprise");
    reveal_strlit("team");
    reveal_strlit("max");
    reveal_strlit("pro");
    lemma_lower_keyword("enterprise"@);
    lemma_lower_keyword("team"@);
    lemma_lower_keyword("max"@);
    lemma_lower_keyword("pro"@);
}

#[verifier::spinoff_prover]
proof fn lemma_plan_keywords_apart()
    ensures
        !has_substring("team"@, "enterprise"@),
        !has_substring("max"@, "enterprise"@),
        !has_substring("max"@, "team"@),
        !has_substring("pro"@, "enterprise"@),
        !has_substring("pro"@, "team"@),
        !has_substring("pro"@, "max"@),
{
    reveal_strlit("enterprise");
    reveal_strlit("team");
    reveal_strlit("max");
    reveal_strlit("pro");
    lemma_not_substring_longer("team"@, "enterprise"@);
    lemma_not_substring_longer("max"@, "enterprise"@);
    lemma_not_substring_longer("max"@, "team"@);
    lemma_not_substring_longer("pro"@, "enterprise"@);
    lemma_not_substring_longer("pro"@, "team"@);
    lemma_pro_lacks_max();
}

proof fn lemma_lower_ascii_idempotent(tier: Seq<char>)
    requires
        is_ascii_text(tier),
    ensures
        lower_text(lower_text(tier)) == lower_text(tier),
{
    let t = lower_text(tier);
    assert forall|i: int| 0 <= i < t.len() implies (#[trigger] t[i] as int) < 128 by {
        assert(t[i] == ascii_lower_char(tier[i]));
    }
    assert(t.map_values(|c: char| ascii_lower_char(c)) =~= t) by {
        assert forall|i: int| 0 <= i < t.len() implies ascii_lower_char(t[i]) == t[i] by {
            assert(t[i] == ascii_lower_char(tier[i]));
        }
    }
}

/// Mapping a rate-limit tier to its plan family a second time changes
/// nothing, for tiers written in ASCII.
pub proof fn law_plan_type_idempotent(tier: Seq<char>)
    requires
        is_ascii_text(tier),
    ensures
        plan_type_from_tier(plan_type_from_tier(tier)) == plan_type_from_tier(tier),
{
    lemma_plan_keywords_keep_case();
    lemma_plan_keywords_apart();
    lemma_lower_ascii_idempotent(tier);
    let t = lower_text(tier);
    if has_substring(t, "enterprise"@) {
        assert(plan_type_from_tier(tier) == "enterprise"@);
    } else if has_substring(t, "team"@) {
        assert(plan_type_from_tier(tier) == "team"@);
    } else if has_substring(t, "max"@) {
        assert(plan_type_from_tier(tier) == "max"@);
    } else if has_substring(t, "pro"@) {
        assert(plan_type_from_tier(tier) == "pro"@);
    } else {
        assert(plan_type_from_tier(tier) == t);
    }
}

/// The member names an organization object may carry its id under.
pub open spec fn org_id_keys() -> Seq<Seq<char>> {
    seq!["uuid"@, "id"@, "organization_uuid"@, "organizationId"@]
}

/// The first of `keys` under which `obj` holds a non-empty string.
pub open spec fn first_nonempty_str(obj: Json, keys: Seq<Seq<char>>) -> Option<Seq<char>>
    decreases keys.len(),
{
    if keys.len() == 0 {
        None
    } else {
        match json_get_str(obj, keys[0]) {
            Some(s) => if s.len() > 0 {
                Some(s)
            } else {
                first_nonempty_str(obj, keys.drop_first())
            },
            None => first_nonempty_str(obj, keys.drop_first()),
        }
    }
}

/// The id of an organization object: the first non-empty string among
/// `uuid`, `id`, `organization_uuid`, `organizationId`.
fn pick_org_id(obj: &Json) -> (r: Option<String>)
    ensures
        opt_view(r) == first_nonempty_str(*obj, org_id_keys()),
{
    proof {
        reveal_strlit("uuid");
        reveal_strlit("id");
        reveal_strlit("organization_uuid");
        reveal_strlit("organizationId");
        let k = org_id_keys();
        assert(k.drop_first() =~= seq!["id"@, "organization_uuid"@, "organizationId"@]);
        assert(k.drop_first().drop_first() =~= seq!["organization_uuid"@, "organizationId"@]);
        assert(k.drop_first().drop_first().drop_first() =~= seq!["organizationId"@]);
        assert(k.drop_first().drop_first().drop_first().drop_first() =~= Seq::<Seq<char>>::empty());
        reveal_with_fuel(first_nonempty_str, 5);
    }
    match obj.get_str("uuid") {
        Some(v) => if !v.as_str().is_empty() {
            return Some(v);
        },
        None => {},
    }
    match obj.get_str("id") {
        Some(v) => if !v.as_str().is_empty() {
            return Some(v);
        },
        None => {},
    }
    match obj.get_str("organization_uuid") {
        Some(v) => if !v.as_str().is_empty() {
            return Some(v);
        },
        None => {},
    }
    match obj.get_str("organizationId") {
        Some(v) => if !v.as_str().is_empty() {
            return Some(v);
        },
        None => {},
    }
    None
}

/// The organization id in the organizations endpoint's answer.
pub open spec fn org_id_of(payload: Json) -> Option<Seq<char>> {
    match payload {
        Json::Array(items) => if items@.len() > 0 {
            first_nonempty_str(items@[0], org_id_keys())
        } else {
            None
        },
        _ => match json_get(payload, "organizations"@) {
            Some(Json::Array(items)) => if items@.len() > 0 {
                first_nonempty_str(items@[0], org_id_keys())
            } else {
                None
            },
            _ => first_nonempty_str(payload, org_id_keys()),
        },
    }
}

/// The organization id in the organizations endpoint's answer: from the
/// first element when the answer is an array, or when it holds an
/// `organizations` array; from the answer itself otherwise.
pub fn extract_org_id(orgs_payload: &Json) -> (r: Option<String>)
    ensures
        opt_view(r) == org_id_of(*orgs_payload),
{
    match orgs_payload.as_array() {
        Some(arr) => {
            return if arr.len() > 0 { pick_org_id(&arr[0]) } else { None };
        },
        None => {},
    }
    match orgs_payload.get("organizations") {
        Some(v) => match v.as_array() {
            Some(arr) => {
                return if arr.len() > 0 { pick_org_id(&arr[0]) } else { None };
            },
            None => {},
        },
        None => {},
    }
    pick_org_id(orgs_payload)
}

/// The member names under which the account endpoint reports the plan.
pub open spec fn account_plan_keys() -> Seq<Seq<char>> {
    seq!["plan"@, "plan_type"@, "subscription_tier"@]
}

/// The plan in the account endpoint's answer: the first of `plan`,
/// `plan_type`, `subscription_tier` that is present, if it is a string.
pub fn account_plan_type(account: &Json) -> (r: Option<String>)
    ensures
        opt_view(r) == match first_member(*account, account_plan_keys()) {
            Some(v) => json_str(v),
            None => None,
        },
{
    proof {
        reveal_strlit("plan");
        reveal_strlit("plan_type");
        reveal_strlit("subscription_tier");
        let k = account_plan_keys();
        assert(k.drop_first() =~= seq!["plan_type"@, "subscription_tier"@]);
        assert(k.drop_first().drop_first() =~= seq!["subscription_tier"@]);
        assert(k.drop_first().drop_first().drop_first() =~= Seq::<Seq<char>>::empty());
        reveal_with_fuel(first_member, 4);
    }
    let found = match account.get("plan") {
        Some(v) => Some(v),
        None => match account.get("plan_type") {
            Some(v) => Some(v),
            None => account.get("subscription_tier"),
        },
    };
    match found {
        Some(v) => match v.as_str() {
            Some(s) => Some(s.clone()),
            None => None,
        },
        None => None,
    }
}


// ---------------------------------------------------------------------------
// Browser cookies
// ---------------------------------------------------------------------------

/// A cookie read from a browser.
#[derive(Debug)]
pub struct BrowserCookie {
    pub name: String,
    pub value: String,
}

/// Cookies by name and value.
pub open spec fn cookie_views(cs: Seq<BrowserCookie>) -> Seq<(Seq<char>, Seq<char>)> {
    cs.map_values(|c: BrowserCookie| (c.name@, c.value@))
}

/// The names of Cursor's session cookies.
pub open spec fn is_cursor_session_name(n: Seq<char>) -> bool {
    n == "WorkosCursorSessionToken"@ || n == "__Secure-next-auth.session-token"@ || n
        == "next-auth.session-token"@
}

/// A `Cookie` header: `name=value` for each cookie, joined by `; `.
pub open spec fn cookie_header(cs: Seq<(Seq<char>, Seq<char>)>) -> Seq<char>
    decreases cs.len(),
{
    if cs.len() == 0 {
        Seq::<char>::empty()
    } else if cs.len() == 1 {
        cs[0].0 + "="@ + cs[0].1
    } else {
        cookie_header(cs.drop_last()) + "; "@ + cs.last().0 + "="@ + cs.last().1
    }
}

fn is_cursor_session_name_exec(n: &str) -> (r: bool)
    ensures
        r == is_cursor_session_name(n@),
{
    str_eq(n, "WorkosCursorSessionToken") || str_eq(n, "__Secure-next-auth.session-token") || str_eq(
        n,
        "next-auth.session-token",
    )
}

/// Why the browser's cookies are of no use.
#[derive(PartialEq, Eq, Structural, Clone, Copy, Debug)]
pub enum CookieError {
    /// No Cursor session cookie.
    NoCursorSession,
    /// No non-empty `sessionKey` cookie for the chat site.
    NoSessionKey,
}

/// The sentence reporting a cookie error, `web_host` being the chat site's
/// host.
pub open spec fn cookie_error_text(e: CookieError, web_host: Seq<char>) -> Seq<char> {
    match e {
        CookieError::NoCursorSession => "No Cursor session cookie found. Make sure you are logged into cursor.com in your browser."@,
        CookieError::NoSessionKey => "No "@ + web_host + " sessionKey cookie found. Log into "@ + web_host
            + " in your browser."@,
    }
}

impl CookieError {
    /// The error as the user reads it, `web_host` being the chat site's host.
    pub fn message(&self, web_host: &str) -> (r: String)
        ensures
            r@ == cookie_error_text(*self, web_host@),
    {
        match self {
            CookieError::NoCursorSession => string_of(
                "No Cursor session cookie found. Make sure you are logged into cursor.com in your browser.",
            ),
            CookieError::NoSessionKey => {
                let mut r = string_of("No ");
                r.append(web_host);
                r.append(" sessionKey cookie found. Log into ");
                r.append(web_host);
                r.append(" in your browser.");
                r
            },
        }
    }
}

/// The `Cookie` header for Cursor's API: all of Cursor's cookies, provided
/// one of them is a session cookie.
pub fn cursor_cookie_header(cookies: &Vec<BrowserCookie>) -> (r: Result<String, CookieError>)
    ensures
        (exists|i: int| 0 <= i < cookies@.len() && is_cursor_session_name(#[trigger] cookies@[i].name@))
            ==> (r matches Ok(h) && h@ == cookie_header(cookie_views(cookies@))),
        !(exists|i: int| 0 <= i < cookies@.len() && is_cursor_session_name(#[trigger] cookies@[i].name@))
            ==> r == Err::<String, CookieError>(CookieError::NoCursorSession),
{
    let mut found = false;
    let mut i: usize = 0;
    while i < cookies.len()
        invariant
            i <= cookies.len(),
            found <==> exists|j: int| 0 <= j < i && is_cursor_session_name(#[trigger] cookies@[j].name@),
        decreases cookies.len() - i,
    {
        if is_cursor_session_name_exec(cookies[i].name.as_str()) {
            found = true;
        }
        i = i + 1;
    }
    if !found {
        return Err(CookieError::NoCursorSession);
    }
    let mut header = String::new();
    let mut k: usize = 0;
    while k < cookies.len()
        invariant
            k <= cookies.len(),
            header@ == cookie_header(cookie_views(cookies@.take(k as int))),
        decreases cookies.len() - k,
    {
        let ghost before = cookie_views(cookies@.take(k as int));
        assert(cookie_views(cookies@.take(k + 1)).drop_last() =~= before);
        if k > 0 {
            <String as vstd::string::StringExecFns>::append(&mut header, "; ");
        }
        <String as vstd::string::StringExecFns>::append(&mut header, cookies[k].name.as_str());
        <String as vstd::string::StringExecFns>::append(&mut header, "=");
        <String as vstd::string::StringExecFns>::append(&mut header, cookies[k].value.as_str());
        proof {
            let now_seq = cookie_views(cookies@.take(k + 1));
            if k == 0 {
                assert(before =~= Seq::<(Seq<char>, Seq<char>)>::empty());
                assert(header@ =~= cookie_header(now_seq));
            } else {
                assert(header@ =~= cookie_header(now_seq));
            }
        }
        k = k + 1;
    }
    assert(cookies@.take(cookies.len() as int) =~= cookies@);
    Ok(header)
}

/// The values of the non-empty `sessionKey` cookies, in order.
pub open spec fn session_keys(cs: Seq<(Seq<char>, Seq<char>)>) -> Seq<Seq<char>>
    decreases cs.len(),
{
    if cs.len() == 0 {
        Seq::<Seq<char>>::empty()
    } else {
        let rest = session_keys(cs.drop_last());
        if cs.last().0 == "sessionKey"@ && cs.last().1.len() > 0 {
            rest.push(cs.last().1)
        } else {
            rest
        }
    }
}

/// The chat site's session keys among the browser's cookies: the values of
/// the non-empty `sessionKey` cookies; an error when there is none.
pub fn claude_session_keys(cookies: Vec<BrowserCookie>) -> (r: Result<Vec<String>, CookieError>)
    ensures
        session_keys(cookie_views(cookies@)).len() == 0 ==> (r matches Err(CookieError::NoSessionKey)),
        session_keys(cookie_views(cookies@)).len() > 0 ==> (r matches Ok(v) && views(v@) == session_keys(
            cookie_views(cookies@),
        )),
{
    let mut keys: Vec<String> = Vec::new();
    let mut i: usize = 0;
    while i < cookies.len()
        invariant
            i <= cookies.len(),
            views(keys@) == session_keys(cookie_views(cookies@.take(i as int))),
        decreases cookies.len() - i,
    {
        assert(cookie_views(cookies@.take(i + 1)).drop_last() =~= cookie_views(cookies@.take(i as int)));
        if str_eq(cookies[i].name.as_str(), "sessionKey") && !cookies[i].value.as_str().is_empty() {
            keys.push(cookies[i].value.clone());
            assert(views(keys@) =~= session_keys(cookie_views(cookies@.take(i as int))).push(cookies@[i as int].value@));
        }
        i = i + 1;
    }
    assert(cookies@.take(cookies.len() as int) =~= cookies@);
    if keys.len() == 0 {
        return Err(CookieError::NoSessionKey);
    }
    Ok(keys)
}

/// The error for a failure status of Cursor's usage endpoint, if any:
/// 401 and 403 mean the user is not logged in; any other status outside
/// 200-299 is reported with its text.
pub fn cursor_status_error(status: u16, status_text: &str) -> (r: Option<String>)
    ensures
        (status == 401 || status == 403) ==> (r matches Some(e)
            && e@ == "Not logged in. Please log into cursor.com in your browser and try again."@),
        !(status == 401 || status == 403) && !(200 <= status <= 299) ==> (r matches Some(e) && e@
            == "Cursor API returned HTTP "@ + status_text@),
        200 <= status <= 299 ==> r.is_none(),
{
    if status == 401 || status == 403 {
        Some(string_of("Not logged in. Please log into cursor.com in your browser and try again."))
    } else if !(200 <= status && status <= 299) {
        Some(concat("Cursor API returned HTTP ", status_text))
    } else {
        None
    }
}


/// The error for a failure status of one of the service's endpoints, if
/// any: a status outside 200-299 is reported as `{subject} returned HTTP
/// {status_text}`, `subject` naming the endpoint.
pub fn helper_status_error(subject: &str, status: u16, status_text: &str) -> (r: Option<String>)
    ensures
        200 <= status <= 299 ==> r.is_none(),
        !(200 <= status <= 299) ==> (r matches Some(e) && e@ == subject@ + " returned HTTP "@
            + status_text@),
{
    if 200 <= status && status <= 299 {
        None
    } else {
        let head = concat(subject, " returned HTTP ");
        Some(<String as vstd::string::StringExecFns>::concat(head, status_text))
    }
}

/// One session key's try at the web usage endpoints.
#[derive(Debug)]
pub enum WebAttempt<T> {
    /// The usage was read.
    Usage(T),
    /// The try failed in a way that ends the search (a request that could
    /// not be sent, an answer that could not be read); the message.
    Failed(String),
    /// An endpoint refused the session key (its status error); the next key
    /// is tried.
    Rejected(String),
}

/// The result of trying session keys in order, `last` being the latest
/// refusal so far: the first try that is not a refusal decides (its usage,
/// or its failure); when every try was refused, the latest refusal, or
/// nothing when there was no try.
pub open spec fn web_attempts_result<T>(attempts: Seq<WebAttempt<T>>, last: Option<Seq<char>>) -> Result<
    T,
    Option<Seq<char>>,
>
    decreases attempts.len(),
{
    if attempts.len() == 0 {
        Err(last)
    } else {
        match attempts[0] {
            WebAttempt::Usage(t) => Ok(t),
            WebAttempt::Failed(e) => Err(Some(e@)),
            WebAttempt::Rejected(m) => web_attempts_result(attempts.drop_first(), Some(m@)),
        }
    }
}

/// The outcome of the web fallback, given the tries made with the session
/// keys in order: the first usage read, else the failure that ended the
/// search or the latest refusal; `Err(None)` when there was no try. Tries
/// after the first that is not a refusal do not matter, so the caller may
/// stop there.
pub fn first_web_usage<T>(attempts: Vec<WebAttempt<T>>) -> (r: Result<T, Option<String>>)
    ensures
        match r {
            Ok(t) => web_attempts_result(attempts@, None) == Ok::<T, Option<Seq<char>>>(t),
            Err(e) => web_attempts_result(attempts@, None) == Err::<T, Option<Seq<char>>>(
                opt_view(e),
            ),
        },
{
    let mut rest = attempts;
    let mut last: Option<String> = None;
    while rest.len() > 0
        invariant
            web_attempts_result(attempts@, None) == web_attempts_result(rest@, opt_view(last)),
        decreases rest.len(),
    {
        let ghost before = rest@;
        let a = rest.remove(0);
        assert(rest@ =~= before.drop_first());
        match a {
            WebAttempt::Usage(t) => {
                return Ok(t);
            },
            WebAttempt::Failed(e) => {
                return Err(Some(e));
            },
            WebAttempt::Rejected(m) => {
                last = Some(m);
            },
        }
    }
    Err(last)
}

} // verus!
