//! Reading the usage and profile endpoints' answers: the plan shown to the
//! user, the reset times of the usage windows, and the error reported when
//! the usage endpoint refuses.
//!
//! The usage percentages are floating-point and are computed outside.

use vstd::prelude::*;
use vstd::string::StringExecFns;
use vstd::string::StringSliceAdditionalSpecFns;
use vstd::utf8::is_char_boundary;
use crate::keychain::CredentialError;
use crate::json::{Json, json_get, json_get_str};
use crate::models::{
    ClaudeCredentials, ClaudeOAuthBlob, ClaudeProfileOrganization, UsageWindowResets, opt_view,
};
use crate::text::{
    byte_prefix, chars_of, concat, cut_len, contains_str, has_substring, is_u32_text, parses_as_u32, split_char,
    split_on, string_from_chars, string_of, to_uppercase, upper_text, views,
};

verus! {

/// A piece of a rate-limit tier naming a multiplier: a number then `x`,
/// as `20x` in `default_claude_max_20x`.
pub open spec fn is_multiplier(s: Seq<char>) -> bool {
    s.len() >= 1 && s.last() == 'x' && is_u32_text(s.drop_last())
}

/// The last of `pieces` that names a multiplier.
pub open spec fn last_multiplier(pieces: Seq<Seq<char>>) -> Option<Seq<char>>
    decreases pieces.len(),
{
    if pieces.len() == 0 {
        None
    } else if is_multiplier(pieces.last()) {
        Some(pieces.last())
    } else {
        last_multiplier(pieces.drop_last())
    }
}

/// The plan family that an organization type and tier name, checked in
/// this order: Max, Pro, Team, Enterprise.
pub open spec fn plan_family(org_type: Seq<char>, tier: Seq<char>) -> Option<Seq<char>> {
    if has_substring(org_type, "max"@) || has_substring(tier, "max"@) {
        Some("Max"@)
    } else if has_substring(org_type, "pro"@) || has_substring(tier, "pro"@) {
        Some("Pro"@)
    } else if has_substring(org_type, "team"@) || has_substring(tier, "team"@) {
        Some("Team"@)
    } else if has_substring(org_type, "enterprise"@) || has_substring(tier, "enterprise"@) {
        Some("Enterprise"@)
    } else {
        None
    }
}

/// Which plan an organization type and tier name, by what they contain:
/// `max` in either gives Max; otherwise `pro` in either gives Pro;
/// otherwise `team` gives Team; otherwise `enterprise` gives Enterprise;
/// otherwise no plan family.
pub proof fn law_plan_family_by_name(org_type: Seq<char>, tier: Seq<char>)
    ensures
        has_substring(org_type, "max"@) || has_substring(tier, "max"@) ==> plan_family(org_type, tier)
            == Some("Max"@),
        !has_substring(org_type, "max"@) && !has_substring(tier, "max"@) && (has_substring(
            org_type,
            "pro"@,
        ) || has_substring(tier, "pro"@)) ==> plan_family(org_type, tier) == Some("Pro"@),
        !has_substring(org_type, "max"@) && !has_substring(tier, "max"@) && !has_substring(
            org_type,
            "pro"@,
        ) && !has_substring(tier, "pro"@) && (has_substring(org_type, "team"@) || has_substring(
            tier,
            "team"@,
        )) ==> plan_family(org_type, tier) == Some("Team"@),
        !has_substring(org_type, "max"@) && !has_substring(tier, "max"@) && !has_substring(
            org_type,
            "pro"@,
        ) && !has_substring(tier, "pro"@) && !has_substring(org_type, "team"@) && !has_substring(
            tier,
            "team"@,
        ) && (has_substring(org_type, "enterprise"@) || has_substring(tier, "enterprise"@))
            ==> plan_family(org_type, tier) == Some("Enterprise"@),
        plan_family(org_type, tier) is None <==> !has_substring(org_type, "max"@) && !has_substring(
            tier,
            "max"@,
        ) && !has_substring(org_type, "pro"@) && !has_substring(tier, "pro"@) && !has_substring(
            org_type,
            "team"@,
        ) && !has_substring(tier, "team"@) && !has_substring(org_type, "enterprise"@)
            && !has_substring(tier, "enterprise"@),
{
}

/// The plan name shown for an organization.
pub open spec fn plan_display(org_type: Seq<char>, tier: Seq<char>) -> Option<Seq<char>> {
    match plan_family(org_type, tier) {
        Some(base) => match last_multiplier(split_on(tier, '_')) {
            Some(m) => Some(base + " "@ + upper_text(m)),
            None => Some(base),
        },
        None => if org_type.len() > 0 {
            Some(org_type)
        } else {
            None
        },
    }
}

/// The last multiplier piece: when there is one, it names a multiplier, it
/// is one of the pieces, and no later piece names one; when there is none,
/// no piece names a multiplier.
pub proof fn law_last_multiplier_is_last(pieces: Seq<Seq<char>>)
    ensures
        last_multiplier(pieces) matches Some(m) ==> is_multiplier(m) && exists|i: int|
            0 <= i < pieces.len() && pieces[i] == m && forall|j: int|
                i < j < pieces.len() ==> !is_multiplier(#[trigger] pieces[j]),
        last_multiplier(pieces) is None ==> forall|i: int|
            0 <= i < pieces.len() ==> !is_multiplier(#[trigger] pieces[i]),
    decreases pieces.len(),
{
    if pieces.len() > 0 {
        let n = pieces.len() - 1;
        law_last_multiplier_is_last(pieces.drop_last());
        if is_multiplier(pieces.last()) {
            assert(pieces[n] == pieces.last());
        } else {
            match last_multiplier(pieces.drop_last()) {
                Some(m) => {
                    let i = choose|i: int|
                        0 <= i < pieces.drop_last().len() && pieces.drop_last()[i] == m && forall|j: int|
                            i < j < pieces.drop_last().len() ==> !is_multiplier(
                                #[trigger] pieces.drop_last()[j],
                            );
                    assert(pieces[i] == m);
                    assert forall|j: int| i < j < pieces.len() implies !is_multiplier(#[trigger] pieces[j]) by {
                        if j < n {
                            assert(pieces[j] == pieces.drop_last()[j]);
                        }
                    }
                },
                None => {
                    assert forall|i: int| 0 <= i < pieces.len() implies !is_multiplier(#[trigger] pieces[i]) by {
                        if i < n {
                            assert(pieces[i] == pieces.drop_last()[i]);
                        }
                    }
                },
            }
        }
    }
}

/// The displayed plan name starts with the plan family when there is one
/// (a multiplier may follow); without a family it is the organization type,
/// when that is not empty.
pub proof fn law_plan_display_names_family(org_type: Seq<char>, tier: Seq<char>)
    ensures
        plan_family(org_type, tier) matches Some(f) ==> plan_display(org_type, tier) is Some
            && crate::text::has_prefix(plan_display(org_type, tier)->0, f),
        plan_family(org_type, tier) is None ==> plan_display(org_type, tier) == (if org_type.len() > 0 {
            Some(org_type)
        } else {
            None
        }),
{
    match plan_family(org_type, tier) {
        Some(f) => {
            match last_multiplier(split_on(tier, '_')) {
                Some(m) => {
                    let d = f + " "@ + upper_text(m);
                    assert(d.subrange(0, f.len() as int) =~= f);
                },
                None => {
                    assert(f.subrange(0, f.len() as int) =~= f);
                },
            }
        },
        None => {},
    }
}

/// An absent string counts as empty.
pub open spec fn or_empty(o: Option<String>) -> Seq<char> {
    match o {
        Some(s) => s@,
        None => Seq::<char>::empty(),
    }
}

fn opt_str_or_empty(o: &Option<String>) -> (r: String)
    ensures
        r@ == or_empty(*o),
{
    match o {
        Some(s) => s.clone(),
        None => String::new(),
    }
}

fn last_multiplier_exec(pieces: &Vec<String>) -> (r: Option<String>)
    ensures
        opt_view(r) == last_multiplier(views(pieces@)),
{
    let mut n = pieces.len();
    assert(pieces@.take(n as int) =~= pieces@);
    while n > 0
        invariant
            n <= pieces.len(),
            last_multiplier(views(pieces@)) == last_multiplier(views(pieces@.take(n as int))),
        decreases n,
    {
        let piece = &pieces[n - 1];
        let cs = chars_of(piece.as_str());
        let ghost taken = views(pieces@.take(n as int));
        assert(taken.last() == piece@);
        assert(taken.drop_last() =~= views(pieces@.take(n - 1)));
        if cs.len() >= 1 && cs[cs.len() - 1] == 'x' {
            let mut head = cs.clone();
            head.pop();
            assert(head@ =~= piece@.drop_last());
            let digits = string_from_chars(&head);
            if parses_as_u32(digits.as_str()) {
                return Some(piece.clone());
            }
        }
        n = n - 1;
    }
    assert(views(pieces@.take(0)) =~= Seq::<Seq<char>>::empty());
    None
}

/// The plan shown for the organization in a profile answer: "Max", "Pro",
/// "Team" or "Enterprise" when the organization type or the rate-limit tier
/// contains that name in lower case (in that order of preference), followed
/// by the upper-cased multiplier (as `20X`) when a `_`-separated piece of
/// the tier names one (the last such piece); otherwise the organization
/// type itself, when there is one.
pub fn plan_display_from_profile(org: &ClaudeProfileOrganization) -> (r: Option<String>)
    ensures
        opt_view(r) == plan_display(or_empty(org.organization_type), or_empty(org.rate_limit_tier)),
{
    let tier = opt_str_or_empty(&org.rate_limit_tier);
    let org_type = opt_str_or_empty(&org.organization_type);
    let pieces = split_char(tier.as_str(), '_');
    let multiplier = match last_multiplier_exec(&pieces) {
        Some(m) => Some(to_uppercase(m.as_str())),
        None => None,
    };
    let base = if contains_str(org_type.as_str(), "max") || contains_str(tier.as_str(), "max") {
        "Max"
    } else if contains_str(org_type.as_str(), "pro") || contains_str(tier.as_str(), "pro") {
        "Pro"
    } else if contains_str(org_type.as_str(), "team") || contains_str(tier.as_str(), "team") {
        "Team"
    } else if contains_str(org_type.as_str(), "enterprise") || contains_str(
        tier.as_str(),
        "enterprise",
    ) {
        "Enterprise"
    } else if !org_type.as_str().is_empty() {
        return Some(org_type);
    } else {
        return None;
    };
    match multiplier {
        Some(m) => {
            let head = concat(base, " ");
            Some(<String as vstd::string::StringExecFns>::concat(head, m.as_str()))
        },
        None => Some(string_of(base)),
    }
}

/// The reset time of a usage window: `reset_at`, else `resets_at`, else
/// `reset_time`.
pub fn usage_window_reset(window: &UsageWindowResets) -> (r: Option<String>)
    ensures
        opt_view(r) == match window.reset_at {
            Some(s) => Some(s@),
            None => match window.resets_at {
                Some(s) => Some(s@),
                None => opt_view(window.reset_time),
            },
        },
{
    match &window.reset_at {
        Some(s) => Some(s.clone()),
        None => match &window.resets_at {
            Some(s) => Some(s.clone()),
            None => crate::models::clone_opt(&window.reset_time),
        },
    }
}

/// The strings of a slice of string slices.
pub open spec fn strs_view(keys: Seq<&str>) -> Seq<Seq<char>> {
    keys.map_values(|k: &str| k@)
}

/// The first of `keys` under which `value` holds a string.
pub open spec fn first_str_member(value: Json, keys: Seq<Seq<char>>) -> Option<Seq<char>>
    decreases keys.len(),
{
    if keys.len() == 0 {
        None
    } else {
        match json_get_str(value, keys[0]) {
            Some(s) => Some(s),
            None => first_str_member(value, keys.drop_first()),
        }
    }
}

/// The member names under which a usage window may hold its reset time.
pub open spec fn reset_keys() -> Seq<Seq<char>> {
    seq!["reset_at"@, "resets_at"@, "reset_time"@, "resets_in"@]
}

/// The reset time of a usage window: its first string member among
/// `reset_at`, `resets_at`, `reset_time` and `resets_in`, in that order
/// (members that are not strings are passed over); none when it has none.
pub proof fn law_window_reset_member_order(w: Json)
    ensures
        json_get_str(w, "reset_at"@) is Some ==> first_str_member(w, reset_keys()) == json_get_str(
            w,
            "reset_at"@,
        ),
        json_get_str(w, "reset_at"@) is None && json_get_str(w, "resets_at"@) is Some
            ==> first_str_member(w, reset_keys()) == json_get_str(w, "resets_at"@),
        json_get_str(w, "reset_at"@) is None && json_get_str(w, "resets_at"@) is None && json_get_str(
            w,
            "reset_time"@,
        ) is Some ==> first_str_member(w, reset_keys()) == json_get_str(w, "reset_time"@),
        json_get_str(w, "reset_at"@) is None && json_get_str(w, "resets_at"@) is None && json_get_str(
            w,
            "reset_time"@,
        ) is None ==> first_str_member(w, reset_keys()) == json_get_str(w, "resets_in"@),
{
    let k = reset_keys();
    assert(k.drop_first() =~= seq!["resets_at"@, "reset_time"@, "resets_in"@]);
    assert(k.drop_first().drop_first() =~= seq!["reset_time"@, "resets_in"@]);
    assert(k.drop_first().drop_first().drop_first() =~= seq!["resets_in"@]);
    assert(k.drop_first().drop_first().drop_first().drop_first() =~= Seq::<Seq<char>>::empty());
    reveal_with_fuel(first_str_member, 5);
}

/// The first string member of `value` among `keys`.
pub fn first_str_member_exec(value: &Json, keys: &[&str]) -> (r: Option<String>)
    ensures
        opt_view(r) == first_str_member(*value, strs_view(keys@)),
{
    let mut i: usize = 0;
    assert(strs_view(keys@).subrange(0, keys@.len() as int) =~= strs_view(keys@));
    while i < keys.len()
        invariant
            i <= keys@.len(),
            first_str_member(*value, strs_view(keys@)) == first_str_member(
                *value,
                strs_view(keys@).subrange(i as int, keys@.len() as int),
            ),
        decreases keys.len() - i,
    {
        let ghost rest = strs_view(keys@).subrange(i as int, keys@.len() as int);
        assert(rest.drop_first() =~= strs_view(keys@).subrange(i + 1, keys@.len() as int));
        assert(rest[0] == keys@[i as int]@);
        match value.get_str(keys[i]) {
            Some(s) => return Some(s),
            None => {},
        }
        i = i + 1;
    }
    None
}

/// The reset time in a usage window given as loose JSON: the first of
/// `reset_at`, `resets_at`, `reset_time`, `resets_in` that is a string.
pub fn extract_reset_from_window_value(window: &Json) -> (r: Option<String>)
    ensures
        opt_view(r) == first_str_member(*window, reset_keys()),
{
    let keys: [&str; 4] = ["reset_at", "resets_at", "reset_time", "resets_in"];
    proof {
        reveal_strlit("reset_at");
        reveal_strlit("resets_at");
        reveal_strlit("reset_time");
        reveal_strlit("resets_in");
        assert(strs_view(keys@) =~= reset_keys());
    }
    first_str_member_exec(window, keys.as_slice())
}

/// The reset time found under the first of `keys` that names a window
/// holding one.
pub open spec fn window_reset(root: Json, keys: Seq<Seq<char>>) -> Option<Seq<char>>
    decreases keys.len(),
{
    if keys.len() == 0 {
        None
    } else {
        match json_get(root, keys[0]) {
            Some(w) => match first_str_member(w, reset_keys()) {
                Some(r) => Some(r),
                None => window_reset(root, keys.drop_first()),
            },
            None => window_reset(root, keys.drop_first()),
        }
    }
}

/// The reset time of the first window among `keys` (as `five_hour`,
/// `current_session`) that has one.
pub fn extract_window_reset(root: &Json, keys: &[&str]) -> (r: Option<String>)
    ensures
        opt_view(r) == window_reset(*root, strs_view(keys@)),
{
    let mut i: usize = 0;
    assert(strs_view(keys@).subrange(0, keys@.len() as int) =~= strs_view(keys@));
    while i < keys.len()
        invariant
            i <= keys@.len(),
            window_reset(*root, strs_view(keys@)) == window_reset(
                *root,
                strs_view(keys@).subrange(i as int, keys@.len() as int),
            ),
        decreases keys.len() - i,
    {
        let ghost rest = strs_view(keys@).subrange(i as int, keys@.len() as int);
        assert(rest.drop_first() =~= strs_view(keys@).subrange(i + 1, keys@.len() as int));
        assert(rest[0] == keys@[i as int]@);
        match root.get(keys[i]) {
            Some(window) => match extract_reset_from_window_value(window) {
                Some(reset) => return Some(reset),
                None => {},
            },
            None => {},
        }
        i = i + 1;
    }
    None
}

/// `error.message` of an error answer, when it is a string.
pub open spec fn error_message(parsed: Option<Json>) -> Option<Seq<char>> {
    match parsed {
        Some(v) => match json_get(v, "error"@) {
            Some(e) => json_get_str(e, "message"@),
            None => None,
        },
        None => None,
    }
}

/// Why the usage endpoint refused a request.
#[derive(Debug)]
pub enum UsageApiError {
    /// The server's message says the token lacks a scope (the user must
    /// log in again).
    MissingScope(String),
    /// Any other message from the server.
    Api(String),
    /// No message: the status and the first 200 bytes of the body.
    Http { status_text: String, quoted_body: String },
}

/// The sentence reporting a refused usage request, `product` naming the
/// service and `cli` its command-line client's command.
pub open spec fn usage_api_error_text(e: UsageApiError, product: Seq<char>, cli: Seq<char>) -> Seq<char> {
    match e {
        UsageApiError::MissingScope(m) => "Token missing required scope. "@ + m@ + ". Re-run `"@ + cli
            + " login` or create a token with the user:profile scope."@,
        UsageApiError::Api(m) => product + " API error: "@ + m@,
        UsageApiError::Http { status_text, quoted_body } => product + " OAuth API returned HTTP "@
            + status_text@ + ". "@ + quoted_body@,
    }
}

impl UsageApiError {
    /// The error as the user reads it, `product` naming the service and
    /// `cli` its command-line client's command.
    pub fn message(&self, product: &str, cli: &str) -> (r: String)
        ensures
            r@ == usage_api_error_text(*self, product@, cli@),
    {
        match self {
            UsageApiError::MissingScope(m) => {
                let mut r = string_of("Token missing required scope. ");
                r.append(m.as_str());
                r.append(". Re-run `");
                r.append(cli);
                r.append(" login` or create a token with the user:profile scope.");
                r
            },
            UsageApiError::Api(m) => {
                let mut r = string_of(product);
                r.append(" API error: ");
                r.append(m.as_str());
                r
            },
            UsageApiError::Http { status_text, quoted_body } => {
                let mut r = string_of(product);
                r.append(" OAuth API returned HTTP ");
                r.append(status_text.as_str());
                r.append(". ");
                r.append(quoted_body.as_str());
                r
            },
        }
    }
}

/// The server's `error.message` in the parsed error answer, when it is a
/// string.
pub fn server_error_message(parsed: &Option<Json>) -> (r: Option<String>)
    ensures
        opt_view(r) == error_message(*parsed),
{
    match parsed {
        Some(v) => match v.get("error") {
            Some(e) => e.get_str("message"),
            None => None,
        },
        None => None,
    }
}

/// The error reported when the usage endpoint answers with a failure
/// status: the server's `error.message` (classed as a missing scope when it
/// mentions `scope`) or else the status and the first 200 bytes of the
/// body. `parsed` is the body read as JSON, if it is JSON. The body is cut
/// only when there is no message, and then the cut must fall on a
/// character boundary.
pub fn usage_api_error(status_text: &str, body: &str, parsed: &Option<Json>) -> (r: UsageApiError)
    requires
        error_message(*parsed) is None ==> body.spec_bytes().len() <= usize::MAX
            && is_char_boundary(body.spec_bytes(), cut_len(body, 200)),
    ensures
        match error_message(*parsed) {
            Some(msg) => if has_substring(msg, "scope"@) {
                r matches UsageApiError::MissingScope(m) && m@ == msg
            } else {
                r matches UsageApiError::Api(m) && m@ == msg
            },
            None => r matches UsageApiError::Http { status_text: st, quoted_body: q } && st@
                == status_text@ && vstd::utf8::encode_utf8(q@) == body.spec_bytes().subrange(
                0,
                cut_len(body, 200),
            ),
        },
{
    match server_error_message(parsed) {
        Some(m) => {
            if contains_str(m.as_str(), "scope") {
                UsageApiError::MissingScope(m)
            } else {
                UsageApiError::Api(m)
            }
        },
        None => {
            let quoted = byte_prefix(body, 200);
            UsageApiError::Http { status_text: string_of(status_text), quoted_body: string_of(quoted) }
        },
    }
}

/// The access token of loaded credentials.
pub fn credentials_access_token(credentials: &ClaudeCredentials) -> (r: Result<String, CredentialError>)
    ensures
        match credentials.access_token {
            Some(t) => r matches Ok(x) && x@ == t@,
            None => r matches Err(CredentialError::MissingAccessToken),
        },
{
    match &credentials.access_token {
        Some(t) => Ok(t.clone()),
        None => Err(CredentialError::MissingAccessToken),
    }
}

/// An answer with this status is retried once after a token refresh.
pub fn needs_token_retry(status: u16) -> (r: bool)
    ensures
        r == (status == 401),
{
    status == 401
}

/// Which answer of the usage endpoint is at hand.
#[derive(PartialEq, Eq, Structural, Clone, Copy, Debug)]
pub enum UsageFetchPhase {
    /// The answer to the first request.
    FirstAnswer,
    /// The answer to the one retry made after a token refresh.
    RetriedAnswer,
}

/// What the usage fetch does with an answer.
#[derive(PartialEq, Eq, Structural, Clone, Copy, Debug)]
pub enum UsageFetchAction {
    /// Refresh the token and send the request once more.
    RefreshAndRetry,
    /// Read this answer: usage when `success`, else the error it carries.
    Report { success: bool },
}

/// The decision on an answer with `status`: a 401 to the first request is
/// retried once after a token refresh; every other answer, and any answer
/// to the retry, is reported, as usage when its status is 2xx.
pub open spec fn usage_fetch_decision(phase: UsageFetchPhase, status: u16) -> UsageFetchAction {
    if phase == UsageFetchPhase::FirstAnswer && status == 401 {
        UsageFetchAction::RefreshAndRetry
    } else {
        UsageFetchAction::Report { success: 200 <= status <= 299 }
    }
}

/// The decision on an answer, as [`usage_fetch_decision`] says.
pub fn usage_fetch_next(phase: UsageFetchPhase, status: u16) -> (a: UsageFetchAction)
    ensures
        a == usage_fetch_decision(phase, status),
{
    if phase == UsageFetchPhase::FirstAnswer && needs_token_retry(status) {
        UsageFetchAction::RefreshAndRetry
    } else {
        UsageFetchAction::Report { success: 200 <= status && status <= 299 }
    }
}

/// A usage fetch refreshes the token at most once: the answer to the retry
/// is always reported, whatever its status.
pub proof fn law_usage_fetch_refreshes_at_most_once(status: u16)
    ensures
        usage_fetch_decision(UsageFetchPhase::RetriedAnswer, status) is Report,
        usage_fetch_decision(UsageFetchPhase::FirstAnswer, status) is RefreshAndRetry <==> status == 401,
{
}

/// The refresh token used to retry a refused usage request.
pub fn retry_refresh_token(blob: &ClaudeOAuthBlob) -> (r: Result<String, String>)
    ensures
        match blob.refresh_token {
            Some(t) => r matches Ok(x) && x@ == t@,
            None => r matches Err(e) && e@ == "No refresh token available for retry."@,
        },
{
    match &blob.refresh_token {
        Some(t) => Ok(t.clone()),
        None => Err(string_of("No refresh token available for retry.")),
    }
}

/// The new access token after the retry's refresh.
pub fn refreshed_access_token(credentials: &ClaudeCredentials) -> (r: Result<String, String>)
    ensures
        match credentials.access_token {
            Some(t) => r matches Ok(x) && x@ == t@,
            None => r matches Err(e) && e@ == "Refresh succeeded but no access token returned."@,
        },
{
    match &credentials.access_token {
        Some(t) => Ok(t.clone()),
        None => Err(string_of("Refresh succeeded but no access token returned.")),
    }
}

/// The `Authorization` header value for `access_token`.
pub fn bearer(access_token: &str) -> (r: String)
    ensures
        r@ == "Bearer "@ + access_token@,
{
    concat("Bearer ", access_token)
}

} // verus!
