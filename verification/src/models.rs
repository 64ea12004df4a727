//! The data the application passes around: settings, stored OAuth
//! credentials, and the parts of server responses that its decisions read.

use vstd::prelude::*;
use crate::text::string_of;

verus! {

/// An optional string, by its characters.
pub open spec fn opt_view(o: Option<String>) -> Option<Seq<char>> {
    match o {
        Some(s) => Some(s@),
        None => None,
    }
}

/// A copy of an optional string.
pub fn clone_opt(o: &Option<String>) -> (r: Option<String>)
    ensures
        opt_view(r) == opt_view(*o),
{
    match o {
        Some(s) => Some(s.clone()),
        None => None,
    }
}

/// A copy of a vector of strings.
pub fn clone_strings(v: &Vec<String>) -> (r: Vec<String>)
    ensures
        crate::text::views(r@) == crate::text::views(v@),
{
    let mut r: Vec<String> = Vec::new();
    let mut i: usize = 0;
    while i < v.len()
        invariant
            i <= v.len(),
            crate::text::views(r@) == crate::text::views(v@.take(i as int)),
        decreases v.len() - i,
    {
        r.push(v[i].clone());
        assert(crate::text::views(v@.take(i + 1)) =~= crate::text::views(v@.take(i as int)).push(v@[i as int]@));
        assert(crate::text::views(r@) =~= crate::text::views(v@.take(i as int)).push(v@[i as int]@));
        i = i + 1;
    }
    assert(v@.take(v.len() as int) =~= v@);
    r
}

/// The user's preferences.
#[derive(Debug, Clone)]
pub struct Settings {
    /// `"remaining"` shows what is left, `"usage"` what is used.
    pub display_mode: String,
    pub poll_interval_seconds: u64,
}

/// The display mode used when none is stored: `"remaining"`.
pub fn default_display_mode() -> (r: String)
    ensures
        r@ == "remaining"@,
{
    string_of("remaining")
}

/// The poll interval used when none is stored: 60 seconds.
pub fn default_poll_interval() -> (r: u64)
    ensures
        r == 60,
{
    60
}

impl Default for Settings {
    fn default() -> (s: Settings)
        ensures
            s.display_mode@ == "remaining"@,
            s.poll_interval_seconds == 60,
    {
        Settings { display_mode: default_display_mode(), poll_interval_seconds: default_poll_interval() }
    }
}

impl Settings {
    /// A copy of these settings.
    pub fn duplicate(&self) -> (r: Settings)
        ensures
            r.display_mode@ == self.display_mode@,
            r.poll_interval_seconds == self.poll_interval_seconds,
    {
        Settings { display_mode: self.display_mode.clone(), poll_interval_seconds: self.poll_interval_seconds }
    }
}

/// Credentials ready for use against the usage API.
#[derive(Debug)]
pub struct ClaudeCredentials {
    pub access_token: Option<String>,
    pub rate_limit_tier: Option<String>,
}

/// The OAuth credentials kept in the token store.
#[derive(Debug, Clone)]
pub struct ClaudeOAuthBlob {
    pub access_token: Option<String>,
    pub refresh_token: Option<String>,
    /// Expiry time, milliseconds since the Unix epoch.
    pub expires_at: Option<i64>,
    pub scopes: Option<Vec<String>>,
    pub subscription_type: Option<String>,
    pub rate_limit_tier: Option<String>,
}

/// A stored credential blob, by its values.
pub struct BlobModel {
    pub access_token: Option<Seq<char>>,
    pub refresh_token: Option<Seq<char>>,
    pub expires_at: Option<i64>,
    pub scopes: Option<Seq<Seq<char>>>,
    pub subscription_type: Option<Seq<char>>,
    pub rate_limit_tier: Option<Seq<char>>,
}

impl View for ClaudeOAuthBlob {
    type V = BlobModel;

    open spec fn view(&self) -> BlobModel {
        BlobModel {
            access_token: opt_view(self.access_token),
            refresh_token: opt_view(self.refresh_token),
            expires_at: self.expires_at,
            scopes: match self.scopes {
                Some(v) => Some(crate::text::views(v@)),
                None => None,
            },
            subscription_type: opt_view(self.subscription_type),
            rate_limit_tier: opt_view(self.rate_limit_tier),
        }
    }
}

impl ClaudeOAuthBlob {
    /// A copy of this blob.
    pub fn duplicate(&self) -> (r: ClaudeOAuthBlob)
        ensures
            r@ == self@,
    {
        ClaudeOAuthBlob {
            access_token: clone_opt(&self.access_token),
            refresh_token: clone_opt(&self.refresh_token),
            expires_at: self.expires_at,
            scopes: match &self.scopes {
                Some(v) => Some(clone_strings(v)),
                None => None,
            },
            subscription_type: clone_opt(&self.subscription_type),
            rate_limit_tier: clone_opt(&self.rate_limit_tier),
        }
    }
}

/// A token the user pasted in.
#[derive(Debug)]
pub struct SaveTokenInput {
    pub access_token: String,
    pub refresh_token: Option<String>,
    pub expires_at: Option<i64>,
}

/// The fields of the token endpoint's answer.
#[derive(Debug)]
pub struct OAuthTokenResponse {
    pub access_token: Option<String>,
    pub refresh_token: Option<String>,
    /// Lifetime of the access token, in seconds.
    pub expires_in: Option<i64>,
}

/// The organization part of the profile endpoint's answer.
#[derive(Debug)]
pub struct ClaudeProfileOrganization {
    pub organization_type: Option<String>,
    pub rate_limit_tier: Option<String>,
}

/// The reset times of one usage window (five-hour or seven-day), in the
/// three spellings the usage API has used.
#[derive(Debug)]
pub struct UsageWindowResets {
    pub reset_at: Option<String>,
    pub resets_at: Option<String>,
    pub reset_time: Option<String>,
}

} // verus!
