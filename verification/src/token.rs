//! The credential lifecycle: detecting expiry with a safety margin, deciding
//! whether a refresh exchange is needed, and building the credential that a
//! refresh response yields — carrying the old refresh token forward, since
//! the provider's refresh response need not include one.
//!
//! The caller performs the exchange itself and persists the new credential
//! before using it, so a crash between exchange and persistence only costs a
//! retry on the next tick.

use vstd::prelude::*;

use crate::clock::now_unix;
use crate::error::ClientError;

verus! {

/// Seconds subtracted from a credential's expiry instant before comparing it
/// with the clock, to tolerate clock skew and in-flight request latency.
pub const EXPIRATION_OFFSET_SECONDS: i64 = 60;

/// One user's delegated-access credential.
#[derive(Debug)]
pub struct Token {
    /// Bearer token presented on every remote call.
    pub access_token: String,
    /// Seconds of validity the provider granted when the token was issued.
    pub expires_in: i64,
    /// Absolute expiry instant, in whole seconds since the Unix epoch.
    pub expires_at: i64,
    /// What a refresh exchange presents; without one the credential cannot be
    /// renewed and the user must authenticate again.
    pub refresh_token: Option<String>,
    /// The scopes the user granted.
    pub scopes: Vec<String>,
}

impl Clone for Token {
    fn clone(&self) -> (r: Token)
        ensures
            r.access_token == self.access_token,
            r.expires_in == self.expires_in,
            r.expires_at == self.expires_at,
            r.refresh_token == self.refresh_token,
            r.scopes@ == self.scopes@,
    {
        Token {
            access_token: self.access_token.clone(),
            expires_in: self.expires_in,
            expires_at: self.expires_at,
            refresh_token: match &self.refresh_token {
                Some(t) => Some(t.clone()),
                None => None,
            },
            scopes: clone_strings(&self.scopes),
        }
    }
}

impl Token {
    /// Timestamps are instants after the epoch.
    pub open spec fn wf(&self) -> bool {
        0 <= self.expires_at && 0 <= self.expires_in
    }

    /// Whether the credential counts as expired at `now`: its expiry instant,
    /// pulled forward by the safety margin, has arrived.
    pub open spec fn spec_expired(&self, now: i64) -> bool {
        self.expires_at - EXPIRATION_OFFSET_SECONDS <= now
    }

    /// Whether the credential counts as expired at `now`. A credential that
    /// expires within the safety margin is treated as already expired; one
    /// whose expiry lies further out is not.
    pub fn is_expired_at(&self, now: i64) -> (r: bool)
        requires
            self.wf(),
            0 <= now,
        ensures
            r == self.spec_expired(now),
    {
        self.expires_at - EXPIRATION_OFFSET_SECONDS <= now
    }

    /// Whether the credential counts as expired at the present reading of the
    /// clock; the reading used is returned beside the verdict.
    pub fn is_expired(&self) -> (r: (i64, bool))
        requires
            self.wf(),
        ensures
            0 <= r.0,
            r.1 == self.spec_expired(r.0),
    {
        let now = now_unix();
        (now, self.is_expired_at(now))
    }
}

/// What resolving a credential asks its caller to do.
#[derive(Debug)]
pub enum ResolveAction {
    /// The stored credential is still valid: use it unchanged.
    UseCurrent,
    /// Exchange this refresh token at the provider's token endpoint, then
    /// persist the credential built by `refreshed_token` before using it.
    Refresh(String),
}

/// Decide what to do with a stored credential at `now`: keep it while it is
/// valid; otherwise demand a refresh exchange, which requires a refresh
/// token — without one the credential is terminally stale.
pub fn resolve_action(token: &Token, now: i64) -> (r: Result<ResolveAction, ClientError>)
    requires
        token.wf(),
        0 <= now,
    ensures
        match r {
            Ok(a) => match a {
                ResolveAction::UseCurrent => !token.spec_expired(now),
                ResolveAction::Refresh(rt) => token.spec_expired(now) && (
                token.refresh_token matches Some(t) && rt@ == t@),
            },
            Err(e) => token.spec_expired(now) && token.refresh_token is None
                && e is MissingRefreshToken,
        },
{
    if !token.is_expired_at(now) {
        return Ok(ResolveAction::UseCurrent);
    }
    match &token.refresh_token {
        Some(rt) => Ok(ResolveAction::Refresh(rt.clone())),
        None => Err(ClientError::MissingRefreshToken),
    }
}

/// What the provider's token endpoint answers a refresh or code exchange
/// with, reduced to plain values.
#[derive(Debug)]
pub struct TokenResponse {
    pub access_token: String,
    /// Seconds of validity granted.
    pub expires_in: i64,
    /// A refresh exchange is not guaranteed to include a new refresh token.
    pub refresh_token: Option<String>,
    pub scopes: Vec<String>,
}

/// The credential an initial code exchange yields at `now`.
pub fn token_from_response(resp: &TokenResponse, now: i64) -> (r: Token)
    requires
        0 <= now,
        0 <= resp.expires_in,
        now + resp.expires_in <= i64::MAX,
    ensures
        r.wf(),
        r.access_token@ == resp.access_token@,
        r.expires_in == resp.expires_in,
        r.expires_at == now + resp.expires_in,
        match (&r.refresh_token, &resp.refresh_token) {
            (Some(a), Some(b)) => a@ == b@,
            (None, None) => true,
            _ => false,
        },
        string_views(r.scopes@) == string_views(resp.scopes@),
{
    Token {
        access_token: resp.access_token.clone(),
        expires_in: resp.expires_in,
        expires_at: now + resp.expires_in,
        refresh_token: match &resp.refresh_token {
            Some(t) => Some(t.clone()),
            None => None,
        },
        scopes: clone_strings(&resp.scopes),
    }
}

/// The credential a refresh exchange yields at `now`. The refresh token that
/// was presented for the exchange is carried forward into the new credential,
/// whether or not the response included one: a response without a refresh
/// token must not lose the stored one.
pub fn refreshed_token(used_refresh_token: String, resp: &TokenResponse, now: i64) -> (r: Token)
    requires
        0 <= now,
        0 <= resp.expires_in,
        now + resp.expires_in <= i64::MAX,
    ensures
        r.wf(),
        r.access_token@ == resp.access_token@,
        r.expires_in == resp.expires_in,
        r.expires_at == now + resp.expires_in,
        r.refresh_token matches Some(rt) && rt@ == used_refresh_token@,
        string_views(r.scopes@) == string_views(resp.scopes@),
{
    Token {
        access_token: resp.access_token.clone(),
        expires_in: resp.expires_in,
        expires_at: now + resp.expires_in,
        refresh_token: Some(used_refresh_token),
        scopes: clone_strings(&resp.scopes),
    }
}

/// The authorization header value a credential puts on every request; derived
/// from the current credential value at each call, so a refreshed credential
/// is visible to the next request at once.
pub fn bearer_header_value(access_token: &str) -> (r: String)
    ensures
        r@ == "Bearer "@ + access_token@,
{
    let prefix = String::from_str("Bearer ");
    prefix.concat(access_token)
}

/// The character sequences of a run of strings.
pub open spec fn string_views(s: Seq<String>) -> Seq<Seq<char>> {
    s.map_values(|x: String| x@)
}

/// A copy of a run of strings.
pub fn clone_strings(v: &Vec<String>) -> (r: Vec<String>)
    ensures
        r@ == v@,
{
    let n: usize = v.len();
    let mut out: Vec<String> = Vec::new();
    let mut i: usize = 0;
    while i < n
        invariant
            0 <= i <= n,
            n == v@.len(),
            out@ =~= v@.take(i as int),
        decreases n - i,
    {
        out.push(v[i].clone());
        i = i + 1;
        proof {
            assert(out@ =~= v@.take(i as int));
        }
    }
    proof {
        assert(v@.take(n as int) =~= v@);
    }
    out
}

} // verus!
