//! Credential caching with single-flight refresh, and the request metadata
//! derived from a credential.
//!
//! The cache only decides. For each caller it says whether to use the
//! cached token, to fetch a new one, or to wait for the fetch already under
//! way; the caller performs the fetch and reports its outcome.

use vstd::prelude::*;
use crate::error::TelemetryError;

verus! {

/// OAuth scope of the tracing API.
pub const TRACE_SCOPE: &'static str = "https://www.googleapis.com/auth/trace.append";

/// A bearer token and the time (seconds since the Unix epoch) at which it
/// expires. Never logged or serialized.
pub struct Token {
    pub value: String,
    pub expires_at: i64,
}

/// What the cache holds, as mathematical values.
pub struct CacheState {
    /// The cached token and its expiry.
    pub token: Option<(Seq<char>, int)>,
    /// A fetch has been handed out and not yet reported.
    pub refreshing: bool,
    /// Seconds before expiry at which a token is no longer used.
    pub margin: int,
}

/// What a caller is told to do.
pub enum Decision {
    UseCached(Seq<char>),
    Refresh,
    Wait,
}

/// A token expiring at `expires_at` may still be used at `now`.
pub open spec fn is_fresh(expires_at: int, now: int, margin: int) -> bool {
    now + margin < expires_at
}

/// The cached token, if it may still be used at `now`.
pub open spec fn fresh_token(s: CacheState, now: int) -> Option<Seq<char>> {
    match s.token {
        Some((value, expires_at)) => if is_fresh(expires_at, now, s.margin) {
            Some(value)
        } else {
            None
        },
        None => None,
    }
}

/// The answer to a caller at time `now`, and the cache afterwards: a fresh
/// cached token is handed out unchanged; otherwise the first caller is told
/// to refresh and every later one to wait until that refresh is reported.
pub open spec fn decide(s: CacheState, now: int) -> (CacheState, Decision) {
    if fresh_token(s, now) is Some {
        (s, Decision::UseCached(fresh_token(s, now)->0))
    } else if s.refreshing {
        (s, Decision::Wait)
    } else {
        (CacheState { refreshing: true, ..s }, Decision::Refresh)
    }
}

/// The state after callers arrive at the given times, and their answers.
pub open spec fn decide_all(s: CacheState, times: Seq<int>) -> (CacheState, Seq<Decision>)
    decreases times.len(),
{
    if times.len() == 0 {
        (s, Seq::empty())
    } else {
        let (mid, ds) = decide_all(s, times.drop_last());
        let (next, d) = decide(mid, times.last());
        (next, ds.push(d))
    }
}

/// How many of the answers are `Refresh`.
pub open spec fn refresh_count(ds: Seq<Decision>) -> nat
    decreases ds.len(),
{
    if ds.len() == 0 {
        0
    } else {
        refresh_count(ds.drop_last()) + if ds.last() is Refresh { 1nat } else { 0nat }
    }
}

/// Callers arriving while no fetch has been reported are told to refresh at
/// most once between them: whatever the cache holds and whenever they
/// arrive, at most one of the answers is `Refresh`, and none is when a fetch
/// is already under way. The cached token and margin are left as they were.
pub proof fn lemma_single_flight(s: CacheState, times: Seq<int>)
    ensures
        refresh_count(decide_all(s, times).1) <= 1,
        refresh_count(decide_all(s, times).1) == 1 ==> decide_all(s, times).0.refreshing,
        s.refreshing ==> refresh_count(decide_all(s, times).1) == 0 && decide_all(s, times).0.refreshing,
        decide_all(s, times).0.token == s.token,
        decide_all(s, times).0.margin == s.margin,
        decide_all(s, times).1.len() == times.len(),
    decreases times.len(),
{
    if times.len() > 0 {
        lemma_single_flight(s, times.drop_last());
        let (mid, ds) = decide_all(s, times.drop_last());
        let (next, d) = decide(mid, times.last());
        assert(decide_all(s, times).1 == ds.push(d));
        assert(ds.push(d).drop_last() =~= ds);
    }
}

/// A cached token is handed out unchanged to every caller that arrives
/// while it is fresh.
pub proof fn lemma_fresh_token_shared(s: CacheState, times: Seq<int>, value: Seq<char>, expires_at: int)
    requires
        s.token == Some((value, expires_at)),
        forall|i: int| 0 <= i < times.len() ==> is_fresh(expires_at, #[trigger] times[i], s.margin),
    ensures
        decide_all(s, times).1.len() == times.len(),
        forall|i: int|
            0 <= i < times.len() ==> #[trigger] decide_all(s, times).1[i] == Decision::UseCached(value),
    decreases times.len(),
{
    if times.len() > 0 {
        let front = times.drop_last();
        assert forall|i: int| 0 <= i < front.len() implies is_fresh(expires_at, #[trigger] front[i], s.margin) by {
            assert(front[i] == times[i]);
        }
        lemma_fresh_token_shared(s, front, value, expires_at);
        lemma_single_flight(s, front);
        let (mid, ds) = decide_all(s, front);
        assert(is_fresh(expires_at, times.last(), s.margin));
        let (next, d) = decide(mid, times.last());
        assert(d == Decision::UseCached(value));
        assert forall|i: int| 0 <= i < times.len() implies #[trigger] decide_all(s, times).1[i]
            == Decision::UseCached(value) by {
            if i < front.len() {
                assert(ds.push(d)[i] == ds[i]);
            }
        }
    }
}

/// What a caller is told to do, as returned to it. It has no `Debug`, so
/// that the token it may carry is never logged.
#[derive(PartialEq, Eq)]
pub enum CacheAction {
    /// Use this token.
    UseCached(String),
    /// Fetch a new token, then report it with `CredentialCache::refreshed`.
    Refresh,
    /// A fetch is under way: ask again once it has been reported.
    Wait,
}

impl View for CacheAction {
    type V = Decision;

    open spec fn view(&self) -> Decision {
        match self {
            CacheAction::UseCached(t) => Decision::UseCached(t@),
            CacheAction::Refresh => Decision::Refresh,
            CacheAction::Wait => Decision::Wait,
        }
    }
}

/// The cached credential of one process; shared by all export attempts
/// behind one lock.
pub struct CredentialCache {
    token: Option<Token>,
    refreshing: bool,
    margin: i64,
}

impl View for CredentialCache {
    type V = CacheState;

    closed spec fn view(&self) -> CacheState {
        CacheState {
            token: match self.token {
                Some(t) => Some((t.value@, t.expires_at as int)),
                None => None,
            },
            refreshing: self.refreshing,
            margin: self.margin as int,
        }
    }
}

impl CredentialCache {
    /// An empty cache that stops using a token `margin` seconds before it
    /// expires.
    pub fn new(margin: i64) -> (r: CredentialCache)
        ensures
            r@ == (CacheState { token: None, refreshing: false, margin: margin as int }),
    {
        CredentialCache { token: None, refreshing: false, margin }
    }

    /// Answers a caller at time `now` (seconds since the Unix epoch).
    pub fn request(&mut self, now: i64) -> (r: CacheAction)
        ensures
            (final(self)@, r@) == decide(old(self)@, now as int),
    {
        let fresh = match &self.token {
            Some(t) => (now as i128) + (self.margin as i128) < (t.expires_at as i128),
            None => false,
        };
        if fresh {
            match &self.token {
                Some(t) => CacheAction::UseCached(t.value.clone()),
                None => CacheAction::Wait,
            }
        } else if self.refreshing {
            CacheAction::Wait
        } else {
            self.refreshing = true;
            CacheAction::Refresh
        }
    }

    /// Reports the outcome of the fetch handed out by `request`. A new token
    /// replaces the cached one and is returned; a failure is an `Auth` error
    /// and leaves the cached token as it was. Either way the next caller
    /// without a fresh token is told to refresh.
    pub fn refreshed(&mut self, outcome: Result<Token, String>) -> (r: Result<String, TelemetryError>)
        ensures
            final(self)@.refreshing == false,
            final(self)@.margin == old(self)@.margin,
            match outcome {
                Ok(t) => final(self)@.token == Some((t.value@, t.expires_at as int))
                    && (r matches Ok(v) && v@ == t.value@),
                Err(m) => final(self)@.token == old(self)@.token
                    && (r matches Err(TelemetryError::Auth(e)) && e@ == m@),
            },
    {
        self.refreshing = false;
        match outcome {
            Ok(t) => {
                let value = t.value.clone();
                self.token = Some(t);
                Ok(value)
            },
            Err(m) => Err(TelemetryError::Auth(m)),
        }
    }
}

/// The request metadata for a token: the bearer authorization, then the
/// billing project when one is named.
pub open spec fn auth_entries(token: Seq<char>, project_id: Seq<char>) -> Seq<(Seq<char>, Seq<char>)> {
    seq![("authorization"@, "Bearer "@ + token)] + if project_id.len() == 0 {
        Seq::empty()
    } else {
        seq![("x-goog-user-project"@, project_id)]
    }
}

/// The metadata entries that authenticate one export request.
pub fn auth_metadata(token: &str, project_id: &str) -> (r: Vec<(String, String)>)
    ensures
        Seq::new(r@.len(), |i: int| (r@[i].0@, r@[i].1@)) == auth_entries(token@, project_id@),
{
    let mut entries: Vec<(String, String)> = Vec::new();
    entries.push((String::from_str("authorization"), String::from_str("Bearer ").concat(token)));
    if project_id.unicode_len() > 0 {
        entries.push((String::from_str("x-goog-user-project"), String::from_str(project_id)));
    }
    let ghost view = Seq::new(entries@.len(), |i: int| (entries@[i].0@, entries@[i].1@));
    assert(view =~= auth_entries(token@, project_id@));
    entries
}

} // verus!
