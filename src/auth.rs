//! Obtaining a token: reuse a cached one while it is usable, otherwise ask
//! the auth endpoint and cache the answer. The decisions are a state machine;
//! the caller performs each action and reports what happened as an event.
use vstd::prelude::*;
use crate::token::{
    check_token_expiry, record_usable, token_from_record, token_of, CacheError, Token, TokenRecord,
};

verus! {

/// Why no token could be obtained.
#[derive(Clone, Debug)]
pub enum AuthError {
    /// The auth endpoint was unreachable or answered with a failure status.
    Request(String),
    /// The auth endpoint's answer lacks the token or its expiry.
    MissingField,
    /// An event arrived that the current state does not expect.
    OutOfOrder,
}

impl AuthError {
    /// A copy of this error.
    pub fn duplicate(&self) -> (r: AuthError)
        ensures
            r == *self,
    {
        match self {
            AuthError::Request(m) => AuthError::Request(m.clone()),
            AuthError::MissingField => AuthError::MissingField,
            AuthError::OutOfOrder => AuthError::OutOfOrder,
        }
    }
}

/// Where the token lifecycle stands.
#[derive(Clone, Debug)]
pub enum AuthState {
    /// Nothing has happened yet.
    Start,
    /// The cached token is being read.
    AwaitingCache,
    /// A live auth request is under way.
    AwaitingAuth,
    /// A fresh token is being written to the cache.
    AwaitingSave { token: Token },
    /// A token was obtained.
    Done { token: Token },
    /// No token can be obtained.
    Failed { error: AuthError },
}

/// What the caller observed.
#[derive(Debug)]
pub enum AuthEvent {
    /// The caller asks for a token.
    Begin,
    /// The cached token was read, or could not be.
    CacheLoaded(Result<TokenRecord, CacheError>),
    /// The auth endpoint answered, or the request failed with a message.
    AuthReplied(Result<TokenRecord, String>),
    /// The cache write finished; a failure is reported and not fatal.
    CacheSaved(Result<(), String>),
}

/// What the caller must do next.
#[derive(Clone, Debug)]
pub enum AuthAction {
    /// Read the cached token at this location.
    LoadCache(String),
    /// Send the credentials to the auth endpoint.
    RequestAuth,
    /// Write this token to the cache at this location.
    SaveCache(String, Token),
    /// Use this token.
    Finish(Token),
    /// Stop the run with this error.
    Abort(AuthError),
}

/// The state and action that follow `event` in `state`, for a manager with
/// the given cache location and clock reading.
pub open spec fn next(cache: Option<String>, now: u64, state: AuthState, event: AuthEvent) -> (
    AuthState,
    AuthAction,
) {
    match state {
        AuthState::Done { token } => (AuthState::Done { token }, AuthAction::Finish(token)),
        AuthState::Failed { error } => (AuthState::Failed { error }, AuthAction::Abort(error)),
        AuthState::Start => match event {
            AuthEvent::Begin => match cache {
                Some(path) => (AuthState::AwaitingCache, AuthAction::LoadCache(path)),
                None => (AuthState::AwaitingAuth, AuthAction::RequestAuth),
            },
            _ => out_of_order(),
        },
        AuthState::AwaitingCache => match event {
            AuthEvent::CacheLoaded(Ok(record)) if record_usable(record, now) => {
                let token = token_of(record).unwrap();
                (AuthState::Done { token }, AuthAction::Finish(token))
            },
            AuthEvent::CacheLoaded(_) => (AuthState::AwaitingAuth, AuthAction::RequestAuth),
            _ => out_of_order(),
        },
        AuthState::AwaitingAuth => match event {
            AuthEvent::AuthReplied(Ok(record)) => match token_of(record) {
                Some(token) => match cache {
                    Some(path) => (
                        AuthState::AwaitingSave { token },
                        AuthAction::SaveCache(path, token),
                    ),
                    None => (AuthState::Done { token }, AuthAction::Finish(token)),
                },
                None => (
                    AuthState::Failed { error: AuthError::MissingField },
                    AuthAction::Abort(AuthError::MissingField),
                ),
            },
            AuthEvent::AuthReplied(Err(message)) => (
                AuthState::Failed { error: AuthError::Request(message) },
                AuthAction::Abort(AuthError::Request(message)),
            ),
            _ => out_of_order(),
        },
        AuthState::AwaitingSave { token } => match event {
            AuthEvent::CacheSaved(_) => (AuthState::Done { token }, AuthAction::Finish(token)),
            _ => out_of_order(),
        },
    }
}

/// The failure reached when an event comes that the state does not expect.
pub open spec fn out_of_order() -> (AuthState, AuthAction) {
    (AuthState::Failed { error: AuthError::OutOfOrder }, AuthAction::Abort(AuthError::OutOfOrder))
}

/// The actions answering `events`, one each, from `state`.
pub open spec fn run(cache: Option<String>, now: u64, state: AuthState, events: Seq<AuthEvent>) -> Seq<
    AuthAction,
>
    decreases events.len(),
{
    if events.len() == 0 {
        Seq::empty()
    } else {
        let (after, action) = next(cache, now, state, events[0]);
        seq![action] + run(cache, now, after, events.drop_first())
    }
}

/// Decides how a token is obtained. With a cache location it reads the cache
/// first and reuses a usable token; otherwise, or when the cache is missing,
/// corrupt or expired, it asks the auth endpoint and, with a cache location,
/// caches the answer. A failed cache write does not stop it.
pub struct AuthManager {
    pub cache_location: Option<String>,
    pub now: u64,
    pub state: AuthState,
}

impl AuthManager {
    /// A manager that has done nothing yet; `now` is the clock in Unix seconds.
    pub fn new(cache_location: Option<String>, now: u64) -> (r: AuthManager)
        ensures
            r.cache_location == cache_location,
            r.now == now,
            r.state == AuthState::Start,
    {
        AuthManager { cache_location, now, state: AuthState::Start }
    }

    fn out_of_order(&mut self) -> (r: AuthAction)
        ensures
            (final(self).state, r) == out_of_order(),
            final(self).cache_location == old(self).cache_location,
            final(self).now == old(self).now,
    {
        self.state = AuthState::Failed { error: AuthError::OutOfOrder };
        AuthAction::Abort(AuthError::OutOfOrder)
    }

    /// Takes in what the caller observed and says what it must do next.
    pub fn step(&mut self, event: AuthEvent) -> (r: AuthAction)
        ensures
            (final(self).state, r) == next(
                old(self).cache_location,
                old(self).now,
                old(self).state,
                event,
            ),
            final(self).cache_location == old(self).cache_location,
            final(self).now == old(self).now,
    {
        match &self.state {
            AuthState::Done { token } => AuthAction::Finish(token.duplicate()),
            AuthState::Failed { error } => AuthAction::Abort(error.duplicate()),
            AuthState::Start => match event {
                AuthEvent::Begin => match &self.cache_location {
                    Some(path) => {
                        let path = path.clone();
                        self.state = AuthState::AwaitingCache;
                        AuthAction::LoadCache(path)
                    },
                    None => {
                        self.state = AuthState::AwaitingAuth;
                        AuthAction::RequestAuth
                    },
                },
                _ => self.out_of_order(),
            },
            AuthState::AwaitingCache => match event {
                AuthEvent::CacheLoaded(loaded) => {
                    if let Ok(record) = loaded {
                        let fresh = match check_token_expiry(&record, self.now) {
                            Ok(valid) => valid,
                            Err(_) => false,
                        };
                        if fresh {
                            if let Some(token) = token_from_record(&record) {
                                self.state = AuthState::Done { token: token.duplicate() };
                                return AuthAction::Finish(token);
                            }
                        }
                    }
                    self.state = AuthState::AwaitingAuth;
                    AuthAction::RequestAuth
                },
                _ => self.out_of_order(),
            },
            AuthState::AwaitingAuth => match event {
                AuthEvent::AuthReplied(Ok(record)) => match token_from_record(&record) {
                    Some(token) => match &self.cache_location {
                        Some(path) => {
                            let path = path.clone();
                            self.state = AuthState::AwaitingSave { token: token.duplicate() };
                            AuthAction::SaveCache(path, token)
                        },
                        None => {
                            self.state = AuthState::Done { token: token.duplicate() };
                            AuthAction::Finish(token)
                        },
                    },
                    None => {
                        self.state = AuthState::Failed { error: AuthError::MissingField };
                        AuthAction::Abort(AuthError::MissingField)
                    },
                },
                AuthEvent::AuthReplied(Err(message)) => {
                    self.state = AuthState::Failed { error: AuthError::Request(message.clone()) };
                    AuthAction::Abort(AuthError::Request(message))
                },
                _ => self.out_of_order(),
            },
            AuthState::AwaitingSave { token } => match event {
                AuthEvent::CacheSaved(_) => {
                    let token = token.duplicate();
                    self.state = AuthState::Done { token: token.duplicate() };
                    AuthAction::Finish(token)
                },
                _ => self.out_of_order(),
            },
        }
    }
}

/// Once a live request has been sent, or the outcome is settled, no further
/// live request is ever asked for, whatever events follow.
pub proof fn lemma_settled_never_requests(
    cache: Option<String>,
    now: u64,
    state: AuthState,
    events: Seq<AuthEvent>,
)
    requires
        state is AwaitingAuth || state is AwaitingSave || state is Done || state is Failed,
    ensures
        forall|i: int|
            0 <= i < events.len() ==> !(#[trigger] run(cache, now, state, events)[i] is RequestAuth),
    decreases events.len(),
{
    if events.len() > 0 {
        let (after, action) = next(cache, now, state, events[0]);
        let rest = events.drop_first();
        lemma_settled_never_requests(cache, now, after, rest);
        lemma_run_len(cache, now, after, rest);
        let acts = run(cache, now, state, events);
        assert(acts == seq![action] + run(cache, now, after, rest));
        assert forall|i: int| 0 <= i < events.len() implies !(#[trigger] acts[i] is RequestAuth) by {
            if i > 0 {
                assert(acts[i] == run(cache, now, after, rest)[i - 1]);
            }
        }
    }
}

/// With a cached token that is still usable, the token is reused and no live
/// auth request is ever asked for.
pub proof fn lemma_usable_cache_skips_auth(
    path: String,
    now: u64,
    cached: TokenRecord,
    rest: Seq<AuthEvent>,
)
    requires
        record_usable(cached, now),
    ensures
        ({
            let events = seq![AuthEvent::Begin, AuthEvent::CacheLoaded(Ok(cached))] + rest;
            let acts = run(Some(path), now, AuthState::Start, events);
            &&& acts.len() == events.len()
            &&& acts[0] == AuthAction::LoadCache(path)
            &&& acts[1] == AuthAction::Finish(token_of(cached).unwrap())
            &&& forall|i: int| 0 <= i < acts.len() ==> !(#[trigger] acts[i] is RequestAuth)
        }),
{
    let cache = Some(path);
    let events = seq![AuthEvent::Begin, AuthEvent::CacheLoaded(Ok(cached))] + rest;
    let token = token_of(cached).unwrap();
    let done = AuthState::Done { token };
    lemma_run_len(cache, now, AuthState::Start, events);
    assert(events.drop_first().drop_first() =~= rest);
    assert(events.drop_first()[0] == AuthEvent::CacheLoaded(Ok(cached)));
    let acts = run(cache, now, AuthState::Start, events);
    let tail = run(cache, now, AuthState::AwaitingCache, events.drop_first());
    assert(acts == seq![AuthAction::LoadCache(path)] + tail);
    assert(tail == seq![AuthAction::Finish(token)] + run(cache, now, done, rest));
    lemma_settled_never_requests(cache, now, done, rest);
    lemma_run_len(cache, now, done, rest);
    assert forall|i: int| 0 <= i < acts.len() implies !(#[trigger] acts[i] is RequestAuth) by {
        if i >= 2 {
            assert(acts[i] == run(cache, now, done, rest)[i - 2]);
        }
    }
}

/// With a cache that is missing, corrupt or expired, and an auth endpoint
/// that answers with a token, exactly one live auth request is asked for and
/// the fresh token is written to the cache location.
pub proof fn lemma_unusable_cache_authenticates_once(
    path: String,
    now: u64,
    loaded: Result<TokenRecord, CacheError>,
    reply: TokenRecord,
    rest: Seq<AuthEvent>,
)
    requires
        !(loaded matches Ok(cached) && record_usable(cached, now)),
        token_of(reply) is Some,
    ensures
        ({
            let events = seq![
                AuthEvent::Begin,
                AuthEvent::CacheLoaded(loaded),
                AuthEvent::AuthReplied(Ok(reply)),
            ] + rest;
            let acts = run(Some(path), now, AuthState::Start, events);
            &&& acts.len() == events.len()
            &&& acts[0] == AuthAction::LoadCache(path)
            &&& acts[1] == AuthAction::RequestAuth
            &&& acts[2] == AuthAction::SaveCache(path, token_of(reply).unwrap())
            &&& forall|i: int| 0 <= i < acts.len() && i != 1 ==> !(#[trigger] acts[i] is RequestAuth)
        }),
{
    let cache = Some(path);
    let events = seq![
        AuthEvent::Begin,
        AuthEvent::CacheLoaded(loaded),
        AuthEvent::AuthReplied(Ok(reply)),
    ] + rest;
    let token = token_of(reply).unwrap();
    let saving = AuthState::AwaitingSave { token };
    lemma_run_len(cache, now, AuthState::Start, events);
    let e1 = events.drop_first();
    let e2 = e1.drop_first();
    assert(e2.drop_first() =~= rest);
    assert(e1[0] == AuthEvent::CacheLoaded(loaded));
    assert(e2[0] == AuthEvent::AuthReplied(Ok(reply)));
    let acts = run(cache, now, AuthState::Start, events);
    let t1 = run(cache, now, AuthState::AwaitingCache, e1);
    let t2 = run(cache, now, AuthState::AwaitingAuth, e2);
    assert(acts == seq![AuthAction::LoadCache(path)] + t1);
    assert(t1 == seq![AuthAction::RequestAuth] + t2);
    assert(t2 == seq![AuthAction::SaveCache(path, token)] + run(cache, now, saving, rest));
    lemma_settled_never_requests(cache, now, saving, rest);
    lemma_run_len(cache, now, saving, rest);
    assert forall|i: int| 0 <= i < acts.len() && i != 1 implies !(#[trigger] acts[i] is RequestAuth) by {
        if i >= 3 {
            assert(acts[i] == run(cache, now, saving, rest)[i - 3]);
        }
    }
}

/// Without a cache location nothing is ever written to a cache, whatever
/// events come.
pub proof fn lemma_no_cache_never_persists(now: u64, state: AuthState, events: Seq<AuthEvent>)
    requires
        !(state is AwaitingSave),
    ensures
        forall|i: int|
            0 <= i < events.len() ==> !(#[trigger] run(None, now, state, events)[i] is SaveCache),
    decreases events.len(),
{
    if events.len() > 0 {
        let (after, action) = next(None, now, state, events[0]);
        let rest = events.drop_first();
        lemma_no_cache_never_persists(now, after, rest);
        lemma_run_len(None, now, after, rest);
        let acts = run(None, now, state, events);
        assert(acts == seq![action] + run(None, now, after, rest));
        assert forall|i: int| 0 <= i < events.len() implies !(#[trigger] acts[i] is SaveCache) by {
            if i > 0 {
                assert(acts[i] == run(None, now, after, rest)[i - 1]);
            }
        }
    }
}

/// A run answers each event with exactly one action.
pub proof fn lemma_run_len(cache: Option<String>, now: u64, state: AuthState, events: Seq<AuthEvent>)
    ensures
        run(cache, now, state, events).len() == events.len(),
    decreases events.len(),
{
    if events.len() > 0 {
        let (after, action) = next(cache, now, state, events[0]);
        lemma_run_len(cache, now, after, events.drop_first());
    }
}

} // verus!
