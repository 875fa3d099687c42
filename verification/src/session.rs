//! Session Authority: issues opaque bearer tokens with expiration, validates
//! presented tokens against a moment in time, and resolves a token back to
//! the identity it was issued to.
//!
//! Every time-dependent operation exists in a `..._at` form that takes the
//! moment of interest explicitly — those carry the exact contracts — and in a
//! convenience form that reads the wall clock.

use crate::clock::now_timestamp;
use crate::clock::TIMESTAMP_BOUND;
use crate::entropy::all_alnum;
use crate::entropy::random_alnum_string;
use crate::errors::AuthError;
use crate::store::at_most_one_binding;
use crate::store::binding_index;
use crate::store::has_binding;
use crate::store::has_live_binding;
use crate::store::token_hit;
use crate::store::AuthStore;
use crate::store::SessionRecord;
use vstd::prelude::*;

verus! {

/// Length, in characters, of an issued session token: 32 mixed-case
/// alphanumeric characters, enough that a collision between independently
/// drawn tokens is negligible.
pub const TOKEN_LENGTH: usize = 32;

/// The default session lifetime: 10 days, in seconds.
pub const DEFAULT_TTL_SECONDS: i64 = 864000;

/// Upper bound on a configurable session lifetime: 100 years, in seconds.
/// Keeps `now + ttl` far from overflowing for any clock reading.
pub const MAX_TTL_SECONDS: i64 = 3153600000;

/// The session lifetime policy: how long an issued token stays valid.
/// A policy value, not a hard-coded constant of the issuing code.
#[derive(Clone, Copy, Debug)]
pub struct SessionPolicy {
    pub ttl_seconds: i64,
}

impl SessionPolicy {
    /// The lifetime is positive and bounded.
    pub open spec fn wf(self) -> bool {
        0 < self.ttl_seconds <= MAX_TTL_SECONDS
    }

    /// A policy with the given lifetime in seconds.
    pub fn new(ttl_seconds: i64) -> (r: SessionPolicy)
        requires
            0 < ttl_seconds <= MAX_TTL_SECONDS,
        ensures
            r.wf(),
            r.ttl_seconds == ttl_seconds,
    {
        SessionPolicy { ttl_seconds }
    }
}

impl Default for SessionPolicy {
    /// The default policy: tokens live for 10 days.
    fn default() -> (r: SessionPolicy)
        ensures
            r.wf(),
            r.ttl_seconds == DEFAULT_TTL_SECONDS,
    {
        SessionPolicy { ttl_seconds: DEFAULT_TTL_SECONDS }
    }
}

impl AuthStore {
    /// Issues a fresh session token for an identity, expiring `ttl_seconds`
    /// after `now`, and stores the binding.
    ///
    /// Succeeds exactly when `identity_id` is a known identity — checked
    /// explicitly, so no orphaned binding is ever created — and then returns
    /// the token and its absolute expiration. The token is drawn at random,
    /// so repeated calls for one identity yield independent bindings, each
    /// valid on its own. On an unknown identity the store is unchanged and
    /// the caller gets `NotFound`.
    pub fn issue_token_at(&mut self, identity_id: u64, now: i64) -> (r: Result<
        (String, i64),
        AuthError,
    >)
        requires
            old(self).wf(),
            -TIMESTAMP_BOUND < now < TIMESTAMP_BOUND,
        ensures
            final(self).wf(),
            final(self)@.identities == old(self)@.identities,
            final(self)@.ttl_seconds == old(self)@.ttl_seconds,
            r is Ok <==> identity_id < old(self)@.identities.len(),
            r matches Ok(p) ==> {
                &&& p.0@.len() == TOKEN_LENGTH
                &&& all_alnum(p.0@)
                &&& p.1 == now + old(self)@.ttl_seconds
                &&& final(self)@.sessions.len() == old(self)@.sessions.len() + 1
                &&& (forall|i: int|
                    0 <= i < old(self)@.sessions.len() ==> final(self)@.sessions[i] == old(
                        self,
                    )@.sessions[i])
                &&& final(self)@.sessions.last().identity_id == identity_id
                &&& final(self)@.sessions.last().token@ == p.0@
                &&& final(self)@.sessions.last().expires_at == p.1
                &&& has_live_binding(final(self)@.sessions, p.0@, now as int)
            },
            r is Err ==> r == Err::<(String, i64), AuthError>(AuthError::NotFound) && *final(self)
                == *old(self),
    {
        let token = random_alnum_string(TOKEN_LENGTH);
        let expires_at = now + self.ttl_seconds();
        match self.put_session(identity_id, token.as_str(), expires_at) {
            Ok(()) => {
                proof {
                    let s = self@.sessions;
                    assert(token_hit(s, token@, s.len() - 1) && now < s[s.len() - 1].expires_at);
                }
                Ok((token, expires_at))
            },
            Err(e) => Err(e),
        }
    }

    /// Issues a fresh session token for an identity, expiring `ttl_seconds`
    /// from the current time. See [`Self::issue_token_at`] for the exact
    /// time-indexed contract.
    pub fn issue_token(&mut self, identity_id: u64) -> (r: Result<(String, i64), AuthError>)
        requires
            old(self).wf(),
        ensures
            final(self).wf(),
            final(self)@.identities == old(self)@.identities,
            final(self)@.ttl_seconds == old(self)@.ttl_seconds,
            r is Ok <==> identity_id < old(self)@.identities.len(),
            r matches Ok(p) ==> {
                &&& p.0@.len() == TOKEN_LENGTH
                &&& all_alnum(p.0@)
                &&& final(self)@.sessions.len() == old(self)@.sessions.len() + 1
                &&& (forall|i: int|
                    0 <= i < old(self)@.sessions.len() ==> final(self)@.sessions[i] == old(
                        self,
                    )@.sessions[i])
                &&& final(self)@.sessions.last().identity_id == identity_id
                &&& final(self)@.sessions.last().token@ == p.0@
                &&& final(self)@.sessions.last().expires_at == p.1
                &&& has_binding(final(self)@.sessions, p.0@)
            },
            r is Err ==> r == Err::<(String, i64), AuthError>(AuthError::NotFound) && *final(self)
                == *old(self),
    {
        let now = now_timestamp();
        match self.issue_token_at(identity_id, now) {
            Ok(p) => {
                proof {
                    let s = self@.sessions;
                    assert(token_hit(s, p.0@, s.len() - 1));
                }
                Ok(p)
            },
            Err(e) => Err(e),
        }
    }

    /// Whether at least one stored binding for this token is still live at
    /// `now`: the any-valid-wins policy, under which an expired duplicate
    /// does not shadow a still-valid binding. A token with no binding at all
    /// is simply not valid — never an error.
    pub fn validate_token_at(&self, token: &str, now: i64) -> (r: bool)
        ensures
            r == has_live_binding(self@.sessions, token@, now as int),
    {
        let t: String = token.to_owned();
        let mut i: usize = 0;
        let mut live = false;
        while i < self.sessions_len()
            invariant
                0 <= i <= self@.sessions.len(),
                t@ == token@,
                live == (exists|j: int|
                    0 <= j < i && (#[trigger] self@.sessions[j]).token@ == token@
                        && now < self@.sessions[j].expires_at),
            decreases self@.sessions.len() - i,
        {
            let rec = self.session_at(i);
            if rec.token == t && now < rec.expires_at {
                live = true;
            }
            i += 1;
        }
        proof {
            if live {
                let j = choose|j: int|
                    0 <= j < self@.sessions.len() && (#[trigger] self@.sessions[j]).token@ == token@
                        && now < self@.sessions[j].expires_at;
                assert(token_hit(self@.sessions, token@, j));
            }
        }
        live
    }

    /// Whether at least one stored binding for this token is live at the
    /// current time. A `true` implies a binding for the token exists; see
    /// [`Self::validate_token_at`] for the exact time-indexed contract.
    pub fn validate_token(&self, token: &str) -> (r: bool)
        ensures
            r ==> has_binding(self@.sessions, token@),
    {
        let now = now_timestamp();
        let r = self.validate_token_at(token, now);
        proof {
            if r {
                let j = choose|j: int|
                    token_hit(self@.sessions, token@, j) && now < self@.sessions[j].expires_at;
                assert(token_hit(self@.sessions, token@, j));
            }
        }
        r
    }

    /// Resolves a token to the identity it was issued to, requiring the
    /// binding to be unique and not expired.
    ///
    /// Exactly one of four outcomes, by the stored bindings for `token`:
    /// no binding gives `NotFound` (an ordinary miss); more than one gives
    /// `StorageError` (the store tolerates duplicates defensively but will
    /// not attribute an action on their strength); a unique expired binding
    /// gives `Invalid`; a unique live binding gives its identity.
    pub fn resolve_identity_at(&self, token: &str, now: i64) -> (r: Result<u64, AuthError>)
        ensures
            !has_binding(self@.sessions, token@) <==> r == Err::<u64, AuthError>(
                AuthError::NotFound,
            ),
            has_binding(self@.sessions, token@) && !at_most_one_binding(self@.sessions, token@)
                <==> r == Err::<u64, AuthError>(AuthError::StorageError),
            has_binding(self@.sessions, token@) && at_most_one_binding(self@.sessions, token@)
                ==> {
                let k = binding_index(self@.sessions, token@);
                if now < self@.sessions[k].expires_at {
                    r == Ok::<u64, AuthError>(self@.sessions[k].identity_id)
                } else {
                    r == Err::<u64, AuthError>(AuthError::Invalid)
                }
            },
    {
        let t: String = token.to_owned();
        let mut i: usize = 0;
        let mut found = false;
        let mut idx: usize = 0;
        while i < self.sessions_len()
            invariant
                0 <= i <= self@.sessions.len(),
                t@ == token@,
                !found ==> forall|j: int| 0 <= j < i ==> !token_hit(self@.sessions, token@, j),
                found ==> idx < i && token_hit(self@.sessions, token@, idx as int),
                found ==> forall|j: int|
                    0 <= j < i && token_hit(self@.sessions, token@, j) ==> j == idx,
            decreases self@.sessions.len() - i,
        {
            let rec = self.session_at(i);
            if rec.token == t {
                if found {
                    proof {
                        assert(token_hit(self@.sessions, token@, i as int));
                        assert(!at_most_one_binding(self@.sessions, token@));
                    }
                    return Err(AuthError::StorageError);
                }
                found = true;
                idx = i;
            }
            i += 1;
        }
        if !found {
            proof {
                assert(!has_binding(self@.sessions, token@));
            }
            return Err(AuthError::NotFound);
        }
        proof {
            assert(has_binding(self@.sessions, token@));
            assert(at_most_one_binding(self@.sessions, token@));
            assert(binding_index(self@.sessions, token@) == idx as int);
        }
        let rec = self.session_at(idx);
        if now < rec.expires_at {
            Ok(rec.identity_id)
        } else {
            Err(AuthError::Invalid)
        }
    }

    /// Resolves a token to the identity it was issued to, judging expiry by
    /// the current time. A successful resolution names the identity of the
    /// unique stored binding; see [`Self::resolve_identity_at`] for the
    /// exact time-indexed contract.
    pub fn resolve_identity(&self, token: &str) -> (r: Result<u64, AuthError>)
        ensures
            !has_binding(self@.sessions, token@) <==> r == Err::<u64, AuthError>(
                AuthError::NotFound,
            ),
            has_binding(self@.sessions, token@) && !at_most_one_binding(self@.sessions, token@)
                <==> r == Err::<u64, AuthError>(AuthError::StorageError),
            r matches Ok(id) ==> has_binding(self@.sessions, token@) && at_most_one_binding(
                self@.sessions,
                token@,
            ) && id == self@.sessions[binding_index(self@.sessions, token@)].identity_id,
    {
        let now = now_timestamp();
        self.resolve_identity_at(token, now)
    }
}

/// Law: a token every one of whose bindings has expired by `now` is not
/// valid at `now`.
pub proof fn lemma_expired_bindings_rejected(
    sessions: Seq<SessionRecord>,
    token: Seq<char>,
    now: int,
)
    requires
        forall|i: int| token_hit(sessions, token, i) ==> sessions[i].expires_at <= now,
    ensures
        !has_live_binding(sessions, token, now),
{
}

/// Law: a token with no stored binding at all — such as a string that was
/// never issued — is not valid at any time.
pub proof fn lemma_unknown_token_rejected(
    sessions: Seq<SessionRecord>,
    token: Seq<char>,
    now: int,
)
    requires
        !has_binding(sessions, token),
    ensures
        !has_live_binding(sessions, token, now),
{
    assert forall|i: int| !(token_hit(sessions, token, i) && now < sessions[i].expires_at) by {
        if token_hit(sessions, token, i) {
            assert(has_binding(sessions, token));
        }
    }
}

/// Law: storing a further binding never invalidates a token that is live —
/// so tokens issued earlier for the same (or any) identity stay valid when
/// new ones are issued.
pub proof fn lemma_live_binding_preserved_by_push(
    sessions: Seq<SessionRecord>,
    record: SessionRecord,
    token: Seq<char>,
    now: int,
)
    requires
        has_live_binding(sessions, token, now),
    ensures
        has_live_binding(sessions.push(record), token, now),
{
    let i = choose|i: int| token_hit(sessions, token, i) && now < sessions[i].expires_at;
    assert(token_hit(sessions.push(record), token, i));
}

/// Law: a binding pushed for a token the store did not previously hold is
/// that token's unique binding, so resolving the token names exactly the
/// identity it was issued to.
pub proof fn lemma_fresh_token_resolves(sessions: Seq<SessionRecord>, record: SessionRecord)
    requires
        !has_binding(sessions, record.token@),
    ensures
        has_binding(sessions.push(record), record.token@),
        at_most_one_binding(sessions.push(record), record.token@),
        binding_index(sessions.push(record), record.token@) == sessions.len(),
        sessions.push(record)[binding_index(sessions.push(record), record.token@)].identity_id
            == record.identity_id,
{
    let s = sessions.push(record);
    assert(token_hit(s, record.token@, sessions.len() as int));
    assert forall|i: int, j: int|
        token_hit(s, record.token@, i) && token_hit(s, record.token@, j) implies i == j by {
        if i < sessions.len() {
            assert(token_hit(sessions, record.token@, i));
        }
        if j < sessions.len() {
            assert(token_hit(sessions, record.token@, j));
        }
    }
    let k = binding_index(s, record.token@);
    assert(token_hit(s, record.token@, k));
}

} // verus!
