//! The persistent store the authentication core consumes: identities keyed by
//! a stable numeric identifier, and session bindings from token to identity.
//!
//! The store enforces the consistency guarantees the rest of the core leans
//! on: identifiers are assigned once and never reused, usernames (and present
//! emails) are unique, and every session binding points at a known identity.

use crate::credential::StoredCredential;
use crate::errors::AuthError;
use crate::session::SessionPolicy;
use vstd::prelude::*;

verus! {

/// A registered user account: stable identifier, unique username, optional
/// unique email, stored credential, and creation timestamp (seconds since the
/// Unix epoch). Created once at registration, never mutated.
#[derive(Debug)]
pub struct IdentityRecord {
    pub id: u64,
    pub username: String,
    pub email: Option<String>,
    pub credential: StoredCredential,
    pub created_at: i64,
}

/// One session binding: an opaque token bound to exactly one identity, with
/// an absolute expiration timestamp (seconds since the Unix epoch).
#[derive(Debug)]
pub struct SessionRecord {
    pub identity_id: u64,
    pub token: String,
    pub expires_at: i64,
}

/// The mathematical content of an [`AuthStore`]: its identities and session
/// bindings in insertion order, and the session lifetime policy in force.
pub struct StoreView {
    pub identities: Seq<IdentityRecord>,
    pub sessions: Seq<SessionRecord>,
    pub ttl_seconds: i64,
}

/// The view of an optional borrowed string.
pub open spec fn email_view(email: Option<&str>) -> Option<Seq<char>> {
    match email {
        Some(e) => Some(e@),
        None => None,
    }
}

/// Some identity already carries this username.
pub open spec fn username_taken(ids: Seq<IdentityRecord>, name: Seq<char>) -> bool {
    exists|i: int| 0 <= i < ids.len() && (#[trigger] ids[i]).username@ == name
}

/// The index of an identity carrying this username (the unique one, in a
/// well-formed store).
pub open spec fn username_index(ids: Seq<IdentityRecord>, name: Seq<char>) -> int {
    choose|i: int| 0 <= i < ids.len() && (#[trigger] ids[i]).username@ == name
}

/// Some identity already carries this email.
pub open spec fn email_taken(ids: Seq<IdentityRecord>, email: Seq<char>) -> bool {
    exists|i: int| 0 <= i < ids.len() && email_view_of((#[trigger] ids[i]).email) == Some(email)
}

/// Registration of this username/email pair collides with an existing
/// identity: the username is taken, or the email is present and taken.
pub open spec fn registration_conflict(
    ids: Seq<IdentityRecord>,
    name: Seq<char>,
    email: Option<Seq<char>>,
) -> bool {
    ||| username_taken(ids, name)
    ||| (email matches Some(e) && email_taken(ids, e))
}

/// Position `i` holds a binding for `token`.
pub open spec fn token_hit(sessions: Seq<SessionRecord>, token: Seq<char>, i: int) -> bool {
    0 <= i < sessions.len() && sessions[i].token@ == token
}

/// At least one binding for `token` exists.
pub open spec fn has_binding(sessions: Seq<SessionRecord>, token: Seq<char>) -> bool {
    exists|i: int| token_hit(sessions, token, i)
}

/// At least one binding for `token` exists that has not expired at `now`
/// (a binding is live while `now < expires_at`).
pub open spec fn has_live_binding(sessions: Seq<SessionRecord>, token: Seq<char>, now: int) -> bool {
    exists|i: int| token_hit(sessions, token, i) && now < sessions[i].expires_at
}

/// No two distinct positions hold a binding for `token`.
pub open spec fn at_most_one_binding(sessions: Seq<SessionRecord>, token: Seq<char>) -> bool {
    forall|i: int, j: int|
        token_hit(sessions, token, i) && token_hit(sessions, token, j) ==> i == j
}

/// The position of a binding for `token` (the unique one, when
/// `at_most_one_binding` holds).
pub open spec fn binding_index(sessions: Seq<SessionRecord>, token: Seq<char>) -> int {
    choose|i: int| token_hit(sessions, token, i)
}

/// The `(identity_id, expires_at)` pairs of the bindings for `token`, in
/// store order.
pub open spec fn bindings_for(sessions: Seq<SessionRecord>, token: Seq<char>) -> Seq<(u64, i64)>
    decreases sessions.len(),
{
    if sessions.len() == 0 {
        Seq::empty()
    } else if sessions.last().token@ == token {
        bindings_for(sessions.drop_last(), token).push(
            (sessions.last().identity_id, sessions.last().expires_at),
        )
    } else {
        bindings_for(sessions.drop_last(), token)
    }
}

impl StoreView {
    /// Store consistency: identifiers equal positions (so they are unique and
    /// never reused), usernames are unique, present emails are unique, every
    /// session binding points at a known identity, and the session lifetime
    /// is a positive bounded policy value.
    pub open spec fn wf(self) -> bool {
        &&& forall|i: int|
            0 <= i < self.identities.len() ==> (#[trigger] self.identities[i]).id == i
        &&& forall|i: int, j: int|
            0 <= i < j < self.identities.len() ==> (#[trigger] self.identities[i]).username@ != (
            #[trigger] self.identities[j]).username@
        &&& forall|i: int, j: int|
            0 <= i < j < self.identities.len() && email_view_of(
                (#[trigger] self.identities[i]).email,
            ) is Some ==> email_view_of(self.identities[i].email) != email_view_of(
                (#[trigger] self.identities[j]).email,
            )
        &&& forall|k: int|
            0 <= k < self.sessions.len() ==> (#[trigger] self.sessions[k]).identity_id
                < self.identities.len()
        &&& self.policy_wf()
    }

    /// The session lifetime policy in force is positive and bounded.
    pub open spec fn policy_wf(self) -> bool {
        0 < self.ttl_seconds <= crate::session::MAX_TTL_SECONDS
    }
}

/// The shared store of identities and session bindings, together with the
/// session lifetime policy. The only mutable shared resource of the core:
/// the Credential Manager and Session Authority are pure functions around it.
#[derive(Debug)]
pub struct AuthStore {
    identities: Vec<IdentityRecord>,
    sessions: Vec<SessionRecord>,
    policy: SessionPolicy,
}

impl View for AuthStore {
    type V = StoreView;

    closed spec fn view(&self) -> StoreView {
        StoreView {
            identities: self.identities@,
            sessions: self.sessions@,
            ttl_seconds: self.policy.ttl_seconds,
        }
    }
}

impl AuthStore {
    /// The store's invariant, established by `new` and preserved by every
    /// operation.
    pub open spec fn wf(self) -> bool {
        self@.wf()
    }

    /// An empty store under the given session lifetime policy.
    pub fn new(policy: SessionPolicy) -> (r: AuthStore)
        requires
            policy.wf(),
        ensures
            r.wf(),
            r@.identities.len() == 0,
            r@.sessions.len() == 0,
            r@.ttl_seconds == policy.ttl_seconds,
    {
        AuthStore { identities: Vec::new(), sessions: Vec::new(), policy }
    }

    /// Whether registering this username/email pair would collide with an
    /// existing identity.
    fn has_registration_conflict(&self, username: &str, email: Option<&str>) -> (b: bool)
        ensures
            b == registration_conflict(self@.identities, username@, email_view(email)),
    {
        let uname: String = username.to_owned();
        let email_s: Option<String> = match email {
            Some(e) => Some(e.to_owned()),
            None => None,
        };
        let mut i: usize = 0;
        let mut conflict = false;
        while i < self.identities.len()
            invariant
                0 <= i <= self.identities.len(),
                uname@ == username@,
                email_view_of(email_s) == email_view(email),
                conflict == ((exists|j: int|
                    0 <= j < i && (#[trigger] self@.identities[j]).username@ == username@) || (
                exists|j: int|
                    0 <= j < i && email_view(email) is Some && email_view_of(
                        (#[trigger] self@.identities[j]).email,
                    ) == email_view(email))),
            decreases self.identities.len() - i,
        {
            let name_matches = self.identities[i].username == uname;
            let email_matches = match (&self.identities[i].email, &email_s) {
                (Some(a), Some(b)) => *a == *b,
                _ => false,
            };
            proof {
                let rec = self@.identities[i as int];
                assert(name_matches == (rec.username@ == username@));
                assert(email_matches == (email_view(email) is Some && email_view_of(rec.email)
                    == email_view(email)));
            }
            if name_matches || email_matches {
                conflict = true;
            }
            i += 1;
        }
        proof {
            match email_view(email) {
                Some(e) => {
                    assert(conflict == (username_taken(self@.identities, username@) || email_taken(
                        self@.identities,
                        e,
                    )));
                },
                None => {
                    assert(conflict == username_taken(self@.identities, username@));
                },
            }
        }
        conflict
    }

    /// Stores a new identity and returns its freshly assigned identifier.
    ///
    /// Succeeds exactly when neither the username nor a present email is
    /// already taken; on a collision the store is unchanged and the caller
    /// gets `Conflict`. The new identifier is the number of identities stored
    /// before the call, so identifiers are never reused.
    pub fn put_identity(
        &mut self,
        username: &str,
        email: Option<&str>,
        credential: StoredCredential,
        created_at: i64,
    ) -> (r: Result<u64, AuthError>)
        requires
            old(self).wf(),
        ensures
            final(self).wf(),
            final(self)@.sessions == old(self)@.sessions,
            final(self)@.ttl_seconds == old(self)@.ttl_seconds,
            r is Ok <==> !registration_conflict(
                old(self)@.identities,
                username@,
                email_view(email),
            ),
            r matches Ok(id) ==> {
                &&& id == old(self)@.identities.len()
                &&& final(self)@.identities.len() == old(self)@.identities.len() + 1
                &&& (forall|i: int|
                    0 <= i < old(self)@.identities.len() ==> final(self)@.identities[i] == old(
                        self,
                    )@.identities[i])
                &&& final(self)@.identities.last().id == id
                &&& final(self)@.identities.last().username@ == username@
                &&& email_view_of(final(self)@.identities.last().email) == email_view(email)
                &&& final(self)@.identities.last().credential == credential
                &&& final(self)@.identities.last().created_at == created_at
                &&& username_taken(final(self)@.identities, username@)
            },
            r is Err ==> r == Err::<u64, AuthError>(AuthError::Conflict) && *final(self) == *old(
                self,
            ),
    {
        if self.has_registration_conflict(username, email) {
            return Err(AuthError::Conflict);
        }
        let id = self.identities.len() as u64;
        let record = IdentityRecord {
            id,
            username: username.to_owned(),
            email: match email {
                Some(e) => Some(e.to_owned()),
                None => None,
            },
            credential,
            created_at,
        };
        self.identities.push(record);
        proof {
            let ids = self@.identities;
            let olds = old(self)@.identities;
            let n = olds.len() as int;
            assert(ids[n].username@ == username@);
            assert forall|i: int, j: int| 0 <= i < j < ids.len() implies (
            #[trigger] ids[i]).username@ != (#[trigger] ids[j]).username@ by {
                if j < n {
                    assert(olds[i] == ids[i] && olds[j] == ids[j]);
                } else {
                    assert(ids[i] == olds[i]);
                    assert(!username_taken(olds, username@));
                }
            }
            assert forall|i: int, j: int|
                0 <= i < j < ids.len() && email_view_of((#[trigger] ids[i]).email) is Some implies
                email_view_of(ids[i].email) != email_view_of((#[trigger] ids[j]).email) by {
                if j < n {
                    assert(olds[i] == ids[i] && olds[j] == ids[j]);
                } else {
                    assert(ids[i] == olds[i]);
                    if email_view_of(ids[j].email) is Some {
                        let e = email_view(email)->Some_0;
                        assert(!email_taken(olds, e));
                    }
                }
            }
            assert forall|k: int| 0 <= k < self@.sessions.len() implies (
            #[trigger] self@.sessions[k]).identity_id < ids.len() by {
                assert(self@.sessions[k] == old(self)@.sessions[k]);
            }
        }
        Ok(id)
    }

    /// Stores a new session binding for a known identity.
    ///
    /// Succeeds exactly when `identity_id` resolves to a stored identity;
    /// a binding is never created for an unknown identity (no orphaned
    /// tokens). On an unknown identity the store is unchanged and the caller
    /// gets `NotFound`.
    pub fn put_session(&mut self, identity_id: u64, token: &str, expires_at: i64) -> (r: Result<
        (),
        AuthError,
    >)
        requires
            old(self).wf(),
        ensures
            final(self).wf(),
            final(self)@.identities == old(self)@.identities,
            final(self)@.ttl_seconds == old(self)@.ttl_seconds,
            r is Ok <==> identity_id < old(self)@.identities.len(),
            r is Ok ==> {
                &&& final(self)@.sessions.len() == old(self)@.sessions.len() + 1
                &&& (forall|i: int|
                    0 <= i < old(self)@.sessions.len() ==> final(self)@.sessions[i] == old(
                        self,
                    )@.sessions[i])
                &&& final(self)@.sessions.last().identity_id == identity_id
                &&& final(self)@.sessions.last().token@ == token@
                &&& final(self)@.sessions.last().expires_at == expires_at
            },
            r is Err ==> r == Err::<(), AuthError>(AuthError::NotFound) && *final(self) == *old(
                self,
            ),
    {
        if identity_id >= self.identities.len() as u64 {
            return Err(AuthError::NotFound);
        }
        let record = SessionRecord { identity_id, token: token.to_owned(), expires_at };
        self.sessions.push(record);
        proof {
            assert forall|k: int| 0 <= k < self@.sessions.len() implies (
            #[trigger] self@.sessions[k]).identity_id < self@.identities.len() by {
                if k < old(self)@.sessions.len() {
                    assert(self@.sessions[k] == old(self)@.sessions[k]);
                }
            }
        }
        Ok(())
    }

    /// The stored identity record at a position, for the service operations.
    pub(crate) fn identity_at(&self, i: usize) -> (r: &IdentityRecord)
        requires
            i < self@.identities.len(),
        ensures
            *r == self@.identities[i as int],
    {
        &self.identities[i]
    }

    /// Looks up the identity carrying this username.
    pub(crate) fn find_identity_index(&self, username: &str) -> (r: Option<usize>)
        ensures
            r is Some <==> username_taken(self@.identities, username@),
            r matches Some(i) ==> 0 <= i < self@.identities.len() && self@.identities[
                i as int
            ].username@ == username@,
    {
        let uname: String = username.to_owned();
        let mut i: usize = 0;
        while i < self.identities.len()
            invariant
                0 <= i <= self.identities.len(),
                uname@ == username@,
                forall|j: int| 0 <= j < i ==> (#[trigger] self@.identities[j]).username@ != username@,
            decreases self.identities.len() - i,
        {
            if self.identities[i].username == uname {
                return Some(i);
            }
            i += 1;
        }
        None
    }

    /// Looks up the identity record carrying this username: in a well-formed
    /// store, the unique one.
    pub fn find_identity_by_username(&self, username: &str) -> (r: Option<&IdentityRecord>)
        requires
            self.wf(),
        ensures
            r is Some <==> username_taken(self@.identities, username@),
            r matches Some(rec) ==> *rec == self@.identities[username_index(
                self@.identities,
                username@,
            )] && rec.username@ == username@,
    {
        match self.find_identity_index(username) {
            Some(i) => {
                let rec = &self.identities[i];
                proof {
                    let k = username_index(self@.identities, username@);
                    assert(0 <= k < self@.identities.len() && self@.identities[k].username@
                        == username@);
                    assert(k == i);
                }
                Some(rec)
            },
            None => None,
        }
    }

    /// Looks up the username of the identity with this identifier.
    pub fn find_username_by_id(&self, id: u64) -> (r: Option<&String>)
        requires
            self.wf(),
        ensures
            r is Some <==> id < self@.identities.len(),
            r matches Some(name) ==> name@ == self@.identities[id as int].username@,
    {
        if id < self.identities.len() as u64 {
            Some(&self.identities[id as usize].username)
        } else {
            None
        }
    }

    /// Returns the `(identity_id, expires_at)` pairs of every stored binding
    /// for this token, in store order — normally zero or one, but duplicates
    /// are reported faithfully so callers can tolerate them.
    pub fn find_sessions_by_token(&self, token: &str) -> (r: Vec<(u64, i64)>)
        ensures
            r@ == bindings_for(self@.sessions, token@),
    {
        let t: String = token.to_owned();
        let mut out: Vec<(u64, i64)> = Vec::new();
        let mut i: usize = 0;
        while i < self.sessions.len()
            invariant
                0 <= i <= self.sessions.len(),
                t@ == token@,
                out@ == bindings_for(self@.sessions.take(i as int), token@),
            decreases self.sessions.len() - i,
        {
            proof {
                assert(self@.sessions.take(i + 1).drop_last() == self@.sessions.take(i as int));
                assert(self@.sessions.take(i + 1).last() == self@.sessions[i as int]);
            }
            if self.sessions[i].token == t {
                let pair = (self.sessions[i].identity_id, self.sessions[i].expires_at);
                out.push(pair);
            }
            i += 1;
        }
        proof {
            assert(self@.sessions.take(self@.sessions.len() as int) == self@.sessions);
        }
        out
    }

    /// The number of stored session bindings, for the session operations.
    pub(crate) fn sessions_len(&self) -> (r: usize)
        ensures
            r == self@.sessions.len(),
    {
        self.sessions.len()
    }

    /// The stored session binding at a position, for the session operations.
    pub(crate) fn session_at(&self, i: usize) -> (r: &SessionRecord)
        requires
            i < self@.sessions.len(),
        ensures
            *r == self@.sessions[i as int],
    {
        &self.sessions[i]
    }

    /// The number of stored identities.
    pub fn identity_count(&self) -> (r: usize)
        ensures
            r == self@.identities.len(),
    {
        self.identities.len()
    }

    /// The number of stored session bindings.
    pub fn session_count(&self) -> (r: usize)
        ensures
            r == self@.sessions.len(),
    {
        self.sessions.len()
    }

    /// The session lifetime, in seconds, that this store issues tokens with.
    pub fn ttl_seconds(&self) -> (r: i64)
        ensures
            r == self@.ttl_seconds,
    {
        self.policy.ttl_seconds
    }
}

/// The view of an optional owned string.
pub open spec fn email_view_of(email: Option<String>) -> Option<Seq<char>> {
    match email {
        Some(e) => Some(e@),
        None => None,
    }
}

} // verus!
