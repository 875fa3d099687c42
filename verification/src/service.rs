//! The three entry points the core exposes to the surrounding transport
//! layer — register, login, authenticate — and the presented-key check that
//! guards authenticated requests.
//!
//! Each time-dependent entry point exists in a `..._at` form taking the
//! moment of interest explicitly (the exact contracts) and in a convenience
//! form reading the wall clock.

use crate::clock::now_timestamp;
use crate::clock::TIMESTAMP_BOUND;
use crate::credential::derive_credential;
use crate::credential::hash_verdict;
use crate::credential::verify_credential;
use crate::credential::PASSWORD_MAX_CHARS;
use crate::entropy::all_alnum;
use crate::errors::AuthError;
use crate::session::TOKEN_LENGTH;
use crate::store::email_view;
use crate::store::email_view_of;
use crate::store::has_binding;
use crate::store::has_live_binding;
use crate::store::registration_conflict;
use crate::store::token_hit;
use crate::store::username_index;
use crate::store::username_taken;
use crate::store::AuthStore;
use crate::store::IdentityRecord;
use vstd::prelude::*;

verus! {

/// A presented authentication key that passed validation: the guard handed
/// to request handlers in place of the raw header value.
#[derive(Debug)]
pub struct AuthenticationKey {
    key_content: String,
}

impl View for AuthenticationKey {
    type V = Seq<char>;

    closed spec fn view(&self) -> Seq<char> {
        self.key_content@
    }
}

impl AuthenticationKey {
    /// The validated key itself.
    pub fn as_str(&self) -> (r: &str)
        ensures
            r@ == self@,
    {
        self.key_content.as_str()
    }
}

/// Why a presented authentication key was refused: absent from the request,
/// present but not currently valid, or unanswerable because the store
/// faulted.
#[derive(Clone, Copy, Debug, PartialEq, Eq, Structural)]
pub enum AuthenticationKeyError {
    Missing,
    Invalid,
    DbError,
}

impl AuthStore {
    /// Registers a new identity: derives a credential from the password
    /// under a fresh random salt and stores it against the username and
    /// optional email, with `now` as the creation timestamp.
    ///
    /// Succeeds exactly when neither the username nor a present email is
    /// already taken; afterwards the username is taken, so a repeated
    /// registration fails with `Conflict` and leaves the store unchanged.
    /// Credential derivation itself cannot fail on an admitted password.
    pub fn register_at(
        &mut self,
        username: &str,
        email: Option<&str>,
        password: &str,
        now: i64,
    ) -> (r: Result<u64, AuthError>)
        requires
            old(self).wf(),
            password@.len() <= PASSWORD_MAX_CHARS,
        ensures
            final(self).wf(),
            final(self)@.sessions == old(self)@.sessions,
            final(self)@.ttl_seconds == old(self)@.ttl_seconds,
            r is Ok <==> !registration_conflict(
                old(self)@.identities,
                username@,
                email_view(email),
            ),
            r matches Ok(id) ==> {
                &&& id == old(self)@.identities.len()
                &&& final(self)@.identities.len() == old(self)@.identities.len() + 1
                &&& (forall|i: int|
                    0 <= i < old(self)@.identities.len() ==> final(self)@.identities[i] == old(
                        self,
                    )@.identities[i])
                &&& final(self)@.identities.last().id == id
                &&& final(self)@.identities.last().username@ == username@
                &&& email_view_of(final(self)@.identities.last().email) == email_view(email)
                &&& final(self)@.identities.last().credential.derived_from(password@)
                &&& final(self)@.identities.last().created_at == now
                &&& username_taken(final(self)@.identities, username@)
            },
            r is Err ==> r == Err::<u64, AuthError>(AuthError::Conflict) && *final(self) == *old(
                self,
            ),
    {
        let credential = derive_credential(password);
        self.put_identity(username, email, credential, now)
    }

    /// Registers a new identity, stamping it with the current time. See
    /// [`Self::register_at`] for the exact contract; only the creation
    /// timestamp is left to the clock.
    pub fn register(&mut self, username: &str, email: Option<&str>, password: &str) -> (r: Result<
        u64,
        AuthError,
    >)
        requires
            old(self).wf(),
            password@.len() <= PASSWORD_MAX_CHARS,
        ensures
            final(self).wf(),
            final(self)@.sessions == old(self)@.sessions,
            final(self)@.ttl_seconds == old(self)@.ttl_seconds,
            r is Ok <==> !registration_conflict(
                old(self)@.identities,
                username@,
                email_view(email),
            ),
            r matches Ok(id) ==> {
                &&& id == old(self)@.identities.len()
                &&& final(self)@.identities.len() == old(self)@.identities.len() + 1
                &&& (forall|i: int|
                    0 <= i < old(self)@.identities.len() ==> final(self)@.identities[i] == old(
                        self,
                    )@.identities[i])
                &&& final(self)@.identities.last().id == id
                &&& final(self)@.identities.last().username@ == username@
                &&& email_view_of(final(self)@.identities.last().email) == email_view(email)
                &&& final(self)@.identities.last().credential.derived_from(password@)
                &&& username_taken(final(self)@.identities, username@)
            },
            r is Err ==> r == Err::<u64, AuthError>(AuthError::Conflict) && *final(self) == *old(
                self,
            ),
    {
        let now = now_timestamp();
        self.register_at(username, email, password, now)
    }

    /// Logs an identity in: verifies the password against the stored
    /// credential of the identity carrying `username`, and on success issues
    /// a fresh session token expiring `ttl_seconds` after `now`.
    ///
    /// An unknown username gives `NotFound`; a wrong password gives
    /// `Invalid` with no token issued; a malformed stored credential gives
    /// `VerificationError`, surfaced distinctly rather than downgraded to a
    /// denial. Success is owed exactly when the username is present and the
    /// password matches its stored credential.
    pub fn login_at(&mut self, username: &str, password: &str, now: i64) -> (r: Result<
        (String, i64),
        AuthError,
    >)
        requires
            old(self).wf(),
            password@.len() <= PASSWORD_MAX_CHARS,
            -TIMESTAMP_BOUND < now < TIMESTAMP_BOUND,
        ensures
            final(self).wf(),
            final(self)@.identities == old(self)@.identities,
            final(self)@.ttl_seconds == old(self)@.ttl_seconds,
            r is Ok <==> username_taken(old(self)@.identities, username@) && hash_verdict(
                old(self)@.identities[username_index(old(self)@.identities, username@)].credential.encoded_hash@,
                password@,
            ) == Some(true),
            r == Err::<(String, i64), AuthError>(AuthError::NotFound) <==> !username_taken(
                old(self)@.identities,
                username@,
            ),
            username_taken(old(self)@.identities, username@) ==> {
                let verdict = hash_verdict(
                    old(self)@.identities[username_index(
                        old(self)@.identities,
                        username@,
                    )].credential.encoded_hash@,
                    password@,
                );
                &&& (r == Err::<(String, i64), AuthError>(AuthError::Invalid) <==> verdict == Some(
                    false,
                ))
                &&& (r == Err::<(String, i64), AuthError>(AuthError::VerificationError) <==>
                    verdict is None)
            },
            r matches Ok(p) ==> {
                &&& p.0@.len() == TOKEN_LENGTH
                &&& all_alnum(p.0@)
                &&& p.1 == now + old(self)@.ttl_seconds
                &&& final(self)@.sessions.len() == old(self)@.sessions.len() + 1
                &&& (forall|i: int|
                    0 <= i < old(self)@.sessions.len() ==> final(self)@.sessions[i] == old(
                        self,
                    )@.sessions[i])
                &&& final(self)@.sessions.last().identity_id == old(self)@.identities[
                    username_index(old(self)@.identities, username@)
                ].id
                &&& final(self)@.sessions.last().token@ == p.0@
                &&& final(self)@.sessions.last().expires_at == p.1
                &&& has_live_binding(final(self)@.sessions, p.0@, now as int)
            },
            r is Err ==> *final(self) == *old(self),
    {
        let idx = match self.find_identity_index(username) {
            Some(i) => i,
            None => {
                return Err(AuthError::NotFound);
            },
        };
        proof {
            let ids = self@.identities;
            let k = username_index(ids, username@);
            assert(0 <= k < ids.len() && ids[k].username@ == username@);
            assert(k == idx);
        }
        let verdict = verify_credential(password, &self.identity_at(idx).credential);
        match verdict {
            Ok(true) => {
                let id = self.identity_at(idx).id;
                proof {
                    assert(id == idx as u64);
                }
                match self.issue_token_at(id, now) {
                    Ok(p) => Ok(p),
                    Err(_) => vstd::pervasive::unreached(),
                }
            },
            Ok(false) => Err(AuthError::Invalid),
            Err(e) => Err(e),
        }
    }

    /// Logs an identity in, judging expiry from the current time. The error
    /// taxonomy is exactly that of [`Self::login_at`]; only the expiration
    /// timestamp of a successful login is left to the clock.
    pub fn login(&mut self, username: &str, password: &str) -> (r: Result<(String, i64), AuthError>)
        requires
            old(self).wf(),
            password@.len() <= PASSWORD_MAX_CHARS,
        ensures
            final(self).wf(),
            final(self)@.identities == old(self)@.identities,
            final(self)@.ttl_seconds == old(self)@.ttl_seconds,
            r is Ok <==> username_taken(old(self)@.identities, username@) && hash_verdict(
                old(self)@.identities[username_index(old(self)@.identities, username@)].credential.encoded_hash@,
                password@,
            ) == Some(true),
            r == Err::<(String, i64), AuthError>(AuthError::NotFound) <==> !username_taken(
                old(self)@.identities,
                username@,
            ),
            username_taken(old(self)@.identities, username@) ==> {
                let verdict = hash_verdict(
                    old(self)@.identities[username_index(
                        old(self)@.identities,
                        username@,
                    )].credential.encoded_hash@,
                    password@,
                );
                &&& (r == Err::<(String, i64), AuthError>(AuthError::Invalid) <==> verdict == Some(
                    false,
                ))
                &&& (r == Err::<(String, i64), AuthError>(AuthError::VerificationError) <==>
                    verdict is None)
            },
            r matches Ok(p) ==> {
                &&& p.0@.len() == TOKEN_LENGTH
                &&& all_alnum(p.0@)
                &&& final(self)@.sessions.len() == old(self)@.sessions.len() + 1
                &&& (forall|i: int|
                    0 <= i < old(self)@.sessions.len() ==> final(self)@.sessions[i] == old(
                        self,
                    )@.sessions[i])
                &&& final(self)@.sessions.last().identity_id == old(self)@.identities[
                    username_index(old(self)@.identities, username@)
                ].id
                &&& final(self)@.sessions.last().token@ == p.0@
                &&& final(self)@.sessions.last().expires_at == p.1
                &&& has_binding(final(self)@.sessions, p.0@)
            },
            r is Err ==> *final(self) == *old(self),
    {
        let now = now_timestamp();
        let r = self.login_at(username, password, now);
        proof {
            if r is Ok {
                let s = self@.sessions;
                assert(token_hit(s, r->Ok_0.0@, s.len() - 1));
            }
        }
        r
    }

    /// Authenticates a presented token at `now`: grants exactly when some
    /// stored binding for the token is still live. A never-issued token is
    /// an ordinary denial, not an error.
    pub fn authenticate_at(&self, token: &str, now: i64) -> (r: bool)
        ensures
            r == has_live_binding(self@.sessions, token@, now as int),
    {
        self.validate_token_at(token, now)
    }

    /// Authenticates a presented token against the current time. A grant
    /// implies a binding for the token exists; see [`Self::authenticate_at`]
    /// for the exact time-indexed contract.
    pub fn authenticate(&self, token: &str) -> (r: bool)
        ensures
            r ==> has_binding(self@.sessions, token@),
    {
        self.validate_token(token)
    }

    /// Checks the authentication key presented with a request, at `now`.
    ///
    /// A request without a key is refused as `Missing`; one whose key has no
    /// live binding as `Invalid`. The in-process store cannot fault, so
    /// `DbError` is never produced here; the variant exists for callers that
    /// reach a store through fallible transport.
    pub fn check_presented_key(&self, presented: Option<&str>, now: i64) -> (r: Result<
        AuthenticationKey,
        AuthenticationKeyError,
    >)
        ensures
            presented is None <==> r == Err::<AuthenticationKey, AuthenticationKeyError>(
                AuthenticationKeyError::Missing,
            ),
            (presented matches Some(t) && !has_live_binding(self@.sessions, t@, now as int)) <==> r
                == Err::<AuthenticationKey, AuthenticationKeyError>(AuthenticationKeyError::Invalid),
            r matches Ok(k) ==> presented matches Some(t) && k@ == t@ && has_live_binding(
                self@.sessions,
                t@,
                now as int,
            ),
    {
        match presented {
            None => Err(AuthenticationKeyError::Missing),
            Some(t) => {
                if self.validate_token_at(t, now) {
                    Ok(AuthenticationKey { key_content: t.to_owned() })
                } else {
                    Err(AuthenticationKeyError::Invalid)
                }
            },
        }
    }
}

/// Law: when every identity carrying a username holds a credential derived
/// from a password — as after a successful registration of that pair, since
/// usernames are unique — the stored credential that login consults accepts
/// that password, so the login succeeds.
pub proof fn lemma_registered_credential_accepted(
    ids: Seq<IdentityRecord>,
    name: Seq<char>,
    password: Seq<char>,
)
    requires
        username_taken(ids, name),
        forall|i: int|
            0 <= i < ids.len() && (#[trigger] ids[i]).username@ == name
                ==> ids[i].credential.derived_from(password),
    ensures
        hash_verdict(ids[username_index(ids, name)].credential.encoded_hash@, password) == Some(
            true,
        ),
{
    let k = username_index(ids, name);
    assert(0 <= k < ids.len() && ids[k].username@ == name);
}

} // verus!
