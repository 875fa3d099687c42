//! Authentication core for a small forum service.
//!
//! Two components over one shared store. The Credential Manager
//! ([`derive_credential`], [`verify_credential`]) turns a plaintext password
//! into a durable hash-plus-salt secret at registration and checks a
//! password against it at login. The Session Authority (the token methods of
//! [`AuthStore`]) issues opaque bearer tokens with an absolute expiry at
//! successful login, validates presented tokens against a moment in time,
//! and resolves a token back to the identity it was issued to.
//!
//! The surrounding web layer — routing, headers, serialization — stays
//! outside this crate and talks to it through plain values.

mod clock;
mod credential;
mod entropy;
mod errors;
mod service;
mod session;
mod store;

pub use clock::TIMESTAMP_BOUND;
pub use credential::derive_credential;
pub use credential::derived_hash;
pub use credential::hash_verdict;
pub use credential::verify_credential;
pub use credential::credential_round_trip;
pub use credential::StoredCredential;
pub use credential::PASSWORD_MAX_CHARS;
pub use credential::SALT_LENGTH;
pub use entropy::all_alnum;
pub use entropy::is_alnum_char;
pub use errors::AuthError;
pub use service::lemma_registered_credential_accepted;
pub use service::AuthenticationKey;
pub use service::AuthenticationKeyError;
pub use session::lemma_expired_bindings_rejected;
pub use session::lemma_fresh_token_resolves;
pub use session::lemma_live_binding_preserved_by_push;
pub use session::lemma_unknown_token_rejected;
pub use session::SessionPolicy;
pub use session::DEFAULT_TTL_SECONDS;
pub use session::MAX_TTL_SECONDS;
pub use session::TOKEN_LENGTH;
pub use store::at_most_one_binding;
pub use store::binding_index;
pub use store::bindings_for;
pub use store::email_taken;
pub use store::email_view;
pub use store::email_view_of;
pub use store::has_binding;
pub use store::has_live_binding;
pub use store::registration_conflict;
pub use store::token_hit;
pub use store::username_index;
pub use store::username_taken;
pub use store::AuthStore;
pub use store::IdentityRecord;
pub use store::SessionRecord;
pub use store::StoreView;

use vstd::prelude::*;

verus! {

/// Greeting served at the root route of the surrounding web layer.
pub fn index() -> (r: &'static str)
    ensures
        r@ == "Hello, world!"@,
{
    "Hello, world!"
}

} // verus!
