//! Error taxonomy of the authentication core.

use vstd::prelude::*;

verus! {

/// Outcome classification for the authentication core.
///
/// `NotFound` and `Invalid` are ordinary outcomes a caller must handle (they
/// map to "access denied"); `Conflict` reports a uniqueness violation at
/// registration; `StorageError` a persistence integrity fault (such as
/// duplicate bindings where at most one is expected); `HashingError` and
/// `VerificationError` faults of the credential subsystem, the latter raised
/// when a stored credential is malformed.
#[derive(Clone, Copy, Debug, PartialEq, Eq, Structural)]
pub enum AuthError {
    NotFound,
    Invalid,
    Conflict,
    StorageError,
    HashingError,
    VerificationError,
}

} // verus!
