use forum_auth::AuthError;
use forum_auth::AuthStore;
use forum_auth::SessionPolicy;
use forum_auth::DEFAULT_TTL_SECONDS;
use forum_auth::TOKEN_LENGTH;

fn store_with_alice() -> (AuthStore, u64) {
    let mut store = AuthStore::new(SessionPolicy::default());
    let id = store.register_at("alice", Some("a@x.com"), "pw123", 1000).unwrap();
    (store, id)
}

#[test]
fn issue_then_validate_is_true() {
    let (mut store, id) = store_with_alice();
    let now: i64 = 5000;
    let (token, expires_at) = store.issue_token_at(id, now).unwrap();
    assert_eq!(expires_at, now + DEFAULT_TTL_SECONDS);
    assert!(store.validate_token_at(&token, now));
}

#[test]
fn token_shape_is_32_alphanumeric() {
    let (mut store, id) = store_with_alice();
    let (token, _) = store.issue_token_at(id, 5000).unwrap();
    assert_eq!(token.chars().count(), TOKEN_LENGTH);
    assert!(token.chars().all(|c| c.is_ascii_alphanumeric()));
}

#[test]
fn expired_token_is_false_not_error() {
    let (mut store, id) = store_with_alice();
    let now: i64 = 5000;
    let (token, expires_at) = store.issue_token_at(id, now).unwrap();
    // Live strictly before the expiration instant, dead from it on.
    assert!(store.validate_token_at(&token, expires_at - 1));
    assert!(!store.validate_token_at(&token, expires_at));
    assert!(!store.validate_token_at(&token, expires_at + 1));
}

#[test]
fn two_tokens_for_one_identity_are_distinct_and_both_valid() {
    let (mut store, id) = store_with_alice();
    let now: i64 = 5000;
    let (first, _) = store.issue_token_at(id, now).unwrap();
    let (second, _) = store.issue_token_at(id, now + 1).unwrap();
    assert_ne!(first, second);
    assert!(store.validate_token_at(&first, now + 2));
    assert!(store.validate_token_at(&second, now + 2));
}

#[test]
fn resolve_identity_returns_the_issuing_identity() {
    let (mut store, id) = store_with_alice();
    let now: i64 = 5000;
    let (token, _) = store.issue_token_at(id, now).unwrap();
    assert_eq!(store.resolve_identity_at(&token, now), Ok(id));
}

#[test]
fn never_issued_token_is_false_and_not_found() {
    let (store, _) = store_with_alice();
    let stranger = "AAAAAAAAAAAAAAAAAAAAAAAAAAAAAAAA";
    assert!(!store.validate_token_at(stranger, 5000));
    assert_eq!(store.resolve_identity_at(stranger, 5000), Err(AuthError::NotFound));
}

#[test]
fn issuing_for_unknown_identity_is_not_found() {
    let (mut store, _) = store_with_alice();
    assert_eq!(store.issue_token_at(99, 5000), Err(AuthError::NotFound));
    assert_eq!(store.session_count(), 0);
}

#[test]
fn resolve_refuses_duplicate_bindings_as_storage_error() {
    let (mut store, id) = store_with_alice();
    store.put_session(id, "tok", 9000).unwrap();
    store.put_session(id, "tok", 9500).unwrap();
    assert_eq!(store.resolve_identity_at("tok", 5000), Err(AuthError::StorageError));
}

#[test]
fn any_valid_wins_over_expired_duplicate() {
    let (mut store, id) = store_with_alice();
    store.put_session(id, "tok", 100).unwrap();
    store.put_session(id, "tok", 9000).unwrap();
    // The expired duplicate does not shadow the still-valid binding.
    assert!(store.validate_token_at("tok", 5000));
    // Once both have expired, validation fails.
    assert!(!store.validate_token_at("tok", 9000));
}

#[test]
fn resolve_refuses_expired_unique_binding_as_invalid() {
    let (mut store, id) = store_with_alice();
    store.put_session(id, "tok", 100).unwrap();
    assert_eq!(store.resolve_identity_at("tok", 200), Err(AuthError::Invalid));
    assert_eq!(store.resolve_identity_at("tok", 99), Ok(id));
}

#[test]
fn put_session_refuses_unknown_identity() {
    let (mut store, _) = store_with_alice();
    assert_eq!(store.put_session(7, "tok", 9000), Err(AuthError::NotFound));
    assert_eq!(store.session_count(), 0);
}

#[test]
fn find_sessions_by_token_reports_all_matches_in_order() {
    let (mut store, id) = store_with_alice();
    store.put_session(id, "tok", 100).unwrap();
    store.put_session(id, "other", 200).unwrap();
    store.put_session(id, "tok", 300).unwrap();
    assert_eq!(store.find_sessions_by_token("tok"), vec![(id, 100), (id, 300)]);
    assert_eq!(store.find_sessions_by_token("other"), vec![(id, 200)]);
    assert_eq!(store.find_sessions_by_token("missing"), Vec::<(u64, i64)>::new());
}

#[test]
fn configurable_ttl_governs_expiry() {
    let mut store = AuthStore::new(SessionPolicy::new(100));
    assert_eq!(store.ttl_seconds(), 100);
    let id = store.register_at("alice", None, "pw123", 0).unwrap();
    let (token, expires_at) = store.issue_token_at(id, 1000).unwrap();
    assert_eq!(expires_at, 1100);
    assert!(store.validate_token_at(&token, 1099));
    assert!(!store.validate_token_at(&token, 1100));
}

#[test]
fn lookup_getters_agree_with_registration() {
    let (mut store, id) = store_with_alice();
    let bob = store.register_at("bob", None, "hunter2", 2000).unwrap();
    assert_eq!(store.identity_count(), 2);
    assert_eq!(store.find_username_by_id(id).unwrap(), "alice");
    assert_eq!(store.find_username_by_id(bob).unwrap(), "bob");
    assert!(store.find_username_by_id(99).is_none());
    let alice = store.find_identity_by_username("alice").unwrap();
    assert_eq!(alice.id, id);
    assert_eq!(alice.email.as_deref(), Some("a@x.com"));
    assert_eq!(alice.created_at, 1000);
    assert!(store.find_identity_by_username("carol").is_none());
}
