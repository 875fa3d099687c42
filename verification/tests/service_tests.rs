use forum_auth::index;
use forum_auth::AuthError;
use forum_auth::AuthStore;
use forum_auth::AuthenticationKeyError;
use forum_auth::SessionPolicy;
use forum_auth::DEFAULT_TTL_SECONDS;

#[test]
fn end_to_end_register_login_authenticate() {
    let mut store = AuthStore::new(SessionPolicy::default());
    store.register("alice", Some("a@x.com"), "pw123").unwrap();

    let (token, expires_at) = store.login("alice", "pw123").unwrap();
    // Expiry is about 10 days out from the wall clock.
    let now = chrono::Utc::now().timestamp();
    assert!((expires_at - now - DEFAULT_TTL_SECONDS).abs() <= 100);

    // Honored immediately, refused once the clock passes the expiry.
    assert!(store.authenticate(&token));
    assert!(store.authenticate_at(&token, expires_at - 1));
    assert!(!store.authenticate_at(&token, expires_at));
    assert!(!store.authenticate_at(&token, expires_at + 3600));
}

#[test]
fn login_with_wrong_password_is_invalid_and_issues_nothing() {
    let mut store = AuthStore::new(SessionPolicy::default());
    store.register("alice", Some("a@x.com"), "pw123").unwrap();
    assert_eq!(store.login("alice", "wrongpw"), Err(AuthError::Invalid));
    assert_eq!(store.session_count(), 0);
}

#[test]
fn login_for_unknown_user_is_not_found() {
    let mut store = AuthStore::new(SessionPolicy::default());
    assert_eq!(store.login("nobody", "pw123"), Err(AuthError::NotFound));
}

#[test]
fn registering_the_same_username_twice_is_a_conflict() {
    let mut store = AuthStore::new(SessionPolicy::default());
    store.register("alice", Some("a@x.com"), "pw123").unwrap();
    assert_eq!(store.register("alice", Some("b@y.com"), "other"), Err(AuthError::Conflict));
    assert_eq!(store.identity_count(), 1);
    // The first registration still works.
    assert!(store.login("alice", "pw123").is_ok());
}

#[test]
fn registering_a_taken_email_is_a_conflict() {
    let mut store = AuthStore::new(SessionPolicy::default());
    store.register("alice", Some("a@x.com"), "pw123").unwrap();
    assert_eq!(store.register("bob", Some("a@x.com"), "hunter2"), Err(AuthError::Conflict));
}

#[test]
fn absent_emails_do_not_collide() {
    let mut store = AuthStore::new(SessionPolicy::default());
    assert_eq!(store.register("alice", None, "pw123"), Ok(0));
    assert_eq!(store.register("bob", None, "hunter2"), Ok(1));
}

#[test]
fn identifiers_are_assigned_in_order_and_resolve_back() {
    let mut store = AuthStore::new(SessionPolicy::default());
    let alice = store.register_at("alice", None, "pw123", 10).unwrap();
    let bob = store.register_at("bob", None, "hunter2", 20).unwrap();
    assert_eq!((alice, bob), (0, 1));
    let (token, _) = store.login_at("bob", "hunter2", 5000).unwrap();
    assert_eq!(store.resolve_identity_at(&token, 5000), Ok(bob));
}

#[test]
fn presented_key_check_classifies_requests() {
    let mut store = AuthStore::new(SessionPolicy::default());
    let id = store.register_at("alice", None, "pw123", 10).unwrap();
    let (token, _) = store.issue_token_at(id, 5000).unwrap();

    assert_eq!(
        store.check_presented_key(None, 5000).unwrap_err(),
        AuthenticationKeyError::Missing
    );
    assert_eq!(
        store.check_presented_key(Some("bogus"), 5000).unwrap_err(),
        AuthenticationKeyError::Invalid
    );
    let key = store.check_presented_key(Some(&token), 5000).unwrap();
    assert_eq!(key.as_str(), token);
}

#[test]
fn index_greets() {
    assert_eq!(index(), "Hello, world!");
}
