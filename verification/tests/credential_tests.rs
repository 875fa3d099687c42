use forum_auth::derive_credential;
use forum_auth::verify_credential;
use forum_auth::credential_round_trip;
use forum_auth::AuthError;
use forum_auth::StoredCredential;
use forum_auth::SALT_LENGTH;

#[test]
fn round_trip_accepts_correct_password() {
    let credential = derive_credential("pw123");
    assert_eq!(verify_credential("pw123", &credential).unwrap(), true);
    assert!(credential_round_trip("pw123"));
}

#[test]
fn round_trip_accepts_empty_password() {
    let credential = derive_credential("");
    assert_eq!(verify_credential("", &credential).unwrap(), true);
}

#[test]
fn round_trip_accepts_long_unicode_password() {
    let password = "pässwörd-\u{1F511}-with some length to it";
    let credential = derive_credential(password);
    assert_eq!(verify_credential(password, &credential).unwrap(), true);
}

#[test]
fn wrong_password_rejected() {
    let credential = derive_credential("pw123");
    assert_eq!(verify_credential("wrongpw", &credential).unwrap(), false);
    assert_eq!(verify_credential("pw12", &credential).unwrap(), false);
    assert_eq!(verify_credential("", &credential).unwrap(), false);
}

#[test]
fn repeated_derivation_gives_distinct_credentials() {
    let first = derive_credential("pw123");
    let second = derive_credential("pw123");
    assert_ne!(first.salt, second.salt);
    assert_ne!(first.encoded_hash, second.encoded_hash);
    // Each still verifies on its own.
    assert_eq!(verify_credential("pw123", &first).unwrap(), true);
    assert_eq!(verify_credential("pw123", &second).unwrap(), true);
}

#[test]
fn salt_is_fresh_random_alphanumeric() {
    let credential = derive_credential("pw123");
    assert_eq!(credential.salt.len(), SALT_LENGTH);
    assert!(credential.salt.chars().all(|c| c.is_ascii_alphanumeric()));
    // The encoded hash is a real argon2 encoding, not the password echoed back.
    assert!(credential.encoded_hash.starts_with("$argon2"));
    assert!(!credential.encoded_hash.contains("pw123"));
}

#[test]
fn malformed_stored_credential_is_verification_error() {
    let corrupt = StoredCredential {
        encoded_hash: String::from("not-an-encoded-hash"),
        salt: String::from("0123456789abcdef"),
    };
    assert_eq!(verify_credential("pw123", &corrupt), Err(AuthError::VerificationError));
}
