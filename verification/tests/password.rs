use geos::error::AppError;
use geos::password::{hash_password, verify_password};

#[test]
fn hashed_password_verifies_and_others_do_not() {
    let hash = hash_password("secure-password-12").unwrap();
    assert!(hash.starts_with("$argon2id$"), "{hash}");
    assert_eq!(verify_password("secure-password-12", &hash).unwrap(), true);
    assert_eq!(verify_password("secure-password-13", &hash).unwrap(), false);
    let again = hash_password("secure-password-12").unwrap();
    assert_ne!(hash, again);
    assert_eq!(verify_password("secure-password-12", &again).unwrap(), true);
}

#[test]
fn unparseable_stored_hash_is_internal() {
    match verify_password("whatever", "not-a-phc-string") {
        Err(AppError::Internal(m)) => assert_eq!(m, "stored hash invalid"),
        other => panic!("unexpected {other:?}"),
    }
    assert!(verify_password("x", "").is_err());
}
