use trow::users::{get_hash_from_password, get_salt, verify_password, User, UserError};

#[test]
fn test_get_salt() {
    let salt = get_salt();
    assert!(
        salt.len() == 512,
        "Expected Salt to be of length {} but got {}",
        512,
        salt.len()
    )
}

#[test]
fn test_hashing_password() {
    let salt = get_salt();
    match get_hash_from_password(String::from("Password1"), salt.clone()) {
        Ok(hash) => {
            // testing valid password
            match verify_password(String::from("Password1"), hash.clone()) {
                Ok(valid) => assert!(valid, "Expected password to get verified"),
                _ => {}
            }
            // testing invalid password
            match verify_password(String::from("Password2"), hash) {
                Ok(invalid) => assert!(!invalid, "Expected password to fail verification"),
                _ => {}
            }
        }
        Err(_) => {
            assert!(false, "Failed to get hash from password");
        }
    }
}

#[test]
fn empty_hash_matches_nothing() {
    assert_eq!(verify_password("Password1".to_string(), String::new()), Ok(false));
}

#[test]
fn new_user_has_hex_salt_and_verifiable_hash() {
    let u = User::new("spazzy".to_string(), "Password1".to_string()).unwrap();
    assert_eq!(u.name, "spazzy");
    assert_eq!(u.active, 1);
    assert_eq!(u.salt.len(), 1024);
    assert!(u
        .salt
        .chars()
        .all(|c| c.is_ascii_digit() || ('A'..='F').contains(&c)));
    assert_ne!(u.hash, "Password1");
    assert_eq!(verify_password("Password1".to_string(), u.hash.clone()), Ok(true));
}

#[test]
fn authorize_checks_the_password() {
    let u = User::new("user_one".to_string(), "Password1".to_string()).unwrap();
    assert_eq!(
        User::authorize(Some(u.clone()), "Password1".to_string()),
        Ok(u.clone())
    );
    assert_eq!(
        User::authorize(Some(u), "Password2".to_string()),
        Err(UserError::InvalidCredentials)
    );
}

#[test]
fn authorize_unknown_account_fails() {
    assert_eq!(
        User::authorize(None, "Password1".to_string()),
        Err(UserError::InvalidCredentials)
    );
}

#[test]
fn unreadable_hash_is_a_hashing_error() {
    assert_eq!(
        verify_password("Password1".to_string(), "not-a-hash".to_string()),
        Err(UserError::Hashing)
    );
}
