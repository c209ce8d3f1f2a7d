use auth_core::error::AppError;
use auth_core::hasher::{hash_password, new_salt, Credential, SALT_LENGTH};

#[test]
fn hash_password_is_sha256_of_password_then_salt() {
    assert_eq!(
        hash_password("secret", "salt"),
        "f84fa2149dbb62ed4e0cf1f550d2949b33a6513d3a7707e08502511c79ccb0ee"
    );
}

#[test]
fn hash_password_of_one_part_is_plain_sha256() {
    let expected = "2cf24dba5fb0a30e26e83b2ac5b9e29e1b161e5c1fa7425e73043362938b9824";
    assert_eq!(hash_password("hello", ""), expected);
    assert_eq!(hash_password("", "hello"), expected);
    assert_eq!(hash_password("hel", "lo"), expected);
}

#[test]
fn hash_password_digests_utf8_bytes() {
    assert_eq!(
        hash_password("pässwörd", "Zz9"),
        "03767fd926132524432829a9712a8cd1cadc182907579464e2d0e9360851582b"
    );
}

#[test]
fn hash_password_is_not_its_input() {
    let digest = hash_password("secret", "salt");
    assert_ne!(digest, "secretsalt");
    assert_eq!(digest.len(), 64);
    assert!(digest.chars().all(|c| c.is_ascii_hexdigit() && !c.is_ascii_uppercase()));
}

#[test]
fn hash_password_is_deterministic() {
    assert_eq!(hash_password("secret", "salt"), hash_password("secret", "salt"));
}

#[test]
fn hash_password_depends_on_the_salt() {
    assert_ne!(hash_password("secret", "salt"), hash_password("secret", "pepper"));
}

#[test]
fn salt_has_thirty_two_letters_and_digits() {
    assert_eq!(SALT_LENGTH, 32);
    for _ in 0..20 {
        let salt = new_salt();
        assert_eq!(salt.chars().count(), 32);
        assert!(salt.chars().all(|c| c.is_ascii_alphanumeric()));
    }
}

#[test]
fn salts_are_drawn_afresh() {
    assert_ne!(new_salt(), new_salt());
}

#[test]
fn created_credential_holds_the_digest_not_the_password() {
    let credential = Credential::create("alice".to_string(), "secret", "salt".to_string(), 7);
    assert_eq!(
        credential,
        Credential {
            username: "alice".to_string(),
            hashed_password: "f84fa2149dbb62ed4e0cf1f550d2949b33a6513d3a7707e08502511c79ccb0ee"
                .to_string(),
            salt: "salt".to_string(),
            user_id: 7,
        }
    );
}

#[test]
fn registered_pair_verifies_to_its_account() {
    let credential = Credential::create("alice".to_string(), "secret", new_salt(), 7);
    assert_eq!(credential.verify("alice", "secret"), Ok(7));
}

#[test]
fn changed_password_is_unauthorized() {
    let credential = Credential::create("alice".to_string(), "secret", new_salt(), 7);
    assert_eq!(credential.verify("alice", "Secret"), Err(AppError::Unauthorized));
    assert_eq!(credential.verify("alice", "secret "), Err(AppError::Unauthorized));
    assert_eq!(credential.verify("alice", ""), Err(AppError::Unauthorized));
}

#[test]
fn changed_username_is_unauthorized() {
    let credential = Credential::create("alice".to_string(), "secret", new_salt(), 7);
    assert_eq!(credential.verify("alicf", "secret"), Err(AppError::Unauthorized));
    assert_eq!(credential.verify("", "secret"), Err(AppError::Unauthorized));
}

#[test]
fn password_and_salt_are_not_interchangeable_with_the_stored_digest() {
    let credential = Credential {
        username: "alice".to_string(),
        hashed_password: "secret".to_string(),
        salt: "salt".to_string(),
        user_id: 7,
    };
    assert_eq!(credential.verify("alice", "secret"), Err(AppError::Unauthorized));
}

#[test]
fn check_compares_name_and_digest() {
    let credential = Credential {
        username: "alice".to_string(),
        hashed_password: "0123abcd".to_string(),
        salt: "salt".to_string(),
        user_id: 7,
    };
    assert_eq!(credential.check("alice", "0123abcd"), Ok(7));
    assert_eq!(credential.check("alice", "0123abce"), Err(AppError::Unauthorized));
    assert_eq!(credential.check("alice", "0123ABCD"), Err(AppError::Unauthorized));
    assert_eq!(credential.check("alice", ""), Err(AppError::Unauthorized));
    assert_eq!(credential.check("bob", "0123abcd"), Err(AppError::Unauthorized));
    assert_eq!(credential.check("", ""), Err(AppError::Unauthorized));
}

#[test]
fn check_takes_the_digest_not_the_password() {
    let credential = Credential::create("alice".to_string(), "secret", "salt".to_string(), 7);
    assert_eq!(credential.check("alice", "secret"), Err(AppError::Unauthorized));
    assert_eq!(credential.check("alice", &hash_password("secret", "salt")), Ok(7));
}
