use auth_core::account::{
    created, new_account, register, Account, AccountCreationRequest, AccountResponse, NewAccount,
};
use auth_core::error::{AppError, DbError};

fn request() -> AccountCreationRequest {
    AccountCreationRequest {
        username: "alice".to_string(),
        password: "secret".to_string(),
        email: "alice@example.com".to_string(),
        first_name: "Alice".to_string(),
        last_name: "Liddell".to_string(),
    }
}

#[test]
fn new_account_stores_the_digest_under_the_salt() {
    assert_eq!(
        new_account(&request(), "salt".to_string()),
        NewAccount {
            username: "alice".to_string(),
            password: "f84fa2149dbb62ed4e0cf1f550d2949b33a6513d3a7707e08502511c79ccb0ee"
                .to_string(),
            salt: "salt".to_string(),
            email: "alice@example.com".to_string(),
            first_name: "Alice".to_string(),
            last_name: "Liddell".to_string(),
        }
    );
}

#[test]
fn register_draws_a_salt_and_hashes_with_it() {
    let account = register(&request()).unwrap();
    assert_eq!(account.salt.chars().count(), 32);
    assert!(account.salt.chars().all(|c| c.is_ascii_alphanumeric()));
    assert_eq!(account, new_account(&request(), account.salt.clone()));
    assert_ne!(account.password, "secret");
}

#[test]
fn register_salts_each_account_afresh() {
    let first = register(&request()).unwrap();
    let second = register(&request()).unwrap();
    assert_ne!(first.salt, second.salt);
    assert_ne!(first.password, second.password);
}

#[test]
fn registered_user_can_log_in() {
    let account = register(&request()).unwrap();
    let credential = account.credential(31);
    assert_eq!(credential.username, "alice");
    assert_eq!(credential.hashed_password, account.password);
    assert_eq!(credential.salt, account.salt);
    assert_eq!(credential.user_id, 31);
    assert_eq!(credential.verify("alice", "secret"), Ok(31));
    assert_eq!(credential.verify("alice", "secreT"), Err(AppError::Unauthorized));
    assert_eq!(credential.verify("Alice", "secret"), Err(AppError::Unauthorized));
}

#[test]
fn validate_accepts_a_complete_request() {
    assert_eq!(request().validate(), Ok(()));
}

#[test]
fn validate_wants_every_field() {
    let mut body = request();
    body.username = String::new();
    assert_eq!(body.validate(), Err(AppError::BadClientData));
    let mut body = request();
    body.password = String::new();
    assert_eq!(body.validate(), Err(AppError::BadClientData));
    let mut body = request();
    body.first_name = String::new();
    assert_eq!(body.validate(), Err(AppError::BadClientData));
    let mut body = request();
    body.last_name = String::new();
    assert_eq!(body.validate(), Err(AppError::BadClientData));
    let mut body = request();
    body.email = String::new();
    assert_eq!(body.validate(), Err(AppError::BadClientData));
}

#[test]
fn validate_wants_an_email_address() {
    for email in ["alice", "alice@", "@example.com", "alice@exa mple.com", "a@b@c@example.com"] {
        let mut body = request();
        body.email = email.to_string();
        assert_eq!(body.validate(), Err(AppError::BadClientData), "{}", email);
    }
    for email in ["email@here.com", "weirder-email@here.and.there.com", "email@[127.0.0.1]"] {
        let mut body = request();
        body.email = email.to_string();
        assert_eq!(body.validate(), Ok(()), "{}", email);
    }
}

#[test]
fn validate_does_not_echo_the_address() {
    let mut body = request();
    body.email = "true".to_string();
    assert_eq!(body.validate(), Err(AppError::BadClientData));
}

#[test]
fn register_rejects_what_validate_rejects() {
    let mut body = request();
    body.email = "not an address".to_string();
    assert_eq!(register(&body), Err(AppError::BadClientData));
    let mut body = request();
    body.password = String::new();
    assert_eq!(register(&body), Err(AppError::BadClientData));
}

#[test]
fn one_character_is_enough_for_a_name() {
    let mut body = request();
    body.username = "a".to_string();
    body.password = "b".to_string();
    body.first_name = "c".to_string();
    body.last_name = "d".to_string();
    assert!(register(&body).is_ok());
}

#[test]
fn response_leaves_out_the_id() {
    let account = Account {
        id: 31,
        email: "alice@example.com".to_string(),
        first_name: "Alice".to_string(),
        last_name: "Liddell".to_string(),
    };
    assert_eq!(
        AccountResponse::from(account),
        AccountResponse {
            email: "alice@example.com".to_string(),
            first_name: "Alice".to_string(),
            last_name: "Liddell".to_string(),
        }
    );
}

#[test]
fn created_answers_with_the_account() {
    let account = Account {
        id: 31,
        email: "alice@example.com".to_string(),
        first_name: "Alice".to_string(),
        last_name: "Liddell".to_string(),
    };
    assert_eq!(
        created(Ok(account)),
        Ok(AccountResponse {
            email: "alice@example.com".to_string(),
            first_name: "Alice".to_string(),
            last_name: "Liddell".to_string(),
        })
    );
}

#[test]
fn created_reports_the_failure_of_the_store() {
    assert_eq!(created(Err(DbError::RowNotFound)), Err(AppError::NotFound));
    assert_eq!(created(Err(DbError::Other)), Err(AppError::InternalError));
}

#[test]
fn validate_with_follows_the_verdict_on_the_address() {
    assert_eq!(request().validate_with(true), Ok(()));
    assert_eq!(request().validate_with(false), Err(AppError::BadClientData));
}

#[test]
fn validate_with_wants_every_field_whatever_the_address() {
    let mut body = request();
    body.username = String::new();
    assert_eq!(body.validate_with(true), Err(AppError::BadClientData));
    let mut body = request();
    body.password = String::new();
    assert_eq!(body.validate_with(true), Err(AppError::BadClientData));
    let mut body = request();
    body.first_name = String::new();
    assert_eq!(body.validate_with(true), Err(AppError::BadClientData));
    let mut body = request();
    body.last_name = String::new();
    assert_eq!(body.validate_with(true), Err(AppError::BadClientData));
    let mut body = request();
    body.email = String::new();
    assert_eq!(body.validate_with(true), Ok(()));
}
