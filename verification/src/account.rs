//! Accounts: the identity that tokens are issued for, and registration.

use crate::error::{db_failure, AppError, DbError};
use crate::hasher::{
    hash_password, is_alphanumeric_text, new_salt, password_digest, registered, Credential,
    CredentialView, SALT_LENGTH,
};
use vstd::prelude::*;

verus! {

/// An account as plain values.
pub struct AccountView {
    pub id: i64,
    pub email: Seq<char>,
    pub first_name: Seq<char>,
    pub last_name: Seq<char>,
}

/// One row of the account store.
#[derive(Clone, Debug, PartialEq, Eq)]
pub struct Account {
    pub id: i64,
    pub email: String,
    pub first_name: String,
    pub last_name: String,
}

impl View for Account {
    type V = AccountView;

    open spec fn view(&self) -> AccountView {
        AccountView {
            id: self.id,
            email: self.email@,
            first_name: self.first_name@,
            last_name: self.last_name@,
        }
    }
}

/// The body of a registration request.
#[derive(Clone, Debug, PartialEq, Eq)]
pub struct AccountCreationRequest {
    pub username: String,
    pub password: String,
    pub email: String,
    pub first_name: String,
    pub last_name: String,
}

/// Whether `text` is an e-mail address by the rules of HTML5 forms.
pub uninterp spec fn is_email(text: Seq<char>) -> bool;

/// Calls `validator::validate_email` on a string slice.
///
/// Trusted: the answer depends on the text alone. The grammar of an address
/// is not spelled out here.
#[verifier::external_body]
fn validate_email(text: &str) -> (valid: bool)
    ensures
        valid == is_email(text@),
{
    validator::validate_email(text)
}

impl AccountCreationRequest {
    /// Whether the request can be registered: the user name, the password
    /// and both names are not empty, and the e-mail address is one.
    pub open spec fn acceptable(&self) -> bool {
        &&& self.username@.len() > 0
        &&& self.password@.len() > 0
        &&& is_email(self.email@)
        &&& self.first_name@.len() > 0
        &&& self.last_name@.len() > 0
    }

    /// Checks the request once its e-mail address was judged: it is
    /// `BadClientData` unless the user name, the password and both names
    /// are not empty and `email_is_valid` holds.
    pub fn validate_with(&self, email_is_valid: bool) -> (outcome: Result<(), AppError>)
        ensures
            outcome == if self.username@.len() > 0 && self.password@.len() > 0 && email_is_valid
                && self.first_name@.len() > 0 && self.last_name@.len() > 0 {
                Ok::<(), AppError>(())
            } else {
                Err::<(), AppError>(AppError::BadClientData)
            },
    {
        if self.username.as_str().is_empty() || self.password.as_str().is_empty()
            || self.first_name.as_str().is_empty() || self.last_name.as_str().is_empty()
            || !email_is_valid {
            Err(AppError::BadClientData)
        } else {
            Ok(())
        }
    }

    /// Checks the request: `BadClientData` unless it can be registered.
    pub fn validate(&self) -> (outcome: Result<(), AppError>)
        ensures
            outcome == if self.acceptable() {
                Ok::<(), AppError>(())
            } else {
                Err::<(), AppError>(AppError::BadClientData)
            },
    {
        self.validate_with(validate_email(self.email.as_str()))
    }
}

/// What a registration answers: the account without its id.
#[derive(Clone, Debug, PartialEq, Eq)]
pub struct AccountResponse {
    pub email: String,
    pub first_name: String,
    pub last_name: String,
}

/// A registration response as plain values.
pub struct AccountResponseView {
    pub email: Seq<char>,
    pub first_name: Seq<char>,
    pub last_name: Seq<char>,
}

impl View for AccountResponse {
    type V = AccountResponseView;

    open spec fn view(&self) -> AccountResponseView {
        AccountResponseView {
            email: self.email@,
            first_name: self.first_name@,
            last_name: self.last_name@,
        }
    }
}

impl From<Account> for AccountResponse {
    fn from(account: Account) -> (response: AccountResponse) {
        AccountResponse {
            email: account.email,
            first_name: account.first_name,
            last_name: account.last_name,
        }
    }
}

impl vstd::std_specs::convert::FromSpecImpl<Account> for AccountResponse {
    open spec fn obeys_from_spec() -> bool {
        true
    }

    open spec fn from_spec(account: Account) -> AccountResponse {
        AccountResponse {
            email: account.email,
            first_name: account.first_name,
            last_name: account.last_name,
        }
    }
}

/// What is written to the stores for a new account. The password is held
/// only as its digest under `salt`.
#[derive(Clone, Debug, PartialEq, Eq)]
pub struct NewAccount {
    pub username: String,
    pub password: String,
    pub salt: String,
    pub email: String,
    pub first_name: String,
    pub last_name: String,
}

/// A new account as plain values.
pub struct NewAccountView {
    pub username: Seq<char>,
    pub password: Seq<char>,
    pub salt: Seq<char>,
    pub email: Seq<char>,
    pub first_name: Seq<char>,
    pub last_name: Seq<char>,
}

impl View for NewAccount {
    type V = NewAccountView;

    open spec fn view(&self) -> NewAccountView {
        NewAccountView {
            username: self.username@,
            password: self.password@,
            salt: self.salt@,
            email: self.email@,
            first_name: self.first_name@,
            last_name: self.last_name@,
        }
    }
}

impl NewAccountView {
    /// The credential row that belongs to this new account once the account
    /// store has given it the id `user_id`.
    pub open spec fn credential(self, user_id: i64) -> CredentialView {
        CredentialView {
            username: self.username,
            hashed_password: self.password,
            salt: self.salt,
            user_id,
        }
    }
}

/// The new account that a registration request makes under `salt`.
pub open spec fn enrolled(body: &AccountCreationRequest, salt: Seq<char>) -> NewAccountView {
    NewAccountView {
        username: body.username@,
        password: password_digest(body.password@, salt),
        salt,
        email: body.email@,
        first_name: body.first_name@,
        last_name: body.last_name@,
    }
}

/// Builds the new account of a registration request under `salt`.
pub fn new_account(body: &AccountCreationRequest, salt: String) -> (account: NewAccount)
    ensures
        account@ == enrolled(body, salt@),
{
    let password = hash_password(body.password.as_str(), salt.as_str());
    NewAccount {
        username: body.username.clone(),
        password,
        salt,
        email: body.email.clone(),
        first_name: body.first_name.clone(),
        last_name: body.last_name.clone(),
    }
}

/// Registers: checks the request and builds its new account under a fresh
/// salt of `SALT_LENGTH` random letters and digits. A request that cannot
/// be registered is `BadClientData`, and no salt is drawn for it.
pub fn register(body: &AccountCreationRequest) -> (outcome: Result<NewAccount, AppError>)
    ensures
        match outcome {
            Ok(account) => body.acceptable() && is_alphanumeric_text(
                account.salt@,
                SALT_LENGTH as nat,
            ) && account@ == enrolled(body, account.salt@),
            Err(e) => !body.acceptable() && e == AppError::BadClientData,
        },
{
    match body.validate() {
        Ok(_) => Ok(new_account(body, new_salt())),
        Err(e) => Err(e),
    }
}

impl NewAccount {
    /// The credential row to store with this new account once the account
    /// store has given it the id `user_id`.
    pub fn credential(&self, user_id: i64) -> (credential: Credential)
        ensures
            credential@ == self@.credential(user_id),
    {
        Credential {
            username: self.username.clone(),
            hashed_password: self.password.clone(),
            salt: self.salt.clone(),
            user_id,
        }
    }
}

/// The answer to a registration once the stores were written: the
/// account's e-mail address and names, or the failure of the store.
pub fn created(outcome: Result<Account, DbError>) -> (response: Result<AccountResponse, AppError>)
    ensures
        match outcome {
            Ok(account) => response matches Ok(r) && r@ == (AccountResponseView {
                email: account.email@,
                first_name: account.first_name@,
                last_name: account.last_name@,
            }),
            Err(e) => response matches Err(failure) && failure == db_failure(e),
        },
{
    match outcome {
        Ok(account) => Ok(AccountResponse::from(account)),
        Err(e) => Err(AppError::from(e)),
    }
}

/// Who registers can log in: the credential stored for a registration is
/// the one registered for its user name and password, so that pair
/// verifies, to the account that the store created.
pub proof fn lemma_registration_verifies(
    body: &AccountCreationRequest,
    salt: Seq<char>,
    user_id: i64,
)
    ensures
        enrolled(body, salt).credential(user_id) == registered(
            body.username@,
            body.password@,
            salt,
            user_id,
        ),
        enrolled(body, salt).credential(user_id).checked(body.username@, body.password@) == Ok::<
            i64,
            AppError,
        >(user_id),
{
}

} // verus!
