//! The credential hasher: salts and digests passwords, and checks a login
//! attempt against a stored credential.

use crate::error::AppError;
use crate::text::join;
use rand::Rng;
use vstd::prelude::*;

verus! {

/// The number of characters in a password salt.
pub const SALT_LENGTH: usize = 32;

/// The SHA-256 digest of the UTF-8 bytes of `input`, written in hexadecimal.
pub uninterp spec fn sha256_hex(input: Seq<char>) -> Seq<char>;

/// Calls `sha256::digest` on a string slice.
///
/// Trusted: the result is the SHA-256 digest of the text, which depends on
/// nothing but the text. The digest itself is not spelled out here.
#[verifier::external_body]
pub(crate) fn sha256_digest(input: &str) -> (digest: String)
    ensures
        digest@ == sha256_hex(input@),
{
    sha256::digest(input)
}

/// An ASCII letter or digit.
pub open spec fn is_alphanumeric(c: char) -> bool {
    ||| 'a' as u32 <= c as u32 <= 'z' as u32
    ||| 'A' as u32 <= c as u32 <= 'Z' as u32
    ||| '0' as u32 <= c as u32 <= '9' as u32
}

/// A text of `len` characters, each an ASCII letter or digit.
pub open spec fn is_alphanumeric_text(text: Seq<char>, len: nat) -> bool {
    &&& text.len() == len
    &&& forall|i: int| 0 <= i < text.len() ==> is_alphanumeric(#[trigger] text[i])
}

/// Draws `len` samples of `rand::distributions::Alphanumeric` from
/// `rand::thread_rng()` and collects them into a string.
///
/// Trusted: every sample is an ASCII letter or digit, and there are `len` of
/// them. Which ones is left open: two calls may differ.
#[verifier::external_body]
pub(crate) fn random_alphanumeric(len: usize) -> (text: String)
    ensures
        is_alphanumeric_text(text@, len as nat),
{
    rand::thread_rng().sample_iter(&rand::distributions::Alphanumeric).take(len).map(
        char::from,
    ).collect()
}

/// The digest stored for a password: SHA-256 over the password followed by
/// the salt.
pub open spec fn password_digest(password: Seq<char>, salt: Seq<char>) -> Seq<char> {
    sha256_hex(password + salt)
}

/// A stored credential as plain values.
pub struct CredentialView {
    pub username: Seq<char>,
    pub hashed_password: Seq<char>,
    pub salt: Seq<char>,
    pub user_id: i64,
}

/// The credential that registering `password` under `username` stores.
pub open spec fn registered(
    username: Seq<char>,
    password: Seq<char>,
    salt: Seq<char>,
    user_id: i64,
) -> CredentialView {
    CredentialView { username, hashed_password: password_digest(password, salt), salt, user_id }
}

impl CredentialView {
    /// Whether a login attempt names this credential's user and its password
    /// digests, under this credential's salt, to the stored digest.
    pub open spec fn accepts(self, username: Seq<char>, password: Seq<char>) -> bool {
        &&& self.username == username
        &&& self.hashed_password == password_digest(password, self.salt)
    }

    /// The outcome of a login attempt: the owning account, or `Unauthorized`
    /// whatever was wrong.
    pub open spec fn checked(self, username: Seq<char>, password: Seq<char>) -> Result<
        i64,
        AppError,
    > {
        if self.accepts(username, password) {
            Ok(self.user_id)
        } else {
            Err(AppError::Unauthorized)
        }
    }
}

/// One row of the credential store.
#[derive(Clone, Debug, PartialEq, Eq)]
pub struct Credential {
    pub username: String,
    pub hashed_password: String,
    pub salt: String,
    pub user_id: i64,
}

impl View for Credential {
    type V = CredentialView;

    open spec fn view(&self) -> CredentialView {
        CredentialView {
            username: self.username@,
            hashed_password: self.hashed_password@,
            salt: self.salt@,
            user_id: self.user_id,
        }
    }
}

/// The digest of `password` under `salt`.
pub fn hash_password(password: &str, salt: &str) -> (digest: String)
    ensures
        digest@ == password_digest(password@, salt@),
{
    let salted = join(password, salt);
    sha256_digest(salted.as_str())
}

/// A fresh salt: `SALT_LENGTH` random ASCII letters and digits.
pub fn new_salt() -> (salt: String)
    ensures
        is_alphanumeric_text(salt@, SALT_LENGTH as nat),
{
    random_alphanumeric(SALT_LENGTH)
}

impl Credential {
    /// The credential to store for a new user: the password is kept only as
    /// its digest under `salt`.
    pub fn create(username: String, password: &str, salt: String, user_id: i64) -> (credential:
        Credential)
        ensures
            credential@ == registered(username@, password@, salt@, user_id),
    {
        let hashed_password = hash_password(password, salt.as_str());
        Credential { username, hashed_password, salt, user_id }
    }

    /// Compares a login attempt, given by the user name and the digest of
    /// its password, with this credential: the owning account where both
    /// are the stored ones, `Unauthorized` for any difference.
    pub fn check(&self, username: &str, digest: &str) -> (outcome: Result<i64, AppError>)
        ensures
            outcome == if self.username@ == username@ && self.hashed_password@ == digest@ {
                Ok::<i64, AppError>(self.user_id)
            } else {
                Err::<i64, AppError>(AppError::Unauthorized)
            },
    {
        let named = String::from_str(username);
        let attempt = String::from_str(digest);
        if self.username == named && self.hashed_password == attempt {
            Ok(self.user_id)
        } else {
            Err(AppError::Unauthorized)
        }
    }

    /// Checks a login attempt against this credential.
    ///
    /// The attempt succeeds, with the owning account's id, exactly when it
    /// names this credential's user and its password has the stored digest.
    /// A wrong user name and a wrong password give the same `Unauthorized`.
    pub fn verify(&self, username: &str, password: &str) -> (outcome: Result<i64, AppError>)
        ensures
            outcome == self@.checked(username@, password@),
    {
        let attempt = hash_password(password, self.salt.as_str());
        self.check(username, attempt.as_str())
    }
}

/// The pair that a credential was registered with verifies, to the account
/// it was registered for; any other attempt is `Unauthorized` unless it names
/// the same user and its password has the same digest under the salt.
pub proof fn lemma_registered_pair_verifies(
    username: Seq<char>,
    password: Seq<char>,
    salt: Seq<char>,
    user_id: i64,
    attempt_name: Seq<char>,
    attempt_password: Seq<char>,
)
    ensures
        registered(username, password, salt, user_id).checked(username, password) == Ok::<
            i64,
            AppError,
        >(user_id),
        attempt_name != username ==> registered(username, password, salt, user_id).checked(
            attempt_name,
            attempt_password,
        ) == Err::<i64, AppError>(AppError::Unauthorized),
        password_digest(attempt_password, salt) != password_digest(password, salt) ==> registered(
            username,
            password,
            salt,
            user_id,
        ).checked(attempt_name, attempt_password) == Err::<i64, AppError>(AppError::Unauthorized),
        registered(username, password, salt, user_id).checked(attempt_name, attempt_password)
            is Ok <==> attempt_name == username && password_digest(attempt_password, salt)
            == password_digest(password, salt),
{
}

} // verus!
