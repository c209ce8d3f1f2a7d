//! The token signer: issues signed access tokens that carry the subject and
//! an expiry, and verifies them.

use crate::account::Account;
use crate::error::AppError;
use crate::hasher::{is_alphanumeric_text, random_alphanumeric, sha256_digest, sha256_hex};
use crate::text::{decimal, decimal_text, join, lemma_decimal_text_injective};
use vstd::prelude::*;

verus! {

/// How long an access token stays valid, in seconds: seven days.
pub const ACCESS_VALIDITY: i64 = 604_800;

/// The number of random characters that make a refresh token unguessable.
pub const SESSION_ID_LENGTH: usize = 16;

/// Why a token could not be issued or was not accepted.
#[derive(Clone, Copy, Debug, PartialEq, Eq, Structural)]
pub enum JwtError {
    /// Signing failed, or the expiry cannot be represented.
    Failed,
    /// The token is malformed, or is not signed with this secret.
    Invalid,
    /// The token's expiry has been reached.
    Expired,
}

impl From<JwtError> for AppError {
    fn from(e: JwtError) -> (error: AppError) {
        match e {
            JwtError::Failed => AppError::InternalError,
            JwtError::Invalid => AppError::Unauthorized,
            JwtError::Expired => AppError::Unauthorized,
        }
    }
}

impl vstd::std_specs::convert::FromSpecImpl<JwtError> for AppError {
    open spec fn obeys_from_spec() -> bool {
        true
    }

    open spec fn from_spec(e: JwtError) -> AppError {
        match e {
            JwtError::Failed => AppError::InternalError,
            JwtError::Invalid => AppError::Unauthorized,
            JwtError::Expired => AppError::Unauthorized,
        }
    }
}

/// The payload of an access token as plain values.
pub struct ClaimsView {
    pub exp: usize,
    pub sub: i64,
    pub name: Seq<char>,
}

/// The payload of an access token: the expiry in seconds since the epoch,
/// the account id and the display name.
#[derive(Clone, Debug, PartialEq, Eq)]
pub struct Claims {
    pub exp: usize,
    pub sub: i64,
    pub name: String,
}

impl View for Claims {
    type V = ClaimsView;

    open spec fn view(&self) -> ClaimsView {
        ClaimsView { exp: self.exp, sub: self.sub, name: self.name@ }
    }
}

/// The compact HS256 token that signing the claims `exp`, `name` and `sub`
/// with `secret` gives, or `None` where signing fails.
pub uninterp spec fn signed_token(secret: Seq<char>, sub: i64, name: Seq<char>, exp: usize) -> Option<
    Seq<char>,
>;

/// The claims `exp`, `sub` and `name` of a token, where the token carries a
/// valid HS256 signature under `secret` and holds all three; else `None`.
/// The expiry is not compared with any clock.
pub uninterp spec fn decoded_claims(secret: Seq<char>, token: Seq<char>) -> Option<
    (u64, i64, Seq<char>),
>;

/// Calls `jsonwebtoken::encode` with an HS256 header, a JSON object of the
/// three claims and the key `EncodingKey::from_secret` of the secret's bytes.
///
/// Trusted: the result depends on the secret and the claims alone, and a
/// token that comes out decodes, under the same secret, to the claims that
/// went in.
#[verifier::external_body]
fn encode_claims(secret: &str, claims: &Claims) -> (token: Option<String>)
    ensures
        match token {
            Some(t) => signed_token(secret@, claims.sub, claims.name@, claims.exp) == Some(t@)
                && decoded_claims(secret@, t@) == Some(
                (claims.exp as u64, claims.sub, claims.name@),
            ),
            None => signed_token(secret@, claims.sub, claims.name@, claims.exp) is None,
        },
{
    let mut payload = serde_json::Map::new();
    payload.insert("exp".to_owned(), serde_json::Value::from(claims.exp));
    payload.insert("name".to_owned(), serde_json::Value::from(claims.name.as_str()));
    payload.insert("sub".to_owned(), serde_json::Value::from(claims.sub));
    let header = jsonwebtoken::Header::new(jsonwebtoken::Algorithm::HS256);
    let key = jsonwebtoken::EncodingKey::from_secret(secret.as_bytes());
    jsonwebtoken::encode(&header, &payload, &key).ok()
}

/// Calls `jsonwebtoken::decode` with the key `DecodingKey::from_secret` of
/// the secret's bytes and a validation for HS256 that leaves the expiry
/// unchecked, then reads `exp`, `sub` and `name` out of the payload.
///
/// Trusted: the result depends on the secret and the token alone. It is
/// `None` where the call fails or one of the three claims is missing or of
/// another type.
#[verifier::external_body]
fn decode_claims(secret: &str, token: &str) -> (claims: Option<(u64, i64, String)>)
    ensures
        match claims {
            Some(c) => decoded_claims(secret@, token@) == Some((c.0, c.1, c.2@)),
            None => decoded_claims(secret@, token@) is None,
        },
{
    let mut validation = jsonwebtoken::Validation::new(jsonwebtoken::Algorithm::HS256);
    validation.validate_exp = false;
    let key = jsonwebtoken::DecodingKey::from_secret(secret.as_bytes());
    let data = jsonwebtoken::decode::<serde_json::Value>(token, &key, &validation).ok()?;
    let exp = data.claims.get("exp")?.as_u64()?;
    let sub = data.claims.get("sub")?.as_i64()?;
    let name = data.claims.get("name")?.as_str()?.to_owned();
    Some((exp, sub, name))
}

/// Calls `chrono::Utc::now` and takes its `timestamp`: the seconds since the
/// epoch on this machine's clock. Nothing is claimed of the value.
#[verifier::external_body]
pub(crate) fn unix_now() -> (now: i64) {
    chrono::Utc::now().timestamp()
}

/// What verifying a token yields once its signature has been checked:
/// `decoded` is what the token holds, `now` the time of verification. A
/// token is accepted only strictly before its expiry.
pub open spec fn checked_claims(decoded: Option<(u64, i64, Seq<char>)>, now: int) -> Result<
    ClaimsView,
    JwtError,
> {
    match decoded {
        None => Err(JwtError::Invalid),
        Some((exp, sub, name)) => if exp > usize::MAX {
            Err(JwtError::Invalid)
        } else if exp <= now {
            Err(JwtError::Expired)
        } else {
            Ok(ClaimsView { exp: exp as usize, sub, name })
        },
    }
}

/// The expiry of a token issued at `now`, where it can be represented.
pub open spec fn expiry(now: int) -> Option<int> {
    if 0 <= now + ACCESS_VALIDITY <= i64::MAX && now + ACCESS_VALIDITY <= usize::MAX {
        Some(now + ACCESS_VALIDITY)
    } else {
        None
    }
}

/// The refresh token of one session: the digest of its seed.
pub open spec fn refresh_token_text(user_id: i64, session_id: Seq<char>) -> Seq<char> {
    sha256_hex(refresh_seed(user_id, session_id))
}

/// The text that a refresh token is the digest of: the account id in
/// decimal, then the session's random characters.
pub open spec fn refresh_seed(user_id: i64, session_id: Seq<char>) -> Seq<char> {
    decimal_text(user_id as int) + session_id
}

/// The access token, refresh token and expiry issued for an account at `now`
/// in the session `session_id`.
pub open spec fn minted(
    secret: Seq<char>,
    user_id: i64,
    name: Seq<char>,
    now: int,
    session_id: Seq<char>,
) -> Result<(Seq<char>, Seq<char>, i64), JwtError> {
    match expiry(now) {
        None => Err(JwtError::Failed),
        Some(exp) => match signed_token(secret, user_id, name, exp as usize) {
            None => Err(JwtError::Failed),
            Some(token) => Ok((token, refresh_token_text(user_id, session_id), exp as i64)),
        },
    }
}

/// An issued triple as plain values.
pub open spec fn tokens_view(tokens: Result<(String, String, i64), JwtError>) -> Result<
    (Seq<char>, Seq<char>, i64),
    JwtError,
> {
    match tokens {
        Ok(t) => Ok((t.0@, t.1@, t.2)),
        Err(e) => Err(e),
    }
}

/// A verification outcome as plain values.
pub open spec fn claims_view(outcome: Result<Claims, JwtError>) -> Result<ClaimsView, JwtError> {
    match outcome {
        Ok(c) => Ok(c@),
        Err(e) => Err(e),
    }
}

/// Decides on a token whose signature has been checked.
///
/// `decoded` is what the signature check handed out. The claims are returned
/// while `now` is strictly before the expiry; at the expiry and after it the
/// token is `Expired`. A token without valid claims is `Invalid`.
pub fn check_claims(decoded: Option<(u64, i64, String)>, now: i64) -> (outcome: Result<
    Claims,
    JwtError,
>)
    ensures
        claims_view(outcome) == checked_claims(
            match decoded {
                Some(c) => Some((c.0, c.1, c.2@)),
                None => None,
            },
            now as int,
        ),
{
    match decoded {
        None => Err(JwtError::Invalid),
        Some((exp, sub, name)) => {
            if exp > usize::MAX as u64 {
                Err(JwtError::Invalid)
            } else if now >= 0 && exp <= now as u64 {
                Err(JwtError::Expired)
            } else {
                Ok(Claims { exp: exp as usize, sub, name })
            }
        },
    }
}

/// The refresh token for `user_id` in the session `session_id`.
pub fn refresh_token_for(user_id: i64, session_id: &str) -> (token: String)
    ensures
        token@ == refresh_token_text(user_id, session_id@),
{
    let id = decimal(user_id);
    let seed = join(id.as_str(), session_id);
    sha256_digest(seed.as_str())
}

/// The expiry of a token issued at `now`: `ACCESS_VALIDITY` seconds later,
/// where that is a time at or after the epoch that the claims can hold.
pub fn expiry_after(now: i64) -> (expired_at: Option<i64>)
    ensures
        match expired_at {
            Some(at) => expiry(now as int) == Some(at as int),
            None => expiry(now as int) is None,
        },
{
    match now.checked_add(ACCESS_VALIDITY) {
        Some(at) => if at < 0 || at as u64 > usize::MAX as u64 {
            None
        } else {
            Some(at)
        },
        None => None,
    }
}

/// Completes the tokens of a session once the access token was signed, or
/// could not be: a signing failure is `Failed`; else the refresh token for
/// `user_id` in the session `session_id` joins the access token and its
/// expiry.
pub fn tokens_from(signed: Option<String>, user_id: i64, session_id: &str, expired_at: i64) -> (tokens:
    Result<(String, String, i64), JwtError>)
    ensures
        tokens_view(tokens) == match signed {
            Some(token) => Ok::<(Seq<char>, Seq<char>, i64), JwtError>(
                (token@, refresh_token_text(user_id, session_id@), expired_at),
            ),
            None => Err::<(Seq<char>, Seq<char>, i64), JwtError>(JwtError::Failed),
        },
{
    match signed {
        Some(token) => Ok((token, refresh_token_for(user_id, session_id), expired_at)),
        None => Err(JwtError::Failed),
    }
}

/// Issues and verifies access tokens with one symmetric secret.
pub struct JwtGenerator {
    secret: String,
}

impl View for JwtGenerator {
    type V = Seq<char>;

    closed spec fn view(&self) -> Seq<char> {
        self.secret@
    }
}

impl JwtGenerator {
    /// A signer for `secret`.
    pub fn new(secret: &str) -> (generator: Self)
        ensures
            generator@ == secret@,
    {
        JwtGenerator { secret: String::from_str(secret) }
    }

    /// What verifying `token` at the time `now` yields.
    pub open spec fn verified(&self, token: Seq<char>, now: int) -> Result<ClaimsView, JwtError> {
        checked_claims(decoded_claims(self@, token), now)
    }

    /// Issues the tokens of a session that starts at `now`.
    ///
    /// The access token carries the account's id and first name and expires
    /// `ACCESS_VALIDITY` seconds after `now`; the refresh token is made from
    /// the account id and `session_id`. Issuing fails where the expiry cannot
    /// be represented or signing fails. An access token that was issued
    /// verifies, at any time before its expiry, to the claims it was made of.
    pub fn generate_token_at(&self, acc: &Account, now: i64, session_id: &str) -> (tokens: Result<
        (String, String, i64),
        JwtError,
    >)
        ensures
            tokens_view(tokens) == minted(
                self@,
                acc.id,
                acc.first_name@,
                now as int,
                session_id@,
            ),
            tokens matches Ok(t) ==> forall|at: int|
                at < t.2 ==> #[trigger] self.verified(t.0@, at) == Ok::<ClaimsView, JwtError>(
                    ClaimsView { exp: t.2 as usize, sub: acc.id, name: acc.first_name@ },
                ),
    {
        match expiry_after(now) {
            None => Err(JwtError::Failed),
            Some(expired_at) => {
                let claims = Claims {
                    exp: expired_at as usize,
                    sub: acc.id,
                    name: acc.first_name.clone(),
                };
                let signed = encode_claims(self.secret.as_str(), &claims);
                tokens_from(signed, acc.id, session_id, expired_at)
            },
        }
    }

    /// Issues the tokens of a new session: reads the clock, draws
    /// `SESSION_ID_LENGTH` random characters and issues as
    /// `generate_token_at` does with them.
    pub fn generate_token(&self, acc: &Account) -> (tokens: Result<(String, String, i64), JwtError>)
        ensures
            exists|now: int, session_id: Seq<char>|
                is_alphanumeric_text(session_id, SESSION_ID_LENGTH as nat) && tokens_view(tokens)
                    == #[trigger] minted(self@, acc.id, acc.first_name@, now, session_id),
            tokens matches Ok(t) ==> forall|at: int|
                at < t.2 ==> #[trigger] self.verified(t.0@, at) == Ok::<ClaimsView, JwtError>(
                    ClaimsView { exp: t.2 as usize, sub: acc.id, name: acc.first_name@ },
                ),
    {
        let now = unix_now();
        let session_id = random_alphanumeric(SESSION_ID_LENGTH);
        self.generate_token_at(acc, now, session_id.as_str())
    }

    /// Verifies `token` at the time `now`: its signature under this secret,
    /// then its expiry.
    pub fn verify_at(&self, token: &str, now: i64) -> (outcome: Result<Claims, JwtError>)
        ensures
            claims_view(outcome) == self.verified(token@, now as int),
    {
        check_claims(decode_claims(self.secret.as_str(), token), now)
    }

    /// Verifies `token` against this machine's clock.
    pub fn verify(&self, token: &str) -> (outcome: Result<Claims, JwtError>)
        ensures
            exists|now: int| claims_view(outcome) == #[trigger] self.verified(token@, now),
    {
        let now = unix_now();
        self.verify_at(token, now)
    }
}

/// Two sessions with as many random characters are digested from the same
/// text only where the account is the same and the characters are: the
/// refresh tokens of two sessions agree in no other case, short of a
/// collision of the digest.
pub proof fn lemma_refresh_seeds_differ(
    user_id: i64,
    session_id: Seq<char>,
    other_id: i64,
    other_session_id: Seq<char>,
)
    requires
        session_id.len() == other_session_id.len(),
    ensures
        refresh_seed(user_id, session_id) == refresh_seed(other_id, other_session_id) <==> user_id
            == other_id && session_id == other_session_id,
{
    let seed = refresh_seed(user_id, session_id);
    let other = refresh_seed(other_id, other_session_id);
    if seed == other {
        let digits = decimal_text(user_id as int).len() as int;
        assert(seed.len() == digits + session_id.len());
        assert(other.len() == decimal_text(other_id as int).len() + other_session_id.len());
        assert(decimal_text(user_id as int) =~= seed.subrange(0, digits));
        assert(decimal_text(other_id as int) =~= other.subrange(0, digits));
        assert(session_id =~= seed.subrange(digits, seed.len() as int));
        assert(other_session_id =~= other.subrange(digits, other.len() as int));
        lemma_decimal_text_injective(user_id as int, other_id as int);
    }
}

/// A token whose expiry is the time of verification, or lies before it, is
/// rejected, whatever else it holds and however it is signed.
pub proof fn lemma_expired_token_rejected(generator: &JwtGenerator, token: Seq<char>, now: int)
    ensures
        decoded_claims(generator@, token) matches Some(held) && held.0 <= now ==> generator.verified(
            token,
            now,
        ) is Err,
        generator.verified(token, now) matches Ok(claims) ==> now < claims.exp,
{
}

/// Time is all that decides on a token with a valid signature and claims
/// that can be held: before the expiry it verifies to exactly its claims,
/// from the expiry on it is `Expired`.
pub proof fn lemma_verification_by_time(
    generator: &JwtGenerator,
    token: Seq<char>,
    exp: usize,
    sub: i64,
    name: Seq<char>,
    at: int,
)
    ensures
        decoded_claims(generator@, token) == Some((exp as u64, sub, name)) ==> generator.verified(
            token,
            at,
        ) == if at < exp {
            Ok::<ClaimsView, JwtError>(ClaimsView { exp, sub, name })
        } else {
            Err::<ClaimsView, JwtError>(JwtError::Expired)
        },
{
}

} // verus!
