//! The session issuer: the steps of a login and of a token refresh.
//!
//! A session is a small state machine. Each step takes what a store
//! answered and says what to ask next, until the session ends with a
//! response or a failure. The caller talks to the stores; every decision is
//! made here.

use crate::account::{Account, AccountView};
use crate::error::{AppError, DbError};
use crate::hasher::{is_alphanumeric_text, Credential, CredentialView};
use crate::hasher::password_digest;
use crate::jwt::{
    minted, tokens_view, JwtError, JwtGenerator, ACCESS_VALIDITY, SESSION_ID_LENGTH,
};
use crate::refresh_token::{
    after_redeem, after_save, executed, get_then_del, holds, key_text, lemma_other_tokens_untouched,
    redeem_outcome, redeemed, redemption, save, save_outcome, saved, Entry, StoreCommand,
    StoreCommandView, StoreReply, REFRESH_VALIDITY,
};
use vstd::prelude::*;

verus! {

/// The body of a login request.
#[derive(Clone, Debug, PartialEq, Eq)]
pub struct LoginRequest {
    pub username: String,
    pub password: String,
}

/// The tokens handed out by a login or a refresh.
#[derive(Clone, Debug, PartialEq, Eq)]
pub struct LoginResponse {
    pub access_token: String,
    pub refresh_token: String,
    /// When the access token expires, in seconds since the epoch.
    pub expired_at: i64,
}

/// A response as plain values.
pub struct LoginResponseView {
    pub access_token: Seq<char>,
    pub refresh_token: Seq<char>,
    pub expired_at: i64,
}

impl View for LoginResponse {
    type V = LoginResponseView;

    open spec fn view(&self) -> LoginResponseView {
        LoginResponseView {
            access_token: self.access_token@,
            refresh_token: self.refresh_token@,
            expired_at: self.expired_at,
        }
    }
}

/// Where a session stands: what it is waiting for.
#[derive(Clone, Debug, PartialEq, Eq)]
pub enum Session {
    /// A login waits for the salt of the user's credential.
    AwaitingSalt { username: String, password: String },
    /// A login waits for the stored digest and the owning account.
    AwaitingCredential { username: String, password: String, salt: String },
    /// A refresh waits for the redemption of the presented refresh token.
    AwaitingRedemption,
    /// The account of the authenticated user is being loaded.
    AwaitingAccount { user_id: i64 },
    /// The new refresh token is being stored.
    AwaitingSave { response: LoginResponse },
    /// The session has ended.
    Finished,
}

/// What the caller is to do next.
#[derive(Clone, Debug, PartialEq, Eq)]
pub enum Effect {
    /// Look up the salt stored for `username`.
    FetchSalt { username: String },
    /// Look up the digest and the account id stored for `username`.
    FetchCredential { username: String },
    /// Load the account `id`.
    FetchAccount { id: i64 },
    /// Send `command` to the key-value store.
    Store { command: StoreCommand },
    /// Answer the request with `response`.
    Respond { response: LoginResponse },
    /// Answer the request with the failure `error`.
    Reject { error: AppError },
}

/// What a store answered.
#[derive(Debug, PartialEq, Eq)]
pub enum Event {
    /// The salt of a credential.
    Salt(Result<String, DbError>),
    /// The stored digest and the owning account of a credential.
    Credential(Result<(String, i64), DbError>),
    /// An account.
    Account(Result<Account, DbError>),
    /// The reply of the key-value store.
    Store(StoreReply),
}

/// A session state as plain values.
pub enum SessionView {
    AwaitingSalt { username: Seq<char>, password: Seq<char> },
    AwaitingCredential { username: Seq<char>, password: Seq<char>, salt: Seq<char> },
    AwaitingRedemption,
    AwaitingAccount { user_id: i64 },
    AwaitingSave { response: LoginResponseView },
    Finished,
}

/// An effect as plain values.
pub enum EffectView {
    FetchSalt { username: Seq<char> },
    FetchCredential { username: Seq<char> },
    FetchAccount { id: i64 },
    Store { command: StoreCommandView },
    Respond { response: LoginResponseView },
    Reject { error: AppError },
}

/// An event as plain values.
pub enum EventView {
    Salt(Result<Seq<char>, DbError>),
    Credential(Result<(Seq<char>, i64), DbError>),
    Account(Result<AccountView, DbError>),
    Store(StoreReply),
}

impl View for Session {
    type V = SessionView;

    open spec fn view(&self) -> SessionView {
        match self {
            Session::AwaitingSalt { username, password } => SessionView::AwaitingSalt {
                username: username@,
                password: password@,
            },
            Session::AwaitingCredential { username, password, salt } => {
                SessionView::AwaitingCredential {
                    username: username@,
                    password: password@,
                    salt: salt@,
                }
            },
            Session::AwaitingRedemption => SessionView::AwaitingRedemption,
            Session::AwaitingAccount { user_id } => SessionView::AwaitingAccount {
                user_id: *user_id,
            },
            Session::AwaitingSave { response } => SessionView::AwaitingSave {
                response: response@,
            },
            Session::Finished => SessionView::Finished,
        }
    }
}

impl View for Effect {
    type V = EffectView;

    open spec fn view(&self) -> EffectView {
        match self {
            Effect::FetchSalt { username } => EffectView::FetchSalt { username: username@ },
            Effect::FetchCredential { username } => EffectView::FetchCredential {
                username: username@,
            },
            Effect::FetchAccount { id } => EffectView::FetchAccount { id: *id },
            Effect::Store { command } => EffectView::Store { command: command@ },
            Effect::Respond { response } => EffectView::Respond { response: response@ },
            Effect::Reject { error } => EffectView::Reject { error: *error },
        }
    }
}

impl View for Event {
    type V = EventView;

    open spec fn view(&self) -> EventView {
        match self {
            Event::Salt(Ok(salt)) => EventView::Salt(Ok(salt@)),
            Event::Salt(Err(e)) => EventView::Salt(Err(*e)),
            Event::Credential(Ok(found)) => EventView::Credential(Ok((found.0@, found.1))),
            Event::Credential(Err(e)) => EventView::Credential(Err(*e)),
            Event::Account(Ok(account)) => EventView::Account(Ok(account@)),
            Event::Account(Err(e)) => EventView::Account(Err(*e)),
            Event::Store(reply) => EventView::Store(*reply),
        }
    }
}

/// The end of a session in the failure `error`.
pub open spec fn rejected(error: AppError) -> (SessionView, EffectView) {
    (SessionView::Finished, EffectView::Reject { error })
}

/// The failure of a login whose credential could not be read: a user that
/// is not there is `Unauthorized`, as a wrong password is.
pub open spec fn credential_failure(e: DbError) -> AppError {
    match e {
        DbError::RowNotFound => AppError::Unauthorized,
        DbError::Other => AppError::InternalError,
    }
}

/// The step that follows the issuing of tokens for `user_id`: the new
/// refresh token is stored for the account, and the response waits for it.
pub open spec fn issued(user_id: i64, tokens: Result<(Seq<char>, Seq<char>, i64), JwtError>) -> (
    SessionView,
    EffectView,
) {
    match tokens {
        Ok(t) => (
            SessionView::AwaitingSave {
                response: LoginResponseView {
                    access_token: t.0,
                    refresh_token: t.1,
                    expired_at: t.2,
                },
            },
            EffectView::Store {
                command: StoreCommandView::SetEx {
                    key: key_text(t.1),
                    value: user_id,
                    seconds: REFRESH_VALIDITY,
                },
            },
        ),
        Err(_) => rejected(AppError::InternalError),
    }
}

/// The step of a session: the state and the effect that follow `event` in
/// `state`, where tokens are issued at `now` in the session `session_id`
/// with the signing secret `secret`.
pub open spec fn transition(
    secret: Seq<char>,
    state: SessionView,
    event: EventView,
    now: int,
    session_id: Seq<char>,
) -> (SessionView, EffectView) {
    match state {
        SessionView::AwaitingSalt { username, password } => match event {
            EventView::Salt(Ok(salt)) => (
                SessionView::AwaitingCredential { username, password, salt },
                EffectView::FetchCredential { username },
            ),
            EventView::Salt(Err(e)) => rejected(credential_failure(e)),
            _ => rejected(AppError::InternalError),
        },
        SessionView::AwaitingCredential { username, password, salt } => match event {
            EventView::Credential(Ok(found)) => match (CredentialView {
                username,
                hashed_password: found.0,
                salt,
                user_id: found.1,
            }).checked(username, password) {
                Ok(user_id) => (
                    SessionView::AwaitingAccount { user_id },
                    EffectView::FetchAccount { id: user_id },
                ),
                Err(e) => rejected(e),
            },
            EventView::Credential(Err(e)) => rejected(credential_failure(e)),
            _ => rejected(AppError::InternalError),
        },
        SessionView::AwaitingRedemption => match event {
            EventView::Store(reply) => match redeem_outcome(reply) {
                Ok(user_id) => (
                    SessionView::AwaitingAccount { user_id },
                    EffectView::FetchAccount { id: user_id },
                ),
                Err(e) => rejected(e),
            },
            _ => rejected(AppError::InternalError),
        },
        SessionView::AwaitingAccount { user_id } => match event {
            EventView::Account(Ok(account)) => issued(
                user_id,
                minted(secret, account.id, account.first_name, now, session_id),
            ),
            _ => rejected(AppError::InternalError),
        },
        SessionView::AwaitingSave { response } => match event {
            EventView::Store(reply) => match save_outcome(reply) {
                Ok(_) => (SessionView::Finished, EffectView::Respond { response }),
                Err(e) => rejected(e),
            },
            _ => rejected(AppError::InternalError),
        },
        SessionView::Finished => rejected(AppError::InternalError),
    }
}

/// How many answers a session in `state` may still wait for.
pub open spec fn steps_left(state: SessionView) -> nat {
    match state {
        SessionView::AwaitingSalt { .. } => 4,
        SessionView::AwaitingCredential { .. } => 3,
        SessionView::AwaitingRedemption => 3,
        SessionView::AwaitingAccount { .. } => 2,
        SessionView::AwaitingSave { .. } => 1,
        SessionView::Finished => 0,
    }
}

/// Whether `effect` ends a session.
pub open spec fn is_final(effect: EffectView) -> bool {
    effect is Respond || effect is Reject
}

/// Whether the step from `state` on `event` issues tokens.
pub open spec fn issues(state: SessionView, event: EventView) -> bool {
    state is AwaitingAccount && event matches EventView::Account(Ok(_))
}

/// Ends a session in the failure `error`.
fn reject(error: AppError) -> (next: (Session, Effect))
    ensures
        (next.0@, next.1@) == rejected(error),
{
    (Session::Finished, Effect::Reject { error })
}

/// Starts a login: the credential's salt is looked up first.
pub fn login(body: LoginRequest) -> (next: (Session, Effect))
    ensures
        next.0@ == (SessionView::AwaitingSalt {
            username: body.username@,
            password: body.password@,
        }),
        next.1@ == (EffectView::FetchSalt { username: body.username@ }),
{
    let effect = Effect::FetchSalt { username: body.username.clone() };
    (Session::AwaitingSalt { username: body.username, password: body.password }, effect)
}

/// Starts a refresh: the presented refresh token is redeemed first, and is
/// thereby spent whatever follows.
pub fn refresh(refresh_token: &str) -> (next: (Session, Effect))
    ensures
        next.0@ == SessionView::AwaitingRedemption,
        next.1@ == (EffectView::Store {
            command: StoreCommandView::GetDel { key: key_text(refresh_token@) },
        }),
{
    (Session::AwaitingRedemption, Effect::Store { command: get_then_del(refresh_token) })
}

/// Continues a session once tokens were issued, or could not be.
pub fn issue(user_id: i64, tokens: Result<(String, String, i64), JwtError>) -> (next: (
    Session,
    Effect,
))
    ensures
        (next.0@, next.1@) == issued(user_id, tokens_view(tokens)),
{
    match tokens {
        Ok((access_token, refresh_token, expired_at)) => {
            let command = save(refresh_token.as_str(), user_id);
            let response = LoginResponse { access_token, refresh_token, expired_at };
            (Session::AwaitingSave { response }, Effect::Store { command })
        },
        Err(_) => reject(AppError::InternalError),
    }
}

/// Takes one step of a session, issuing tokens at `now` in the session
/// `session_id` where the step issues any.
pub fn advance_at(
    generator: &JwtGenerator,
    state: Session,
    event: Event,
    now: i64,
    session_id: &str,
) -> (next: (Session, Effect))
    ensures
        (next.0@, next.1@) == transition(generator@, state@, event@, now as int, session_id@),
{
    match state {
        Session::AwaitingSalt { username, password } => match event {
            Event::Salt(Ok(salt)) => {
                let effect = Effect::FetchCredential { username: username.clone() };
                (Session::AwaitingCredential { username, password, salt }, effect)
            },
            Event::Salt(Err(e)) => reject(credential_error(e)),
            _ => reject(AppError::InternalError),
        },
        Session::AwaitingCredential { username, password, salt } => match event {
            Event::Credential(Ok((hashed_password, user_id))) => {
                let credential = Credential { username, hashed_password, salt, user_id };
                match credential.verify(credential.username.as_str(), password.as_str()) {
                    Ok(id) => (Session::AwaitingAccount { user_id: id }, Effect::FetchAccount { id }),
                    Err(e) => reject(e),
                }
            },
            Event::Credential(Err(e)) => reject(credential_error(e)),
            _ => reject(AppError::InternalError),
        },
        Session::AwaitingRedemption => match event {
            Event::Store(reply) => match redeemed(reply) {
                Ok(id) => (Session::AwaitingAccount { user_id: id }, Effect::FetchAccount { id }),
                Err(e) => reject(e),
            },
            _ => reject(AppError::InternalError),
        },
        Session::AwaitingAccount { user_id } => match event {
            Event::Account(Ok(account)) => issue(
                user_id,
                generator.generate_token_at(&account, now, session_id),
            ),
            _ => reject(AppError::InternalError),
        },
        Session::AwaitingSave { response } => match event {
            Event::Store(reply) => match saved(reply) {
                Ok(_) => (Session::Finished, Effect::Respond { response }),
                Err(e) => reject(e),
            },
            _ => reject(AppError::InternalError),
        },
        Session::Finished => reject(AppError::InternalError),
    }
}

/// Takes one step of a session.
///
/// Only the step that issues tokens reads this machine's clock and draws
/// random characters, `SESSION_ID_LENGTH` of them; every other step is
/// fixed by the state and the event alone.
pub fn advance(generator: &JwtGenerator, state: Session, event: Event) -> (next: (Session, Effect))
    ensures
        !issues(state@, event@) ==> (next.0@, next.1@) == transition(
            generator@,
            state@,
            event@,
            0,
            Seq::empty(),
        ),
        exists|now: int, session_id: Seq<char>|
            is_alphanumeric_text(session_id, SESSION_ID_LENGTH as nat) && (next.0@, next.1@)
                == #[trigger] transition(generator@, state@, event@, now, session_id),
{
    match (state, event) {
        (Session::AwaitingAccount { user_id }, Event::Account(Ok(account))) => {
            let tokens = generator.generate_token(&account);
            let next = issue(user_id, tokens);
            proof {
                let (now, session_id) = choose|now: int, session_id: Seq<char>|
                    is_alphanumeric_text(session_id, SESSION_ID_LENGTH as nat) && tokens_view(
                        tokens,
                    ) == #[trigger] minted(
                        generator@,
                        account.id,
                        account.first_name@,
                        now,
                        session_id,
                    );
                assert((next.0@, next.1@) == transition(
                    generator@,
                    state@,
                    event@,
                    now,
                    session_id,
                ));
            }
            next
        },
        (state, event) => {
            let next = advance_at(generator, state, event, 0, "");
            proof {
                reveal_strlit("");
                assert(""@ =~= Seq::<char>::empty());
                let session_id = Seq::new(SESSION_ID_LENGTH as nat, |i: int| 'a');
                assert(is_alphanumeric_text(session_id, SESSION_ID_LENGTH as nat));
                lemma_only_issuing_reads_the_clock(
                    generator@,
                    state@,
                    event@,
                    0,
                    Seq::empty(),
                    0,
                    session_id,
                );
            }
            next
        },
    }
}

/// The failure of a login whose credential could not be read.
fn credential_error(e: DbError) -> (error: AppError)
    ensures
        error == credential_failure(e),
{
    match e {
        DbError::RowNotFound => AppError::Unauthorized,
        DbError::Other => AppError::InternalError,
    }
}

/// Every step brings a session closer to its end, and the caller is told to
/// answer the request exactly when the session has ended.
pub proof fn lemma_session_ends(
    secret: Seq<char>,
    state: SessionView,
    event: EventView,
    now: int,
    session_id: Seq<char>,
)
    ensures
        is_final(transition(secret, state, event, now, session_id).1) <==> transition(
            secret,
            state,
            event,
            now,
            session_id,
        ).0 is Finished,
        !(state is Finished) ==> steps_left(transition(secret, state, event, now, session_id).0)
            < steps_left(state),
{
}

/// The time and the random characters play a part in no step but the one
/// that issues tokens.
pub proof fn lemma_only_issuing_reads_the_clock(
    secret: Seq<char>,
    state: SessionView,
    event: EventView,
    now: int,
    session_id: Seq<char>,
    other_now: int,
    other_session_id: Seq<char>,
)
    requires
        !issues(state, event),
    ensures
        transition(secret, state, event, now, session_id) == transition(
            secret,
            state,
            event,
            other_now,
            other_session_id,
        ),
{
}

/// A login tells nothing about why it failed: a user that is not there and
/// a password that does not match end the session in the same way.
pub proof fn lemma_login_failures_alike(
    secret: Seq<char>,
    username: Seq<char>,
    password: Seq<char>,
    salt: Seq<char>,
    stored: (Seq<char>, i64),
    now: int,
    session_id: Seq<char>,
)
    ensures
        transition(
            secret,
            SessionView::AwaitingSalt { username, password },
            EventView::Salt(Err(DbError::RowNotFound)),
            now,
            session_id,
        ) == rejected(AppError::Unauthorized),
        transition(
            secret,
            SessionView::AwaitingCredential { username, password, salt },
            EventView::Credential(Err(DbError::RowNotFound)),
            now,
            session_id,
        ) == rejected(AppError::Unauthorized),
        !(CredentialView { username, hashed_password: stored.0, salt, user_id: stored.1 }).accepts(
            username,
            password,
        ) ==> transition(
            secret,
            SessionView::AwaitingCredential { username, password, salt },
            EventView::Credential(Ok(stored)),
            now,
            session_id,
        ) == rejected(AppError::Unauthorized),
{
}

/// A login with the registered password, against stores that answer, asks
/// for the salt, the credential and the account in turn, stores the new
/// refresh token for the user and ends with the tokens issued for the
/// account at `now`. The access token expires `ACCESS_VALIDITY` seconds
/// after `now`.
pub proof fn lemma_login_succeeds(
    secret: Seq<char>,
    username: Seq<char>,
    password: Seq<char>,
    salt: Seq<char>,
    user_id: i64,
    account: AccountView,
    now: int,
    session_id: Seq<char>,
)
    ensures
        ({
            let salted = transition(
                secret,
                SessionView::AwaitingSalt { username, password },
                EventView::Salt(Ok(salt)),
                now,
                session_id,
            );
            let verified = transition(
                secret,
                salted.0,
                EventView::Credential(Ok((password_digest(password, salt), user_id))),
                now,
                session_id,
            );
            let issued = transition(
                secret,
                verified.0,
                EventView::Account(Ok(account)),
                now,
                session_id,
            );
            let stored = transition(
                secret,
                issued.0,
                EventView::Store(StoreReply::Done),
                now,
                session_id,
            );
            &&& salted.1 == (EffectView::FetchCredential { username })
            &&& verified.1 == (EffectView::FetchAccount { id: user_id })
            &&& match minted(secret, account.id, account.first_name, now, session_id) {
                Ok(tokens) => {
                    &&& issued.1 == (EffectView::Store {
                        command: StoreCommandView::SetEx {
                            key: key_text(tokens.1),
                            value: user_id,
                            seconds: REFRESH_VALIDITY,
                        },
                    })
                    &&& stored == (
                        SessionView::Finished,
                        EffectView::Respond {
                            response: LoginResponseView {
                                access_token: tokens.0,
                                refresh_token: tokens.1,
                                expired_at: tokens.2,
                            },
                        },
                    )
                    &&& tokens.2 == now + ACCESS_VALIDITY
                },
                Err(_) => issued == rejected(AppError::InternalError),
            }
        }),
{
}

/// A refresh rotates: the presented token is spent by the first step,
/// whatever comes of the rest. Where the token was live, the session goes
/// on for the account that owned it and stores a new token for it; unless
/// the new token is the old one again, the old one stays spent after that.
pub proof fn lemma_refresh_rotates(
    secret: Seq<char>,
    store: Map<Seq<char>, Entry>,
    presented: Seq<char>,
    account: AccountView,
    now: int,
    session_id: Seq<char>,
    later: int,
)
    ensures
        ({
            let command = StoreCommandView::GetDel { key: key_text(presented) };
            let redeemed = transition(
                secret,
                SessionView::AwaitingRedemption,
                EventView::Store(executed(store, command, now).1),
                now,
                session_id,
            );
            let spent = after_redeem(store, presented, now);
            &&& redemption(spent, presented, later) == Err::<i64, AppError>(AppError::Unauthorized)
            &&& !holds(store, key_text(presented), now) ==> redeemed == rejected(
                AppError::Unauthorized,
            )
            &&& holds(store, key_text(presented), now) ==> {
                let user_id = store[key_text(presented)].value;
                let issued = transition(
                    secret,
                    redeemed.0,
                    EventView::Account(Ok(account)),
                    now,
                    session_id,
                );
                &&& redeemed == (
                    SessionView::AwaitingAccount { user_id },
                    EffectView::FetchAccount { id: user_id },
                )
                &&& minted(secret, account.id, account.first_name, now, session_id) matches Ok(
                    tokens,
                ) ==> {
                    &&& issued.1 == (EffectView::Store {
                        command: StoreCommandView::SetEx {
                            key: key_text(tokens.1),
                            value: user_id,
                            seconds: REFRESH_VALIDITY,
                        },
                    })
                    &&& redemption(after_save(spent, tokens.1, user_id, now), tokens.1, later)
                        == if later < now + REFRESH_VALIDITY {
                        Ok::<i64, AppError>(user_id)
                    } else {
                        Err::<i64, AppError>(AppError::Unauthorized)
                    }
                    &&& tokens.1 != presented ==> redemption(
                        after_save(spent, tokens.1, user_id, now),
                        presented,
                        later,
                    ) == Err::<i64, AppError>(AppError::Unauthorized)
                }
            }
        }),
{
    if holds(store, key_text(presented), now) {
        let user_id = store[key_text(presented)].value;
        let spent = after_redeem(store, presented, now);
        if let Ok(tokens) = minted(secret, account.id, account.first_name, now, session_id) {
            if tokens.1 != presented {
                lemma_other_tokens_untouched(spent, presented, tokens.1, user_id, now, later);
            }
        }
    }
}

} // verus!
