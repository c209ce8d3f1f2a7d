//! The refresh store: refresh tokens are kept in a key-value store with a
//! time to live and are redeemed at most once.
//!
//! The store itself is reached by the caller. This module says which command
//! to send for each operation and what a reply means, and states the
//! single-use rules over a model of the store.

use crate::error::AppError;
use crate::text::join;
use vstd::prelude::*;

verus! {

/// How long a refresh token can be redeemed, in seconds: fourteen days.
pub const REFRESH_VALIDITY: usize = 1_209_600;

/// The key under which a refresh token is stored.
pub open spec fn key_text(refresh_token: Seq<char>) -> Seq<char> {
    "refresh_token:"@ + refresh_token
}

/// A command for the key-value store.
#[derive(Clone, Debug, PartialEq, Eq)]
pub enum StoreCommand {
    /// Read the value under `key` and delete the key, in one atomic step.
    GetDel { key: String },
    /// Set `key` to `value`, to expire after `seconds`; an existing key is
    /// overwritten.
    SetEx { key: String, value: i64, seconds: usize },
}

/// A store command as plain values.
pub enum StoreCommandView {
    GetDel { key: Seq<char> },
    SetEx { key: Seq<char>, value: i64, seconds: usize },
}

impl View for StoreCommand {
    type V = StoreCommandView;

    open spec fn view(&self) -> StoreCommandView {
        match self {
            StoreCommand::GetDel { key } => StoreCommandView::GetDel { key: key@ },
            StoreCommand::SetEx { key, value, seconds } => StoreCommandView::SetEx {
                key: key@,
                value: *value,
                seconds: *seconds,
            },
        }
    }
}

/// What the key-value store answered.
#[derive(Clone, Copy, Debug, PartialEq, Eq, Structural)]
pub enum StoreReply {
    /// The value that was under the key, if there was one.
    Value(Option<i64>),
    /// The command was carried out and has no value to give.
    Done,
    /// The store could not be reached or reported an error.
    Failed,
}

/// The key of `refresh_token` in the store.
pub fn keys(refresh_token: &str) -> (key: String)
    ensures
        key@ == key_text(refresh_token@),
{
    join("refresh_token:", refresh_token)
}

/// The time to live of a stored refresh token, in seconds.
pub fn duration() -> (seconds: usize)
    ensures
        seconds == REFRESH_VALIDITY,
{
    REFRESH_VALIDITY
}

/// The command that stores `refresh_token` for the account `user_id`.
pub fn save(refresh_token: &str, user_id: i64) -> (command: StoreCommand)
    ensures
        command@ == (StoreCommandView::SetEx {
            key: key_text(refresh_token@),
            value: user_id,
            seconds: REFRESH_VALIDITY,
        }),
{
    StoreCommand::SetEx { key: keys(refresh_token), value: user_id, seconds: duration() }
}

/// The command that redeems `refresh_token`: it fetches the owning account
/// and deletes the token in one step.
pub fn get_then_del(refresh_token: &str) -> (command: StoreCommand)
    ensures
        command@ == (StoreCommandView::GetDel { key: key_text(refresh_token@) }),
{
    StoreCommand::GetDel { key: keys(refresh_token) }
}

/// What the reply to a `save` command means.
pub open spec fn save_outcome(reply: StoreReply) -> Result<(), AppError> {
    match reply {
        StoreReply::Done => Ok(()),
        _ => Err(AppError::InternalError),
    }
}

/// What the reply to a `get_then_del` command means: the owning account, or
/// `Unauthorized` where the token was not there.
pub open spec fn redeem_outcome(reply: StoreReply) -> Result<i64, AppError> {
    match reply {
        StoreReply::Value(Some(user_id)) => Ok(user_id),
        StoreReply::Value(None) => Err(AppError::Unauthorized),
        _ => Err(AppError::InternalError),
    }
}

/// Reads the reply to a `save` command.
pub fn saved(reply: StoreReply) -> (outcome: Result<(), AppError>)
    ensures
        outcome == save_outcome(reply),
{
    match reply {
        StoreReply::Done => Ok(()),
        _ => Err(AppError::InternalError),
    }
}

/// Reads the reply to a `get_then_del` command.
///
/// A token that was never issued, was redeemed before or has expired is not
/// in the store: all three are `Unauthorized`.
pub fn redeemed(reply: StoreReply) -> (outcome: Result<i64, AppError>)
    ensures
        outcome == redeem_outcome(reply),
{
    match reply {
        StoreReply::Value(Some(user_id)) => Ok(user_id),
        StoreReply::Value(None) => Err(AppError::Unauthorized),
        _ => Err(AppError::InternalError),
    }
}

/// One entry of the store's model: the value and the time at which the key
/// expires.
pub struct Entry {
    pub value: i64,
    pub expires_at: int,
}

/// Whether the modelled store has a live entry under `key` at `now`.
pub open spec fn holds(store: Map<Seq<char>, Entry>, key: Seq<char>, now: int) -> bool {
    store.contains_key(key) && now < store[key].expires_at
}

/// The store after `command` was carried out at `now`, and its reply, for a
/// store that works.
pub open spec fn executed(store: Map<Seq<char>, Entry>, command: StoreCommandView, now: int) -> (
    Map<Seq<char>, Entry>,
    StoreReply,
) {
    match command {
        StoreCommandView::GetDel { key } => (
            store.remove(key),
            StoreReply::Value(
                if holds(store, key, now) {
                    Some(store[key].value)
                } else {
                    None
                },
            ),
        ),
        StoreCommandView::SetEx { key, value, seconds } => (
            store.insert(key, Entry { value, expires_at: now + seconds }),
            StoreReply::Done,
        ),
    }
}

/// The store after `refresh_token` was saved for `user_id` at `now`.
pub open spec fn after_save(
    store: Map<Seq<char>, Entry>,
    refresh_token: Seq<char>,
    user_id: i64,
    now: int,
) -> Map<Seq<char>, Entry> {
    executed(
        store,
        StoreCommandView::SetEx {
            key: key_text(refresh_token),
            value: user_id,
            seconds: REFRESH_VALIDITY,
        },
        now,
    ).0
}

/// The store after `refresh_token` was redeemed at `now`.
pub open spec fn after_redeem(store: Map<Seq<char>, Entry>, refresh_token: Seq<char>, now: int) -> Map<
    Seq<char>,
    Entry,
> {
    executed(store, StoreCommandView::GetDel { key: key_text(refresh_token) }, now).0
}

/// What redeeming `refresh_token` at `now` gives.
pub open spec fn redemption(store: Map<Seq<char>, Entry>, refresh_token: Seq<char>, now: int) -> Result<
    i64,
    AppError,
> {
    redeem_outcome(
        executed(store, StoreCommandView::GetDel { key: key_text(refresh_token) }, now).1,
    )
}

/// How many of the redemptions of `refresh_token`, made one after the other
/// at `times`, succeed.
pub open spec fn redemptions_won(
    store: Map<Seq<char>, Entry>,
    refresh_token: Seq<char>,
    times: Seq<int>,
) -> nat
    decreases times.len(),
{
    if times.len() == 0 {
        0
    } else {
        let won: nat = if redemption(store, refresh_token, times[0]) is Ok {
            1
        } else {
            0
        };
        won + redemptions_won(
            after_redeem(store, refresh_token, times[0]),
            refresh_token,
            times.drop_first(),
        )
    }
}

/// A refresh token is good for one redemption: once it was redeemed, a
/// second redemption is `Unauthorized`, whenever it is made.
pub proof fn lemma_redeemed_once(
    store: Map<Seq<char>, Entry>,
    refresh_token: Seq<char>,
    first: int,
    second: int,
)
    ensures
        redemption(after_redeem(store, refresh_token, first), refresh_token, second) == Err::<
            i64,
            AppError,
        >(AppError::Unauthorized),
{
}

/// A token that is not in the store is redeemed by nobody.
proof fn lemma_absent_token_never_won(
    store: Map<Seq<char>, Entry>,
    refresh_token: Seq<char>,
    times: Seq<int>,
)
    requires
        !store.contains_key(key_text(refresh_token)),
    ensures
        redemptions_won(store, refresh_token, times) == 0,
    decreases times.len(),
{
    if times.len() > 0 {
        lemma_absent_token_never_won(
            after_redeem(store, refresh_token, times[0]),
            refresh_token,
            times.drop_first(),
        );
    }
}

/// Of any number of redemptions of one refresh token, made in any order one
/// after the other, at most one succeeds.
pub proof fn lemma_at_most_one_winner(
    store: Map<Seq<char>, Entry>,
    refresh_token: Seq<char>,
    times: Seq<int>,
)
    ensures
        redemptions_won(store, refresh_token, times) <= 1,
{
    if times.len() > 0 {
        lemma_absent_token_never_won(
            after_redeem(store, refresh_token, times[0]),
            refresh_token,
            times.drop_first(),
        );
    }
}

/// Saving the same token for the same account twice, at one time, leaves
/// the store as one save does.
pub proof fn lemma_save_idempotent(
    store: Map<Seq<char>, Entry>,
    refresh_token: Seq<char>,
    user_id: i64,
    now: int,
)
    ensures
        after_save(after_save(store, refresh_token, user_id, now), refresh_token, user_id, now)
            == after_save(store, refresh_token, user_id, now),
{
    assert(after_save(after_save(store, refresh_token, user_id, now), refresh_token, user_id, now)
        =~= after_save(store, refresh_token, user_id, now));
}

/// The last save of a token wins: a redemption within the time to live of
/// the second save gives the account of the second save, and the entry left
/// by the first save plays no part.
pub proof fn lemma_last_save_wins(
    store: Map<Seq<char>, Entry>,
    refresh_token: Seq<char>,
    first_id: i64,
    first_at: int,
    user_id: i64,
    saved_at: int,
    redeemed_at: int,
)
    ensures
        after_save(
            after_save(store, refresh_token, first_id, first_at),
            refresh_token,
            user_id,
            saved_at,
        ) == after_save(store, refresh_token, user_id, saved_at),
        redeemed_at < saved_at + REFRESH_VALIDITY ==> redemption(
            after_save(
                after_save(store, refresh_token, first_id, first_at),
                refresh_token,
                user_id,
                saved_at,
            ),
            refresh_token,
            redeemed_at,
        ) == Ok::<i64, AppError>(user_id),
        redeemed_at >= saved_at + REFRESH_VALIDITY ==> redemption(
            after_save(
                after_save(store, refresh_token, first_id, first_at),
                refresh_token,
                user_id,
                saved_at,
            ),
            refresh_token,
            redeemed_at,
        ) == Err::<i64, AppError>(AppError::Unauthorized),
{
    assert(after_save(
        after_save(store, refresh_token, first_id, first_at),
        refresh_token,
        user_id,
        saved_at,
    ) =~= after_save(store, refresh_token, user_id, saved_at));
}

/// Two refresh tokens never share a key.
pub proof fn lemma_keys_differ(first: Seq<char>, second: Seq<char>)
    ensures
        key_text(first) == key_text(second) <==> first == second,
{
    if key_text(first) == key_text(second) {
        let prefix = "refresh_token:"@;
        assert(first =~= key_text(first).subrange(prefix.len() as int, key_text(first).len() as int));
        assert(second =~= key_text(second).subrange(
            prefix.len() as int,
            key_text(second).len() as int,
        ));
    }
}

/// Saving or redeeming one token leaves every other token as it was.
pub proof fn lemma_other_tokens_untouched(
    store: Map<Seq<char>, Entry>,
    refresh_token: Seq<char>,
    other: Seq<char>,
    user_id: i64,
    at: int,
    now: int,
)
    requires
        other != refresh_token,
    ensures
        redemption(after_save(store, other, user_id, at), refresh_token, now) == redemption(
            store,
            refresh_token,
            now,
        ),
        redemption(after_redeem(store, other, at), refresh_token, now) == redemption(
            store,
            refresh_token,
            now,
        ),
{
    lemma_keys_differ(refresh_token, other);
}

} // verus!
