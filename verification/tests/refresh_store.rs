use auth_core::error::AppError;
use auth_core::refresh_token::{
    duration, get_then_del, keys, redeemed, save, saved, StoreCommand, StoreReply,
    REFRESH_VALIDITY,
};
use std::collections::HashMap;

fn execute(store: &mut HashMap<String, (i64, i64)>, command: StoreCommand, now: i64) -> StoreReply {
    match command {
        StoreCommand::GetDel { key } => StoreReply::Value(match store.remove(&key) {
            Some((value, expires_at)) if now < expires_at => Some(value),
            _ => None,
        }),
        StoreCommand::SetEx { key, value, seconds } => {
            store.insert(key, (value, now + seconds as i64));
            StoreReply::Done
        }
    }
}

#[test]
fn keys_are_namespaced() {
    assert_eq!(keys("abc"), "refresh_token:abc");
    assert_eq!(keys(""), "refresh_token:");
    assert_eq!(keys("refresh_token:abc"), "refresh_token:refresh_token:abc");
}

#[test]
fn duration_is_fourteen_days() {
    assert_eq!(duration(), 24 * 60 * 60 * 14);
    assert_eq!(duration(), 1_209_600);
    assert_eq!(REFRESH_VALIDITY, 1_209_600);
}

#[test]
fn save_sets_the_key_with_the_time_to_live() {
    assert_eq!(
        save("abc", 7),
        StoreCommand::SetEx { key: "refresh_token:abc".to_string(), value: 7, seconds: 1_209_600 }
    );
}

#[test]
fn get_then_del_is_one_command() {
    assert_eq!(get_then_del("abc"), StoreCommand::GetDel { key: "refresh_token:abc".to_string() });
}

#[test]
fn saved_reads_the_reply() {
    assert_eq!(saved(StoreReply::Done), Ok(()));
    assert_eq!(saved(StoreReply::Failed), Err(AppError::InternalError));
    assert_eq!(saved(StoreReply::Value(None)), Err(AppError::InternalError));
    assert_eq!(saved(StoreReply::Value(Some(1))), Err(AppError::InternalError));
}

#[test]
fn redeemed_reads_the_reply() {
    assert_eq!(redeemed(StoreReply::Value(Some(7))), Ok(7));
    assert_eq!(redeemed(StoreReply::Value(Some(-1))), Ok(-1));
    assert_eq!(redeemed(StoreReply::Value(None)), Err(AppError::Unauthorized));
    assert_eq!(redeemed(StoreReply::Failed), Err(AppError::InternalError));
    assert_eq!(redeemed(StoreReply::Done), Err(AppError::InternalError));
}

#[test]
fn token_is_redeemed_once() {
    let mut store = HashMap::new();
    assert_eq!(saved(execute(&mut store, save("abc", 7), 100)), Ok(()));
    assert_eq!(redeemed(execute(&mut store, get_then_del("abc"), 101)), Ok(7));
    assert_eq!(
        redeemed(execute(&mut store, get_then_del("abc"), 102)),
        Err(AppError::Unauthorized)
    );
    assert_eq!(
        redeemed(execute(&mut store, get_then_del("abc"), 101)),
        Err(AppError::Unauthorized)
    );
}

#[test]
fn one_of_many_redemptions_wins() {
    let mut store = HashMap::new();
    execute(&mut store, save("abc", 7), 100);
    let mut won = 0;
    for caller in 0..10 {
        if redeemed(execute(&mut store, get_then_del("abc"), 100 + caller)).is_ok() {
            won += 1;
        }
    }
    assert_eq!(won, 1);
}

#[test]
fn never_issued_token_is_unauthorized() {
    let mut store = HashMap::new();
    execute(&mut store, save("abc", 7), 100);
    assert_eq!(
        redeemed(execute(&mut store, get_then_del("abd"), 101)),
        Err(AppError::Unauthorized)
    );
    assert_eq!(redeemed(execute(&mut store, get_then_del("abc"), 101)), Ok(7));
}

#[test]
fn expired_token_is_unauthorized() {
    let mut store = HashMap::new();
    execute(&mut store, save("abc", 7), 100);
    assert_eq!(
        redeemed(execute(&mut store, get_then_del("abc"), 100 + 1_209_600)),
        Err(AppError::Unauthorized)
    );
}

#[test]
fn token_is_good_to_the_last_second() {
    let mut store = HashMap::new();
    execute(&mut store, save("abc", 7), 100);
    assert_eq!(redeemed(execute(&mut store, get_then_del("abc"), 100 + 1_209_599)), Ok(7));
}

#[test]
fn saving_twice_is_as_saving_once() {
    let mut once = HashMap::new();
    execute(&mut once, save("abc", 7), 100);
    let mut twice = HashMap::new();
    execute(&mut twice, save("abc", 7), 100);
    execute(&mut twice, save("abc", 7), 100);
    assert_eq!(once, twice);
    assert_eq!(redeemed(execute(&mut twice, get_then_del("abc"), 101)), Ok(7));
    assert_eq!(
        redeemed(execute(&mut twice, get_then_del("abc"), 102)),
        Err(AppError::Unauthorized)
    );
}

#[test]
fn last_save_wins() {
    let mut store = HashMap::new();
    execute(&mut store, save("abc", 7), 100);
    execute(&mut store, save("abc", 8), 200);
    assert_eq!(redeemed(execute(&mut store, get_then_del("abc"), 100 + 1_209_600)), Ok(8));
}
