//! Credential and session-lifecycle core: password hashing, signed access
//! tokens, single-use refresh tokens and the bearer-token gate.

pub mod account;
pub mod assessment;
pub mod authentication;
pub mod error;
pub mod hasher;
pub mod jwt;
pub mod middleware;
pub mod refresh_token;
pub mod text;
