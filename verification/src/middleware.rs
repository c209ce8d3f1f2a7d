//! The auth gate: turns the bearer token of a request into the identity that
//! protected handlers may trust, or rejects the request.

use crate::error::AppError;
use crate::jwt::{unix_now, JwtGenerator};
use vstd::prelude::*;

verus! {

/// The verified identity of one request.
#[derive(Clone, Copy, Debug, PartialEq, Eq, Structural)]
pub struct RequestContext {
    pub user_id: i64,
}

/// The auth gate's decision on a request that arrives at `now`.
///
/// `bearer` is the token of the request's `Authorization` header, `None`
/// where the header is missing or malformed. A request passes with the
/// subject of its token as its identity where the token verifies; every
/// other request is `Unauthorized`.
pub open spec fn admitted(generator: &JwtGenerator, bearer: Option<Seq<char>>, now: int) -> Result<
    RequestContext,
    AppError,
> {
    match bearer {
        None => Err(AppError::Unauthorized),
        Some(token) => match generator.verified(token, now) {
            Ok(claims) => Ok(RequestContext { user_id: claims.sub }),
            Err(_) => Err(AppError::Unauthorized),
        },
    }
}

/// A bearer token as plain values.
pub open spec fn bearer_view(bearer: Option<&str>) -> Option<Seq<char>> {
    match bearer {
        Some(token) => Some(token@),
        None => None,
    }
}

/// Decides on a request that arrives at `now`.
///
/// A request without a bearer token is rejected without a look at the
/// signer. The caller runs the protected handler only on `Ok`.
pub fn authenticate_at(generator: &JwtGenerator, bearer: Option<&str>, now: i64) -> (outcome:
    Result<RequestContext, AppError>)
    ensures
        outcome == admitted(generator, bearer_view(bearer), now as int),
{
    match bearer {
        None => Err(AppError::Unauthorized),
        Some(token) => match generator.verify_at(token, now) {
            Ok(claims) => Ok(RequestContext { user_id: claims.sub }),
            Err(_) => Err(AppError::Unauthorized),
        },
    }
}

/// Decides on a request against this machine's clock.
pub fn authenticate(generator: &JwtGenerator, bearer: Option<&str>) -> (outcome: Result<
    RequestContext,
    AppError,
>)
    ensures
        bearer is None ==> outcome == Err::<RequestContext, AppError>(AppError::Unauthorized),
        exists|now: int| outcome == #[trigger] admitted(generator, bearer_view(bearer), now),
{
    match bearer {
        None => {
            assert(admitted(generator, bearer_view(bearer), 0) == Err::<RequestContext, AppError>(
                AppError::Unauthorized,
            ));
            Err(AppError::Unauthorized)
        },
        Some(_) => {
            let now = unix_now();
            authenticate_at(generator, bearer, now)
        },
    }
}

/// The account on whose behalf a protected handler runs: the identity that
/// the auth gate attached to the request, `Unauthorized` where there is none.
pub fn require_user(context: Option<RequestContext>) -> (outcome: Result<i64, AppError>)
    ensures
        outcome == match context {
            Some(c) => Ok::<i64, AppError>(c.user_id),
            None => Err::<i64, AppError>(AppError::Unauthorized),
        },
{
    match context {
        Some(c) => Ok(c.user_id),
        None => Err(AppError::Unauthorized),
    }
}

/// Whatever the auth gate decides, a rejection is `Unauthorized`: a missing, a
/// forged and an expired token look the same.
pub proof fn lemma_gate_rejects_alike(generator: &JwtGenerator, bearer: Option<Seq<char>>, now: int)
    ensures
        admitted(generator, bearer, now) matches Err(e) ==> e == AppError::Unauthorized,
        bearer is None ==> admitted(generator, bearer, now) is Err,
{
}

} // verus!
