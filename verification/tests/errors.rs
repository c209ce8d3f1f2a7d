use auth_core::error::{AppError, DbError};
use auth_core::jwt::JwtError;

#[test]
fn status_codes() {
    assert_eq!(AppError::InternalError.status_code(), 500);
    assert_eq!(AppError::BadClientData.status_code(), 400);
    assert_eq!(AppError::Timeout.status_code(), 504);
    assert_eq!(AppError::NotFound.status_code(), 404);
    assert_eq!(AppError::Unauthorized.status_code(), 401);
}

#[test]
fn messages() {
    assert_eq!(AppError::InternalError.message(), "internal error");
    assert_eq!(AppError::BadClientData.message(), "bad request");
    assert_eq!(AppError::Timeout.message(), "timeout");
    assert_eq!(AppError::NotFound.message(), "Resource Not Found");
    assert_eq!(AppError::Unauthorized.message(), "unauthorized");
}

#[test]
fn missing_row_is_not_found() {
    assert_eq!(AppError::from(DbError::RowNotFound), AppError::NotFound);
}

#[test]
fn other_store_failures_are_internal() {
    assert_eq!(AppError::from(DbError::Other), AppError::InternalError);
}

#[test]
fn signing_failure_is_internal() {
    assert_eq!(AppError::from(JwtError::Failed), AppError::InternalError);
}

#[test]
fn rejected_tokens_are_unauthorized_whatever_the_reason() {
    assert_eq!(AppError::from(JwtError::Invalid), AppError::Unauthorized);
    assert_eq!(AppError::from(JwtError::Expired), AppError::Unauthorized);
}
