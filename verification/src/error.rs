//! Errors that the API hands back to clients.
use vstd::prelude::*;

verus! {

/// The HTTP status that an error is answered with.
#[derive(Clone, Copy, Debug, PartialEq, Eq, Structural)]
pub enum StatusCode {
    BadRequest,
    Unauthorized,
    Forbidden,
    NotFound,
    Conflict,
    InternalServerError,
    NotImplemented,
}

/// The machine-readable reason attached to an error.
#[derive(Clone, Copy, Debug, PartialEq, Eq, Structural)]
pub enum ApiErrorCode {
    BadRequest,
    LoginRequired,
    LackingPrivileges,
    LoadError,
    MissingContext,
    TransactionError,
    MutationError,
    Cookie,
    ImageProcessorError,
    StripeError,
    Unknown,
}

/// An error answered to a client: status, reason and a human readable message.
#[derive(Clone, Copy, Debug, PartialEq, Eq)]
pub struct ApiError {
    pub status: StatusCode,
    pub code: ApiErrorCode,
    pub message: &'static str,
}

/// The error value built from its three parts.
pub open spec fn api_error(status: StatusCode, code: ApiErrorCode, message: &'static str) -> ApiError {
    ApiError { status, code, message }
}

impl ApiError {
    pub fn new(status: StatusCode, code: ApiErrorCode, message: &'static str) -> (e: ApiError)
        ensures
            e == api_error(status, code, message),
    {
        ApiError { status, code, message }
    }

    pub fn bad_request(code: ApiErrorCode, message: &'static str) -> (e: ApiError)
        ensures
            e == api_error(StatusCode::BadRequest, code, message),
    {
        ApiError { status: StatusCode::BadRequest, code, message }
    }

    pub fn unauthorized(code: ApiErrorCode, message: &'static str) -> (e: ApiError)
        ensures
            e == api_error(StatusCode::Unauthorized, code, message),
    {
        ApiError { status: StatusCode::Unauthorized, code, message }
    }

    pub fn forbidden(code: ApiErrorCode, message: &'static str) -> (e: ApiError)
        ensures
            e == api_error(StatusCode::Forbidden, code, message),
    {
        ApiError { status: StatusCode::Forbidden, code, message }
    }

    pub fn not_found(code: ApiErrorCode, message: &'static str) -> (e: ApiError)
        ensures
            e == api_error(StatusCode::NotFound, code, message),
    {
        ApiError { status: StatusCode::NotFound, code, message }
    }

    pub fn conflict(code: ApiErrorCode, message: &'static str) -> (e: ApiError)
        ensures
            e == api_error(StatusCode::Conflict, code, message),
    {
        ApiError { status: StatusCode::Conflict, code, message }
    }

    pub fn internal_server_error(code: ApiErrorCode, message: &'static str) -> (e: ApiError)
        ensures
            e == api_error(StatusCode::InternalServerError, code, message),
    {
        ApiError { status: StatusCode::InternalServerError, code, message }
    }

    pub fn not_implemented(code: ApiErrorCode, message: &'static str) -> (e: ApiError)
        ensures
            e == api_error(StatusCode::NotImplemented, code, message),
    {
        ApiError { status: StatusCode::NotImplemented, code, message }
    }
}

} // verus!
