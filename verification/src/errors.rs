//! The error taxonomy.

use crate::models::Response;
use vstd::prelude::*;

verus! {

/// `reqwest::Error`: carried along, never looked into.
#[verifier::external_type_specification]
#[verifier::external_body]
pub struct ExReqwestError(reqwest::Error);

/// `reqwest::Request`: carried along, never looked into.
#[verifier::external_type_specification]
#[verifier::external_body]
pub struct ExReqwestRequest(reqwest::Request);

/// The kind of an error, without what it carries.
#[derive(Clone, Copy, Debug, PartialEq, Eq, Structural)]
pub enum ErrorKind {
    InvalidInvocation,
    RequestError,
    ResponseError,
    OAuthError,
    BadJSON,
    BadRequest,
    Conflict,
    Forbidden,
    InsufficientScope,
    InvalidToken,
    NotFound,
    Redirect,
    ServerError,
    SpecialError,
    TooLarge,
    TooManyRequests,
    UnavailableForLegalReasons,
    URITooLong,
}

/// A failure of the transport before any response was obtained.
#[derive(Debug)]
pub struct RequestErrorData {
    pub original_error: reqwest::Error,
    pub request: reqwest::Request,
}

/// A response that stands for an error.
#[derive(Debug)]
pub struct ResponseErrorData {
    pub response: Response,
}

/// An error that the token endpoint reported in its payload.
#[derive(Debug)]
pub struct OAuthErrorData {
    pub response: Response,
    pub error: String,
    pub description: Option<String>,
}

/// A redirect, with the location it points to.
#[derive(Debug)]
pub struct RedirectData {
    pub response: Response,
    pub path: String,
}

/// An error that asks the client to come back later.
#[derive(Debug)]
pub struct SpecialErrorData {
    pub response: Response,
    pub retry_after: u16,
    pub message: String,
}

/// What can go wrong with a request or with the way the library is called.
#[derive(Debug)]
pub enum RawrCoreError {
    InvalidInvocation,
    RequestError(RequestErrorData),
    ResponseError(ResponseErrorData),
    OAuthError(OAuthErrorData),
    BadJSON(ResponseErrorData),
    BadRequest(ResponseErrorData),
    Conflict(ResponseErrorData),
    Forbidden(ResponseErrorData),
    InsufficientScope(ResponseErrorData),
    InvalidToken(ResponseErrorData),
    NotFound(ResponseErrorData),
    Redirect(RedirectData),
    ServerError(ResponseErrorData),
    SpecialError(SpecialErrorData),
    TooLarge(ResponseErrorData),
    TooManyRequests(ResponseErrorData),
    UnavailableForLegalReasons(ResponseErrorData),
    URITooLong(ResponseErrorData),
}

impl ErrorKind {
    /// Whether a request that failed with an error of this kind may be sent
    /// again: a transport failure, a server error, a special error, or too
    /// many requests.
    pub open spec fn retryable(self) -> bool {
        self == ErrorKind::RequestError || self == ErrorKind::ServerError || self
            == ErrorKind::SpecialError || self == ErrorKind::TooManyRequests
    }

    /// Whether a request that failed with an error of this kind may be sent
    /// again.
    pub fn is_retryable(&self) -> (r: bool)
        ensures
            r == self.retryable(),
    {
        match self {
            ErrorKind::RequestError
            | ErrorKind::ServerError
            | ErrorKind::SpecialError
            | ErrorKind::TooManyRequests => true,
            _ => false,
        }
    }
}

impl RawrCoreError {
    /// The kind of the error.
    pub open spec fn kind_of(self) -> ErrorKind {
        match self {
            RawrCoreError::InvalidInvocation => ErrorKind::InvalidInvocation,
            RawrCoreError::RequestError(_) => ErrorKind::RequestError,
            RawrCoreError::ResponseError(_) => ErrorKind::ResponseError,
            RawrCoreError::OAuthError(_) => ErrorKind::OAuthError,
            RawrCoreError::BadJSON(_) => ErrorKind::BadJSON,
            RawrCoreError::BadRequest(_) => ErrorKind::BadRequest,
            RawrCoreError::Conflict(_) => ErrorKind::Conflict,
            RawrCoreError::Forbidden(_) => ErrorKind::Forbidden,
            RawrCoreError::InsufficientScope(_) => ErrorKind::InsufficientScope,
            RawrCoreError::InvalidToken(_) => ErrorKind::InvalidToken,
            RawrCoreError::NotFound(_) => ErrorKind::NotFound,
            RawrCoreError::Redirect(_) => ErrorKind::Redirect,
            RawrCoreError::ServerError(_) => ErrorKind::ServerError,
            RawrCoreError::SpecialError(_) => ErrorKind::SpecialError,
            RawrCoreError::TooLarge(_) => ErrorKind::TooLarge,
            RawrCoreError::TooManyRequests(_) => ErrorKind::TooManyRequests,
            RawrCoreError::UnavailableForLegalReasons(_) => ErrorKind::UnavailableForLegalReasons,
            RawrCoreError::URITooLong(_) => ErrorKind::URITooLong,
        }
    }

    /// The response that the error carries, where it carries one.
    pub open spec fn response_of(self) -> Option<Response> {
        match self {
            RawrCoreError::InvalidInvocation => None,
            RawrCoreError::RequestError(_) => None,
            RawrCoreError::OAuthError(data) => Some(data.response),
            RawrCoreError::Redirect(data) => Some(data.response),
            RawrCoreError::SpecialError(data) => Some(data.response),
            RawrCoreError::ResponseError(data)
            | RawrCoreError::BadJSON(data)
            | RawrCoreError::BadRequest(data)
            | RawrCoreError::Conflict(data)
            | RawrCoreError::Forbidden(data)
            | RawrCoreError::InsufficientScope(data)
            | RawrCoreError::InvalidToken(data)
            | RawrCoreError::NotFound(data)
            | RawrCoreError::ServerError(data)
            | RawrCoreError::TooLarge(data)
            | RawrCoreError::TooManyRequests(data)
            | RawrCoreError::UnavailableForLegalReasons(data)
            | RawrCoreError::URITooLong(data) => Some(data.response),
        }
    }

    /// The kind of the error.
    pub fn kind(&self) -> (kind: ErrorKind)
        ensures
            kind == self.kind_of(),
    {
        match self {
            RawrCoreError::InvalidInvocation => ErrorKind::InvalidInvocation,
            RawrCoreError::RequestError(_) => ErrorKind::RequestError,
            RawrCoreError::ResponseError(_) => ErrorKind::ResponseError,
            RawrCoreError::OAuthError(_) => ErrorKind::OAuthError,
            RawrCoreError::BadJSON(_) => ErrorKind::BadJSON,
            RawrCoreError::BadRequest(_) => ErrorKind::BadRequest,
            RawrCoreError::Conflict(_) => ErrorKind::Conflict,
            RawrCoreError::Forbidden(_) => ErrorKind::Forbidden,
            RawrCoreError::InsufficientScope(_) => ErrorKind::InsufficientScope,
            RawrCoreError::InvalidToken(_) => ErrorKind::InvalidToken,
            RawrCoreError::NotFound(_) => ErrorKind::NotFound,
            RawrCoreError::Redirect(_) => ErrorKind::Redirect,
            RawrCoreError::ServerError(_) => ErrorKind::ServerError,
            RawrCoreError::SpecialError(_) => ErrorKind::SpecialError,
            RawrCoreError::TooLarge(_) => ErrorKind::TooLarge,
            RawrCoreError::TooManyRequests(_) => ErrorKind::TooManyRequests,
            RawrCoreError::UnavailableForLegalReasons(_) => ErrorKind::UnavailableForLegalReasons,
            RawrCoreError::URITooLong(_) => ErrorKind::URITooLong,
        }
    }

    /// The response that the error carries, where it carries one.
    pub fn response(&self) -> (response: Option<&Response>)
        ensures
            response is Some <==> self.response_of() is Some,
            response matches Some(r) ==> self.response_of() == Some(*r),
    {
        match self {
            RawrCoreError::InvalidInvocation => None,
            RawrCoreError::RequestError(_) => None,
            RawrCoreError::OAuthError(data) => Some(&data.response),
            RawrCoreError::Redirect(data) => Some(&data.response),
            RawrCoreError::SpecialError(data) => Some(&data.response),
            RawrCoreError::ResponseError(data)
            | RawrCoreError::BadJSON(data)
            | RawrCoreError::BadRequest(data)
            | RawrCoreError::Conflict(data)
            | RawrCoreError::Forbidden(data)
            | RawrCoreError::InsufficientScope(data)
            | RawrCoreError::InvalidToken(data)
            | RawrCoreError::NotFound(data)
            | RawrCoreError::ServerError(data)
            | RawrCoreError::TooLarge(data)
            | RawrCoreError::TooManyRequests(data)
            | RawrCoreError::UnavailableForLegalReasons(data)
            | RawrCoreError::URITooLong(data) => Some(&data.response),
        }
    }

    /// The status code of the response that the error carries.
    pub fn status_code(&self) -> (status: Option<u16>)
        ensures
            status == match self.response_of() {
                Some(response) => Some(response.status),
                None => None,
            },
    {
        match self.response() {
            Some(response) => Some(response.status),
            None => None,
        }
    }
}

} // verus!
