//! The errors that reach the HTTP layer, and the status that each answers
//! with.

use vstd::prelude::*;
use vstd::string::StringExecFns;
use crate::guards::GuardError;
use crate::s3::S3Error;
use crate::signed_url::service::{Fault, SignedUrlError};
use crate::signer::SignerError;

verus! {

/// What is wrong with one field of a request.
#[derive(Debug, Clone, PartialEq, Eq)]
pub struct ValidationError {
    pub message: String,
    pub field: String,
}

/// An error as the HTTP layer answers it: the variant gives the status,
/// the string the body.
#[derive(Debug, Clone, PartialEq, Eq)]
pub enum ApiError {
    InternalServerError(String),
    UnProcessableEntity(String),
    NotFound(String),
    Unauthorized(String),
    Forbidden(String),
    BadRequest(String),
    ServiceUnavailable(String),
}

impl ApiError {
    /// The HTTP status that answers the error.
    pub open spec fn status(self) -> int {
        match self {
            ApiError::InternalServerError(_) => 500,
            ApiError::UnProcessableEntity(_) => 422,
            ApiError::NotFound(_) => 404,
            ApiError::Unauthorized(_) => 401,
            ApiError::Forbidden(_) => 403,
            ApiError::BadRequest(_) => 400,
            ApiError::ServiceUnavailable(_) => 503,
        }
    }

    /// The words that go with the error.
    pub open spec fn text(self) -> Seq<char> {
        match self {
            ApiError::InternalServerError(m) => m@,
            ApiError::UnProcessableEntity(m) => m@,
            ApiError::NotFound(m) => m@,
            ApiError::Unauthorized(m) => m@,
            ApiError::Forbidden(m) => m@,
            ApiError::BadRequest(m) => m@,
            ApiError::ServiceUnavailable(m) => m@,
        }
    }

    /// The HTTP status that answers the error.
    pub fn status_code(&self) -> (r: u16)
        ensures
            r == self.status(),
    {
        match self {
            ApiError::InternalServerError(_) => 500,
            ApiError::UnProcessableEntity(_) => 422,
            ApiError::NotFound(_) => 404,
            ApiError::Unauthorized(_) => 401,
            ApiError::Forbidden(_) => 403,
            ApiError::BadRequest(_) => 400,
            ApiError::ServiceUnavailable(_) => 503,
        }
    }

    /// The words that go with the error.
    pub fn message(&self) -> (r: &str)
        ensures
            r@ == self.text(),
    {
        match self {
            ApiError::InternalServerError(m) => m.as_str(),
            ApiError::UnProcessableEntity(m) => m.as_str(),
            ApiError::NotFound(m) => m.as_str(),
            ApiError::Unauthorized(m) => m.as_str(),
            ApiError::Forbidden(m) => m.as_str(),
            ApiError::BadRequest(m) => m.as_str(),
            ApiError::ServiceUnavailable(m) => m.as_str(),
        }
    }
}

/// The HTTP status that answers a capability error: 400 for a request that
/// is malformed, 401 for a capability that has expired or is not genuine,
/// 500 for what went wrong inside.
pub open spec fn fault_status(fault: Fault) -> int {
    match fault {
        Fault::MissingQueryParams => 400,
        Fault::InvalidEncoding => 400,
        Fault::InvalidBaseUrl => 400,
        Fault::InternalError => 500,
        Fault::Expired => 401,
        Fault::InvalidSignature => 401,
        Fault::Unauthorized => 401,
    }
}

impl SignedUrlError {
    /// The error as the HTTP layer answers it.
    pub fn into_api_error(self) -> (r: ApiError)
        ensures
            r.status() == fault_status(self@),
            r.text() == self.text(),
    {
        match self {
            SignedUrlError::MissingQueryParams(e) => ApiError::BadRequest(e),
            SignedUrlError::InvalidEncoding => ApiError::BadRequest("Invalid encoding".to_owned()),
            SignedUrlError::InvalidBaseUrl(e) => ApiError::BadRequest(e),
            SignedUrlError::InternalError(e) => ApiError::InternalServerError(e),
            SignedUrlError::Expired => ApiError::Unauthorized("Expired".to_owned()),
            SignedUrlError::InvalidSignature => ApiError::Unauthorized(
                "Invalid signature".to_owned(),
            ),
            SignedUrlError::Unauthorized => ApiError::Unauthorized("Unauthorized".to_owned()),
        }
    }
}

impl GuardError {
    /// The HTTP status that answers the error: 404 for a destination that
    /// is not known, 500 for a registry that lacks a guard, 400 for an
    /// upload that its guard turns down.
    pub open spec fn status(self) -> int {
        match self {
            GuardError::UnknownPrefix => 404,
            GuardError::NoGuardFound => 500,
            GuardError::FileTypeNotAllowed => 400,
            GuardError::WrongContentType => 400,
            GuardError::UnknownFileType => 400,
            GuardError::MissingFileExtension => 400,
            GuardError::WrongFileExtension => 400,
        }
    }

    /// The error as the HTTP layer answers it.
    pub fn into_api_error(self) -> (r: ApiError)
        ensures
            r.status() == self.status(),
            r.text() == self.text(),
    {
        let words = self.to_string();
        match self {
            GuardError::UnknownPrefix => ApiError::NotFound(words),
            GuardError::NoGuardFound => ApiError::InternalServerError(words),
            GuardError::FileTypeNotAllowed => ApiError::BadRequest(words),
            GuardError::WrongContentType => ApiError::BadRequest(words),
            GuardError::UnknownFileType => ApiError::BadRequest(words),
            GuardError::MissingFileExtension => ApiError::BadRequest(words),
            GuardError::WrongFileExtension => ApiError::BadRequest(words),
        }
    }
}

impl SignerError {
    /// The error as the HTTP layer answers it: something went wrong
    /// inside.
    pub fn into_api_error(self) -> (r: ApiError)
        ensures
            r.status() == 500,
            r.text() == self.text(),
    {
        ApiError::InternalServerError(self.to_string())
    }
}

impl S3Error {
    /// The error as the HTTP layer answers it: something went wrong
    /// inside.
    pub fn into_api_error(self) -> (r: ApiError)
        ensures
            r.status() == 500,
            r.text() == self.text(),
    {
        ApiError::InternalServerError(self.to_string())
    }
}

/// Why the server could not start or go on.
#[derive(Debug)]
pub enum CoreError {
    HttpServer(String),
    S3EndpointError(String),
    SigningKeyError(String),
}

impl CoreError {
    /// The words that go with the error: what failed, then why.
    pub open spec fn text(self) -> Seq<char> {
        match self {
            CoreError::HttpServer(m) => "HttpServerError: "@ + m@,
            CoreError::S3EndpointError(m) => "S3Error: "@ + m@,
            CoreError::SigningKeyError(m) => "SigningKeyError: "@ + m@,
        }
    }

    /// The words that go with the error.
    pub fn to_string(&self) -> (r: String)
        ensures
            r@ == self.text(),
    {
        match self {
            CoreError::HttpServer(m) => "HttpServerError: ".to_owned().concat(m.as_str()),
            CoreError::S3EndpointError(m) => "S3Error: ".to_owned().concat(m.as_str()),
            CoreError::SigningKeyError(m) => "SigningKeyError: ".to_owned().concat(m.as_str()),
        }
    }

    /// A capability error, as a failure of the signing key.
    pub fn from_signed_url_error(e: SignedUrlError) -> (r: Self)
        ensures
            r matches CoreError::SigningKeyError(m) && m@ == e.text(),
    {
        CoreError::SigningKeyError(e.to_string())
    }

    /// A signer error, as a failure of the signing key.
    pub fn from_signer_error(e: SignerError) -> (r: Self)
        ensures
            r matches CoreError::SigningKeyError(m) && m@ == e.text(),
    {
        CoreError::SigningKeyError(e.to_string())
    }
}

} // verus!
