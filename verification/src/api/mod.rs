//! What the public interface exchanges with its callers: queries, answers
//! and the status that each error maps to. Routing stands outside.

use vstd::prelude::*;
use crate::services::{ServiceError, ErrorKind};

pub mod trains;
pub mod analytics;
pub mod optimization;
pub mod ingestion;

verus! {

#[derive(Debug)]
pub enum ApiError {
    Service(ServiceError),
    Validation(String),
    NotFound(String),
}

/// The HTTP status codes that the interface answers errors with.
pub const STATUS_BAD_REQUEST: u16 = 400;

pub const STATUS_NOT_FOUND: u16 = 404;

pub const STATUS_CONFLICT: u16 = 409;

pub const STATUS_INTERNAL_SERVER_ERROR: u16 = 500;

/// The status for an error of a service: what the caller got wrong is told
/// apart, everything else is an internal error.
pub open spec fn service_status(kind: ErrorKind) -> u16 {
    match kind {
        ErrorKind::NotFound => STATUS_NOT_FOUND,
        ErrorKind::Conflict => STATUS_CONFLICT,
        ErrorKind::Validation => STATUS_BAD_REQUEST,
        _ => STATUS_INTERNAL_SERVER_ERROR,
    }
}

impl ApiError {
    pub open spec fn spec_status_code(&self) -> u16 {
        match self {
            ApiError::Service(e) => service_status(e.spec_kind()),
            ApiError::Validation(_) => STATUS_BAD_REQUEST,
            ApiError::NotFound(_) => STATUS_NOT_FOUND,
        }
    }

    /// The HTTP status that answers this error.
    #[verifier::when_used_as_spec(spec_status_code)]
    pub fn status_code(&self) -> (code: u16)
        ensures
            code == self.spec_status_code(),
    {
        match self {
            ApiError::Service(e) => match e.kind() {
                ErrorKind::NotFound => STATUS_NOT_FOUND,
                ErrorKind::Conflict => STATUS_CONFLICT,
                ErrorKind::Validation => STATUS_BAD_REQUEST,
                _ => STATUS_INTERNAL_SERVER_ERROR,
            },
            ApiError::Validation(_) => STATUS_BAD_REQUEST,
            ApiError::NotFound(_) => STATUS_NOT_FOUND,
        }
    }

    pub open spec fn spec_message(&self) -> Seq<char> {
        match self {
            ApiError::Service(e) => "Service error: "@ + e.spec_message(),
            ApiError::Validation(s) => "Validation error: "@ + s@,
            ApiError::NotFound(s) => "Not found: "@ + s@,
        }
    }

    /// The error as it is shown.
    pub fn message(&self) -> (text: String)
        ensures
            text@ == self.spec_message(),
    {
        match self {
            ApiError::Service(e) => {
                let mut text = "Service error: ".to_owned();
                let inner = e.message();
                text.append(inner.as_str());
                text
            },
            ApiError::Validation(s) => {
                let mut text = "Validation error: ".to_owned();
                text.append(s.as_str());
                text
            },
            ApiError::NotFound(s) => {
                let mut text = "Not found: ".to_owned();
                text.append(s.as_str());
                text
            },
        }
    }
}

impl From<ServiceError> for ApiError {
    fn from(error: ServiceError) -> (api: ApiError)
        ensures
            api == ApiError::Service(error),
    {
        ApiError::Service(error)
    }
}

impl vstd::std_specs::convert::FromSpecImpl<ServiceError> for ApiError {
    open spec fn obeys_from_spec() -> bool {
        true
    }

    open spec fn from_spec(error: ServiceError) -> ApiError {
        ApiError::Service(error)
    }
}

} // verus!
