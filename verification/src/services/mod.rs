//! The services of the control core and the errors they report.

use vstd::prelude::*;

pub mod train_service;
pub mod monitoring;
pub mod fleet;
pub mod listing;
pub mod ordering;
pub mod analytics;
pub mod conflict_detection;
pub mod grpc_client;
pub mod wire;
pub mod optimization_service;
pub mod ingestion_service;
pub mod simulation;
pub mod optimization_converter;

verus! {

/// What every service can say of itself.
pub trait Service {
    fn name(&self) -> &'static str;
}

pub type ServiceResult<T> = Result<T, ServiceError>;

#[derive(Debug)]
pub enum ServiceError {
    /// The record store failed; the text is its report.
    Database(String),
    Validation(String),
    NotFound(String),
    Conflict(String),
    ExternalApi(String),
    Optimization(String),
}

/// The class of a `ServiceError`, without its text.
#[derive(Clone, Copy, Debug, PartialEq, Eq, Structural)]
pub enum ErrorKind {
    Database,
    Validation,
    NotFound,
    Conflict,
    ExternalApi,
    Optimization,
}

impl ServiceError {
    pub open spec fn spec_kind(&self) -> ErrorKind {
        match self {
            ServiceError::Database(_) => ErrorKind::Database,
            ServiceError::Validation(_) => ErrorKind::Validation,
            ServiceError::NotFound(_) => ErrorKind::NotFound,
            ServiceError::Conflict(_) => ErrorKind::Conflict,
            ServiceError::ExternalApi(_) => ErrorKind::ExternalApi,
            ServiceError::Optimization(_) => ErrorKind::Optimization,
        }
    }

    /// The text that the error carries.
    pub open spec fn detail(&self) -> Seq<char> {
        match self {
            ServiceError::Database(s) => s@,
            ServiceError::Validation(s) => s@,
            ServiceError::NotFound(s) => s@,
            ServiceError::Conflict(s) => s@,
            ServiceError::ExternalApi(s) => s@,
            ServiceError::Optimization(s) => s@,
        }
    }

    /// The words that introduce an error of each class.
    pub open spec fn prefix(kind: ErrorKind) -> Seq<char> {
        match kind {
            ErrorKind::Database => "Database error: "@,
            ErrorKind::Validation => "Validation error: "@,
            ErrorKind::NotFound => "Not found: "@,
            ErrorKind::Conflict => "Conflict detected: "@,
            ErrorKind::ExternalApi => "External API error: "@,
            ErrorKind::Optimization => "Optimization error: "@,
        }
    }

    /// The error as it is shown: the words for its class, then its text.
    pub open spec fn spec_message(&self) -> Seq<char> {
        ServiceError::prefix(self.spec_kind()) + self.detail()
    }

    #[verifier::when_used_as_spec(spec_kind)]
    pub fn kind(&self) -> (kind: ErrorKind)
        ensures
            kind == self.spec_kind(),
    {
        match self {
            ServiceError::Database(_) => ErrorKind::Database,
            ServiceError::Validation(_) => ErrorKind::Validation,
            ServiceError::NotFound(_) => ErrorKind::NotFound,
            ServiceError::Conflict(_) => ErrorKind::Conflict,
            ServiceError::ExternalApi(_) => ErrorKind::ExternalApi,
            ServiceError::Optimization(_) => ErrorKind::Optimization,
        }
    }

    pub fn message(&self) -> (text: String)
        ensures
            text@ == self.spec_message(),
    {
        let (mut text, detail) = match self {
            ServiceError::Database(s) => ("Database error: ".to_owned(), s),
            ServiceError::Validation(s) => ("Validation error: ".to_owned(), s),
            ServiceError::NotFound(s) => ("Not found: ".to_owned(), s),
            ServiceError::Conflict(s) => ("Conflict detected: ".to_owned(), s),
            ServiceError::ExternalApi(s) => ("External API error: ".to_owned(), s),
            ServiceError::Optimization(s) => ("Optimization error: ".to_owned(), s),
        };
        text.append(detail.as_str());
        text
    }
}

/// Whether `result` is the error of class `kind` with exactly the text `detail`.
pub open spec fn fails_with<T>(result: ServiceResult<T>, kind: ErrorKind, detail: Seq<char>)
    -> bool {
    result matches Err(e) && e.spec_kind() == kind && e.detail() == detail
}

} // verus!
