//! How the optimization endpoints answer failures and questions of health.

use vstd::prelude::*;
use crate::api::{STATUS_BAD_REQUEST, STATUS_INTERNAL_SERVER_ERROR};
use crate::services::{ServiceError, ErrorKind};

verus! {

/// The status that answers while the solver cannot be had.
pub const STATUS_SERVICE_UNAVAILABLE: u16 = 503;

/// What a caller is told of a failure.
#[derive(Debug)]
pub struct ErrorReply {
    pub status: u16,
    pub error: String,
    pub details: String,
}

/// What a caller is told of the health of the solver.
#[derive(Debug)]
pub struct HealthReply {
    pub status: String,
    pub optimizer_available: bool,
    pub message: String,
}

/// The words for a failed optimization, by the class of the error.
pub open spec fn optimization_failure_title(kind: ErrorKind) -> Seq<char> {
    match kind {
        ErrorKind::Validation => "Validation failed"@,
        ErrorKind::Optimization => "Optimization failed"@,
        _ => "Internal server error"@,
    }
}

/// The words for a failed simulation, by the class of the error.
pub open spec fn simulation_failure_title(kind: ErrorKind) -> Seq<char> {
    match kind {
        ErrorKind::Validation => "Validation failed"@,
        _ => "Simulation failed"@,
    }
}

/// What is told in detail of an error under a title: only the text of a
/// validation or optimization error where the title names its class, the
/// whole error as it is shown otherwise.
pub open spec fn failure_details(error: ServiceError, names_class: bool) -> Seq<char> {
    if names_class {
        error.detail()
    } else {
        error.spec_message()
    }
}

/// What a caller is told when an optimization fails: a request that is not
/// valid is the caller's fault, everything else the server's.
pub fn optimization_failure(error: &ServiceError) -> (reply: ErrorReply)
    ensures
        reply.status == if error.spec_kind() == ErrorKind::Validation {
            STATUS_BAD_REQUEST
        } else {
            STATUS_INTERNAL_SERVER_ERROR
        },
        reply.error@ == optimization_failure_title(error.spec_kind()),
        reply.details@ == failure_details(
            *error,
            error.spec_kind() == ErrorKind::Validation || error.spec_kind()
                == ErrorKind::Optimization,
        ),
{
    match error {
        ServiceError::Validation(text) => ErrorReply {
            status: STATUS_BAD_REQUEST,
            error: "Validation failed".to_owned(),
            details: text.clone(),
        },
        ServiceError::Optimization(text) => ErrorReply {
            status: STATUS_INTERNAL_SERVER_ERROR,
            error: "Optimization failed".to_owned(),
            details: text.clone(),
        },
        _ => ErrorReply {
            status: STATUS_INTERNAL_SERVER_ERROR,
            error: "Internal server error".to_owned(),
            details: error.message(),
        },
    }
}

/// What a caller is told when a simulation fails.
pub fn simulation_failure(error: &ServiceError) -> (reply: ErrorReply)
    ensures
        reply.status == if error.spec_kind() == ErrorKind::Validation {
            STATUS_BAD_REQUEST
        } else {
            STATUS_INTERNAL_SERVER_ERROR
        },
        reply.error@ == simulation_failure_title(error.spec_kind()),
        reply.details@ == failure_details(*error, error.spec_kind() == ErrorKind::Validation),
{
    match error {
        ServiceError::Validation(text) => ErrorReply {
            status: STATUS_BAD_REQUEST,
            error: "Validation failed".to_owned(),
            details: text.clone(),
        },
        _ => ErrorReply {
            status: STATUS_INTERNAL_SERVER_ERROR,
            error: "Simulation failed".to_owned(),
            details: error.message(),
        },
    }
}

/// What a caller is told of the health of the solver. The reply goes out
/// with "service unavailable" while the solver cannot be had.
pub fn health_check(optimizer_available: bool) -> (answer: Result<HealthReply, HealthReply>)
    ensures
        optimizer_available ==> (answer matches Ok(reply) && reply.optimizer_available
            && reply.status@ == "healthy"@ && reply.message@
            == "Optimization service is running"@),
        !optimizer_available ==> (answer matches Err(reply) && !reply.optimizer_available
            && reply.status@ == "unhealthy"@ && reply.message@
            == "Optimization service is not available"@),
{
    if optimizer_available {
        Ok(
            HealthReply {
                status: "healthy".to_owned(),
                optimizer_available: true,
                message: "Optimization service is running".to_owned(),
            },
        )
    } else {
        Err(
            HealthReply {
                status: "unhealthy".to_owned(),
                optimizer_available: false,
                message: "Optimization service is not available".to_owned(),
            },
        )
    }
}

} // verus!
