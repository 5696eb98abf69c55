//! Error taxonomy and its mapping to transport status semantics. Every
//! failure this layer detects is classified into one of four kinds before it
//! crosses the boundary; the mapping to a status code is total and exhaustive.

use crate::envelope::{details_view, ApiResponse, DetailView, ErrorDetail};
use vstd::prelude::*;

verus! {

/// The closed failure taxonomy. Each kind carries its human message; the
/// validation kind additionally carries the ordered field-error list.
#[derive(Debug)]
pub enum AppError {
    NotFound(String),
    BadRequest(String),
    ValidationError(String, Vec<ErrorDetail>),
    InternalError(String),
}

impl AppError {
    /// The transport status code each kind maps to.
    pub open spec fn status_spec(&self) -> u16 {
        match self {
            AppError::NotFound(_) => 404,
            AppError::BadRequest(_) => 400,
            AppError::ValidationError(_, _) => 422,
            AppError::InternalError(_) => 500,
        }
    }

    /// The human message the error carries.
    pub open spec fn message_spec(&self) -> Seq<char> {
        match self {
            AppError::NotFound(m) => m@,
            AppError::BadRequest(m) => m@,
            AppError::ValidationError(m, _) => m@,
            AppError::InternalError(m) => m@,
        }
    }

    /// The field-error list the error carries: non-empty details for a
    /// validation failure, nothing for the other kinds.
    pub open spec fn details_spec(&self) -> Option<Seq<DetailView>> {
        match self {
            AppError::ValidationError(_, d) => Some(details_view(d@)),
            _ => None,
        }
    }

    /// Status code of this error kind, as a value.
    pub fn status_code(&self) -> (c: u16)
        ensures
            c == self.status_spec(),
    {
        match self {
            AppError::NotFound(_) => 404,
            AppError::BadRequest(_) => 400,
            AppError::ValidationError(_, _) => 422,
            AppError::InternalError(_) => 500,
        }
    }

    /// Converts the error into its transport form: the status code together
    /// with an error envelope carrying the same code, the message, and - for
    /// a validation failure - the field-error list as details.
    pub fn into_envelope(self) -> (r: (u16, ApiResponse<()>))
        ensures
            r.0 == self.status_spec(),
            r.1.wf(),
            r.1.data is None,
            r.1.error is Some,
            r.1.error->0.code == self.status_spec(),
            r.1.error->0.message@ == self.message_spec(),
            match r.1.error->0.details {
                Some(d) => self.details_spec() == Some(details_view(d@)),
                None => self.details_spec() is None,
            },
    {
        match self {
            AppError::NotFound(m) => (404, ApiResponse::<()>::error(404, m)),
            AppError::BadRequest(m) => (400, ApiResponse::<()>::error(400, m)),
            AppError::ValidationError(m, d) => (
                422,
                ApiResponse::<()>::error_with_details(422, m, d),
            ),
            AppError::InternalError(m) => (500, ApiResponse::<()>::error(500, m)),
        }
    }
}

} // verus!
