//! The uniform response envelope: every endpoint answers with either a success
//! payload or a structured error payload, never both and never neither.

use vstd::prelude::*;

verus! {

/// One validation violation tied to one named input field. The field name is
/// absent for errors that concern no single field.
#[derive(Debug)]
pub struct ErrorDetail {
    pub field: Option<String>,
    pub message: String,
}

/// Mathematical shape of an `ErrorDetail`: the optional field name and the
/// message, both as character sequences.
pub type DetailView = (Option<Seq<char>>, Seq<char>);

impl View for ErrorDetail {
    type V = DetailView;

    open spec fn view(&self) -> DetailView {
        (
            match self.field {
                Some(f) => Some(f@),
                None => None,
            },
            self.message@,
        )
    }
}

/// The views of a list of detail entries, in order.
pub open spec fn details_view(l: Seq<ErrorDetail>) -> Seq<DetailView> {
    l.map_values(|d: ErrorDetail| d@)
}

/// The error payload of an envelope: a transport status code, a human
/// message, and, for validation failures, the ordered field-error list.
#[derive(Debug)]
pub struct ApiError {
    pub code: u16,
    pub message: String,
    pub details: Option<Vec<ErrorDetail>>,
}

/// The uniform envelope. Exactly one of `data` and `error` is populated; the
/// constructors below establish that invariant and every function of this
/// library that hands out an envelope guarantees it.
#[derive(Debug)]
pub struct ApiResponse<T> {
    pub data: Option<T>,
    pub error: Option<ApiError>,
}

impl<T> ApiResponse<T> {
    /// Exactly one of the two sides is set.
    pub open spec fn wf(self) -> bool {
        self.data is Some <==> self.error is None
    }

    /// Wraps a success payload; the error side stays unset.
    pub fn success(data: T) -> (r: Self)
        ensures
            r.data == Some(data),
            r.error is None,
            r.wf(),
    {
        Self { data: Some(data), error: None }
    }

    /// Wraps an error with a status code and message and no field details;
    /// the data side stays unset.
    pub fn error(code: u16, message: String) -> (r: ApiResponse<()>)
        ensures
            r.data is None,
            r.error is Some,
            r.error->0.code == code,
            r.error->0.message == message,
            r.error->0.details is None,
            r.wf(),
    {
        ApiResponse { data: None, error: Some(ApiError { code, message, details: None }) }
    }

    /// Wraps an error that carries a field-error list, as a validation
    /// failure does; the data side stays unset.
    pub fn error_with_details(code: u16, message: String, details: Vec<ErrorDetail>) -> (r:
        ApiResponse<()>)
        ensures
            r.data is None,
            r.error is Some,
            r.error->0.code == code,
            r.error->0.message == message,
            r.error->0.details == Some(details),
            r.wf(),
    {
        ApiResponse { data: None, error: Some(ApiError { code, message, details: Some(details) }) }
    }
}

/// A well-formed envelope carries exactly one of a success payload and an
/// error payload: never both, and never neither.
pub proof fn lemma_envelope_exclusive<T>(r: ApiResponse<T>)
    requires
        r.wf(),
    ensures
        r.data is Some ==> r.error is None,
        r.error is Some ==> r.data is None,
        r.data is Some || r.error is Some,
{
}

} // verus!
