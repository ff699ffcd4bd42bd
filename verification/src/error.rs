//! The errors that a caller can be answered with.

use vstd::prelude::*;
use vstd::string::StringExecFns;

verus! {

/// A classified failure.
///
/// Only `BadRequest` and `Forbidden` carry a detail that is meant for the
/// caller. Every failure of delegation or configuration is `Internal`, and
/// says nothing of its cause.
#[derive(Clone, Debug, PartialEq, Eq)]
pub enum SdzApiError {
    /// The request itself is at fault.
    BadRequest(String),
    /// The caller may not do this.
    Forbidden(String),
    /// The caller is not known.
    Unauthorized,
    /// There is no such thing.
    NotFound,
    /// Something failed on this side.
    Internal,
}

/// An error, with its detail as plain text.
pub enum SdzApiErrorView {
    BadRequest(Seq<char>),
    Forbidden(Seq<char>),
    Unauthorized,
    NotFound,
    Internal,
}

impl View for SdzApiError {
    type V = SdzApiErrorView;

    open spec fn view(&self) -> SdzApiErrorView {
        match self {
            SdzApiError::BadRequest(detail) => SdzApiErrorView::BadRequest(detail@),
            SdzApiError::Forbidden(detail) => SdzApiErrorView::Forbidden(detail@),
            SdzApiError::Unauthorized => SdzApiErrorView::Unauthorized,
            SdzApiError::NotFound => SdzApiErrorView::NotFound,
            SdzApiError::Internal => SdzApiErrorView::Internal,
        }
    }
}

/// The body of an error response.
#[derive(Clone, Debug)]
pub struct SdzErrorBody {
    /// The HTTP status.
    pub code: u16,
    /// The error's code in the service's own numbering.
    pub error_code: &'static str,
    /// The message for the caller.
    pub message: String,
}

impl SdzApiErrorView {
    /// The HTTP status that answers the error.
    pub open spec fn status_code(self) -> u16 {
        match self {
            SdzApiErrorView::BadRequest(_) => 400,
            SdzApiErrorView::Forbidden(_) => 403,
            SdzApiErrorView::Unauthorized => 401,
            SdzApiErrorView::NotFound => 404,
            SdzApiErrorView::Internal => 500,
        }
    }

    /// The error's code in the service's own numbering.
    pub open spec fn error_code(self) -> Seq<char> {
        match self {
            SdzApiErrorView::BadRequest(_) => "SDZ-E-2001"@,
            SdzApiErrorView::Forbidden(_) => "SDZ-E-1002"@,
            SdzApiErrorView::Unauthorized => "SDZ-E-1001"@,
            SdzApiErrorView::NotFound => "SDZ-E-4004"@,
            SdzApiErrorView::Internal => "SDZ-E-9001"@,
        }
    }

    /// The code under which the error is logged.
    pub open spec fn event_code(self) -> Seq<char> {
        match self {
            SdzApiErrorView::BadRequest(_) => "SDZ-API-4001"@,
            SdzApiErrorView::Forbidden(_) => "SDZ-API-4030"@,
            SdzApiErrorView::Unauthorized => "SDZ-API-4010"@,
            SdzApiErrorView::NotFound => "SDZ-API-4040"@,
            SdzApiErrorView::Internal => "SDZ-API-5000"@,
        }
    }

    /// The message for the caller. An internal error has the same message
    /// whatever went wrong.
    pub open spec fn message(self) -> Seq<char> {
        match self {
            SdzApiErrorView::BadRequest(detail) => "Bad Request: "@ + detail,
            SdzApiErrorView::Forbidden(detail) => "Forbidden: "@ + detail,
            SdzApiErrorView::Unauthorized => "Unauthorized"@,
            SdzApiErrorView::NotFound => "Not Found"@,
            SdzApiErrorView::Internal => "Internal Server Error"@,
        }
    }
}

impl SdzApiError {
    /// The HTTP status that answers the error.
    pub fn status_code(&self) -> (r: u16)
        ensures
            r == self@.status_code(),
    {
        match self {
            SdzApiError::BadRequest(_) => 400,
            SdzApiError::Forbidden(_) => 403,
            SdzApiError::Unauthorized => 401,
            SdzApiError::NotFound => 404,
            SdzApiError::Internal => 500,
        }
    }

    /// The error's code in the service's own numbering.
    pub fn error_code(&self) -> (r: &'static str)
        ensures
            r@ == self@.error_code(),
    {
        match self {
            SdzApiError::BadRequest(_) => "SDZ-E-2001",
            SdzApiError::Forbidden(_) => "SDZ-E-1002",
            SdzApiError::Unauthorized => "SDZ-E-1001",
            SdzApiError::NotFound => "SDZ-E-4004",
            SdzApiError::Internal => "SDZ-E-9001",
        }
    }

    /// The code under which the error is logged.
    pub fn event_code(&self) -> (r: &'static str)
        ensures
            r@ == self@.event_code(),
    {
        match self {
            SdzApiError::BadRequest(_) => "SDZ-API-4001",
            SdzApiError::Forbidden(_) => "SDZ-API-4030",
            SdzApiError::Unauthorized => "SDZ-API-4010",
            SdzApiError::NotFound => "SDZ-API-4040",
            SdzApiError::Internal => "SDZ-API-5000",
        }
    }

    /// The message for the caller.
    pub fn message(&self) -> (r: String)
        ensures
            r@ == self@.message(),
    {
        match self {
            SdzApiError::BadRequest(detail) => {
                let mut out = String::from_str("Bad Request: ");
                out.append(detail.as_str());
                out
            },
            SdzApiError::Forbidden(detail) => {
                let mut out = String::from_str("Forbidden: ");
                out.append(detail.as_str());
                out
            },
            SdzApiError::Unauthorized => String::from_str("Unauthorized"),
            SdzApiError::NotFound => String::from_str("Not Found"),
            SdzApiError::Internal => String::from_str("Internal Server Error"),
        }
    }

    /// Whether the failure is on this side, and is logged as an error
    /// rather than as a warning.
    pub fn is_internal(&self) -> (r: bool)
        ensures
            r == (self@.status_code() == 500),
    {
        self.status_code() == 500
    }

    /// The body of the response that answers the error.
    pub fn to_error_body(&self) -> (r: SdzErrorBody)
        ensures
            r.code == self@.status_code(),
            r.error_code@ == self@.error_code(),
            r.message@ == self@.message(),
    {
        SdzErrorBody {
            code: self.status_code(),
            error_code: self.error_code(),
            message: self.message(),
        }
    }
}

/// An internal error tells the caller nothing of its cause: its message and
/// codes are constants.
pub proof fn lemma_internal_error_is_opaque(e: SdzApiErrorView)
    requires
        e.status_code() == 500,
    ensures
        e == SdzApiErrorView::Internal,
        e.message() == "Internal Server Error"@,
        e.error_code() == "SDZ-E-9001"@,
{
}

} // verus!
