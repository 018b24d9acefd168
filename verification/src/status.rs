//! HTTP statuses answered by the service, and how an I/O failure maps onto one.

use vstd::prelude::*;

verus! {

/// The HTTP statuses that the service answers with.
#[derive(Debug, Clone, Copy, PartialEq, Eq, Structural)]
pub enum HttpStatus {
    Success,
    BadRequest,
    Forbidden,
    NotFound,
    PreconditionRequired,
    InternalServerError,
}

/// The numeric code of a status.
pub open spec fn status_code(s: HttpStatus) -> u16 {
    match s {
        HttpStatus::Success => 200,
        HttpStatus::BadRequest => 400,
        HttpStatus::Forbidden => 403,
        HttpStatus::NotFound => 404,
        HttpStatus::PreconditionRequired => 428,
        HttpStatus::InternalServerError => 500,
    }
}

impl HttpStatus {
    /// The numeric HTTP code of this status.
    pub fn code(&self) -> (c: u16)
        ensures
            c == status_code(*self),
    {
        match self {
            HttpStatus::Success => 200,
            HttpStatus::BadRequest => 400,
            HttpStatus::Forbidden => 403,
            HttpStatus::NotFound => 404,
            HttpStatus::PreconditionRequired => 428,
            HttpStatus::InternalServerError => 500,
        }
    }
}

/// The kinds of I/O failure that the service tells apart.
#[derive(Debug, Clone, Copy, PartialEq, Eq, Structural)]
pub enum IoErrorKind {
    NotFound,
    PermissionDenied,
    Other,
}

/// The status that answers an I/O failure of the given kind.
pub open spec fn spec_status_from_io_error(kind: IoErrorKind) -> HttpStatus {
    match kind {
        IoErrorKind::NotFound => HttpStatus::NotFound,
        IoErrorKind::PermissionDenied => HttpStatus::Forbidden,
        IoErrorKind::Other => HttpStatus::InternalServerError,
    }
}

/// Maps an I/O failure to the status the client gets: a missing file is
/// `404`, a refused permission `403`, anything else `500`.
pub fn status_from_io_err(kind: IoErrorKind) -> (s: HttpStatus)
    ensures
        s == spec_status_from_io_error(kind),
{
    match kind {
        IoErrorKind::NotFound => HttpStatus::NotFound,
        IoErrorKind::PermissionDenied => HttpStatus::Forbidden,
        IoErrorKind::Other => HttpStatus::InternalServerError,
    }
}

} // verus!
