//! Response statuses and outcomes shared by the routes and request guards.
use vstd::prelude::*;

verus! {

/// The HTTP statuses the API answers with.
#[derive(PartialEq, Eq, Structural, Clone, Copy, Debug)]
pub enum Status {
    Okay,
    Created,
    NoContent,
    BadRequest,
    Unauthorized,
    ServiceUnavailable,
}

/// The numeric code of a status.
pub open spec fn status_code(s: Status) -> u16 {
    match s {
        Status::Okay => 200,
        Status::Created => 201,
        Status::NoContent => 204,
        Status::BadRequest => 400,
        Status::Unauthorized => 401,
        Status::ServiceUnavailable => 503,
    }
}

impl Status {
    /// The numeric code of this status.
    pub fn code(&self) -> (res: u16)
        ensures
            res == status_code(*self),
    {
        match self {
            Status::Okay => 200,
            Status::Created => 201,
            Status::NoContent => 204,
            Status::BadRequest => 400,
            Status::Unauthorized => 401,
            Status::ServiceUnavailable => 503,
        }
    }
}

/// The outcome of a request guard: it lets the request through with a
/// value, fails it with a status and an error, or hands it to the next route.
#[derive(Debug)]
pub enum Outcome<S, E> {
    Success(S),
    Failure(Status, E),
    Forward,
}

/// The body of a status answer: `{"status": ..., "detail": ...}`.
#[derive(Debug)]
pub struct StatusBody {
    pub status: String,
    pub detail: String,
}

/// An error body with the given detail.
pub fn error_body(detail: String) -> (res: StatusBody)
    ensures
        res.status@ == "error"@,
        res.detail == detail,
{
    StatusBody { status: String::from_str("error"), detail: detail }
}

} // verus!
