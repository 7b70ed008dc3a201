//! What a handler answers: a status code and a body text.

use vstd::prelude::*;

verus! {

/// Status of a request that was processed.
pub const STATUS_OK: u16 = 200;

/// Status of a request whose body did not hold a payload.
pub const STATUS_BAD_REQUEST: u16 = 400;

/// Status of a request whose file could not be created or written.
pub const STATUS_INTERNAL_SERVER_ERROR: u16 = 500;

/// Body sent for a request whose body did not hold a payload.
pub const REJECTED: &'static str = "Request body is not a payload";

/// An answer to a request.
#[derive(Debug, Clone, PartialEq, Eq)]
pub struct Response {
    pub status: u16,
    pub body: String,
}

/// A `Response` as a mathematical value.
pub struct ResponseView {
    pub status: int,
    pub body: Seq<char>,
}

impl View for Response {
    type V = ResponseView;

    open spec fn view(&self) -> ResponseView {
        ResponseView { status: self.status as int, body: self.body@ }
    }
}

impl Response {
    /// An answer with the given status and body text.
    pub fn new(status: u16, body: &str) -> (response: Response)
        ensures
            response@ == (ResponseView { status: status as int, body: body@ }),
    {
        Response { status, body: body.to_owned() }
    }
}

} // verus!
