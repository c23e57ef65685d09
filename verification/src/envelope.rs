//! The bodies of the replies that carry an identifier or an error.

use vstd::prelude::*;
use vstd::std_specs::convert::FromSpecImpl;

verus! {

/// Status code for a request that matched no route.
pub const NOT_FOUND: u16 = 404;

/// Status code for every other failure.
pub const INTERNAL_SERVER_ERROR: u16 = 500;

/// The body of a reply that carries an identifier.
#[derive(Debug, Clone, Copy, PartialEq, Eq, Structural)]
pub struct Response {
    pub id: u128,
}

impl From<u128> for Response {
    fn from(id: u128) -> (response: Response) {
        Response { id }
    }
}

impl FromSpecImpl<u128> for Response {
    open spec fn obeys_from_spec() -> bool {
        true
    }

    open spec fn from_spec(id: u128) -> Response {
        Response { id }
    }
}

/// The body of a reply that reports a failure.
#[derive(Debug)]
pub struct ErrorResponse {
    /// The status code of the reply.
    pub code: u16,
    pub message: String,
}

impl ErrorResponse {
    /// A failure with the given status code and message.
    pub fn new(code: u16, message: &str) -> (response: ErrorResponse)
        ensures
            response.code == code,
            response.message@ == message@,
    {
        ErrorResponse { code, message: message.to_owned() }
    }
}

/// The failure reported for a request that was turned away: 404 where no
/// route matched, 500 for anything else.
pub fn rejection_response(not_found: bool) -> (response: ErrorResponse)
    ensures
        not_found ==> response.code == NOT_FOUND && response.message@ == "not founded"@,
        !not_found ==> response.code == INTERNAL_SERVER_ERROR && response.message@
            == "un-handle rejection."@,
{
    if not_found {
        ErrorResponse::new(NOT_FOUND, "not founded")
    } else {
        ErrorResponse::new(INTERNAL_SERVER_ERROR, "un-handle rejection.")
    }
}

} // verus!
