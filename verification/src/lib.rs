//! A small in-memory message board: an append-only message store shared by
//! request handlers, the response envelope they answer with, and the
//! shutdown state machine of the service around them.

pub mod json;
pub mod message;
pub mod response;
pub mod shutdown;

use vstd::prelude::*;

use crate::response::Response;

verus! {

/// Liveness probe: answers `200` with the text `ok`, whatever the store holds.
pub fn health() -> (response: Response)
    ensures
        response.status == 200,
        response.body@ == "ok"@,
{
    Response { status: 200, body: "ok".to_owned() }
}

/// Fallback for every request that no route matches: `404` with a fixed text.
pub fn handler_404() -> (response: Response)
    ensures
        response.status == 404,
        response.body@ == "nothing to see here"@,
{
    Response { status: 404, body: "nothing to see here".to_owned() }
}

} // verus!
