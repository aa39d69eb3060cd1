//! The response envelope and its mapping to the wire.

use vstd::prelude::*;
use vstd::string::*;

use crate::json::{json_string, string_literal, JsonPayload};

verus! {

/// What goes out on the wire: a status code and a text body.
#[derive(Debug)]
pub struct Response {
    pub status: u16,
    pub body: String,
}

/// The outcome of one request. On the wire the variants carry no tag: a
/// body with `data` is a success, a body with `error` a failure.
#[derive(Debug)]
pub enum ApiResponse<T> {
    Success { data: T },
    Created { data: T },
    Error { error: String },
}

/// The body `{"data":<payload>}` around an already written payload.
pub open spec fn data_object_text(payload: Seq<char>) -> Seq<char> {
    "{\"data\":"@ + payload + "}"@
}

/// The body `{"error":<literal>}` around an already written string literal.
pub open spec fn error_object_text(literal: Seq<char>) -> Seq<char> {
    "{\"error\":"@ + literal + "}"@
}

/// Frames a written payload as the body of a success.
pub fn data_object(payload: &str) -> (text: String)
    ensures
        text@ == data_object_text(payload@),
{
    let mut text = "{\"data\":".to_owned();
    text.append(payload);
    text.append("}");
    text
}

/// Frames a written string literal as the body of a failure.
pub fn error_object(literal: &str) -> (text: String)
    ensures
        text@ == error_object_text(literal@),
{
    let mut text = "{\"error\":".to_owned();
    text.append(literal);
    text.append("}");
    text
}

impl<T> ApiResponse<T> {
    /// The status code that the variant is sent with.
    pub open spec fn spec_status(&self) -> u16 {
        match self {
            ApiResponse::Success { .. } => 200,
            ApiResponse::Created { .. } => 201,
            ApiResponse::Error { .. } => 500,
        }
    }

    /// The status code that the variant is sent with.
    #[verifier::when_used_as_spec(spec_status)]
    pub fn status(&self) -> (code: u16)
        ensures
            code == self.spec_status(),
    {
        match self {
            ApiResponse::Success { .. } => 200,
            ApiResponse::Created { .. } => 201,
            ApiResponse::Error { .. } => 500,
        }
    }
}

impl<T: JsonPayload> ApiResponse<T> {
    /// The body of the response: the payload under `data`, or the message
    /// under `error`.
    pub open spec fn json(&self) -> Seq<char> {
        match self {
            ApiResponse::Success { data } | ApiResponse::Created { data } => data_object_text(
                data.json(),
            ),
            ApiResponse::Error { error } => error_object_text(json_string(error@)),
        }
    }

    /// Writes the body of the response.
    pub fn to_json(&self) -> (text: String)
        ensures
            text@ == self.json(),
    {
        match self {
            ApiResponse::Success { data } | ApiResponse::Created { data } => {
                let payload = data.to_json();
                data_object(payload.as_str())
            },
            ApiResponse::Error { error } => {
                let literal = string_literal(error.as_str());
                error_object(literal.as_str())
            },
        }
    }

    /// Maps the envelope to the wire: the status of its variant and its body.
    pub fn into_response(self) -> (response: Response)
        ensures
            response.status == self.spec_status(),
            response.body@ == self.json(),
    {
        let status = self.status();
        let body = self.to_json();
        Response { status, body }
    }
}

} // verus!
